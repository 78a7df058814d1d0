//! How many T-cycles each instruction takes.
//!
//! `instruction_cycles` is the timing table of the processor, written out opcode by
//! opcode.  The lemmas below prove that a step of the processor spends exactly the
//! cycles that the table gives, whatever the bus does.
use crate::interrupts::{highest_priority, vector_of};
use crate::sm83::alu::{cond_spec, wrap16};
use crate::sm83::bus::Bus;
use crate::sm83::cpu::{advance, Sm83, Sm83View, State};
use vstd::prelude::*;

verus! {

/// T-cycles of the prefixed opcode `cb`: 8 on a register; on the byte at `HL`, 12 for
/// a bit test and 16 for the others, which write back.
pub open spec fn prefixed_cycles(cb: u8) -> int {
    if cb % 8 != 6 {
        8
    } else if 0x40 <= cb <= 0x7f {
        12
    } else {
        16
    }
}

/// T-cycles of the instruction with opcode `op`.  `cb` is the byte after a `CB`
/// prefix; `taken` says whether a conditional jump, call or return is taken.  The
/// eleven undefined opcodes take four cycles, as `NOP` does.
pub open spec fn instruction_cycles(op: u8, cb: u8, taken: bool) -> int {
    match op {
        // 00-3F
        0x00 | 0x10 => 4,
        0x08 => 20,
        0x18 => 12,
        0x20 | 0x28 | 0x30 | 0x38 => if taken { 12 } else { 8 },
        0x01 | 0x11 | 0x21 | 0x31 => 12,
        0x09 | 0x19 | 0x29 | 0x39 => 8,
        0x02 | 0x12 | 0x22 | 0x32 | 0x0a | 0x1a | 0x2a | 0x3a => 8,
        0x03 | 0x13 | 0x23 | 0x33 | 0x0b | 0x1b | 0x2b | 0x3b => 8,
        0x34 | 0x35 | 0x36 => 12,
        0x04 | 0x0c | 0x14 | 0x1c | 0x24 | 0x2c | 0x3c => 4,
        0x05 | 0x0d | 0x15 | 0x1d | 0x25 | 0x2d | 0x3d => 4,
        0x06 | 0x0e | 0x16 | 0x1e | 0x26 | 0x2e | 0x3e => 8,
        0x07 | 0x0f | 0x17 | 0x1f | 0x27 | 0x2f | 0x37 | 0x3f => 4,
        // 40-7F: copies, and HALT
        0x76 => 4,
        0x46 | 0x4e | 0x56 | 0x5e | 0x66 | 0x6e | 0x7e => 8,
        0x70 | 0x71 | 0x72 | 0x73 | 0x74 | 0x75 | 0x77 => 8,
        // 80-BF: accumulator operations
        0x86 | 0x8e | 0x96 | 0x9e | 0xa6 | 0xae | 0xb6 | 0xbe => 8,
        // C0-FF
        0xc0 | 0xc8 | 0xd0 | 0xd8 => if taken { 20 } else { 8 },
        0xc1 | 0xd1 | 0xe1 | 0xf1 => 12,
        0xc2 | 0xca | 0xd2 | 0xda => if taken { 16 } else { 12 },
        0xc3 => 16,
        0xc4 | 0xcc | 0xd4 | 0xdc => if taken { 24 } else { 12 },
        0xc5 | 0xd5 | 0xe5 | 0xf5 => 16,
        0xc6 | 0xce | 0xd6 | 0xde | 0xe6 | 0xee | 0xf6 | 0xfe => 8,
        0xc7 | 0xcf | 0xd7 | 0xdf | 0xe7 | 0xef | 0xf7 | 0xff => 16,
        0xc9 | 0xd9 => 16,
        0xcb => prefixed_cycles(cb),
        0xcd => 24,
        0xe0 | 0xf0 => 12,
        0xe2 | 0xf2 => 8,
        0xe8 => 16,
        0xe9 => 4,
        0xea | 0xfa => 16,
        0xf3 | 0xfb => 4,
        0xf8 => 12,
        0xf9 => 8,
        0xd3 | 0xdb | 0xdd | 0xe3 | 0xe4 | 0xeb | 0xec | 0xed | 0xf4 | 0xfc | 0xfd => 4,
        // what is left of 40-BF works on registers only
        _ => 4,
    }
}

/// Whether the condition that opcode `op` encodes holds under flags `f`.
pub open spec fn branch_taken(op: u8, f: u8) -> bool {
    cond_spec(((op / 8) % 4) as u8, f)
}

/// Exactly `n` T-cycles lie between `s0` and `s1`.
pub open spec fn spent<V>(s0: Sm83View<V>, s1: Sm83View<V>, n: int) -> bool {
    s1.cycles == advance(s0.cycles, n)
}

/// Between `s0` and `s1` the registers and the three control latches are unchanged
/// and `n` T-cycles have passed.
pub open spec fn only_time<V>(s0: Sm83View<V>, s1: Sm83View<V>, n: int) -> bool {
    &&& s1.regs == s0.regs
    &&& s1.ime == s0.ime
    &&& s1.ime_pending == s0.ime_pending
    &&& s1.halted == s0.halted
    &&& spent(s0, s1, n)
}

/// Advancing twice is advancing by the sum.
pub broadcast proof fn lemma_advance_twice(c: u64, n: int, m: int)
    ensures
        #[trigger] advance(advance(c, n), m) == advance(c, n + m),
{
    reveal(advance);
}

/// Advancing by nothing changes nothing.
pub proof fn lemma_advance_zero(c: u64)
    ensures
        advance(c, 0) == c,
{
    reveal(advance);
}

/// T-cycles change nothing in the processor but the divider, the interrupt
/// requests and the cycle count.
pub broadcast proof fn lemma_ticks<B: Bus>(s: Sm83View<B::V>, n: nat)
    ensures
        only_time(s, #[trigger] Sm83::<B>::ticks_spec(s, n), n as int),
    decreases n,
{
    reveal(Sm83::tick_spec);
    if n == 0 {
        lemma_advance_zero(s.cycles);
    } else {
        lemma_ticks::<B>(s, (n - 1) as nat);
        lemma_advance_twice(s.cycles, n - 1, 1);
    }
}

/// A load takes four T-cycles and changes no register.
pub broadcast proof fn lemma_load<B: Bus>(s: Sm83View<B::V>, a: u16)
    ensures
        only_time(s, (#[trigger] Sm83::<B>::load_spec(s, a)).0, 4),
{
    reveal(Sm83::load_spec);
    lemma_ticks::<B>(s, 4);
}

/// A store takes four T-cycles and changes no register.
pub broadcast proof fn lemma_store<B: Bus>(s: Sm83View<B::V>, a: u16, d: u8)
    ensures
        only_time(s, #[trigger] Sm83::<B>::store_spec(s, a, d), 4),
{
    reveal(Sm83::store_spec);
    lemma_ticks::<B>(s, 4);
}

/// The byte that follows the opcode in `ir`: the one at `PC`.
pub open spec fn second_byte<B: Bus>(s: Sm83View<B::V>) -> u8 {
    Sm83::<B>::fetch8_spec(s).1
}

/// The opcode with fields `x`, `y`, `z`.
pub open spec fn opcode(x: u8, y: u8, z: u8) -> u8 {
    (x * 64 + y * 8 + z) as u8
}

/// T-cycles that the execution of opcode `op` takes in state `s`, without the fetch
/// of the opcode itself.
pub open spec fn execution_cycles<B: Bus>(s: Sm83View<B::V>, op: u8) -> int {
    instruction_cycles(op, second_byte::<B>(s), branch_taken(op, s.regs.f)) - 4
}

/// The opcodes `00`–`3F` take the cycles of the table.
pub proof fn lemma_block0_timing<B: Bus>(s: Sm83View<B::V>, y: u8, z: u8)
    requires
        y < 8,
        z < 8,
    ensures
        spent(s, Sm83::<B>::block0_spec(s, y, z), execution_cycles::<B>(s, opcode(0, y, z))),
{
    broadcast use {lemma_advance_twice, lemma_ticks, lemma_load, lemma_store};

    lemma_advance_zero(s.cycles);
}

/// The copies `40`–`7F` take the cycles of the table.
pub proof fn lemma_block1_timing<B: Bus>(s: Sm83View<B::V>, y: u8, z: u8)
    requires
        y < 8,
        z < 8,
        !(y == 6 && z == 6),
    ensures
        spent(s, Sm83::<B>::block1_spec(s, y, z), execution_cycles::<B>(s, opcode(1, y, z))),
{
    broadcast use {lemma_advance_twice, lemma_ticks, lemma_load, lemma_store};

    lemma_advance_zero(s.cycles);
}

/// The accumulator operations `80`–`BF` take the cycles of the table.
pub proof fn lemma_block2_timing<B: Bus>(s: Sm83View<B::V>, y: u8, z: u8)
    requires
        y < 8,
        z < 8,
    ensures
        spent(s, Sm83::<B>::block2_spec(s, y, z), execution_cycles::<B>(s, opcode(2, y, z))),
{
    broadcast use {lemma_advance_twice, lemma_ticks, lemma_load, lemma_store};

    lemma_advance_zero(s.cycles);
}

/// The prefixed opcodes take the cycles of the table.
pub proof fn lemma_prefixed_timing<B: Bus>(s: Sm83View<B::V>)
    ensures
        spent(s, Sm83::<B>::prefixed_spec(s), prefixed_cycles(second_byte::<B>(s)) - 4),
{
    broadcast use {lemma_advance_twice, lemma_ticks, lemma_load, lemma_store};

}

/// The opcodes `C0`–`FF` with `z = 0` take the cycles of the table.
pub proof fn lemma_returns3_timing<B: Bus>(s: Sm83View<B::V>, y: u8)
    requires
        y < 8,
    ensures
        spent(s, Sm83::<B>::returns3_spec(s, y), execution_cycles::<B>(s, opcode(3, y, 0))),
{
    broadcast use {lemma_advance_twice, lemma_ticks, lemma_load, lemma_store};

}

/// The opcodes `C0`–`FF` with `z = 1` take the cycles of the table.
pub proof fn lemma_pops3_timing<B: Bus>(s: Sm83View<B::V>, y: u8)
    requires
        y < 8,
    ensures
        spent(s, Sm83::<B>::pops3_spec(s, y), execution_cycles::<B>(s, opcode(3, y, 1))),
{
    broadcast use {lemma_advance_twice, lemma_ticks, lemma_load, lemma_store};

    lemma_advance_zero(s.cycles);
}

/// The opcodes `C0`–`FF` with `z = 2` take the cycles of the table.
pub proof fn lemma_jumps3_timing<B: Bus>(s: Sm83View<B::V>, y: u8)
    requires
        y < 8,
    ensures
        spent(s, Sm83::<B>::jumps3_spec(s, y), execution_cycles::<B>(s, opcode(3, y, 2))),
{
    broadcast use {lemma_advance_twice, lemma_ticks, lemma_load, lemma_store};

}

/// The opcodes `C0`–`FF` with `z = 3` take the cycles of the table.
pub proof fn lemma_misc3_timing<B: Bus>(s: Sm83View<B::V>, y: u8)
    requires
        y < 8,
    ensures
        spent(s, Sm83::<B>::misc3_spec(s, y), execution_cycles::<B>(s, opcode(3, y, 3))),
{
    broadcast use {lemma_advance_twice, lemma_ticks, lemma_load, lemma_store};

    lemma_advance_zero(s.cycles);
    if y == 1 {
        lemma_prefixed_timing::<B>(s);
    }
}

/// The opcodes `C0`–`FF` with `z` in 4..=5 take the cycles of the table.
pub proof fn lemma_calls3_timing<B: Bus>(s: Sm83View<B::V>, y: u8, z: u8)
    requires
        y < 8,
        4 <= z <= 5,
    ensures
        spent(s, Sm83::<B>::calls3_spec(s, y, z), execution_cycles::<B>(s, opcode(3, y, z))),
{
    broadcast use {lemma_advance_twice, lemma_ticks, lemma_load, lemma_store};

    lemma_advance_zero(s.cycles);
}

/// The opcodes `C0`–`FF` with `z` in 6..=7 take the cycles of the table.
pub proof fn lemma_tail3_timing<B: Bus>(s: Sm83View<B::V>, y: u8)
    requires
        y < 8,
    ensures
        spent(s, Sm83::<B>::immediate3_spec(s, y), execution_cycles::<B>(s, opcode(3, y, 6))),
        spent(
            s,
            Sm83::<B>::call_spec(s, (y * 8) as u16),
            execution_cycles::<B>(s, opcode(3, y, 7)),
        ),
{
    broadcast use {lemma_advance_twice, lemma_ticks, lemma_load, lemma_store};

}

/// The opcodes `C0`–`FF` take the cycles of the table.
pub proof fn lemma_block3_timing<B: Bus>(s: Sm83View<B::V>, y: u8, z: u8)
    requires
        y < 8,
        z < 8,
    ensures
        spent(s, Sm83::<B>::block3_spec(s, y, z), execution_cycles::<B>(s, opcode(3, y, z))),
{
    if z == 0 {
        lemma_returns3_timing::<B>(s, y);
    } else if z == 1 {
        lemma_pops3_timing::<B>(s, y);
    } else if z == 2 {
        lemma_jumps3_timing::<B>(s, y);
    } else if z == 3 {
        lemma_misc3_timing::<B>(s, y);
    } else if z <= 5 {
        lemma_calls3_timing::<B>(s, y, z);
    } else {
        lemma_tail3_timing::<B>(s, y);
    }
}

/// A push takes eight T-cycles.
pub proof fn lemma_push_timing<B: Bus>(s: Sm83View<B::V>, v: u16)
    ensures
        spent(s, Sm83::<B>::push_spec(s, v), 8),
{
    broadcast use {lemma_advance_twice, lemma_store};

}

/// The fetch of an opcode takes four T-cycles.
pub proof fn lemma_fetch_timing<B: Bus>(s: Sm83View<B::V>)
    ensures
        spent(s, Sm83::<B>::fetch8_spec(s).0, 4),
        Sm83::<B>::fetch8_spec(s).0.ime == s.ime,
{
    broadcast use {lemma_ticks, lemma_load};

}

/// Two idle machine cycles from a state with the cycle count of `s`.
proof fn lemma_dispatch_idle<B: Bus>(s: Sm83View<B::V>, s1: Sm83View<B::V>)
    requires
        s1.cycles == s.cycles,
    ensures
        spent(s, Sm83::<B>::idle_spec(Sm83::<B>::idle_spec(s1)), 8),
{
    let s1a = Sm83::<B>::idle_spec(s1);
    let s2 = Sm83::<B>::idle_spec(s1a);
    lemma_ticks::<B>(s1, 4);
    lemma_ticks::<B>(s1a, 4);
    lemma_advance_twice(s.cycles, 4, 4);
}

/// The push and the fetch that end a dispatch.
proof fn lemma_dispatch_push<B: Bus>(s: Sm83View<B::V>, s2: Sm83View<B::V>, a: u16)
    requires
        spent(s, s2, 8),
    ensures
        ({
            let s3 = Sm83::<B>::push_spec(s2, s2.regs.pc);
            let s4 = Sm83::<B>::with_regs(s3, State { pc: a, ..s3.regs });
            spent(s, Sm83::<B>::fetch8_spec(s4).0, 20)
        }),
{
    let s3 = Sm83::<B>::push_spec(s2, s2.regs.pc);
    lemma_push_timing::<B>(s2, s2.regs.pc);
    let s4 = Sm83::<B>::with_regs(s3, State { pc: a, ..s3.regs });
    lemma_fetch_timing::<B>(s4);
    lemma_advance_twice(s.cycles, 8, 8);
    lemma_advance_twice(s.cycles, 16, 4);
}

/// The dispatch of an interrupt takes twenty T-cycles.
pub proof fn lemma_dispatch_timing<B: Bus>(s: Sm83View<B::V>)
    ensures
        spent(s, Sm83::<B>::dispatch_spec(s), 20),
{
    let n = highest_priority(s.ints.active());
    let s1 = Sm83View {
        regs: State { pc: wrap16(s.regs.pc - 1), ..s.regs },
        ints: s.ints.clear_spec(n),
        ime: false,
        ..s
    };
    lemma_dispatch_idle::<B>(s, s1);
    let s2 = Sm83::<B>::idle_spec(Sm83::<B>::idle_spec(s1));
    lemma_dispatch_push::<B>(s, s2, vector_of(n));
}

/// What follows an instruction, the fetch and a dispatch if one is due, takes four
/// T-cycles, or twenty-four.
pub proof fn lemma_prefetch_timing<B: Bus>(s: Sm83View<B::V>)
    ensures
        ({
            let (s1, next) = Sm83::<B>::fetch8_spec(s);
            let s2 = Sm83::<B>::with_regs(s1, State { ir: next, ..s1.regs });
            spent(
                s,
                Sm83::<B>::prefetch_spec(s),
                if Sm83::<B>::dispatches(s2) {
                    24int
                } else {
                    4
                },
            )
        }),
{
    let (s1, next) = Sm83::<B>::fetch8_spec(s);
    let s2 = Sm83::<B>::with_regs(s1, State { ir: next, ..s1.regs });
    lemma_fetch_timing::<B>(s);
    lemma_dispatch_timing::<B>(s2);
    lemma_advance_twice(s.cycles, 4, 20);
}

/// The execution of an opcode other than `HALT` takes the cycles of the table, less
/// the four of its own fetch.
pub proof fn lemma_execute_timing<B: Bus>(s: Sm83View<B::V>, op: u8)
    requires
        op != 0x76,
    ensures
        spent(s, Sm83::<B>::execute_spec(s, op), execution_cycles::<B>(s, op)),
{
    let x = op / 64;
    let y = ((op / 8) % 8) as u8;
    let z = op % 8;
    assert(op == opcode(x, y, z));
    if x == 0 {
        lemma_block0_timing::<B>(s, y, z);
    } else if x == 1 {
        lemma_block1_timing::<B>(s, y, z);
    } else if x == 2 {
        lemma_block2_timing::<B>(s, y, z);
    } else {
        lemma_block3_timing::<B>(s, y, z);
    }
}

/// `HALT` takes four T-cycles.
pub proof fn lemma_halt_timing<B: Bus>(s: Sm83View<B::V>)
    ensures
        spent(s, Sm83::<B>::halt_spec(s), 4),
{
    broadcast use {lemma_ticks, lemma_load};

}

/// The memory cycles do not look at the two interrupt-enable latches: the byte
/// fetched at `PC` is the same before and after a pending `EI` takes effect.
proof fn lemma_enabled_is_unseen<B: Bus>(s: Sm83View<B::V>)
    ensures
        Sm83::<B>::fetch8_spec(Sm83::<B>::enabled_spec(s)).1 == Sm83::<B>::fetch8_spec(s).1,
{
    reveal(Sm83::load_spec);
    let s0 = Sm83::<B>::enabled_spec(s);
    lemma_ticks_ignore_latches::<B>(s, s0, 4);
}

/// T-cycles act alike on two processors that differ in the interrupt-enable latches only.
proof fn lemma_ticks_ignore_latches<B: Bus>(s: Sm83View<B::V>, t: Sm83View<B::V>, n: nat)
    requires
        t == (Sm83View { ime: t.ime, ime_pending: t.ime_pending, ..s }),
    ensures
        Sm83::<B>::ticks_spec(t, n) == (Sm83View {
            ime: t.ime,
            ime_pending: t.ime_pending,
            ..Sm83::<B>::ticks_spec(s, n)
        }),
    decreases n,
{
    reveal(Sm83::tick_spec);
    if n > 0 {
        lemma_ticks_ignore_latches::<B>(s, t, (n - 1) as nat);
    }
}

/// Whether the step that starts in `s`, awake, ends with the dispatch of an interrupt.
pub open spec fn interrupted<B: Bus>(s: Sm83View<B::V>) -> bool {
    let s0 = Sm83::<B>::enabled_spec(s);
    let op = s0.regs.ir;
    let s1 = Sm83::<B>::execute_spec(s0, op);
    let (s2, next) = Sm83::<B>::fetch8_spec(s1);
    op != 0x76 && Sm83::<B>::dispatches(Sm83::<B>::with_regs(s2, State { ir: next, ..s2.regs }))
}

/// T-cycles of the step that starts in `s`, awake: those of the instruction in
/// `ir`, and twenty more if an interrupt is dispatched after it.
pub open spec fn step_cycles<B: Bus>(s: Sm83View<B::V>) -> int {
    let op = s.regs.ir;
    instruction_cycles(op, second_byte::<B>(s), branch_taken(op, s.regs.f)) + if interrupted::<B>(
        s,
    ) {
        20int
    } else {
        0
    }
}

/// For every instruction and every operand, a step of the processor spends exactly
/// the T-cycles that the timing table gives for it, and twenty more when it ends
/// with the dispatch of an interrupt.
pub proof fn lemma_step_timing<B: Bus>(s: Sm83View<B::V>)
    requires
        !s.halted,
    ensures
        spent(s, Sm83::<B>::step_spec(s), step_cycles::<B>(s)),
{
    let s0 = Sm83::<B>::enabled_spec(s);
    let op = s0.regs.ir;
    assert(second_byte::<B>(s0) == second_byte::<B>(s)) by {
        reveal(Sm83::load_spec);
        reveal(Sm83::tick_spec);
        lemma_enabled_is_unseen::<B>(s);
    }
    if op == 0x76 {
        lemma_halt_timing::<B>(s0);
    } else {
        lemma_execute_timing::<B>(s0, op);
        let s1 = Sm83::<B>::execute_spec(s0, op);
        lemma_prefetch_timing::<B>(s1);
        let n = execution_cycles::<B>(s0, op);
        lemma_advance_twice(s.cycles, n, 4);
        lemma_advance_twice(s.cycles, n, 24);
    }
}

/// A step while asleep spends one T-cycle; the step that wakes spends four more for
/// the fetch, and twenty more when an interrupt is dispatched.
pub proof fn lemma_sleep_timing<B: Bus>(s: Sm83View<B::V>)
    requires
        s.halted,
    ensures
        ({
            let s1 = Sm83::<B>::tick_spec(s);
            let (s2, next) = Sm83::<B>::fetch8_spec(Sm83View { halted: false, ..s1 });
            let s3 = Sm83::<B>::with_regs(s2, State { ir: next, ..s2.regs });
            spent(
                s,
                Sm83::<B>::step_spec(s),
                if s1.ints.active() == 0 {
                    1int
                } else if Sm83::<B>::dispatches(s3) {
                    25
                } else {
                    5
                },
            )
        }),
{
    reveal(Sm83::tick_spec);
    let s1 = Sm83::<B>::tick_spec(s);
    let w = Sm83View { halted: false, ..s1 };
    lemma_prefetch_timing::<B>(w);
    lemma_advance_twice(s.cycles, 1, 4);
    lemma_advance_twice(s.cycles, 1, 24);
}

/// The halt bug: `HALT` with the master enable clear and a request both raised and
/// enabled does not halt, and leaves `PC` on the byte that it has just read into
/// `ir`, so that this byte is executed twice.
pub proof fn lemma_halt_bug<B: Bus>(s: Sm83View<B::V>)
    requires
        !s.halted,
        !s.ime_pending,
        s.regs.ir == 0x76,
        Sm83::<B>::halt_bug(s),
    ensures
        ({
            let t = Sm83::<B>::step_spec(s);
            &&& !t.halted
            &&& t.regs.pc == s.regs.pc
            &&& t.regs.ir == Sm83::<B>::load_spec(s, s.regs.pc).1
            &&& t.regs == State { ir: t.regs.ir, ..s.regs }
        }),
{
    lemma_load::<B>(s, s.regs.pc);
}

/// `EI` takes effect after the instruction that follows it: the step that executes
/// `EI` dispatches nothing and leaves the master enable clear, with the enabling
/// pending.
pub proof fn lemma_ei_is_delayed<B: Bus>(s: Sm83View<B::V>)
    requires
        !s.halted,
        !s.ime,
        !s.ime_pending,
        s.regs.ir == 0xfb,
    ensures
        ({
            let t = Sm83::<B>::step_spec(s);
            &&& !t.ime
            &&& t.ime_pending
            &&& t.regs.pc == wrap16(s.regs.pc + 1)
            &&& t.regs.sp == s.regs.sp
        }),
{
    let s1 = Sm83View { ime_pending: true, ..s };
    assert(Sm83::<B>::execute_spec(s, 0xfb) == s1);
    lemma_load::<B>(s1, s1.regs.pc);
}

} // verus!
