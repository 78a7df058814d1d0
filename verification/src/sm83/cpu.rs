//! The processor: registers, memory cycles, instruction decode and execution,
//! interrupt dispatch and the halted state.
//!
//! The register `ir` always holds the opcode that executes next: each step executes
//! it and then fetches its successor, so that a step spends exactly the T-cycles of
//! the instruction it executes.
use crate::bits::{lemma_and_le_u8, lemma_high_nibble};
use crate::interrupts::{first_request, highest_priority, vector, vector_of, InterruptManager};
use crate::sm83::alu::{
    add16, add16_flags, add8, add_signed, alu_op, alu_spec, cond_check, cond_spec, daa, daa_spec, dec_flags,
    flag, flags, flags_after_add16, flags_after_dec, flags_after_inc, flags_after_sp_offset,
    flags_ok, get_flag, inc_flags, pack_flags, shift, shift_spec, signed, sp_offset_flags, sub16, sub8, wrap16,
    wrap8, FC, FZ,
};
use crate::sm83::bus::Bus;
use vstd::prelude::*;

verus! {

/// The programmer-visible registers, with the prefetched opcode `ir`.
#[derive(Debug, Clone, Copy, PartialEq, Eq, Structural)]
pub struct State {
    pub a: u8,
    pub b: u8,
    pub c: u8,
    pub d: u8,
    pub e: u8,
    pub f: u8,
    pub h: u8,
    pub l: u8,
    pub pc: u16,
    pub sp: u16,
    pub ir: u8,
}

/// The cycle counter `c` after `n` more T-cycles: it wraps at 2^64.
#[verifier::opaque]
pub open spec fn advance(c: u64, n: int) -> u64 {
    ((c + n) % 0x1_0000_0000_0000_0000) as u64
}

/// The sixteen-bit value with high byte `hi` and low byte `lo`.
#[verifier::opaque]
pub open spec fn word(hi: u8, lo: u8) -> u16 {
    (hi * 256 + lo) as u16
}

/// High byte of `w`.
#[verifier::opaque]
pub open spec fn high(w: u16) -> u8 {
    (w / 256) as u8
}

/// Low byte of `w`.
#[verifier::opaque]
pub open spec fn low(w: u16) -> u8 {
    (w % 256) as u8
}

/// A word is made of its two bytes, and the bytes of a word made of two are those two.
pub proof fn lemma_word_bytes(w: u16, hi: u8, lo: u8)
    ensures
        word(high(w), low(w)) == w,
        high(word(hi, lo)) == hi,
        low(word(hi, lo)) == lo,
{
    reveal(word);
    reveal(high);
    reveal(low);
}

/// Joins two bytes.
pub fn make_word(hi: u8, lo: u8) -> (w: u16)
    ensures
        w == word(hi, lo),
{
    proof {
        reveal(word);
    }
    hi as u16 * 256 + lo as u16
}

/// High byte of `w`.
pub fn high_byte(w: u16) -> (b: u8)
    ensures
        b == high(w),
{
    proof {
        reveal(high);
    }
    (w / 256) as u8
}

/// Low byte of `w`.
pub fn low_byte(w: u16) -> (b: u8)
    ensures
        b == low(w),
{
    proof {
        reveal(low);
    }
    (w % 256) as u8
}

impl State {
    /// Register number `r` of the operand encoding `B C D E H L - A`.
    pub open spec fn r8(self, r: u8) -> u8 {
        if r == 0 {
            self.b
        } else if r == 1 {
            self.c
        } else if r == 2 {
            self.d
        } else if r == 3 {
            self.e
        } else if r == 4 {
            self.h
        } else if r == 5 {
            self.l
        } else {
            self.a
        }
    }

    /// The registers with register number `r` set to `v`.
    pub open spec fn with_r8(self, r: u8, v: u8) -> State {
        if r == 0 {
            State { b: v, ..self }
        } else if r == 1 {
            State { c: v, ..self }
        } else if r == 2 {
            State { d: v, ..self }
        } else if r == 3 {
            State { e: v, ..self }
        } else if r == 4 {
            State { h: v, ..self }
        } else if r == 5 {
            State { l: v, ..self }
        } else {
            State { a: v, ..self }
        }
    }

    /// The pair `HL`.
    pub open spec fn hl(self) -> u16 {
        word(self.h, self.l)
    }

    /// Register pair number `p` of the encoding `BC DE HL SP`.
    pub open spec fn r16(self, p: u8) -> u16 {
        if p == 0 {
            word(self.b, self.c)
        } else if p == 1 {
            word(self.d, self.e)
        } else if p == 2 {
            word(self.h, self.l)
        } else {
            self.sp
        }
    }

    /// The registers with pair number `p` of `BC DE HL SP` set to `v`.
    pub open spec fn with_r16(self, p: u8, v: u16) -> State {
        if p == 0 {
            State { b: high(v), c: low(v), ..self }
        } else if p == 1 {
            State { d: high(v), e: low(v), ..self }
        } else if p == 2 {
            State { h: high(v), l: low(v), ..self }
        } else {
            State { sp: v, ..self }
        }
    }

    /// Register pair number `p` of the stack encoding `BC DE HL AF`.
    pub open spec fn r16stk(self, p: u8) -> u16 {
        if p == 3 {
            word(self.a, self.f)
        } else {
            self.r16(p)
        }
    }

    /// The registers with pair number `p` of `BC DE HL AF` set to `v`; the low nibble
    /// of `F` stays empty.
    pub open spec fn with_r16stk(self, p: u8, v: u16) -> State {
        if p == 3 {
            State { a: high(v), f: low(v) & 0xf0, ..self }
        } else {
            self.with_r16(p, v)
        }
    }

    /// Address given by pair number `p` of the memory encoding `BC DE HL+ HL-`, and
    /// the registers after the increment or decrement that comes with it.
    pub open spec fn r16mem(self, p: u8) -> (State, u16) {
        if p == 0 {
            (self, word(self.b, self.c))
        } else if p == 1 {
            (self, word(self.d, self.e))
        } else if p == 2 {
            (self.with_r16(2, wrap16(self.hl() + 1)), self.hl())
        } else {
            (self.with_r16(2, wrap16(self.hl() - 1)), self.hl())
        }
    }

    /// All registers zero.
    pub fn zeroed() -> (r: State)
        ensures
            r == (State { a: 0, b: 0, c: 0, d: 0, e: 0, f: 0, h: 0, l: 0, pc: 0, sp: 0, ir: 0 }),
    {
        State { a: 0, b: 0, c: 0, d: 0, e: 0, f: 0, h: 0, l: 0, pc: 0, sp: 0, ir: 0 }
    }

    /// Reads register number `r`.
    pub fn get_r8(&self, r: u8) -> (v: u8)
        ensures
            v == self.r8(r),
    {
        if r == 0 {
            self.b
        } else if r == 1 {
            self.c
        } else if r == 2 {
            self.d
        } else if r == 3 {
            self.e
        } else if r == 4 {
            self.h
        } else if r == 5 {
            self.l
        } else {
            self.a
        }
    }

    /// Writes register number `r`.
    pub fn set_r8(&mut self, r: u8, v: u8)
        ensures
            *final(self) == old(self).with_r8(r, v),
    {
        if r == 0 {
            self.b = v;
        } else if r == 1 {
            self.c = v;
        } else if r == 2 {
            self.d = v;
        } else if r == 3 {
            self.e = v;
        } else if r == 4 {
            self.h = v;
        } else if r == 5 {
            self.l = v;
        } else {
            self.a = v;
        }
    }

    /// Reads pair number `p` of `BC DE HL SP`.
    pub fn get_r16(&self, p: u8) -> (v: u16)
        ensures
            v == self.r16(p),
    {
        if p == 0 {
            make_word(self.b, self.c)
        } else if p == 1 {
            make_word(self.d, self.e)
        } else if p == 2 {
            make_word(self.h, self.l)
        } else {
            self.sp
        }
    }

    /// Writes pair number `p` of `BC DE HL SP`.
    pub fn set_r16(&mut self, p: u8, v: u16)
        ensures
            *final(self) == old(self).with_r16(p, v),
    {
        if p == 0 {
            self.b = high_byte(v);
            self.c = low_byte(v);
        } else if p == 1 {
            self.d = high_byte(v);
            self.e = low_byte(v);
        } else if p == 2 {
            self.h = high_byte(v);
            self.l = low_byte(v);
        } else {
            self.sp = v;
        }
    }

    /// Reads pair number `p` of `BC DE HL AF`.
    pub fn get_r16stk(&self, p: u8) -> (v: u16)
        ensures
            v == self.r16stk(p),
    {
        if p == 3 {
            make_word(self.a, self.f)
        } else {
            self.get_r16(p)
        }
    }

    /// Writes pair number `p` of `BC DE HL AF`.
    pub fn set_r16stk(&mut self, p: u8, v: u16)
        ensures
            *final(self) == old(self).with_r16stk(p, v),
            p != 3 ==> final(self).f == old(self).f,
            p == 3 ==> flags_ok(final(self).f),
    {
        if p == 3 {
            self.a = high_byte(v);
            proof {
                lemma_high_nibble(low(v));
            }
            self.f = low_byte(v) & 0xf0;
        } else {
            self.set_r16(p, v);
        }
    }

    /// Takes the address for pair number `p` of `BC DE HL+ HL-`.
    pub fn take_r16mem(&mut self, p: u8) -> (a: u16)
        ensures
            (*final(self), a) == old(self).r16mem(p),
            final(self).f == old(self).f,
    {
        if p == 0 {
            make_word(self.b, self.c)
        } else if p == 1 {
            make_word(self.d, self.e)
        } else if p == 2 {
            let hl = make_word(self.h, self.l);
            self.set_r16(2, add16(hl, 1));
            hl
        } else {
            let hl = make_word(self.h, self.l);
            self.set_r16(2, sub16(hl, 1));
            hl
        }
    }
}

/// The processor, wired to its bus.
pub struct Sm83<B: Bus> {
    pub bus: B,
    pub regs: State,
    /// The internal divider; its high byte is the `DIV` register.
    pub div: u16,
    pub ints: InterruptManager,
    /// Master interrupt enable.
    pub ime: bool,
    /// Set by `EI`: the master enable rises before the instruction after next.
    pub ime_pending: bool,
    pub halted: bool,
    /// T-cycles elapsed since power-on, modulo 2^64.
    pub cycles: u64,
}

/// The processor as a mathematical value: the same fields, the bus by its view.
pub struct Sm83View<V> {
    pub bus: V,
    pub regs: State,
    pub div: u16,
    pub ints: InterruptManager,
    pub ime: bool,
    pub ime_pending: bool,
    pub halted: bool,
    pub cycles: u64,
}

impl<B: Bus> View for Sm83<B> {
    type V = Sm83View<B::V>;

    open spec fn view(&self) -> Sm83View<B::V> {
        Sm83View {
            bus: self.bus@,
            regs: self.regs,
            div: self.div,
            ints: self.ints,
            ime: self.ime,
            ime_pending: self.ime_pending,
            halted: self.halted,
            cycles: self.cycles,
        }
    }
}

impl<B: Bus> Sm83<B> {
    /// The bus is in a state it accepts, the interrupt masks have five bits, and the
    /// low nibble of `F` is empty.
    pub open spec fn wf(self) -> bool {
        &&& B::inv(self.bus@)
        &&& self.ints.wf()
        &&& flags_ok(self.regs.f)
    }

    // ---------------------------------------------------------------- memory cycles
    /// One T-cycle: the divider advances, then everything behind the bus does.
    #[verifier::opaque]
    pub open spec fn tick_spec(s: Sm83View<B::V>) -> Sm83View<B::V> {
        let div = wrap16(s.div + 1);
        let (bus, ints) = B::external_step_spec(s.bus, div, s.ints);
        Sm83View { bus, ints, div, cycles: advance(s.cycles, 1), ..s }
    }

    /// `n` T-cycles.
    pub open spec fn ticks_spec(s: Sm83View<B::V>, n: nat) -> Sm83View<B::V>
        decreases n,
    {
        if n == 0 {
            s
        } else {
            Self::tick_spec(Self::ticks_spec(s, (n - 1) as nat))
        }
    }

    /// One machine cycle without memory traffic.
    pub open spec fn idle_spec(s: Sm83View<B::V>) -> Sm83View<B::V> {
        Self::ticks_spec(s, 4)
    }

    /// A load: four T-cycles pass, then the byte is observed.  The divider and the
    /// two interrupt registers live in the processor; every other address is the bus's.
    #[verifier::opaque]
    pub open spec fn load_spec(s: Sm83View<B::V>, a: u16) -> (Sm83View<B::V>, u8) {
        let s1 = Self::idle_spec(s);
        if a == 0xff04 {
            (s1, high(s1.div))
        } else if a == 0xff0f {
            (s1, 0xe0 | s1.ints.pending)
        } else if a == 0xffff {
            (s1, s1.ints.enable)
        } else {
            let (bus, r) = B::load_spec(s1.bus, a);
            (Sm83View { bus, ..s1 }, r)
        }
    }

    /// A store: four T-cycles pass, then the byte is written.  A store to `DIV`
    /// clears the whole divider, and the bus is told of it.
    #[verifier::opaque]
    pub open spec fn store_spec(s: Sm83View<B::V>, a: u16, d: u8) -> Sm83View<B::V> {
        let s1 = Self::idle_spec(s);
        if a == 0xff04 {
            Sm83View { div: 0, bus: B::store_spec(s1.bus, a, d), ..s1 }
        } else if a == 0xff0f {
            Sm83View { ints: InterruptManager { pending: d & 0x1f, ..s1.ints }, ..s1 }
        } else if a == 0xffff {
            Sm83View { ints: InterruptManager { enable: d & 0x1f, ..s1.ints }, ..s1 }
        } else {
            Sm83View { bus: B::store_spec(s1.bus, a, d), ..s1 }
        }
    }

    /// A sixteen-bit load, low byte first.
    pub open spec fn load16_spec(s: Sm83View<B::V>, a: u16) -> (Sm83View<B::V>, u16) {
        let (s1, lo) = Self::load_spec(s, a);
        let (s2, hi) = Self::load_spec(s1, wrap16(a + 1));
        (s2, word(hi, lo))
    }

    /// A sixteen-bit store, low byte first.
    pub open spec fn store16_spec(s: Sm83View<B::V>, a: u16, d: u16) -> Sm83View<B::V> {
        Self::store_spec(Self::store_spec(s, a, low(d)), wrap16(a + 1), high(d))
    }

    /// A sixteen-bit store, high byte first.
    pub open spec fn store16_rev_spec(s: Sm83View<B::V>, a: u16, d: u16) -> Sm83View<B::V> {
        Self::store_spec(Self::store_spec(s, wrap16(a + 1), high(d)), a, low(d))
    }

    /// The byte at `PC`, which then advances.
    pub open spec fn fetch8_spec(s: Sm83View<B::V>) -> (Sm83View<B::V>, u8) {
        let (s1, v) = Self::load_spec(s, s.regs.pc);
        (Sm83View { regs: State { pc: wrap16(s1.regs.pc + 1), ..s1.regs }, ..s1 }, v)
    }

    /// The two bytes at `PC`, low first.
    pub open spec fn fetch16_spec(s: Sm83View<B::V>) -> (Sm83View<B::V>, u16) {
        let (s1, lo) = Self::fetch8_spec(s);
        let (s2, hi) = Self::fetch8_spec(s1);
        (s2, word(hi, lo))
    }

    /// Pushes `v`: high byte at `SP-1`, low byte at `SP-2`.
    pub open spec fn push_spec(s: Sm83View<B::V>, v: u16) -> Sm83View<B::V> {
        let sp = wrap16(s.regs.sp - 2);
        let s1 = Sm83View { regs: State { sp, ..s.regs }, ..s };
        Self::store16_rev_spec(s1, sp, v)
    }

    /// Pops a sixteen-bit value.
    pub open spec fn pop_spec(s: Sm83View<B::V>) -> (Sm83View<B::V>, u16) {
        let (s1, v) = Self::load16_spec(s, s.regs.sp);
        (Sm83View { regs: State { sp: wrap16(s1.regs.sp + 2), ..s1.regs }, ..s1 }, v)
    }

    /// A call: one internal cycle, the return address is pushed, `PC` becomes `a`.
    pub open spec fn call_spec(s: Sm83View<B::V>, a: u16) -> Sm83View<B::V> {
        let s1 = Self::idle_spec(s);
        let s2 = Self::push_spec(s1, s1.regs.pc);
        Sm83View { regs: State { pc: a, ..s2.regs }, ..s2 }
    }

    // ------------------------------------------------------------------- operands
    /// Operand number `r`: a register, or for number 6 the byte at `HL`.
    pub open spec fn operand_spec(s: Sm83View<B::V>, r: u8) -> (Sm83View<B::V>, u8) {
        if r == 6 {
            Self::load_spec(s, s.regs.hl())
        } else {
            (s, s.regs.r8(r))
        }
    }

    /// Writes operand number `r`.
    pub open spec fn set_operand_spec(s: Sm83View<B::V>, r: u8, v: u8) -> Sm83View<B::V> {
        if r == 6 {
            Self::store_spec(s, s.regs.hl(), v)
        } else {
            Sm83View { regs: s.regs.with_r8(r, v), ..s }
        }
    }

    /// The processor with registers `regs`.
    pub open spec fn with_regs(s: Sm83View<B::V>, regs: State) -> Sm83View<B::V> {
        Sm83View { regs, ..s }
    }

    /// Accumulator operation `op` with operand `b`.
    pub open spec fn alu_op_spec(s: Sm83View<B::V>, op: u8, b: u8) -> Sm83View<B::V> {
        let (a, f) = alu_spec(op, s.regs.a, b, s.regs.f);
        Self::with_regs(s, State { a, f, ..s.regs })
    }

    // --------------------------------------------------------------- instructions
    /// Opcodes `00`–`3F` with `z = 0`: `NOP`, `LD (nn),SP`, `STOP` and the relative
    /// jumps.  `STOP` does nothing but skip the byte that follows it.
    pub open spec fn control0_spec(s: Sm83View<B::V>, y: u8) -> Sm83View<B::V> {
        if y == 0 {
            s
        } else if y == 1 {
            let (s1, a) = Self::fetch16_spec(s);
            Self::store16_spec(s1, a, s1.regs.sp)
        } else if y == 2 {
            Self::with_regs(s, State { pc: wrap16(s.regs.pc + 1), ..s.regs })
        } else {
            let (s1, e) = Self::fetch8_spec(s);
            if y == 3 || cond_spec((y - 4) as u8, s1.regs.f) {
                let s2 = Self::idle_spec(s1);
                Self::with_regs(s2, State { pc: wrap16(s2.regs.pc + signed(e)), ..s2.regs })
            } else {
                s1
            }
        }
    }

    /// Opcodes `00`–`3F` with `z` in 1..=3: sixteen-bit loads, `ADD HL,rr`, the
    /// accumulator loads through a register pair, and the sixteen-bit increments.
    pub open spec fn pairs0_spec(s: Sm83View<B::V>, y: u8, z: u8) -> Sm83View<B::V> {
        let p = y / 2;
        let q = y % 2;
        if z == 1 {
            if q == 0 {
                let (s1, d) = Self::fetch16_spec(s);
                Self::with_regs(s1, s1.regs.with_r16(p, d))
            } else {
                let s1 = Self::idle_spec(s);
                let hl = s1.regs.hl();
                let v = s1.regs.r16(p);
                Self::with_regs(
                    s1,
                    State {
                        f: add16_flags(hl, v, s1.regs.f),
                        ..s1.regs.with_r16(2, wrap16(hl + v))
                    },
                )
            }
        } else if z == 2 {
            let (regs, a) = s.regs.r16mem(p);
            let s1 = Self::with_regs(s, regs);
            if q == 0 {
                Self::store_spec(s1, a, s1.regs.a)
            } else {
                let (s2, v) = Self::load_spec(s1, a);
                Self::with_regs(s2, State { a: v, ..s2.regs })
            }
        } else {
            let s1 = Self::idle_spec(s);
            let d = s1.regs.r16(p);
            Self::with_regs(
                s1,
                s1.regs.with_r16(p, if q == 0 { wrap16(d + 1) } else { wrap16(d - 1) }),
            )
        }
    }

    /// Opcodes `00`–`3F` with `z` in 4..=6: increment, decrement and immediate load
    /// of operand `y`.
    pub open spec fn bytes0_spec(s: Sm83View<B::V>, y: u8, z: u8) -> Sm83View<B::V> {
        if z == 4 {
            let (s1, d) = Self::operand_spec(s, y);
            let s2 = Self::set_operand_spec(s1, y, wrap8(d + 1));
            Self::with_regs(s2, State { f: inc_flags(d, s2.regs.f), ..s2.regs })
        } else if z == 5 {
            let (s1, d) = Self::operand_spec(s, y);
            let s2 = Self::set_operand_spec(s1, y, wrap8(d - 1));
            Self::with_regs(s2, State { f: dec_flags(d, s2.regs.f), ..s2.regs })
        } else {
            let (s1, v) = Self::fetch8_spec(s);
            Self::set_operand_spec(s1, y, v)
        }
    }

    /// Opcodes `00`–`3F` with `z = 7`: the accumulator rotates, `DAA`, `CPL`, `SCF`, `CCF`.
    pub open spec fn accumulator0_spec(s: Sm83View<B::V>, y: u8) -> Sm83View<B::V> {
        let r = s.regs;
        if y < 4 {
            let (a, f) = shift_spec(y, r.a, r.f, false);
            Self::with_regs(s, State { a, f, ..r })
        } else if y == 4 {
            let (a, f) = daa_spec(r.a, r.f);
            Self::with_regs(s, State { a, f, ..r })
        } else if y == 5 {
            Self::with_regs(
                s,
                State { a: !r.a, f: flags(flag(r.f, FZ), true, true, flag(r.f, FC)), ..r },
            )
        } else if y == 6 {
            Self::with_regs(s, State { f: flags(flag(r.f, FZ), false, false, true), ..r })
        } else {
            Self::with_regs(s, State { f: flags(flag(r.f, FZ), false, false, !flag(r.f, FC)), ..r })
        }
    }

    /// Opcodes `00`–`3F`, by the fields `y` and `z` of the opcode.
    pub open spec fn block0_spec(s: Sm83View<B::V>, y: u8, z: u8) -> Sm83View<B::V> {
        if z == 0 {
            Self::control0_spec(s, y)
        } else if z <= 3 {
            Self::pairs0_spec(s, y, z)
        } else if z <= 6 {
            Self::bytes0_spec(s, y, z)
        } else {
            Self::accumulator0_spec(s, y)
        }
    }

    /// Opcodes `40`–`7F` but `HALT`: a copy between operands.
    pub open spec fn block1_spec(s: Sm83View<B::V>, y: u8, z: u8) -> Sm83View<B::V> {
        let (s1, d) = Self::operand_spec(s, z);
        Self::set_operand_spec(s1, y, d)
    }

    /// Opcodes `80`–`BF`: accumulator operation `y` with operand `z`.
    pub open spec fn block2_spec(s: Sm83View<B::V>, y: u8, z: u8) -> Sm83View<B::V> {
        let (s1, b) = Self::operand_spec(s, z);
        Self::alu_op_spec(s1, y, b)
    }

    /// The prefixed opcodes: the second byte is fetched and decoded into a rotate or
    /// shift, a bit test, a bit reset or a bit set on operand `z`.
    pub open spec fn prefixed_spec(s: Sm83View<B::V>) -> Sm83View<B::V> {
        let (s1, inst) = Self::fetch8_spec(s);
        let x = inst / 64;
        let y = ((inst / 8) % 8) as u8;
        let z = inst % 8;
        let (s2, v) = Self::operand_spec(s1, z);
        if x == 0 {
            let (n, f) = shift_spec(y, v, s2.regs.f, true);
            let s3 = Self::with_regs(s2, State { f, ..s2.regs });
            Self::set_operand_spec(s3, z, n)
        } else if x == 1 {
            Self::with_regs(
                s2,
                State {
                    f: flags(v & (1u8 << y) == 0, false, true, flag(s2.regs.f, FC)),
                    ..s2.regs
                },
            )
        } else if x == 2 {
            Self::set_operand_spec(s2, z, v & !(1u8 << y))
        } else {
            Self::set_operand_spec(s2, z, v | (1u8 << y))
        }
    }

    /// Opcodes `C0`–`FF` with `z = 0`: conditional returns, the loads to and from
    /// page `FF`, and the two additions of a signed byte to `SP`.
    pub open spec fn returns3_spec(s: Sm83View<B::V>, y: u8) -> Sm83View<B::V> {
        if y < 4 {
            let s1 = Self::idle_spec(s);
            if cond_spec(y, s1.regs.f) {
                let (s2, r) = Self::pop_spec(s1);
                let s3 = Self::idle_spec(s2);
                Self::with_regs(s3, State { pc: r, ..s3.regs })
            } else {
                s1
            }
        } else if y == 4 {
            let (s1, n) = Self::fetch8_spec(s);
            Self::store_spec(s1, word(0xff, n), s1.regs.a)
        } else if y == 6 {
            let (s1, n) = Self::fetch8_spec(s);
            let (s2, d) = Self::load_spec(s1, word(0xff, n));
            Self::with_regs(s2, State { a: d, ..s2.regs })
        } else {
            let (s1, e) = Self::fetch8_spec(s);
            let s2 = Self::idle_spec(s1);
            let sp = s2.regs.sp;
            let sum = wrap16(sp + signed(e));
            let f = sp_offset_flags(sp, e);
            if y == 5 {
                let s3 = Self::idle_spec(s2);
                Self::with_regs(s3, State { sp: sum, f, ..s3.regs })
            } else {
                Self::with_regs(s2, State { f, ..s2.regs.with_r16(2, sum) })
            }
        }
    }

    /// Opcodes `C0`–`FF` with `z = 1`: `POP`, `RET`, `RETI`, `JP HL`, `LD SP,HL`.
    pub open spec fn pops3_spec(s: Sm83View<B::V>, y: u8) -> Sm83View<B::V> {
        let p = y / 2;
        let q = y % 2;
        if q == 0 {
            let (s1, v) = Self::pop_spec(s);
            Self::with_regs(s1, s1.regs.with_r16stk(p, v))
        } else if p == 0 || p == 1 {
            let (s1, r) = Self::pop_spec(s);
            let s2 = Self::idle_spec(s1);
            Sm83View { regs: State { pc: r, ..s2.regs }, ime: p == 1 || s2.ime, ..s2 }
        } else if p == 2 {
            Self::with_regs(s, State { pc: s.regs.hl(), ..s.regs })
        } else {
            let s1 = Self::idle_spec(s);
            Self::with_regs(s1, State { sp: s1.regs.hl(), ..s1.regs })
        }
    }

    /// Opcodes `C0`–`FF` with `z = 2`: conditional jumps, and the accumulator loads
    /// through `C` and through an absolute address.
    pub open spec fn jumps3_spec(s: Sm83View<B::V>, y: u8) -> Sm83View<B::V> {
        if y < 4 {
            let (s1, n) = Self::fetch16_spec(s);
            if cond_spec(y, s1.regs.f) {
                let s2 = Self::idle_spec(s1);
                Self::with_regs(s2, State { pc: n, ..s2.regs })
            } else {
                s1
            }
        } else if y == 4 {
            Self::store_spec(s, word(0xff, s.regs.c), s.regs.a)
        } else if y == 5 {
            let (s1, a) = Self::fetch16_spec(s);
            Self::store_spec(s1, a, s1.regs.a)
        } else if y == 6 {
            let (s1, d) = Self::load_spec(s, word(0xff, s.regs.c));
            Self::with_regs(s1, State { a: d, ..s1.regs })
        } else {
            let (s1, a) = Self::fetch16_spec(s);
            let (s2, d) = Self::load_spec(s1, a);
            Self::with_regs(s2, State { a: d, ..s2.regs })
        }
    }

    /// Opcodes `C0`–`FF` with `z = 3`: `JP nn`, the prefix, `DI`, `EI`.
    pub open spec fn misc3_spec(s: Sm83View<B::V>, y: u8) -> Sm83View<B::V> {
        if y == 0 {
            let (s1, n) = Self::fetch16_spec(s);
            let s2 = Self::idle_spec(s1);
            Self::with_regs(s2, State { pc: n, ..s2.regs })
        } else if y == 1 {
            Self::prefixed_spec(s)
        } else if y == 6 {
            Sm83View { ime: false, ime_pending: false, ..s }
        } else if y == 7 {
            Sm83View { ime_pending: true, ..s }
        } else {
            s
        }
    }

    /// Opcodes `C0`–`FF` with `z` in 4..=5: calls and `PUSH`.
    pub open spec fn calls3_spec(s: Sm83View<B::V>, y: u8, z: u8) -> Sm83View<B::V> {
        let p = y / 2;
        let q = y % 2;
        if z == 4 {
            if y < 4 {
                let (s1, n) = Self::fetch16_spec(s);
                if cond_spec(y, s1.regs.f) {
                    Self::call_spec(s1, n)
                } else {
                    s1
                }
            } else {
                s
            }
        } else {
            if q == 0 {
                let s1 = Self::idle_spec(s);
                Self::push_spec(s1, s1.regs.r16stk(p))
            } else if p == 0 {
                let (s1, n) = Self::fetch16_spec(s);
                Self::call_spec(s1, n)
            } else {
                s
            }
        }
    }

    /// Opcodes `C0`–`FF` with `z = 6`: accumulator operation `y` with the next byte.
    pub open spec fn immediate3_spec(s: Sm83View<B::V>, y: u8) -> Sm83View<B::V> {
        let (s1, b) = Self::fetch8_spec(s);
        Self::alu_op_spec(s1, y, b)
    }

    /// Opcodes `C0`–`FF`, by the fields `y` and `z` of the opcode.  The eleven
    /// undefined opcodes do nothing.
    pub open spec fn block3_spec(s: Sm83View<B::V>, y: u8, z: u8) -> Sm83View<B::V> {
        if z == 0 {
            Self::returns3_spec(s, y)
        } else if z == 1 {
            Self::pops3_spec(s, y)
        } else if z == 2 {
            Self::jumps3_spec(s, y)
        } else if z == 3 {
            Self::misc3_spec(s, y)
        } else if z <= 5 {
            Self::calls3_spec(s, y, z)
        } else if z == 6 {
            Self::immediate3_spec(s, y)
        } else {
            Self::call_spec(s, (y * 8) as u16)
        }
    }

    /// Execution of opcode `inst`, which is not `HALT`.
    pub open spec fn execute_spec(s: Sm83View<B::V>, inst: u8) -> Sm83View<B::V> {
        let x = inst / 64;
        let y = ((inst / 8) % 8) as u8;
        let z = inst % 8;
        if x == 0 {
            Self::block0_spec(s, y, z)
        } else if x == 1 {
            Self::block1_spec(s, y, z)
        } else if x == 2 {
            Self::block2_spec(s, y, z)
        } else {
            Self::block3_spec(s, y, z)
        }
    }

    // ------------------------------------------------------------------ interrupts
    /// Whether an interrupt is dispatched now: the master enable is set and a
    /// request is both raised and enabled.
    pub open spec fn dispatches(s: Sm83View<B::V>) -> bool {
        s.ime && s.ints.active() != 0
    }

    /// Dispatch of the request of highest priority.  The prefetched opcode is given
    /// up; the request and the master enable are cleared; after two idle machine
    /// cycles `PC` is pushed, high byte first, and the opcode at the vector is fetched.
    pub open spec fn dispatch_spec(s: Sm83View<B::V>) -> Sm83View<B::V> {
        let n = highest_priority(s.ints.active());
        let s1 = Sm83View {
            regs: State { pc: wrap16(s.regs.pc - 1), ..s.regs },
            ints: s.ints.clear_spec(n),
            ime: false,
            ..s
        };
        let s2 = Self::idle_spec(Self::idle_spec(s1));
        let s3 = Self::push_spec(s2, s2.regs.pc);
        let s4 = Self::with_regs(s3, State { pc: vector_of(n), ..s3.regs });
        let (s5, op) = Self::fetch8_spec(s4);
        Self::with_regs(s5, State { ir: op, ..s5.regs })
    }

    /// What happens between instructions.
    pub open spec fn check_interrupts_spec(s: Sm83View<B::V>) -> Sm83View<B::V> {
        if Self::dispatches(s) {
            Self::dispatch_spec(s)
        } else {
            s
        }
    }

    /// The next opcode is fetched into `ir`; then a due interrupt is dispatched.
    pub open spec fn prefetch_spec(s: Sm83View<B::V>) -> Sm83View<B::V> {
        let (s1, op) = Self::fetch8_spec(s);
        Self::check_interrupts_spec(Self::with_regs(s1, State { ir: op, ..s1.regs }))
    }

    /// Whether `HALT` would fall through at once with `PC` stuck: the master enable
    /// is clear while a request is both raised and enabled.
    pub open spec fn halt_bug(s: Sm83View<B::V>) -> bool {
        !s.ime && s.ints.active() != 0
    }

    /// `HALT`.  With the halt bug, the next opcode is read but `PC` does not advance;
    /// otherwise the processor sleeps after one machine cycle.
    pub open spec fn halt_spec(s: Sm83View<B::V>) -> Sm83View<B::V> {
        if Self::halt_bug(s) {
            let (s1, op) = Self::load_spec(s, s.regs.pc);
            Self::with_regs(s1, State { ir: op, ..s1.regs })
        } else {
            let s1 = Self::idle_spec(s);
            Sm83View { halted: true, ..s1 }
        }
    }

    /// A step while asleep: one T-cycle passes; if a request is then both raised and
    /// enabled, the processor wakes and fetches.
    pub open spec fn sleep_spec(s: Sm83View<B::V>) -> Sm83View<B::V> {
        let s1 = Self::tick_spec(s);
        if s1.ints.active() != 0 {
            Self::prefetch_spec(Sm83View { halted: false, ..s1 })
        } else {
            s1
        }
    }

    /// The processor as the instruction in `ir` finds it: a pending `EI` takes effect.
    pub open spec fn enabled_spec(s: Sm83View<B::V>) -> Sm83View<B::V> {
        if s.ime_pending {
            Sm83View { ime: true, ime_pending: false, ..s }
        } else {
            s
        }
    }

    /// One step: asleep, a T-cycle; awake, the instruction in `ir` and the fetch of
    /// its successor, with interrupt dispatch after it.
    pub open spec fn step_spec(s: Sm83View<B::V>) -> Sm83View<B::V> {
        if s.halted {
            Self::sleep_spec(s)
        } else {
            let s0 = Self::enabled_spec(s);
            if s0.regs.ir == 0x76 {
                Self::halt_spec(s0)
            } else {
                Self::prefetch_spec(Self::execute_spec(s0, s0.regs.ir))
            }
        }
    }

    /// The registers after `set_state(st)`: those of `st`, the low nibble of `F` cleared.
    pub open spec fn set_state_spec(s: Sm83View<B::V>, st: State) -> Sm83View<B::V> {
        Self::with_regs(s, State { f: st.f & 0xf0, ..st })
    }
}

impl<B: Bus> Sm83<B> {
    /// A processor at power-on: every register zero, awake, interrupts disabled.
    pub fn new(bus: B) -> (r: Self)
        requires
            B::inv(bus@),
        ensures
            r.wf(),
            r.bus == bus,
            r@ == (Sm83View {
                bus: bus@,
                regs: State { a: 0, b: 0, c: 0, d: 0, e: 0, f: 0, h: 0, l: 0, pc: 0, sp: 0, ir: 0 },
                div: 0,
                ints: InterruptManager { enable: 0, pending: 0 },
                ime: false,
                ime_pending: false,
                halted: false,
                cycles: 0,
            }),
    {
        let regs = State::zeroed();
        proof {
            lemma_high_nibble(0);
            assert(0u8 & 0xf0 == 0) by (bit_vector);
        }
        Sm83 {
            bus,
            regs,
            div: 0,
            ints: InterruptManager::new(),
            ime: false,
            ime_pending: false,
            halted: false,
            cycles: 0,
        }
    }

    /// Sets the registers; the low nibble of `F` is cleared.
    pub fn set_state(&mut self, s: &State)
        requires
            old(self).wf(),
        ensures
            final(self).wf(),
            final(self)@ == Self::set_state_spec(old(self)@, *s),
    {
        proof {
            lemma_high_nibble(s.f);
        }
        self.regs = *s;
        self.regs.f = s.f & 0xf0;
    }

    /// The registers.
    pub fn get_state(&self) -> (s: State)
        ensures
            s == self.regs,
    {
        self.regs
    }

    /// One T-cycle.
    pub fn tick(&mut self)
        requires
            old(self).wf(),
        ensures
            final(self).wf(),
            final(self)@ == Self::tick_spec(old(self)@),
            final(self).regs == old(self).regs,
    {
        proof {
            reveal(Sm83::tick_spec);
            reveal(advance);
        }
        self.div = add16(self.div, 1);
        self.cycles = self.cycles.wrapping_add(1);
        self.bus.external_step(self.div, &mut self.ints);
    }

    /// `t` machine cycles without memory traffic.
    pub fn incr_cycles(&mut self, t: usize)
        requires
            old(self).wf(),
        ensures
            final(self).wf(),
            final(self)@ == Self::ticks_spec(old(self)@, 4 * (t as nat)),
            final(self).regs == old(self).regs,
    {
        let mut i: usize = 0;
        while i < t
            invariant
                i <= t,
                self.wf(),
                self.regs == old(self).regs,
                self@ == Self::ticks_spec(old(self)@, 4 * (i as nat)),
            decreases t - i,
        {
            let ghost s0 = self@;
            self.tick();
            self.tick();
            self.tick();
            self.tick();
            proof {
                let n = 4 * (i as nat);
                assert(Self::ticks_spec(old(self)@, n + 1) == Self::tick_spec(s0));
                assert(Self::ticks_spec(old(self)@, n + 2) == Self::tick_spec(
                    Self::ticks_spec(old(self)@, n + 1),
                ));
                assert(Self::ticks_spec(old(self)@, n + 3) == Self::tick_spec(
                    Self::ticks_spec(old(self)@, n + 2),
                ));
                assert(Self::ticks_spec(old(self)@, n + 4) == Self::tick_spec(
                    Self::ticks_spec(old(self)@, n + 3),
                ));
            }
            i = i + 1;
        }
    }

    /// Loads the byte at `a`: one machine cycle.
    pub fn load_bus_u8(&mut self, a: u16) -> (r: u8)
        requires
            old(self).wf(),
        ensures
            final(self).wf(),
            (final(self)@, r) == Self::load_spec(old(self)@, a),
            final(self).regs == old(self).regs,
    {
        proof {
            reveal(Sm83::load_spec);
        }
        self.incr_cycles(1);
        if a == 0xff04 {
            high_byte(self.div)
        } else if a == 0xff0f {
            0xe0 | self.ints.pending
        } else if a == 0xffff {
            self.ints.enable
        } else {
            self.bus.load(a)
        }
    }

    /// Stores `d` at `a`: one machine cycle.
    pub fn store_bus_u8(&mut self, a: u16, d: u8)
        requires
            old(self).wf(),
        ensures
            final(self).wf(),
            final(self)@ == Self::store_spec(old(self)@, a, d),
            final(self).regs == old(self).regs,
    {
        self.incr_cycles(1);
        proof {
            reveal(Sm83::store_spec);
            lemma_and_le_u8(d, 0x1f);
        }
        if a == 0xff04 {
            self.div = 0;
            self.bus.store(a, d);
        } else if a == 0xff0f {
            self.ints.pending = d & 0x1f;
        } else if a == 0xffff {
            self.ints.enable = d & 0x1f;
        } else {
            self.bus.store(a, d);
        }
    }

    /// Loads sixteen bits, low byte first.
    pub fn load_bus_u16(&mut self, a: u16) -> (r: u16)
        requires
            old(self).wf(),
        ensures
            final(self).wf(),
            (final(self)@, r) == Self::load16_spec(old(self)@, a),
            final(self).regs == old(self).regs,
    {
        let l = self.load_bus_u8(a);
        let h = self.load_bus_u8(add16(a, 1));
        make_word(h, l)
    }

    /// Stores sixteen bits, low byte first.
    pub fn store_bus_u16(&mut self, a: u16, d: u16)
        requires
            old(self).wf(),
        ensures
            final(self).wf(),
            final(self)@ == Self::store16_spec(old(self)@, a, d),
            final(self).regs == old(self).regs,
    {
        self.store_bus_u8(a, low_byte(d));
        self.store_bus_u8(add16(a, 1), high_byte(d));
    }

    /// Stores sixteen bits, high byte first.
    pub fn store_bus_u16_rev(&mut self, a: u16, d: u16)
        requires
            old(self).wf(),
        ensures
            final(self).wf(),
            final(self)@ == Self::store16_rev_spec(old(self)@, a, d),
            final(self).regs == old(self).regs,
    {
        self.store_bus_u8(add16(a, 1), high_byte(d));
        self.store_bus_u8(a, low_byte(d));
    }

    /// Fetches the byte at `PC`.
    pub fn fetch_u8(&mut self) -> (r: u8)
        requires
            old(self).wf(),
        ensures
            final(self).wf(),
            (final(self)@, r) == Self::fetch8_spec(old(self)@),
            final(self).regs.f == old(self).regs.f,
    {
        let v = self.load_bus_u8(self.regs.pc);
        self.regs.pc = add16(self.regs.pc, 1);
        v
    }

    /// Fetches the two bytes at `PC`.
    pub fn fetch_u16(&mut self) -> (r: u16)
        requires
            old(self).wf(),
        ensures
            final(self).wf(),
            (final(self)@, r) == Self::fetch16_spec(old(self)@),
            final(self).regs.f == old(self).regs.f,
    {
        let l = self.fetch_u8();
        let h = self.fetch_u8();
        make_word(h, l)
    }

    /// Pushes `v` on the stack.
    pub fn push(&mut self, v: u16)
        requires
            old(self).wf(),
        ensures
            final(self).wf(),
            final(self)@ == Self::push_spec(old(self)@, v),
            final(self).regs.f == old(self).regs.f,
    {
        self.regs.sp = sub16(self.regs.sp, 2);
        self.store_bus_u16_rev(self.regs.sp, v);
    }

    /// Pops a sixteen-bit value from the stack.
    pub fn pop(&mut self) -> (r: u16)
        requires
            old(self).wf(),
        ensures
            final(self).wf(),
            (final(self)@, r) == Self::pop_spec(old(self)@),
            final(self).regs.f == old(self).regs.f,
    {
        let v = self.load_bus_u16(self.regs.sp);
        self.regs.sp = add16(self.regs.sp, 2);
        v
    }

    /// Calls the routine at `a`.
    pub fn call(&mut self, a: u16)
        requires
            old(self).wf(),
        ensures
            final(self).wf(),
            final(self)@ == Self::call_spec(old(self)@, a),
    {
        self.incr_cycles(1);
        let ret = self.regs.pc;
        self.push(ret);
        self.regs.pc = a;
    }

    /// Whether flag `f` is set.
    pub fn get_flag(&self, f: u8) -> (r: bool)
        ensures
            r == flag(self.regs.f, f),
    {
        get_flag(self.regs.f, f)
    }

    /// Whether branch condition `n` holds.
    pub fn cond_check(&self, n: u8) -> (r: bool)
        requires
            n < 4,
        ensures
            r == cond_spec(n, self.regs.f),
    {
        cond_check(n, self.regs.f)
    }

    /// Reads operand number `r`: a register, or for number 6 the byte at `HL`.
    pub fn load_reg_r8(&mut self, r: u8) -> (v: u8)
        requires
            old(self).wf(),
        ensures
            final(self).wf(),
            (final(self)@, v) == Self::operand_spec(old(self)@, r),
            final(self).regs == old(self).regs,
    {
        if r == 6 {
            let a = self.regs.get_r16(2);
            self.load_bus_u8(a)
        } else {
            self.regs.get_r8(r)
        }
    }

    /// Writes operand number `r`.
    pub fn store_reg_r8(&mut self, r: u8, d: u8)
        requires
            old(self).wf(),
        ensures
            final(self).wf(),
            final(self)@ == Self::set_operand_spec(old(self)@, r, d),
            final(self).regs.f == old(self).regs.f,
    {
        if r == 6 {
            let a = self.regs.get_r16(2);
            self.store_bus_u8(a, d);
        } else {
            self.regs.set_r8(r, d);
        }
    }

    /// Reads pair number `r` of `BC DE HL SP`.
    pub fn load_reg_r16(&self, r: u8) -> (v: u16)
        ensures
            v == self.regs.r16(r),
    {
        self.regs.get_r16(r)
    }

    /// Reads pair number `r` of `BC DE HL AF`.
    pub fn load_reg_r16stk(&self, r: u8) -> (v: u16)
        ensures
            v == self.regs.r16stk(r),
    {
        self.regs.get_r16stk(r)
    }

    /// Takes the address for pair number `r` of `BC DE HL+ HL-`.
    pub fn load_reg_r16mem(&mut self, r: u8) -> (a: u16)
        ensures
            (final(self).regs, a) == old(self).regs.r16mem(r),
            final(self)@ == Self::with_regs(old(self)@, final(self).regs),
            final(self).wf() == old(self).wf(),
    {
        self.regs.take_r16mem(r)
    }

    /// Writes pair number `r` of `BC DE HL SP`.
    pub fn store_reg_r16(&mut self, r: u8, d: u16)
        ensures
            final(self)@ == Self::with_regs(old(self)@, old(self).regs.with_r16(r, d)),
            final(self).wf() == old(self).wf(),
    {
        self.regs.set_r16(r, d);
    }

    /// Writes pair number `r` of `BC DE HL AF`.
    pub fn store_reg_r16stk(&mut self, r: u8, d: u16)
        requires
            old(self).wf(),
        ensures
            final(self).wf(),
            final(self)@ == Self::with_regs(old(self)@, old(self).regs.with_r16stk(r, d)),
    {
        self.regs.set_r16stk(r, d);
    }

    /// Accumulator operation `op` with operand `b`.
    pub fn alu_op(&mut self, op: u8, b: u8)
        requires
            op < 8,
            old(self).wf(),
        ensures
            final(self).wf(),
            final(self)@ == Self::alu_op_spec(old(self)@, op, b),
    {
        let (a, f) = alu_op(op, self.regs.a, b, self.regs.f);
        self.regs.a = a;
        self.regs.f = f;
    }

    /// Rotate or shift `m` of `v`: sets the flags and returns the result.
    pub fn shift(&mut self, m: u8, v: u8, a: bool) -> (n: u8)
        requires
            m < 8,
            old(self).wf(),
        ensures
            final(self).wf(),
            n == shift_spec(m, v, old(self).regs.f, a).0,
            final(self)@ == Self::with_regs(
                old(self)@,
                State { f: shift_spec(m, v, old(self).regs.f, a).1, ..old(self).regs },
            ),
    {
        let (n, f) = shift(m, v, self.regs.f, a);
        self.regs.f = f;
        n
    }

    /// Executes a prefixed opcode.
    pub fn execute_cb(&mut self)
        requires
            old(self).wf(),
        ensures
            final(self).wf(),
            final(self)@ == Self::prefixed_spec(old(self)@),
    {
        let inst = self.fetch_u8();
        let x = inst / 64;
        let y = (inst / 8) % 8;
        let z = inst % 8;
        let v = self.load_reg_r8(z);
        if x == 0 {
            let n = self.shift(y, v, true);
            self.store_reg_r8(z, n);
        } else if x == 1 {
            let c = self.get_flag(FC);
            self.regs.f = pack_flags(v & (1u8 << y) == 0, false, true, c);
        } else if x == 2 {
            self.store_reg_r8(z, v & !(1u8 << y));
        } else {
            self.store_reg_r8(z, v | (1u8 << y));
        }
    }

    /// `NOP`, `LD (nn),SP`, `STOP` and the relative jumps.
    pub fn execute_control0(&mut self, y: u8)
        requires
            y < 8,
            old(self).wf(),
        ensures
            final(self).wf(),
            final(self)@ == Self::control0_spec(old(self)@, y),
    {
        if y == 0 {
        } else if y == 1 {
            let a = self.fetch_u16();
            self.store_bus_u16(a, self.regs.sp);
        } else if y == 2 {
            self.regs.pc = add16(self.regs.pc, 1);
        } else {
            let e = self.fetch_u8();
            if y == 3 || self.cond_check(y - 4) {
                self.incr_cycles(1);
                self.regs.pc = add_signed(self.regs.pc, e);
            }
        }
    }

    /// Sixteen-bit loads, `ADD HL,rr`, the accumulator loads through a register pair,
    /// and the sixteen-bit increments.
    pub fn execute_pairs0(&mut self, y: u8, z: u8)
        requires
            y < 8,
            1 <= z <= 3,
            old(self).wf(),
        ensures
            final(self).wf(),
            final(self)@ == Self::pairs0_spec(old(self)@, y, z),
    {
        let p = y / 2;
        let q = y % 2;
        if z == 1 {
            if q == 0 {
                let d = self.fetch_u16();
                self.store_reg_r16(p, d);
            } else {
                self.incr_cycles(1);
                let a = self.load_reg_r16(2);
                let b = self.load_reg_r16(p);
                let f = flags_after_add16(a, b, self.regs.f);
                self.store_reg_r16(2, add16(a, b));
                self.regs.f = f;
            }
        } else if z == 2 {
            let a = self.load_reg_r16mem(p);
            if q == 0 {
                self.store_bus_u8(a, self.regs.a);
            } else {
                let v = self.load_bus_u8(a);
                self.regs.a = v;
            }
        } else {
            self.incr_cycles(1);
            let d = self.load_reg_r16(p);
            if q == 0 {
                self.store_reg_r16(p, add16(d, 1));
            } else {
                self.store_reg_r16(p, sub16(d, 1));
            }
        }
    }

    /// Increment, decrement and immediate load of operand `y`.
    pub fn execute_bytes0(&mut self, y: u8, z: u8)
        requires
            y < 8,
            4 <= z <= 6,
            old(self).wf(),
        ensures
            final(self).wf(),
            final(self)@ == Self::bytes0_spec(old(self)@, y, z),
    {
        if z == 4 {
            let d = self.load_reg_r8(y);
            self.store_reg_r8(y, add8(d, 1));
            self.regs.f = flags_after_inc(d, self.regs.f);
        } else if z == 5 {
            let d = self.load_reg_r8(y);
            self.store_reg_r8(y, sub8(d, 1));
            self.regs.f = flags_after_dec(d, self.regs.f);
        } else {
            let v = self.fetch_u8();
            self.store_reg_r8(y, v);
        }
    }

    /// The accumulator rotates, `DAA`, `CPL`, `SCF`, `CCF`.
    pub fn execute_accumulator0(&mut self, y: u8)
        requires
            y < 8,
            old(self).wf(),
        ensures
            final(self).wf(),
            final(self)@ == Self::accumulator0_spec(old(self)@, y),
    {
        if y < 4 {
            let n = self.shift(y, self.regs.a, false);
            self.regs.a = n;
        } else if y == 4 {
            let (a, f) = daa(self.regs.a, self.regs.f);
            self.regs.a = a;
            self.regs.f = f;
        } else if y == 5 {
            self.regs.a = !self.regs.a;
            self.regs.f = pack_flags(self.get_flag(FZ), true, true, self.get_flag(FC));
        } else if y == 6 {
            self.regs.f = pack_flags(self.get_flag(FZ), false, false, true);
        } else {
            self.regs.f = pack_flags(self.get_flag(FZ), false, false, !self.get_flag(FC));
        }
    }

    /// Executes an opcode of `00`–`3F`.
    pub fn execute_block0(&mut self, y: u8, z: u8)
        requires
            y < 8,
            z < 8,
            old(self).wf(),
        ensures
            final(self).wf(),
            final(self)@ == Self::block0_spec(old(self)@, y, z),
    {
        if z == 0 {
            self.execute_control0(y);
        } else if z <= 3 {
            self.execute_pairs0(y, z);
        } else if z <= 6 {
            self.execute_bytes0(y, z);
        } else {
            self.execute_accumulator0(y);
        }
    }

    /// Executes an opcode of `C0`–`FF`.
    pub fn execute_block3(&mut self, y: u8, z: u8)
        requires
            y < 8,
            z < 8,
            old(self).wf(),
        ensures
            final(self).wf(),
            final(self)@ == Self::block3_spec(old(self)@, y, z),
    {
        let p = y / 2;
        let q = y % 2;
        if z == 0 {
            if y < 4 {
                self.incr_cycles(1);
                if self.cond_check(y) {
                    let r = self.pop();
                    self.incr_cycles(1);
                    self.regs.pc = r;
                }
            } else if y == 4 {
                let n = self.fetch_u8();
                self.store_bus_u8(make_word(0xff, n), self.regs.a);
            } else if y == 6 {
                let n = self.fetch_u8();
                let d = self.load_bus_u8(make_word(0xff, n));
                self.regs.a = d;
            } else {
                let e = self.fetch_u8();
                self.incr_cycles(1);
                let sp = self.regs.sp;
                let sum = add_signed(sp, e);
                let f = flags_after_sp_offset(sp, e);
                if y == 5 {
                    self.incr_cycles(1);
                    self.regs.sp = sum;
                    self.regs.f = f;
                } else {
                    self.store_reg_r16(2, sum);
                    self.regs.f = f;
                }
            }
        } else if z == 1 {
            if q == 0 {
                let v = self.pop();
                self.store_reg_r16stk(p, v);
            } else if p == 0 || p == 1 {
                let r = self.pop();
                self.incr_cycles(1);
                self.regs.pc = r;
                if p == 1 {
                    self.ime = true;
                }
            } else if p == 2 {
                self.regs.pc = self.load_reg_r16(2);
            } else {
                self.incr_cycles(1);
                self.regs.sp = self.load_reg_r16(2);
            }
        } else if z == 2 {
            if y < 4 {
                let n = self.fetch_u16();
                if self.cond_check(y) {
                    self.incr_cycles(1);
                    self.regs.pc = n;
                }
            } else if y == 4 {
                self.store_bus_u8(make_word(0xff, self.regs.c), self.regs.a);
            } else if y == 5 {
                let a = self.fetch_u16();
                self.store_bus_u8(a, self.regs.a);
            } else if y == 6 {
                let d = self.load_bus_u8(make_word(0xff, self.regs.c));
                self.regs.a = d;
            } else {
                let a = self.fetch_u16();
                let d = self.load_bus_u8(a);
                self.regs.a = d;
            }
        } else if z == 3 {
            if y == 0 {
                let n = self.fetch_u16();
                self.incr_cycles(1);
                self.regs.pc = n;
            } else if y == 1 {
                self.execute_cb();
            } else if y == 6 {
                self.ime = false;
                self.ime_pending = false;
            } else if y == 7 {
                self.ime_pending = true;
            }
        } else if z == 4 {
            if y < 4 {
                let n = self.fetch_u16();
                if self.cond_check(y) {
                    self.call(n);
                }
            }
        } else if z == 5 {
            if q == 0 {
                self.incr_cycles(1);
                let v = self.load_reg_r16stk(p);
                self.push(v);
            } else if p == 0 {
                let n = self.fetch_u16();
                self.call(n);
            }
        } else if z == 6 {
            let b = self.fetch_u8();
            self.alu_op(y, b);
        } else {
            self.call(y as u16 * 8);
        }
    }

    /// Executes opcode `inst`, which is not `HALT`.
    pub fn execute(&mut self, inst: u8)
        requires
            old(self).wf(),
        ensures
            final(self).wf(),
            final(self)@ == Self::execute_spec(old(self)@, inst),
    {
        let x = inst / 64;
        let y = (inst / 8) % 8;
        let z = inst % 8;
        if x == 0 {
            self.execute_block0(y, z);
        } else if x == 1 {
            let d = self.load_reg_r8(z);
            self.store_reg_r8(y, d);
        } else if x == 2 {
            let b = self.load_reg_r8(z);
            self.alu_op(y, b);
        } else {
            self.execute_block3(y, z);
        }
    }

    /// Dispatches an interrupt if one is due.
    pub fn check_interrupts(&mut self)
        requires
            old(self).wf(),
        ensures
            final(self).wf(),
            final(self)@ == Self::check_interrupts_spec(old(self)@),
    {
        let active = self.ints.active_mask();
        if self.ime && active != 0 {
            let n = first_request(active);
            self.regs.pc = sub16(self.regs.pc, 1);
            self.ints.acknowledge(n);
            self.ime = false;
            self.incr_cycles(1);
            self.incr_cycles(1);
            let ret = self.regs.pc;
            self.push(ret);
            self.regs.pc = vector(n);
            let op = self.fetch_u8();
            self.regs.ir = op;
        }
    }

    /// Fetches the next opcode into `ir`, then dispatches a due interrupt.
    pub fn prefetch(&mut self)
        requires
            old(self).wf(),
        ensures
            final(self).wf(),
            final(self)@ == Self::prefetch_spec(old(self)@),
    {
        let op = self.fetch_u8();
        self.regs.ir = op;
        self.check_interrupts();
    }

    /// Executes one instruction, or sleeps for one T-cycle while halted.
    pub fn step(&mut self)
        requires
            old(self).wf(),
        ensures
            final(self).wf(),
            final(self)@ == Self::step_spec(old(self)@),
            final(self).regs.f & 0x0f == 0,
    {
        if self.halted {
            self.tick();
            if self.ints.active_mask() != 0 {
                self.halted = false;
                self.prefetch();
            }
            return ;
        }
        if self.ime_pending {
            self.ime = true;
            self.ime_pending = false;
        }
        let inst = self.regs.ir;
        if inst == 0x76 {
            if !self.ime && self.ints.active_mask() != 0 {
                let op = self.load_bus_u8(self.regs.pc);
                self.regs.ir = op;
            } else {
                self.incr_cycles(1);
                self.halted = true;
            }
            return ;
        }
        self.execute(inst);
        self.prefetch();
    }
}

} // verus!
