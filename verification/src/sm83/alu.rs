//! The arithmetic of the processor: flags, the eight accumulator operations, the
//! rotates and shifts, and decimal adjustment.  All of it is pure.
use crate::bits::{lemma_and_le_u16, lemma_and_le_u8, lemma_low_nibble};
use vstd::prelude::*;

verus! {

/// Zero flag.
pub const FZ: u8 = 0x80;

/// Subtract flag.
pub const FN: u8 = 0x40;

/// Half-carry flag.
pub const FH: u8 = 0x20;

/// Carry flag.
pub const FC: u8 = 0x10;

/// `x` reduced to a byte.
#[verifier::opaque]
pub open spec fn wrap8(x: int) -> u8 {
    (x % 256) as u8
}

/// `x` reduced to sixteen bits.
#[verifier::opaque]
pub open spec fn wrap16(x: int) -> u16 {
    (x % 65536) as u16
}

/// The byte `e` read as a two's complement number.
pub open spec fn signed(e: u8) -> int {
    if e < 128 {
        e as int
    } else {
        e - 256
    }
}

/// The flag register that holds exactly the given four flags.
pub open spec fn flags(z: bool, n: bool, h: bool, c: bool) -> u8 {
    ((if z { 0x80int } else { 0 }) + (if n { 0x40int } else { 0 }) + (if h { 0x20int } else { 0 })
        + (if c { 0x10int } else { 0 })) as u8
}

/// Whether flag `bit` is set in `f`.
pub open spec fn flag(f: u8, bit: u8) -> bool {
    f & bit != 0
}

/// A flag register is valid when its low nibble is empty.
pub open spec fn flags_ok(f: u8) -> bool {
    f & 0x0f == 0
}

/// Result and flags of the accumulator operation `op` (`ADD ADC SUB SBC AND XOR OR CP`)
/// on accumulator `a` and operand `b` under flags `f`.
pub open spec fn alu_spec(op: u8, a: u8, b: u8, f: u8) -> (u8, u8) {
    let cin: int = if flag(f, FC) { 1 } else { 0 };
    if op == 0 {
        let r = wrap8(a + b);
        (r, flags(r == 0, false, (a & 0xf) + (b & 0xf) > 0xf, a + b > 0xff))
    } else if op == 1 {
        let r = wrap8(a + b + cin);
        (r, flags(r == 0, false, (a & 0xf) + (b & 0xf) + cin > 0xf, a + b + cin > 0xff))
    } else if op == 2 {
        let r = wrap8(a - b);
        (r, flags(r == 0, true, (a & 0xf) < (b & 0xf), a < b))
    } else if op == 3 {
        let r = wrap8(a - b - cin);
        (r, flags(r == 0, true, (a & 0xf) < (b & 0xf) + cin, a < b + cin))
    } else if op == 4 {
        (a & b, flags(a & b == 0, false, true, false))
    } else if op == 5 {
        (a ^ b, flags(a ^ b == 0, false, false, false))
    } else if op == 6 {
        (a | b, flags(a | b == 0, false, false, false))
    } else {
        (a, flags(wrap8(a - b) == 0, true, (a & 0xf) < (b & 0xf), a < b))
    }
}

/// Result and flags of rotate or shift `m` (`RLC RRC RL RR SLA SRA SWAP SRL`) on `v`
/// under flags `f`.  The accumulator forms (`prefixed` false) always clear the zero flag.
pub open spec fn shift_spec(m: u8, v: u8, f: u8, prefixed: bool) -> (u8, u8) {
    let cin: int = if flag(f, FC) { 1 } else { 0 };
    let r: u8 = if m == 0 {
        wrap8(v * 2 + v / 128)
    } else if m == 1 {
        (v / 2 + (v % 2) * 128) as u8
    } else if m == 2 {
        wrap8(v * 2 + cin)
    } else if m == 3 {
        (v / 2 + cin * 128) as u8
    } else if m == 4 {
        wrap8(v * 2)
    } else if m == 5 {
        (v / 2 + (v / 128) * 128) as u8
    } else if m == 6 {
        ((v % 16) * 16 + v / 16) as u8
    } else {
        v / 2
    };
    let c = if m == 0 || m == 2 || m == 4 {
        v >= 128
    } else if m == 6 {
        false
    } else {
        v % 2 == 1
    };
    (r, flags(prefixed && r == 0, false, false, c))
}

/// Result and flags of decimal adjustment of the accumulator `a` after an addition
/// (subtract flag clear) or a subtraction (subtract flag set) of packed decimals.
pub open spec fn daa_spec(a: u8, f: u8) -> (u8, u8) {
    let n = flag(f, FN);
    let high = flag(f, FC) || (!n && a > 0x99);
    let low = flag(f, FH) || (!n && (a & 0x0f) > 0x09);
    let delta: int = (if high { 0x60int } else { 0 }) + (if low { 0x06int } else { 0 });
    let r = if n { wrap8(a - delta) } else { wrap8(a + delta) };
    (r, flags(r == 0, n, false, high))
}

/// Flags after an increment of `d`: carry kept.
pub open spec fn inc_flags(d: u8, f: u8) -> u8 {
    flags(d == 0xff, false, (d & 0xf) + 1 > 0xf, flag(f, FC))
}

/// Flags after a decrement of `d`: carry kept.
pub open spec fn dec_flags(d: u8, f: u8) -> u8 {
    flags(d == 0x01, true, (d & 0xf) == 0, flag(f, FC))
}

/// Flags after the sixteen-bit addition `a + b` into `HL`: zero kept.
pub open spec fn add16_flags(a: u16, b: u16, f: u8) -> u8 {
    flags(flag(f, FZ), false, (a & 0xfff) + (b & 0xfff) > 0xfff, a + b > 0xffff)
}

/// Flags after adding the signed byte `e` to the stack pointer: computed on the low byte.
pub open spec fn sp_offset_flags(sp: u16, e: u8) -> u8 {
    flags(false, false, (sp & 0xf) + (e & 0xf) > 0xf, (sp & 0xff) + e > 0xff)
}

/// Whether branch condition `n` (`NZ Z NC C`) holds under flags `f`.
pub open spec fn cond_spec(n: u8, f: u8) -> bool {
    if n == 0 {
        !flag(f, FZ)
    } else if n == 1 {
        flag(f, FZ)
    } else if n == 2 {
        !flag(f, FC)
    } else {
        flag(f, FC)
    }
}

/// Whatever the four flags, the low nibble of the flag register is empty.
pub proof fn lemma_flags_low_nibble(z: bool, n: bool, h: bool, c: bool)
    ensures
        flags(z, n, h, c) & 0x0f == 0,
{
    lemma_low_nibble(flags(z, n, h, c));
}

/// Builds a flag register from its four flags.
pub fn pack_flags(z: bool, n: bool, h: bool, c: bool) -> (f: u8)
    ensures
        f == flags(z, n, h, c),
        flags_ok(f),
{
    let mut f: u8 = 0;
    if z {
        f = f + 0x80;
    }
    if n {
        f = f + 0x40;
    }
    if h {
        f = f + 0x20;
    }
    if c {
        f = f + 0x10;
    }
    proof {
        lemma_low_nibble(f);
    }
    f
}

/// Whether flag `bit` is set in `f`.
pub fn get_flag(f: u8, bit: u8) -> (r: bool)
    ensures
        r == flag(f, bit),
{
    f & bit != 0
}

/// `a + b` on eight bits.
pub fn add8(a: u8, b: u8) -> (r: u8)
    ensures
        r == wrap8(a + b),
{
    proof {
        reveal(wrap8);
    }
    a.wrapping_add(b)
}

/// `a - b` on eight bits.
pub fn sub8(a: u8, b: u8) -> (r: u8)
    ensures
        r == wrap8(a - b),
{
    proof {
        reveal(wrap8);
    }
    a.wrapping_sub(b)
}

/// `a + b` on sixteen bits.
pub fn add16(a: u16, b: u16) -> (r: u16)
    ensures
        r == wrap16(a + b),
{
    proof {
        reveal(wrap16);
    }
    a.wrapping_add(b)
}

/// `a - b` on sixteen bits.
pub fn sub16(a: u16, b: u16) -> (r: u16)
    ensures
        r == wrap16(a - b),
{
    proof {
        reveal(wrap16);
    }
    a.wrapping_sub(b)
}

/// `a + signed(e)` on sixteen bits.
pub fn add_signed(a: u16, e: u8) -> (r: u16)
    ensures
        r == wrap16(a + signed(e)),
{
    proof {
        reveal(wrap16);
    }
    if e < 128 {
        a.wrapping_add(e as u16)
    } else {
        a.wrapping_sub(256 - e as u16)
    }
}

/// Half-carry of an eight-bit addition with carry-in.
pub fn hc_u8(a: u8, b: u8, cin: u8) -> (r: bool)
    requires
        cin <= 1,
    ensures
        r == ((a & 0xf) + (b & 0xf) + cin > 0xf),
{
    proof {
        lemma_and_le_u8(a, 0xf);
        lemma_and_le_u8(b, 0xf);
    }
    (a & 0xf) + (b & 0xf) + cin > 0xf
}

/// Half-borrow of an eight-bit subtraction with borrow-in.
pub fn hc3_u8(a: u8, b: u8, cin: u8) -> (r: bool)
    requires
        cin <= 1,
    ensures
        r == ((a & 0xf) < (b & 0xf) + cin),
{
    proof {
        lemma_and_le_u8(a, 0xf);
        lemma_and_le_u8(b, 0xf);
    }
    (a & 0xf) < (b & 0xf) + cin
}

/// Half-carry of a sixteen-bit addition: the carry out of bit 11.
pub fn hc_u16(a: u16, b: u16) -> (r: bool)
    ensures
        r == ((a & 0xfff) + (b & 0xfff) > 0xfff),
{
    proof {
        lemma_and_le_u16(a, 0xfff);
        lemma_and_le_u16(b, 0xfff);
    }
    (a & 0xfff) + (b & 0xfff) > 0xfff
}

/// One of the eight accumulator operations: new accumulator and new flags.
pub fn alu_op(op: u8, a: u8, b: u8, f: u8) -> (r: (u8, u8))
    requires
        op < 8,
    ensures
        r == alu_spec(op, a, b, f),
        flags_ok(r.1),
{
    proof {
        reveal(wrap8);
    }
    let cin: u8 = if get_flag(f, FC) { 1 } else { 0 };
    if op == 0 {
        let sum: u16 = a as u16 + b as u16;
        let v = (sum % 256) as u8;
        (v, pack_flags(v == 0, false, hc_u8(a, b, 0), sum > 0xff))
    } else if op == 1 {
        let sum: u16 = a as u16 + b as u16 + cin as u16;
        let v = (sum % 256) as u8;
        (v, pack_flags(v == 0, false, hc_u8(a, b, cin), sum > 0xff))
    } else if op == 2 {
        let v = a.wrapping_sub(b);
        (v, pack_flags(v == 0, true, hc3_u8(a, b, 0), a < b))
    } else if op == 3 {
        let v = a.wrapping_sub(b).wrapping_sub(cin);
        (v, pack_flags(v == 0, true, hc3_u8(a, b, cin), (a as u16) < b as u16 + cin as u16))
    } else if op == 4 {
        let v = a & b;
        (v, pack_flags(v == 0, false, true, false))
    } else if op == 5 {
        let v = a ^ b;
        (v, pack_flags(v == 0, false, false, false))
    } else if op == 6 {
        let v = a | b;
        (v, pack_flags(v == 0, false, false, false))
    } else {
        let v = a.wrapping_sub(b);
        (a, pack_flags(v == 0, true, hc3_u8(a, b, 0), a < b))
    }
}

/// One of the eight rotates and shifts: new value and new flags.
pub fn shift(m: u8, v: u8, f: u8, prefixed: bool) -> (r: (u8, u8))
    requires
        m < 8,
    ensures
        r == shift_spec(m, v, f, prefixed),
        flags_ok(r.1),
{
    proof {
        reveal(wrap8);
    }
    let cin: u8 = if get_flag(f, FC) { 1 } else { 0 };
    let wide: u16 = v as u16 * 2;
    let n: u8 = if m == 0 {
        ((wide + (v / 128) as u16) % 256) as u8
    } else if m == 1 {
        v / 2 + (v % 2) * 128
    } else if m == 2 {
        ((wide + cin as u16) % 256) as u8
    } else if m == 3 {
        v / 2 + cin * 128
    } else if m == 4 {
        (wide % 256) as u8
    } else if m == 5 {
        v / 2 + (v / 128) * 128
    } else if m == 6 {
        (v % 16) * 16 + v / 16
    } else {
        v / 2
    };
    let c = if m == 0 || m == 2 || m == 4 {
        v >= 128
    } else if m == 6 {
        false
    } else {
        v % 2 == 1
    };
    (n, pack_flags(prefixed && n == 0, false, false, c))
}

/// Decimal adjustment of the accumulator: new accumulator and new flags.
pub fn daa(a: u8, f: u8) -> (r: (u8, u8))
    ensures
        r == daa_spec(a, f),
        flags_ok(r.1),
{
    proof {
        reveal(wrap8);
    }
    let n = get_flag(f, FN);
    let high = get_flag(f, FC) || (!n && a > 0x99);
    let low = get_flag(f, FH) || (!n && (a & 0x0f) > 0x09);
    let mut delta: u8 = 0;
    if high {
        delta = delta + 0x60;
    }
    if low {
        delta = delta + 0x06;
    }
    let v = if n { a.wrapping_sub(delta) } else { a.wrapping_add(delta) };
    (v, pack_flags(v == 0, n, false, high))
}

/// Flags after an increment of `d`.
pub fn flags_after_inc(d: u8, f: u8) -> (r: u8)
    ensures
        r == inc_flags(d, f),
        flags_ok(r),
{
    proof {
        lemma_and_le_u8(d, 0xf);
    }
    pack_flags(d == 0xff, false, (d & 0xf) + 1 > 0xf, get_flag(f, FC))
}

/// Flags after a decrement of `d`.
pub fn flags_after_dec(d: u8, f: u8) -> (r: u8)
    ensures
        r == dec_flags(d, f),
        flags_ok(r),
{
    pack_flags(d == 0x01, true, (d & 0xf) == 0, get_flag(f, FC))
}

/// Flags after the sixteen-bit addition `a + b` into `HL`.
pub fn flags_after_add16(a: u16, b: u16, f: u8) -> (r: u8)
    ensures
        r == add16_flags(a, b, f),
        flags_ok(r),
{
    pack_flags(get_flag(f, FZ), false, hc_u16(a, b), a as u32 + b as u32 > 0xffff)
}

/// Flags after adding the signed byte `e` to the stack pointer.
pub fn flags_after_sp_offset(sp: u16, e: u8) -> (r: u8)
    ensures
        r == sp_offset_flags(sp, e),
        flags_ok(r),
{
    proof {
        lemma_and_le_u16(sp, 0xf);
        lemma_and_le_u16(sp, 0xff);
        lemma_and_le_u8(e, 0xf);
    }
    pack_flags(
        false,
        false,
        (sp & 0xf) + (e & 0xf) as u16 > 0xf,
        (sp & 0xff) + e as u16 > 0xff,
    )
}

/// Whether branch condition `n` holds under flags `f`.
pub fn cond_check(n: u8, f: u8) -> (r: bool)
    requires
        n < 4,
    ensures
        r == cond_spec(n, f),
{
    if n == 0 {
        !get_flag(f, FZ)
    } else if n == 1 {
        get_flag(f, FZ)
    } else if n == 2 {
        !get_flag(f, FC)
    } else {
        get_flag(f, FC)
    }
}

} // verus!
