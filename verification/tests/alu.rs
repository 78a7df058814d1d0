use gb::interrupts::{first_request, vector, InterruptManager};
use gb::sm83::alu::{
    add_signed, alu_op, cond_check, daa, flags_after_add16, flags_after_dec, flags_after_inc,
    flags_after_sp_offset, get_flag, hc3_u8, hc_u16, hc_u8, pack_flags, shift, FC, FH, FN, FZ,
};
use gb::sm83::cpu::State;

#[test]
fn flags_pack_into_the_high_nibble() {
    assert_eq!(pack_flags(true, false, false, false), 0x80);
    assert_eq!(pack_flags(false, true, false, false), 0x40);
    assert_eq!(pack_flags(false, false, true, false), 0x20);
    assert_eq!(pack_flags(false, false, false, true), 0x10);
    assert_eq!(pack_flags(true, true, true, true), 0xf0);
    for z in [false, true] {
        for n in [false, true] {
            for h in [false, true] {
                for c in [false, true] {
                    let f = pack_flags(z, n, h, c);
                    assert_eq!(f & 0x0f, 0);
                    assert_eq!(
                        (get_flag(f, FZ), get_flag(f, FN), get_flag(f, FH), get_flag(f, FC)),
                        (z, n, h, c)
                    );
                }
            }
        }
    }
}

#[test]
fn half_carries() {
    assert!(hc_u8(0x0f, 0x01, 0));
    assert!(!hc_u8(0x0e, 0x01, 0));
    assert!(hc_u8(0x0e, 0x01, 1));
    assert!(hc_u8(0xff, 0xff, 0));
    assert!(hc3_u8(0x10, 0x01, 0));
    assert!(!hc3_u8(0x11, 0x01, 0));
    assert!(hc3_u8(0x11, 0x01, 1));
    assert!(hc_u16(0x0fff, 0x0001));
    assert!(!hc_u16(0xf000, 0x1000));
    assert!(hc_u16(0x0800, 0x0800));
}

#[test]
fn accumulator_operations_against_a_reference() {
    for a in 0..=255u8 {
        for b in [0u8, 1, 0x0f, 0x10, 0x7f, 0x80, 0xf0, 0xff, a] {
            for cin in [false, true] {
                let f = pack_flags(false, false, false, cin);
                let c = cin as u8;
                assert_eq!(
                    alu_op(0, a, b, f),
                    (a.wrapping_add(b), pack_flags(
                        a.wrapping_add(b) == 0,
                        false,
                        (a & 0xf) + (b & 0xf) > 0xf,
                        a as u16 + b as u16 > 0xff
                    ))
                );
                assert_eq!(
                    alu_op(1, a, b, f),
                    (a.wrapping_add(b).wrapping_add(c), pack_flags(
                        a.wrapping_add(b).wrapping_add(c) == 0,
                        false,
                        (a & 0xf) + (b & 0xf) + c > 0xf,
                        a as u16 + b as u16 + c as u16 > 0xff
                    ))
                );
                let sub = (a.wrapping_sub(b), pack_flags(a == b, true, (a & 0xf) < (b & 0xf), a < b));
                assert_eq!(alu_op(2, a, b, f), sub);
                assert_eq!(alu_op(7, a, b, f), (a, sub.1));
                assert_eq!(
                    alu_op(3, a, b, f),
                    (a.wrapping_sub(b).wrapping_sub(c), pack_flags(
                        a.wrapping_sub(b).wrapping_sub(c) == 0,
                        true,
                        (a & 0xf) < (b & 0xf) + c,
                        (a as u16) < b as u16 + c as u16
                    ))
                );
                assert_eq!(alu_op(4, a, b, f), (a & b, pack_flags(a & b == 0, false, true, false)));
                assert_eq!(alu_op(5, a, b, f), (a ^ b, pack_flags(a ^ b == 0, false, false, false)));
                assert_eq!(alu_op(6, a, b, f), (a | b, pack_flags(a | b == 0, false, false, false)));
            }
        }
    }
}

#[test]
fn rotates_and_shifts_against_a_reference() {
    for v in 0..=255u8 {
        for cin in [false, true] {
            let f = pack_flags(true, true, true, cin);
            let c = cin as u8;
            let expect = |n: u8, carry: bool, prefixed: bool| {
                (n, pack_flags(prefixed && n == 0, false, false, carry))
            };
            for prefixed in [false, true] {
                assert_eq!(shift(0, v, f, prefixed), expect(v.rotate_left(1), v & 0x80 != 0, prefixed));
                assert_eq!(shift(1, v, f, prefixed), expect(v.rotate_right(1), v & 1 != 0, prefixed));
                assert_eq!(shift(2, v, f, prefixed), expect((v << 1) | c, v & 0x80 != 0, prefixed));
                assert_eq!(shift(3, v, f, prefixed), expect((v >> 1) | (c << 7), v & 1 != 0, prefixed));
                assert_eq!(shift(4, v, f, prefixed), expect(v << 1, v & 0x80 != 0, prefixed));
                assert_eq!(
                    shift(5, v, f, prefixed),
                    expect(((v as i8) >> 1) as u8, v & 1 != 0, prefixed)
                );
                assert_eq!(shift(6, v, f, prefixed), expect((v << 4) | (v >> 4), false, prefixed));
                assert_eq!(shift(7, v, f, prefixed), expect(v >> 1, v & 1 != 0, prefixed));
            }
        }
    }
}

#[test]
fn decimal_adjust_after_decimal_arithmetic() {
    for x in 0..100u8 {
        for y in 0..100u8 {
            let bcd = |n: u8| ((n / 10) << 4) | (n % 10);
            let (sum, f) = alu_op(0, bcd(x), bcd(y), 0);
            let (adjusted, f2) = daa(sum, f);
            assert_eq!(adjusted, bcd((x + y) % 100), "{} + {}", x, y);
            assert_eq!(get_flag(f2, FC), x + y >= 100);
            assert_eq!(get_flag(f2, FZ), (x + y) % 100 == 0);
            assert!(!get_flag(f2, FH));
            let (diff, f) = alu_op(2, bcd(x), bcd(y), 0);
            let (adjusted, f2) = daa(diff, f);
            assert_eq!(adjusted, bcd((100 + x - y) % 100), "{} - {}", x, y);
            assert_eq!(get_flag(f2, FC), x < y);
            assert!(get_flag(f2, FN));
        }
    }
}

#[test]
fn increments_and_sixteen_bit_flags() {
    assert_eq!(flags_after_inc(0xff, 0x10), 0x80 | 0x20 | 0x10);
    assert_eq!(flags_after_inc(0x0f, 0x00), 0x20);
    assert_eq!(flags_after_inc(0x10, 0xf0), 0x10);
    assert_eq!(flags_after_dec(0x01, 0x00), 0x80 | 0x40);
    assert_eq!(flags_after_dec(0x10, 0x10), 0x40 | 0x20 | 0x10);
    assert_eq!(flags_after_dec(0x00, 0x00), 0x40 | 0x20);
    assert_eq!(flags_after_add16(0x0fff, 0x0001, 0x80), 0x80 | 0x20);
    assert_eq!(flags_after_add16(0xffff, 0x0001, 0x00), 0x20 | 0x10);
    assert_eq!(flags_after_add16(0x8000, 0x8000, 0xc0), 0x80 | 0x10);
    assert_eq!(flags_after_sp_offset(0x00ff, 0x01), 0x30);
    assert_eq!(flags_after_sp_offset(0x000f, 0x01), 0x20);
    assert_eq!(flags_after_sp_offset(0x0001, 0xff), 0x30);
    assert_eq!(flags_after_sp_offset(0x0000, 0xff), 0x00);
    assert_eq!(add_signed(0x1000, 0x7f), 0x107f);
    assert_eq!(add_signed(0x1000, 0x80), 0x0f80);
    assert_eq!(add_signed(0x0000, 0xff), 0xffff);
    assert_eq!(add_signed(0xffff, 0x01), 0x0000);
}

#[test]
fn branch_conditions() {
    assert!(cond_check(0, 0x00));
    assert!(!cond_check(0, 0x80));
    assert!(cond_check(1, 0x80));
    assert!(!cond_check(1, 0x70));
    assert!(cond_check(2, 0xe0));
    assert!(!cond_check(2, 0x10));
    assert!(cond_check(3, 0x10));
    assert!(!cond_check(3, 0xe0));
}

#[test]
fn register_pairs() {
    let mut s = State::zeroed();
    s.set_r16(0, 0x1234);
    s.set_r16(1, 0x5678);
    s.set_r16(2, 0x9abc);
    s.set_r16(3, 0xdef0);
    assert_eq!((s.b, s.c, s.d, s.e, s.h, s.l, s.sp), (0x12, 0x34, 0x56, 0x78, 0x9a, 0xbc, 0xdef0));
    for r in 0..8u8 {
        if r != 6 {
            s.set_r8(r, 0x40 + r);
            assert_eq!(s.get_r8(r), 0x40 + r);
        }
    }
    assert_eq!((s.b, s.c, s.d, s.e, s.h, s.l, s.a), (0x40, 0x41, 0x42, 0x43, 0x44, 0x45, 0x47));
    s.set_r16stk(3, 0xabcd);
    assert_eq!((s.a, s.f), (0xab, 0xc0));
    assert_eq!(s.get_r16stk(3), 0xabc0);
    assert_eq!(s.get_r16stk(2), 0x4445);
    s.set_r16(2, 0xffff);
    assert_eq!(s.take_r16mem(2), 0xffff);
    assert_eq!(s.get_r16(2), 0x0000);
    assert_eq!(s.take_r16mem(3), 0x0000);
    assert_eq!(s.get_r16(2), 0xffff);
    assert_eq!(s.take_r16mem(0), 0x4041);
    assert_eq!(s.take_r16mem(1), 0x4243);
}

#[test]
fn interrupt_requests_by_priority() {
    let mut i = InterruptManager::new();
    i.interrupt(3);
    i.interrupt(1);
    i.interrupt(4);
    assert_eq!(i.pending, 0b11010);
    i.enable = 0b11000;
    assert_eq!(i.active_mask(), 0b11000);
    assert_eq!(first_request(i.active_mask()), 3);
    i.acknowledge(3);
    assert_eq!(i.pending, 0b10010);
    assert_eq!(first_request(i.active_mask()), 4);
    assert_eq!(first_request(0b00001), 0);
    assert_eq!(first_request(0b11110), 1);
    assert_eq!(first_request(0b11100), 2);
    assert_eq!(
        [vector(0), vector(1), vector(2), vector(3), vector(4)],
        [0x40, 0x48, 0x50, 0x58, 0x60]
    );
}

#[test]
fn registers_as_text() {
    let s = State {
        a: 0x01,
        b: 0x00,
        c: 0x13,
        d: 0x00,
        e: 0xd8,
        f: 0xb0,
        h: 0x01,
        l: 0x4d,
        pc: 0x0100,
        sp: 0xfffe,
        ir: 0x76,
    };
    assert_eq!(
        s.to_text(),
        "a: 01, b: 00, c: 13, d: 00\ne: d8, f: b0, h: 01, l: 4d\npc: 0100, sp: fffe"
    );
    assert_eq!(
        s.to_text(),
        format!(
            "a: {:02x}, b: {:02x}, c: {:02x}, d: {:02x}\ne: {:02x}, f: {:02x}, h: {:02x}, l: {:02x}\npc: {:04x}, sp: {:04x}",
            s.a, s.b, s.c, s.d, s.e, s.f, s.h, s.l, s.pc, s.sp
        )
    );
    let mut z = State::zeroed();
    z.a = 0xaf;
    z.sp = 0x0a9c;
    assert_eq!(z.to_text(), "a: af, b: 00, c: 00, d: 00\ne: 00, f: 00, h: 00, l: 00\npc: 0000, sp: 0a9c");
    for v in 0..=255u8 {
        let mut t = String::new();
        gb::sm83::text::push_hex2(&mut t, v);
        assert_eq!(t, format!("{:02x}", v));
    }
}
