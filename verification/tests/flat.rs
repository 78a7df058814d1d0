use gb::sm83::cpu::{Sm83, State};
use gb::sm83::ram::{Access, RamBus};

/// A processor on plain RAM that holds `program` from 0100 on and is about to
/// execute its first opcode.
fn processor(program: &[u8]) -> Sm83<RamBus> {
    let mut bus = RamBus::new();
    bus.fill(0x0100, program);
    let mut cpu = Sm83::new(bus);
    let mut s = State::zeroed();
    s.pc = 0x0100;
    s.sp = 0xd000;
    cpu.set_state(&s);
    cpu.step();
    cpu.bus.clear_history();
    cpu
}

fn read(addr: u16, data: u8) -> Access {
    Access { addr, data, write: false }
}

fn write(addr: u16, data: u8) -> Access {
    Access { addr, data, write: true }
}

#[test]
fn ram_bus_is_filled_as_far_as_it_goes() {
    let mut bus = RamBus::new();
    assert_eq!(bus.ram.len(), 0x10000);
    bus.fill(0xfffe, &[1, 2, 3, 4]);
    assert_eq!(bus.ram[0xfffe], 1);
    assert_eq!(bus.ram[0xffff], 2);
    assert_eq!(bus.ram[0x0000], 0);
    assert!(bus.hist.is_empty());
}

#[test]
fn every_cycle_of_the_processor_is_a_cycle_of_the_bus() {
    // LD HL,C000 ; INC (HL) ; PUSH HL ; NOP
    let mut cpu = processor(&[0x21, 0x00, 0xc0, 0x34, 0xe5, 0x00]);
    for _ in 0..3 {
        let (ticks, cycles) = (cpu.bus.ticks, cpu.cycles);
        cpu.step();
        assert_eq!(cpu.bus.ticks - ticks, cpu.cycles - cycles);
    }
    assert_eq!(cpu.cycles, 4 + 12 + 12 + 16);
    assert_eq!(cpu.div, (4 + 12 + 12 + 16) as u16);
}

#[test]
fn memory_traffic_in_order() {
    // LD HL,C000 ; INC (HL) ; PUSH HL ; POP BC ; LD (C123),SP ; CALL 0200
    let mut cpu = processor(&[
        0x21, 0x00, 0xc0, 0x34, 0xe5, 0xc1, 0x08, 0x23, 0xc1, 0xcd, 0x00, 0x02,
    ]);
    for _ in 0..6 {
        cpu.step();
    }
    assert_eq!(
        cpu.bus.hist,
        vec![
            // LD HL,C000 and the fetch of INC (HL)
            read(0x0101, 0x00),
            read(0x0102, 0xc0),
            read(0x0103, 0x34),
            // INC (HL): read, write, fetch
            read(0xc000, 0x00),
            write(0xc000, 0x01),
            read(0x0104, 0xe5),
            // PUSH HL: high byte first
            write(0xcfff, 0xc0),
            write(0xcffe, 0x00),
            read(0x0105, 0xc1),
            // POP BC: low byte first
            read(0xcffe, 0x00),
            read(0xcfff, 0xc0),
            read(0x0106, 0x08),
            // LD (C123),SP
            read(0x0107, 0x23),
            read(0x0108, 0xc1),
            write(0xc123, 0x00),
            write(0xc124, 0xd0),
            read(0x0109, 0xcd),
            // CALL 0200
            read(0x010a, 0x00),
            read(0x010b, 0x02),
            write(0xcfff, 0x01),
            write(0xcffe, 0x0c),
            read(0x0200, 0x00),
        ]
    );
    let s = cpu.get_state();
    assert_eq!((s.b, s.c, s.h, s.l, s.sp, s.pc), (0xc0, 0x00, 0xc0, 0x00, 0xcffe, 0x0201));
}

#[test]
fn interrupt_registers_live_in_the_processor() {
    // LD A,FF ; LDH (FF),A ; LDH (0F),A ; LDH A,(0F) ; LD B,A ; LDH A,(FF)
    let mut cpu = processor(&[0x3e, 0xff, 0xe0, 0xff, 0xe0, 0x0f, 0xf0, 0x0f, 0x47, 0xf0, 0xff]);
    for _ in 0..6 {
        cpu.step();
    }
    let s = cpu.get_state();
    assert_eq!((s.b, s.a), (0xff, 0x1f));
    assert_eq!((cpu.ints.enable, cpu.ints.pending), (0x1f, 0x1f));
    // none of the four accesses reached the bus
    assert!(cpu.bus.hist.iter().all(|x| x.addr != 0xff0f && x.addr != 0xffff));
}

#[test]
fn set_state_clears_the_low_nibble_of_f() {
    let mut cpu = processor(&[]);
    let mut s = State::zeroed();
    s.f = 0xff;
    s.a = 0x12;
    cpu.set_state(&s);
    assert_eq!(cpu.get_state().f, 0xf0);
    assert_eq!(cpu.get_state().a, 0x12);
}

#[test]
fn every_opcode_takes_the_cycles_of_the_table() {
    // T-cycles of each opcode when no branch is taken, and when every branch is
    let plain: [u64; 256] = [
        4, 12, 8, 8, 4, 4, 8, 4, 20, 8, 8, 8, 4, 4, 8, 4, //
        4, 12, 8, 8, 4, 4, 8, 4, 12, 8, 8, 8, 4, 4, 8, 4, //
        8, 12, 8, 8, 4, 4, 8, 4, 8, 8, 8, 8, 4, 4, 8, 4, //
        8, 12, 8, 8, 12, 12, 12, 4, 8, 8, 8, 8, 4, 4, 8, 4, //
        4, 4, 4, 4, 4, 4, 8, 4, 4, 4, 4, 4, 4, 4, 8, 4, //
        4, 4, 4, 4, 4, 4, 8, 4, 4, 4, 4, 4, 4, 4, 8, 4, //
        4, 4, 4, 4, 4, 4, 8, 4, 4, 4, 4, 4, 4, 4, 8, 4, //
        8, 8, 8, 8, 8, 8, 4, 8, 4, 4, 4, 4, 4, 4, 8, 4, //
        4, 4, 4, 4, 4, 4, 8, 4, 4, 4, 4, 4, 4, 4, 8, 4, //
        4, 4, 4, 4, 4, 4, 8, 4, 4, 4, 4, 4, 4, 4, 8, 4, //
        4, 4, 4, 4, 4, 4, 8, 4, 4, 4, 4, 4, 4, 4, 8, 4, //
        4, 4, 4, 4, 4, 4, 8, 4, 4, 4, 4, 4, 4, 4, 8, 4, //
        8, 12, 12, 16, 12, 16, 8, 16, 8, 16, 12, 8, 12, 24, 8, 16, //
        8, 12, 12, 4, 12, 16, 8, 16, 8, 16, 12, 4, 12, 4, 8, 16, //
        12, 12, 8, 4, 4, 16, 8, 16, 16, 4, 16, 4, 4, 4, 8, 16, //
        12, 12, 8, 4, 4, 16, 8, 16, 12, 8, 16, 4, 4, 4, 8, 16, //
    ];
    let conditional: [(u8, u8, u64); 16] = [
        (0x20, 0x00, 12),
        (0x28, 0x80, 12),
        (0x30, 0x00, 12),
        (0x38, 0x10, 12),
        (0xc0, 0x00, 20),
        (0xc8, 0x80, 20),
        (0xd0, 0x00, 20),
        (0xd8, 0x10, 20),
        (0xc2, 0x00, 16),
        (0xca, 0x80, 16),
        (0xd2, 0x00, 16),
        (0xda, 0x10, 16),
        (0xc4, 0x00, 24),
        (0xcc, 0x80, 24),
        (0xd4, 0x00, 24),
        (0xdc, 0x10, 24),
    ];
    let measure = |op: u8, second: u8, f: u8| -> u64 {
        let mut cpu = processor(&[op, second, 0x00]);
        let mut s = cpu.get_state();
        s.f = f;
        s.h = 0xc0;
        cpu.set_state(&s);
        let before = cpu.cycles;
        cpu.step();
        cpu.cycles - before
    };
    for op in 0..=255u8 {
        if op == 0xcb {
            continue;
        }
        // the flags that leave the condition of a conditional opcode unmet
        let unmet = match conditional.iter().find(|c| c.0 == op) {
            Some(c) => c.1 ^ 0x90,
            None => 0,
        };
        assert_eq!(measure(op, 0x00, unmet), plain[op as usize], "opcode {:02x}", op);
    }
    for (op, f, cycles) in conditional {
        assert_eq!(measure(op, 0x00, f), cycles, "opcode {:02x} taken", op);
    }
    for cb in 0..=255u8 {
        let expected = if cb & 7 != 6 {
            8
        } else if (0x40..0x80).contains(&cb) {
            12
        } else {
            16
        };
        assert_eq!(measure(0xcb, cb, 0), expected, "prefixed opcode {:02x}", cb);
    }
}
