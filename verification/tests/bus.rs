use gb::apu::Apu;
use gb::bus::{joypad, Bus};
use gb::interrupts::InterruptManager;
use gb::mapper::Mapper;
use gb::ppu::Ppu;
use gb::timer::Timer;

fn cartridge() -> Mapper {
    let mut rom = vec![0u8; 0x8000];
    for (i, b) in rom.iter_mut().enumerate() {
        *b = (i % 251) as u8;
    }
    for a in 0x134..0x150 {
        rom[a] = 0;
    }
    let mut sum = 0u8;
    for a in 0x134..=0x14c {
        sum = sum.wrapping_sub(rom[a]).wrapping_sub(1);
    }
    rom[0x14d] = sum;
    Mapper::from_bin(&rom).unwrap()
}

fn bus() -> Bus {
    Bus::new(Ppu::new(), Apu::new(), cartridge(), None)
}

#[test]
fn memory_map() {
    let mut b = bus();
    assert_eq!(b.read(0x0000), 0);
    assert_eq!(b.read(0x0123), (0x123 % 251) as u8);
    assert_eq!(b.read(0x7fff), (0x7fff % 251) as u8);
    b.write(0xc123, 0x11);
    assert_eq!(b.read(0xc123), 0x11);
    assert_eq!(b.read(0xe123), 0x11);
    b.write(0xfdff, 0x22);
    assert_eq!(b.read(0xddff), 0x22);
    b.write(0x8000, 0x33);
    assert_eq!(b.read(0x8000), 0x33);
    assert_eq!(b.ppu.vram[0], 0x33);
    b.write(0xfe10, 0x44);
    assert_eq!(b.read(0xfe10), 0x44);
    b.write(0xfea0, 0x55);
    assert_eq!(b.read(0xfea0), 0xff);
    assert_eq!(b.read(0xfeff), 0xff);
    b.write(0xff80, 0x66);
    b.write(0xfffe, 0x77);
    assert_eq!(b.read(0xff80), 0x66);
    assert_eq!(b.read(0xfffe), 0x77);
    assert_eq!(b.read(0xff01), 0x00);
    assert_eq!(b.read(0xff02), 0x7e);
    assert_eq!(b.read(0xff03), 0xff);
    assert_eq!(b.read(0xff7f), 0xff);
    b.write(0xff47, 0x1b);
    assert_eq!(b.read(0xff47), 0x1b);
    b.write(0xff26, 0x80);
    assert_eq!(b.read(0xff26), 0xf0);
    b.write(0xa000, 0x12);
    assert_eq!(b.read(0xa000), 0xff);
}

#[test]
fn boot_image_covers_the_first_page_until_unmapped() {
    let mut image = vec![0u8; 256];
    image[0] = 0xaa;
    image[255] = 0xbb;
    let mut b = Bus::new(Ppu::new(), Apu::new(), cartridge(), Some(image));
    assert_eq!(b.read(0x0000), 0xaa);
    assert_eq!(b.read(0x00ff), 0xbb);
    assert_eq!(b.read(0x0100), (0x100 % 251) as u8);
    b.write(0xff50, 1);
    assert_eq!(b.read(0x0000), 0);
    assert_eq!(b.read(0x00ff), 0xff % 251);
}

#[test]
fn joypad_matrix() {
    // nothing pressed
    assert_eq!(joypad(0x00, 0x00), 0xcf);
    assert_eq!(joypad(0x30, 0xff), 0xff);
    // right and start pressed
    assert_eq!(joypad(0x20, 0x81), 0xee);
    assert_eq!(joypad(0x10, 0x81), 0xd7);
    assert_eq!(joypad(0x00, 0x81), 0xc6);
    let mut b = bus();
    b.set_keys(0x42); // left and select
    b.write(0xff00, 0xef);
    assert_eq!(b.key_sel, 0x20);
    assert_eq!(b.read(0xff00), 0xed);
    b.write(0xff00, 0x10);
    assert_eq!(b.read(0xff00), 0xdb);
}

#[test]
fn dma_copies_a_byte_a_cycle_and_blocks_the_bus() {
    let mut b = bus();
    let mut i = InterruptManager::new();
    for k in 0..0xa0u16 {
        b.write(0xc000 + k, (k as u8) ^ 0x5a);
    }
    b.write(0xc123, 0x99);
    b.write(0xff80, 0x42);
    b.write(0xff46, 0xc0);
    assert_eq!(b.read(0xff46), 0xff); // the engine is active: the last byte copied
    for k in 0..0xa0u16 {
        b.tick(k, &mut i);
        let last = (k as u8) ^ 0x5a;
        assert_eq!(b.ppu.oam[k as usize], last);
        assert_eq!(b.read(0xff80), 0x42);
        if k < 0x9f {
            assert_eq!(b.read(0xc123), last);
            assert_eq!(b.read(0x0000), last);
            assert_eq!(b.read(0xfe00), last);
        }
    }
    // the engine is idle again
    assert_eq!(b.read(0xc123), 0x99);
    assert_eq!(b.read(0xff46), 0xc0);
    assert_eq!(b.read(0xfe00), 0x5a);
    assert_eq!(b.read(0xfe9f), 0x9f ^ 0x5a);
    b.tick(0, &mut i);
    assert_eq!(b.oam_dma_idx, 0xa0);
}

#[test]
fn divider_write_ticks_the_timer_when_the_tap_is_high() {
    let mut b = bus();
    let mut i = InterruptManager::new();
    b.write(0xff07, 0x05); // enabled, bit 3 of the divider
    b.write(0xff05, 0xfe);
    b.tick(0x0008, &mut i); // the tap is high
    assert_eq!(b.read(0xff05), 0xfe);
    b.write(0xff04, 0);
    assert_eq!(b.read(0xff05), 0xff);
    b.tick(0x0001, &mut i);
    assert_eq!(b.read(0xff05), 0xff);
    // with the tap low the write does nothing
    b.write(0xff04, 0);
    assert_eq!(b.read(0xff05), 0xff);
    // nor does it when the timer is disabled
    let mut off = bus();
    off.write(0xff07, 0x01);
    off.write(0xff05, 0xfe);
    off.tick(0x0008, &mut i);
    off.write(0xff04, 0);
    assert_eq!(off.read(0xff05), 0xfe);
}

#[test]
fn timer_ticks_on_the_falling_edge_of_its_tap() {
    for (tac, period) in [(0x04u8, 1024u32), (0x05, 16), (0x06, 64), (0x07, 256)] {
        let mut t = Timer::new();
        t.tac = tac;
        for div in 1..=(3 * period) {
            let before = t.tima;
            assert!(!t.step(div as u16));
            let ticked = div % period == 0;
            assert_eq!(t.tima, before + ticked as u8, "tac {} div {}", tac, div);
        }
        assert_eq!(t.tima, 3);
    }
    let mut t = Timer::new();
    t.tac = 0x01;
    for div in 1..100u16 {
        t.step(div);
    }
    assert_eq!(t.tima, 0);
}

#[test]
fn timer_overflow_reloads_and_requests_one_cycle_later() {
    let mut b = bus();
    let mut i = InterruptManager::new();
    b.write(0xff07, 0x05);
    b.write(0xff06, 0x47);
    b.write(0xff05, 0xff);
    for div in 1..16u16 {
        b.tick(div, &mut i);
        assert_eq!(i.pending & 4, 0);
        assert_eq!(b.read(0xff05), 0xff);
    }
    b.tick(16, &mut i); // the tap falls: overflow
    assert_eq!(b.read(0xff05), 0x00);
    assert_eq!(i.pending & 4, 0);
    b.tick(17, &mut i);
    assert_eq!(b.read(0xff05), 0x47);
    assert_eq!(i.pending & 4, 4);
    i.pending = 0;
    b.tick(18, &mut i);
    assert_eq!(i.pending & 4, 0);
    assert_eq!(b.read(0xff05), 0x47);
}

#[test]
fn writing_tima_in_the_overflow_cycle_cancels_the_reload() {
    let mut b = bus();
    let mut i = InterruptManager::new();
    b.write(0xff07, 0x05);
    b.write(0xff06, 0x47);
    b.write(0xff05, 0xff);
    for div in 1..=16u16 {
        b.tick(div, &mut i);
    }
    assert_eq!(b.read(0xff05), 0x00);
    b.write(0xff05, 0x12);
    b.tick(17, &mut i);
    assert_eq!(b.read(0xff05), 0x12);
    assert_eq!(i.pending & 4, 0);
}

#[test]
fn units_behind_the_bus_advance_together() {
    let mut b = bus();
    let mut i = InterruptManager::new();
    b.write(0xff40, 0x91);
    b.write(0xff26, 0x80);
    for div in 0..456u32 * 145 {
        b.tick(div as u16, &mut i);
    }
    assert_eq!(i.pending & 1, 1);
    assert_eq!(b.read(0xff44), 145);
    assert!(b.ppu.frame_ready);
    // the audio unit counted the falls of bit 12 of the divider
    assert_eq!(b.apu.seq_timer as u32, (456 * 145 / 8192) % 8);
    assert_eq!(b.apu.buffer_at, 2 * (456 * 145 / 95) % 2048);
}
