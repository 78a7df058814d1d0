use gb::interrupts::InterruptManager;
use gb::ppu::unit::Mode;
use gb::ppu::Ppu;

const DOTS_PER_FRAME: usize = 456 * 154;

fn ints() -> InterruptManager {
    InterruptManager::new()
}

/// Fills row `row` of tile `tile` (numbered from 8000) with two bit planes.
fn set_row(ppu: &mut Ppu, tile: usize, row: usize, lo: u8, hi: u8) {
    ppu.store((0x8000 + tile * 16 + row * 2) as u16, lo);
    ppu.store((0x8000 + tile * 16 + row * 2 + 1) as u16, hi);
}

fn set_tile(ppu: &mut Ppu, tile: usize, lo: u8, hi: u8) {
    for row in 0..8 {
        set_row(ppu, tile, row, lo, hi);
    }
}

/// A unit with the identity palettes and no scroll, still switched off.
fn unit() -> Ppu {
    let mut ppu = Ppu::new();
    ppu.store(0xff47, 0xe4);
    ppu.store(0xff48, 0xe4);
    ppu.store(0xff49, 0x1b);
    ppu.store(0xff42, 0);
    ppu.store(0xff43, 0);
    ppu
}

/// Runs the unit until it has published a picture and returns the picture.
fn render(ppu: &mut Ppu) -> Vec<u8> {
    let mut i = ints();
    let mut dots = 0;
    while !ppu.take_frame() {
        ppu.step(&mut i);
        dots += 1;
        assert!(dots <= 2 * DOTS_PER_FRAME, "no picture");
    }
    ppu.frame().to_vec()
}

#[test]
fn background_of_one_colour() {
    let mut ppu = unit();
    set_tile(&mut ppu, 0, 0xff, 0x00);
    ppu.store(0xff40, 0x91);
    let frame = render(&mut ppu);
    assert_eq!(frame.len(), 160 * 144);
    for y in 0..144 {
        for x in 0..160 {
            assert_eq!(frame[y * 160 + x], 1, "pixel {} {}", x, y);
        }
    }
}

#[test]
fn palette_maps_colours_to_shades() {
    let mut ppu = unit();
    set_tile(&mut ppu, 0, 0xff, 0x00);
    ppu.store(0xff47, 0b00_01_11_10); // colour 1 is shade 3
    ppu.store(0xff40, 0x91);
    render(&mut ppu);
    let frame = render(&mut ppu);
    assert!(frame.iter().all(|p| *p == 3));
}

#[test]
fn background_off_shows_colour_zero() {
    let mut ppu = unit();
    set_tile(&mut ppu, 0, 0xff, 0xff);
    ppu.store(0xff47, 0b11_10_01_10); // colour 0 is shade 2
    ppu.store(0xff40, 0x90);
    render(&mut ppu);
    let frame = render(&mut ppu);
    assert!(frame.iter().all(|p| *p == 2));
}

#[test]
fn fine_scroll_shifts_the_background() {
    let mut ppu = unit();
    set_tile(&mut ppu, 0, 0x80, 0x00); // the leftmost pixel of each tile
    ppu.store(0xff43, 3);
    ppu.store(0xff40, 0x91);
    render(&mut ppu);
    let frame = render(&mut ppu);
    for y in 0..144 {
        for x in 0..160 {
            let expected = if (x + 3) % 8 == 0 { 1 } else { 0 };
            assert_eq!(frame[y * 160 + x], expected, "pixel {} {}", x, y);
        }
    }
}

#[test]
fn tile_map_and_vertical_scroll() {
    let mut ppu = unit();
    set_tile(&mut ppu, 1, 0x00, 0xff); // colour 2
    ppu.store(0x9800 + 32 * 2 + 5, 1); // row 2, column 5 of the map
    ppu.store(0xff42, 4); // four lines up
    ppu.store(0xff43, 8); // one tile left
    ppu.store(0xff40, 0x91);
    render(&mut ppu);
    let frame = render(&mut ppu);
    for y in 0..144 {
        for x in 0..160 {
            let inside = (32..40).contains(&x) && (12..20).contains(&y);
            assert_eq!(frame[y * 160 + x], if inside { 2 } else { 0 }, "pixel {} {}", x, y);
        }
    }
}

#[test]
fn signed_tile_numbers() {
    let mut ppu = unit();
    // without bit 4 of the control register tile 0 lies at 9000 and tile 128 at 8800
    for row in 0..8 {
        ppu.store((0x9000 + row * 2) as u16, 0xff);
        ppu.store((0x8800 + row * 2 + 1) as u16, 0xff);
    }
    ppu.store(0x9801, 128);
    ppu.store(0xff40, 0x81);
    render(&mut ppu);
    let frame = render(&mut ppu);
    assert_eq!(frame[0], 1);
    assert_eq!(frame[8], 2);
    assert_eq!(frame[16], 1);
}

#[test]
fn second_tile_map() {
    let mut ppu = unit();
    set_tile(&mut ppu, 1, 0xff, 0xff);
    ppu.store(0x9c00, 1);
    ppu.store(0xff40, 0x99);
    render(&mut ppu);
    let frame = render(&mut ppu);
    assert_eq!(frame[0], 3);
    assert_eq!(frame[7 * 160 + 7], 3);
    assert_eq!(frame[8], 0);
    assert_eq!(frame[8 * 160], 0);
}

fn set_object(ppu: &mut Ppu, o: usize, y: u8, x: u8, tile: u8, attr: u8) {
    let base = 0xfe00 + (o * 4) as u16;
    ppu.store(base, y);
    ppu.store(base + 1, x);
    ppu.store(base + 2, tile);
    ppu.store(base + 3, attr);
}

#[test]
fn object_over_the_background() {
    let mut ppu = unit();
    set_tile(&mut ppu, 2, 0xff, 0xff); // colour 3
    set_object(&mut ppu, 0, 16 + 30, 8 + 20, 2, 0);
    ppu.store(0xff40, 0x93);
    render(&mut ppu);
    let frame = render(&mut ppu);
    for y in 0..144 {
        for x in 0..160 {
            let inside = (20..28).contains(&x) && (30..38).contains(&y);
            assert_eq!(frame[y * 160 + x], if inside { 3 } else { 0 }, "pixel {} {}", x, y);
        }
    }
}

#[test]
fn objects_are_off_without_their_enable_bit() {
    let mut ppu = unit();
    set_tile(&mut ppu, 2, 0xff, 0xff);
    set_object(&mut ppu, 0, 16 + 30, 8 + 20, 2, 0);
    ppu.store(0xff40, 0x91);
    render(&mut ppu);
    let frame = render(&mut ppu);
    assert!(frame.iter().all(|p| *p == 0));
}

#[test]
fn object_at_the_left_edge_is_cut() {
    let mut ppu = unit();
    set_row(&mut ppu, 2, 0, 0b1111_0000, 0b0000_1111); // colours 1 1 1 1 2 2 2 2
    set_object(&mut ppu, 0, 16, 5, 2, 0); // three pixels left of the screen
    ppu.store(0xff40, 0x93);
    render(&mut ppu);
    let frame = render(&mut ppu);
    assert_eq!(&frame[0..8], &[1, 2, 2, 2, 2, 0, 0, 0]);
}

#[test]
fn object_flips_and_second_palette() {
    let mut ppu = unit();
    set_row(&mut ppu, 2, 0, 0b1000_0000, 0); // top left pixel, colour 1
    set_object(&mut ppu, 0, 16, 8, 2, 0x20); // mirrored
    set_object(&mut ppu, 1, 16, 24, 2, 0x40); // upside down
    set_object(&mut ppu, 2, 16, 40, 2, 0x10); // second palette: colour 1 is shade 2
    ppu.store(0xff40, 0x93);
    render(&mut ppu);
    let frame = render(&mut ppu);
    assert_eq!(frame[0], 0);
    assert_eq!(frame[7], 1);
    assert_eq!(frame[16], 0);
    assert_eq!(frame[7 * 160 + 16], 1);
    assert_eq!(frame[32], 2);
}

#[test]
fn object_behind_the_background() {
    let mut ppu = unit();
    set_tile(&mut ppu, 0, 0x0f, 0x00); // background: colours 0 0 0 0 1 1 1 1
    set_tile(&mut ppu, 2, 0xff, 0xff); // object: colour 3
    set_object(&mut ppu, 0, 16, 8, 2, 0x80);
    ppu.store(0xff40, 0x93);
    render(&mut ppu);
    let frame = render(&mut ppu);
    assert_eq!(&frame[0..8], &[3, 3, 3, 3, 1, 1, 1, 1]);
}

#[test]
fn tall_objects_use_two_tiles() {
    let mut ppu = unit();
    set_tile(&mut ppu, 4, 0xff, 0x00); // colour 1
    set_tile(&mut ppu, 5, 0x00, 0xff); // colour 2
    set_object(&mut ppu, 0, 16, 8, 5, 0); // the low bit of the tile number is ignored
    ppu.store(0xff40, 0x97);
    render(&mut ppu);
    let frame = render(&mut ppu);
    assert_eq!(frame[0], 1);
    assert_eq!(frame[7 * 160], 1);
    assert_eq!(frame[8 * 160], 2);
    assert_eq!(frame[15 * 160], 2);
    assert_eq!(frame[16 * 160], 0);
}

#[test]
fn at_most_ten_objects_on_a_line_ordered_by_x() {
    let mut ppu = unit();
    set_tile(&mut ppu, 2, 0xff, 0xff);
    for o in 0..12 {
        set_object(&mut ppu, o, 16, (8 + 10 * (11 - o)) as u8, 2, 0);
    }
    ppu.store(0xff40, 0x93);
    render(&mut ppu);
    let frame = render(&mut ppu);
    // the first ten entries of the table are shown, the last two are not
    for o in 0..12 {
        let x = 10 * (11 - o);
        assert_eq!(frame[x], if o < 10 { 3 } else { 0 }, "object {}", o);
    }
    assert_eq!(ppu.objs.count, 0);
    let mut i = ints();
    while !(ppu.ly == 0 && matches!(ppu.mode, Mode::DrawPixel)) {
        ppu.step(&mut i);
    }
    assert_eq!(ppu.objs.count, 10);
    for k in 1..10 {
        assert!(ppu.objs.list[k - 1].x <= ppu.objs.list[k].x);
    }
    assert_eq!(ppu.objs.list[0].x, 8 + 20);
}

#[test]
fn window_covers_the_background() {
    let mut ppu = unit();
    set_tile(&mut ppu, 1, 0xff, 0x00); // colour 1
    for i in 0..0x400u16 {
        ppu.store(0x9c00 + i, 1);
    }
    ppu.store(0xff4a, 100); // top of the window
    ppu.store(0xff4b, 7 + 80); // left of the window
    ppu.store(0xff40, 0x91 | 0x20 | 0x40);
    render(&mut ppu);
    let frame = render(&mut ppu);
    for y in 0..144 {
        for x in 0..160 {
            let inside = x >= 80 && y >= 100;
            assert_eq!(frame[y * 160 + x], if inside { 1 } else { 0 }, "pixel {} {}", x, y);
        }
    }
}

#[test]
fn window_counts_its_own_lines() {
    let mut ppu = unit();
    // tile 1: only its first row is coloured
    set_row(&mut ppu, 1, 0, 0xff, 0x00);
    for i in 0..0x400u16 {
        ppu.store(0x9c00 + i, 1);
    }
    ppu.store(0xff4a, 50);
    ppu.store(0xff4b, 7);
    ppu.store(0xff40, 0x91 | 0x20 | 0x40);
    render(&mut ppu);
    let frame = render(&mut ppu);
    for y in 0..144 {
        let expected = if y >= 50 && (y - 50) % 8 == 0 { 1 } else { 0 };
        assert_eq!(frame[y * 160], expected, "line {}", y);
        assert_eq!(frame[y * 160 + 159], expected, "line {}", y);
    }
}

#[test]
fn modes_follow_the_dots() {
    let mut ppu = unit();
    ppu.store(0xff40, 0x91);
    let mut i = ints();
    for line in 0..144u16 {
        let mut mode3 = 0;
        for dot in 0..456 {
            assert_eq!(ppu.load(0xff44) as u16, line);
            let mode = ppu.load(0xff41) & 3;
            if dot < 80 {
                assert_eq!(mode, 2, "line {} dot {}", line, dot);
            } else if mode == 3 {
                mode3 += 1;
            } else {
                assert_eq!(mode, 0);
            }
            ppu.step(&mut i);
        }
        assert!((172..=289).contains(&mode3), "mode 3 took {} dots", mode3);
    }
    assert_eq!(i.pending & 1, 0);
    for line in 144..154u16 {
        for dot in 0..456 {
            assert_eq!(ppu.load(0xff44) as u16, line);
            assert_eq!(ppu.load(0xff41) & 3, 1);
            ppu.step(&mut i);
            if line == 144 && dot == 0 {
                assert_eq!(i.pending, 1);
            }
        }
    }
    assert_eq!(ppu.load(0xff44), 0);
    assert_eq!(ppu.load(0xff41) & 3, 2);
}

#[test]
fn stat_interrupt_fires_on_the_rising_edge_only() {
    let mut ppu = unit();
    ppu.store(0xff45, 5);
    ppu.store(0xff41, 0x48); // coincidence and mode 0
    ppu.store(0xff40, 0x91);
    let mut i = ints();
    while ppu.load(0xff44) != 4 {
        ppu.step(&mut i);
    }
    i.pending = 0;
    // from the first dot of line 4 to the last of line 5
    let mut requests = 0;
    let mut vblanks = 0;
    for _ in 0..2 * 456 {
        ppu.step(&mut i);
        if i.pending & 2 != 0 {
            requests += 1;
        }
        if i.pending & 1 != 0 {
            vblanks += 1;
        }
        i.pending = 0;
    }
    assert_eq!(ppu.load(0xff44), 6);
    assert_eq!(requests, 1);
    assert_eq!(vblanks, 0);
    // the coincidence flag reads in bit 2
    ppu.store(0xff45, 6);
    assert_eq!(ppu.load(0xff41) & 4, 4);
    ppu.store(0xff45, 7);
    assert_eq!(ppu.load(0xff41) & 4, 0);
}

#[test]
fn stat_interrupt_for_each_source() {
    for (bit, line) in [(0x08u8, 1u8), (0x10, 144), (0x20, 1)] {
        let mut ppu = unit();
        ppu.store(0xff45, 200);
        ppu.store(0xff41, bit);
        ppu.store(0xff40, 0x91);
        let mut i = ints();
        // the first line is left out: the sources are looked at from line 1 on
        for _ in 0..456 {
            ppu.step(&mut i);
        }
        i.pending = 0;
        let mut guard = 0;
        while i.pending & 2 == 0 {
            ppu.step(&mut i);
            guard += 1;
            assert!(guard < 456 * 154);
        }
        assert_eq!(ppu.load(0xff44), line, "source {:02x}", bit);
    }
}

#[test]
fn switching_off_in_vblank_raises_nothing() {
    let mut ppu = unit();
    ppu.store(0xff41, 0x78);
    ppu.store(0xff40, 0x91);
    let mut i = ints();
    while ppu.load(0xff44) != 145 {
        ppu.step(&mut i);
    }
    i.pending = 0;
    ppu.store(0xff40, 0x11);
    assert_eq!(ppu.load(0xff44), 0);
    assert_eq!(ppu.load(0xff41) & 3, 0);
    for _ in 0..1000 {
        ppu.step(&mut i);
    }
    assert_eq!(i.pending, 0);
    assert_eq!(ppu.load(0xff44), 0);
    assert_eq!(ppu.scanline_dot, 0);
    ppu.store(0xff40, 0x91);
    // a fresh frame: line 0 starts with the scan of the objects
    assert_eq!(ppu.load(0xff44), 0);
    assert_eq!(ppu.scanline_dot, 0);
    assert_eq!(ppu.load(0xff41) & 3, 2);
    i.pending = 0;
    for k in 1..144 * 456usize {
        ppu.step(&mut i);
        assert_eq!(ppu.load(0xff44) as usize, k / 456);
        assert_eq!(i.pending & 1, 0);
    }
    ppu.step(&mut i);
    assert_eq!(ppu.load(0xff44), 144);
    ppu.step(&mut i);
    assert_eq!(i.pending & 1, 1);
}

#[test]
fn the_frame_after_switching_on_again_is_drawn_from_its_first_line() {
    let mut ppu = unit();
    set_tile(&mut ppu, 0, 0xff, 0x00);
    set_tile(&mut ppu, 1, 0x00, 0xff);
    for i in 0..0x400u16 {
        ppu.store(0x9c00 + i, 1);
    }
    ppu.store(0xff4a, 0);
    ppu.store(0xff4b, 7 + 80);
    ppu.store(0xff40, 0xf1);
    let mut i = ints();
    while !(ppu.load(0xff44) == 100 && ppu.load(0xff41) & 3 == 0) {
        ppu.step(&mut i);
    }
    ppu.store(0xff40, 0x71);
    ppu.store(0xff40, 0xf1);
    let frame = render(&mut ppu);
    // the background left, the window right from its own first line on
    for y in 0..144 {
        for x in 0..160 {
            assert_eq!(frame[y * 160 + x], if x < 80 { 1 } else { 2 }, "pixel {} {}", x, y);
        }
    }
    assert_eq!(ppu.fetcher.wly, 0);
}

#[test]
fn switching_off_blanks_the_picture_under_construction() {
    let mut ppu = unit();
    set_tile(&mut ppu, 0, 0xff, 0xff);
    ppu.store(0xff40, 0x91);
    render(&mut ppu);
    assert!(ppu.back_buffer.iter().any(|p| *p == 3));
    ppu.store(0xff40, 0x00);
    assert!(ppu.back_buffer.iter().all(|p| *p == 0));
}

#[test]
fn registers_read_back() {
    let mut ppu = Ppu::new();
    for (addr, data) in [
        (0xff42u16, 0x12u8),
        (0xff43, 0x34),
        (0xff45, 0x56),
        (0xff47, 0x78),
        (0xff48, 0x9a),
        (0xff49, 0xbc),
        (0xff4a, 0xde),
        (0xff4b, 0xf0),
        (0xff40, 0x33),
    ] {
        ppu.store(addr, data);
        assert_eq!(ppu.load(addr), data);
    }
    ppu.store(0xff41, 0xff);
    assert_eq!(ppu.load(0xff41) & 0xf8, 0x78);
    ppu.store(0xff44, 0x55);
    assert_eq!(ppu.load(0xff44), 0);
    assert_eq!(ppu.load(0xff4c), 0xff);
    ppu.store(0x8123, 0x42);
    assert_eq!(ppu.load(0x8123), 0x42);
    ppu.store(0xfe9f, 0x24);
    assert_eq!(ppu.load(0xfe9f), 0x24);
}

#[test]
fn strict_access_closes_the_memories() {
    let mut ppu = unit();
    ppu.strict_access = true;
    ppu.store(0x8000, 0x11);
    ppu.store(0xfe00, 0x22);
    ppu.store(0xff40, 0x91);
    let mut i = ints();
    for _ in 0..456 {
        ppu.step(&mut i);
    }
    // mode 2: the object table is closed
    assert_eq!(ppu.load(0xff41) & 3, 2);
    assert_eq!(ppu.load(0x8000), 0x11);
    assert_eq!(ppu.load(0xfe00), 0xff);
    ppu.store(0xfe00, 0x33);
    for _ in 0..100 {
        ppu.step(&mut i);
    }
    // mode 3: both are closed
    assert_eq!(ppu.load(0xff41) & 3, 3);
    assert_eq!(ppu.load(0x8000), 0xff);
    ppu.store(0x8000, 0x44);
    for _ in 0..300 {
        ppu.step(&mut i);
    }
    assert_eq!(ppu.load(0xff41) & 3, 0);
    assert_eq!(ppu.load(0x8000), 0x11);
    assert_eq!(ppu.load(0xfe00), 0x22);
}

#[test]
fn tile_map_rendered_as_it_lies() {
    let mut ppu = Ppu::new();
    // tile 0 at 9000: a diagonal of colour 3; tile 1: colour 1 in its last row
    for row in 0..8usize {
        ppu.store((0x9000 + row * 2) as u16, 0x80 >> row);
        ppu.store((0x9000 + row * 2 + 1) as u16, 0x80 >> row);
    }
    ppu.store(0x9010 + 14, 0xff);
    ppu.store(0x9800 + 32 + 2, 1); // row 1, column 2 of the map
    ppu.store(0xff43, 5); // scroll is ignored
    let mut fb = vec![9u8; 160 * 144 + 3];
    ppu.render_strip(&mut fb, 0);
    for y in 0..144 {
        for x in 0..160 {
            let expected = if (16..24).contains(&x) && (8..16).contains(&y) {
                if y == 15 { 1 } else { 0 }
            } else if x % 8 == y % 8 {
                3
            } else {
                0
            };
            assert_eq!(fb[y * 160 + x], expected, "pixel {} {}", x, y);
        }
    }
    assert_eq!(&fb[160 * 144..], &[9, 9, 9]);
}

/// Dots that line 20 spends in mode 3 with the given scroll, number of objects
/// (eight pixels apart) and window.
fn mode_three_dots(scx: u8, objects: usize, window: bool) -> usize {
    let mut ppu = Ppu::new();
    ppu.store(0xff43, scx);
    for o in 0..objects {
        set_object(&mut ppu, o, 16 + 20, 8 + 8 * o as u8, 0, 0);
    }
    ppu.store(0xff4a, 0);
    ppu.store(0xff4b, 7 + 50);
    ppu.store(0xff40, 0x93 | if window { 0x20 } else { 0 });
    let mut i = ints();
    while ppu.load(0xff44) != 20 {
        ppu.step(&mut i);
    }
    let mut dots = 0;
    for _ in 0..456 {
        if ppu.load(0xff41) & 3 == 3 {
            dots += 1;
        }
        ppu.step(&mut i);
    }
    assert_eq!(ppu.load(0xff44), 21);
    assert_eq!(ppu.fetcher.lx, 160);
    dots
}

#[test]
fn mode_three_grows_with_scroll_objects_and_window() {
    assert_eq!(mode_three_dots(0, 0, false), 174);
    for window in [false, true] {
        for objects in 0..=10 {
            for scx in 0..8u8 {
                let dots = mode_three_dots(scx, objects, window);
                assert!((172..=289).contains(&dots), "{} dots", dots);
                if scx > 0 {
                    assert!(dots >= mode_three_dots(scx - 1, objects, window));
                }
                if objects > 0 {
                    assert!(dots >= mode_three_dots(scx, objects - 1, window));
                }
                if window {
                    assert!(dots >= mode_three_dots(scx, objects, false));
                }
            }
        }
    }
}
