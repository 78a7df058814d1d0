//! The pixel unit: modes, registers, the picture and the two interrupts.
use crate::interrupts::{InterruptManager, INT_STAT, INT_VBLANK};
use crate::ppu::fetcher::{PixelFetcher, Regs};
use crate::ppu::oam::LineObjects;
use crate::ppu::pixels::{pixel_color, pixel_color_spec};
use vstd::prelude::*;

verus! {

/// Dots in a line.
pub const LINE_DOTS: u16 = 456;

/// Lines in a frame: 144 that are drawn and ten of vertical blank.
pub const FRAME_LINES: u8 = 154;

/// What the unit does in a dot.
#[derive(Debug, Clone, Copy, PartialEq, Eq, Structural)]
pub enum Mode {
    /// Mode 0: the rest of a line after its pixels.
    HBlank,
    /// Mode 1: the ten lines after the picture.
    VBlank,
    /// Mode 2: the first eighty dots of a line.
    OamScan,
    /// Mode 3: the pixels of a line.
    DrawPixel,
}

impl Mode {
    /// The number of the mode, as the status register shows it.
    pub open spec fn number(self) -> u8 {
        match self {
            Mode::HBlank => 0,
            Mode::VBlank => 1,
            Mode::OamScan => 2,
            Mode::DrawPixel => 3,
        }
    }

    /// The number of the mode.
    pub fn to_bits(self) -> (r: u8)
        ensures
            r == self.number(),
    {
        match self {
            Mode::HBlank => 0,
            Mode::VBlank => 1,
            Mode::OamScan => 2,
            Mode::DrawPixel => 3,
        }
    }
}

/// The pixel unit.
pub struct Ppu {
    /// The last complete picture, row by row: what the host shows.
    pub front_buffer: [u8; 23040],
    /// The picture under construction.
    pub back_buffer: [u8; 23040],
    /// Set when a picture was completed; the host clears it when it has the picture.
    pub frame_ready: bool,
    /// Whether video memory is closed to the bus in mode 3, and the object table in
    /// modes 2 and 3.
    pub strict_access: bool,
    pub vram: [u8; 8192],
    pub oam: [u8; 160],
    pub lyc: u8,
    pub bgp: u8,
    pub scx: u8,
    pub scy: u8,
    pub wx: u8,
    pub wy: u8,
    pub lcdc: u8,
    pub obp0: u8,
    pub obp1: u8,
    pub stat: u8,
    pub scanline_dot: u16,
    pub ly: u8,
    pub mode: Mode,
    pub objs: LineObjects,
    pub fetcher: PixelFetcher,
    /// The status line as it was in the last dot.
    pub stat_line: bool,
}

/// The status line: the disjunction of the four sources that `stat` selects, which
/// are mode 0 (bit 3), mode 1 (bit 4), mode 2 (bit 5) and `LY = LYC` (bit 6).
pub open spec fn stat_sources(mode: Mode, coincide: bool, stat: u8) -> bool {
    ||| mode == Mode::HBlank && stat & 0x08 != 0
    ||| mode == Mode::VBlank && stat & 0x10 != 0
    ||| mode == Mode::OamScan && stat & 0x20 != 0
    ||| coincide && stat & 0x40 != 0
}

/// A picture: every pixel is a shade of 0..=3.
pub open spec fn is_picture(buffer: [u8; 23040]) -> bool {
    forall|i: int| 0 <= i < 23040 ==> buffer[i] <= 3
}

impl Ppu {
    pub open spec fn wf(self) -> bool {
        &&& self.scanline_dot < LINE_DOTS
        &&& self.ly < FRAME_LINES
        &&& (self.mode == Mode::OamScan || self.mode == Mode::DrawPixel) ==> self.ly < 144
        &&& self.mode == Mode::DrawPixel ==> self.fetcher.lx < 160
        &&& self.objs.wf()
        &&& self.fetcher.wf()
        &&& is_picture(self.front_buffer)
        &&& is_picture(self.back_buffer)
        &&& self.stat & 0x87 == 0
    }

    /// The unit at power-on: switched off, the memories and the pictures zero, the
    /// background palette `1B`, a horizontal scroll of one.
    pub open spec fn power_on() -> Ppu {
        Ppu {
            front_buffer: vstd::array::spec_array_fill_for_copy_type::<u8, 23040>(0),
            back_buffer: vstd::array::spec_array_fill_for_copy_type::<u8, 23040>(0),
            frame_ready: false,
            strict_access: false,
            vram: vstd::array::spec_array_fill_for_copy_type::<u8, 8192>(0),
            oam: vstd::array::spec_array_fill_for_copy_type::<u8, 160>(0),
            lyc: 0,
            bgp: 0x1b,
            scx: 1,
            scy: 0,
            wx: 0,
            wy: 0,
            lcdc: 0,
            obp0: 0,
            obp1: 0,
            stat: 0,
            scanline_dot: 0,
            ly: 0,
            mode: Mode::OamScan,
            objs: LineObjects::none(),
            fetcher: PixelFetcher::at_rest(),
            stat_line: false,
        }
    }

    /// Whether bit 7 of `lcdc` has the unit switched off.
    pub open spec fn disabled(self) -> bool {
        self.lcdc & 0x80 == 0
    }

    /// The registers that the fetcher reads.
    pub open spec fn regs(self) -> Regs {
        Regs {
            lcdc: self.lcdc,
            ly: self.ly,
            scx: self.scx,
            scy: self.scy,
            wx: self.wx,
            wy: self.wy,
            bgp: self.bgp,
            obp0: self.obp0,
            obp1: self.obp1,
        }
    }

    /// The status line now.
    pub open spec fn stat_now(self) -> bool {
        stat_sources(self.mode, self.ly == self.lyc, self.stat)
    }

    /// A dot of mode 2.  In dot 0 the objects of the line are collected; after dot
    /// 79 the drawing starts.
    pub open spec fn oam_scan_spec(self) -> Ppu {
        let p = if self.scanline_dot == 0 {
            Ppu { objs: self.objs.scanned(self.oam, self.ly, self.lcdc), ..self }
        } else {
            self
        };
        if self.scanline_dot >= 79 {
            Ppu {
                mode: Mode::DrawPixel,
                fetcher: self.fetcher.reset_scanline_spec(self.regs()),
                ..p
            }
        } else {
            p
        }
    }

    /// A dot of mode 3.  The fetcher works; a pixel that it hands out enters the
    /// picture; the 160th pixel ends the mode.
    pub open spec fn draw_spec(self) -> Ppu {
        let r = self.regs();
        let f1 = self.fetcher.window_check_spec(r).fetch_spec(r, self.vram);
        let (f2, px) = f1.emit_spec(r, self.objs);
        match px {
            None => Ppu { fetcher: f2, ..self },
            Some(shade) => {
                let back = vstd::array::spec_array_update(
                    self.back_buffer,
                    self.ly * 160 + f1.lx,
                    shade,
                );
                if f2.lx >= 160 {
                    Ppu {
                        back_buffer: back,
                        mode: Mode::HBlank,
                        fetcher: f2.end_line_spec(),
                        ..self
                    }
                } else {
                    Ppu { back_buffer: back, fetcher: f2, ..self }
                }
            },
        }
    }

    /// Whether the picture is complete in this dot: the first dot of line 144.
    pub open spec fn frame_ends(self) -> bool {
        self.mode == Mode::VBlank && self.scanline_dot == 0 && self.ly == 144
    }

    /// The unit after the picture was published: the host's picture is the one just
    /// drawn, and the window starts over.
    pub open spec fn published_spec(self) -> Ppu {
        Ppu {
            front_buffer: self.back_buffer,
            frame_ready: true,
            fetcher: PixelFetcher { wly: 0, ..self.fetcher },
            ..self
        }
    }

    /// The unit after the dot counter moved on: after dot 455 the next line starts,
    /// in mode 2 if it is a line of the picture, in mode 1 if not.
    pub open spec fn advanced_spec(self) -> Ppu {
        if self.scanline_dot + 1 < LINE_DOTS {
            Ppu { scanline_dot: (self.scanline_dot + 1) as u16, ..self }
        } else {
            let ly = ((self.ly + 1) % (FRAME_LINES as int)) as u8;
            Ppu {
                scanline_dot: 0,
                ly,
                mode: if ly < 144 {
                    Mode::OamScan
                } else {
                    Mode::VBlank
                },
                ..self
            }
        }
    }

    /// The unit after the work of its mode in this dot.
    pub open spec fn worked_spec(self) -> Ppu {
        match self.mode {
            Mode::OamScan => self.oam_scan_spec(),
            Mode::DrawPixel => self.draw_spec(),
            Mode::HBlank => self,
            Mode::VBlank => if self.frame_ends() {
                self.published_spec()
            } else {
                self
            },
        }
    }

    /// The unit after one dot.  Switched off it stands still.
    pub open spec fn step_spec(self) -> Ppu {
        if self.disabled() {
            self
        } else {
            Ppu { stat_line: self.stat_now(), ..self.worked_spec().advanced_spec() }
        }
    }

    /// Whether this dot requests the status interrupt: the status line rises.
    pub open spec fn stat_rises(self) -> bool {
        !self.disabled() && !self.stat_line && self.stat_now()
    }

    /// Whether this dot requests the vertical-blank interrupt.
    pub open spec fn vblank_starts(self) -> bool {
        !self.disabled() && self.frame_ends()
    }

    /// The interrupt registers after one dot of the unit.
    pub open spec fn step_ints_spec(self, ints: InterruptManager) -> InterruptManager {
        let i1 = if self.vblank_starts() {
            ints.raise_spec(INT_VBLANK)
        } else {
            ints
        };
        if self.stat_rises() {
            i1.raise_spec(INT_STAT)
        } else {
            i1
        }
    }

    /// A dot of the unit raises no request but its own two, and changes nothing in
    /// the enable mask.
    pub proof fn lemma_step_ints(self, ints: InterruptManager)
        ensures
            forall|n: u8|
                2 <= n < 5 ==> self.step_ints_spec(ints).requested(n) == ints.requested(n),
            self.step_ints_spec(ints).enable == ints.enable,
    {
        let i1 = if self.vblank_starts() {
            ints.raise_spec(INT_VBLANK)
        } else {
            ints
        };
        assert forall|n: u8| 2 <= n < 5 implies self.step_ints_spec(ints).requested(n)
            == ints.requested(n) by {
            ints.lemma_raise(INT_VBLANK, n);
            i1.lemma_raise(INT_STAT, n);
        }
    }

    /// The unit after `n` dots.
    pub open spec fn run_spec(self, n: nat) -> Ppu
        decreases n,
    {
        if n == 0 {
            self
        } else {
            self.step_spec().run_spec((n - 1) as nat)
        }
    }

    /// How often the status interrupt is requested in the next `n` dots.
    pub open spec fn stat_requests(self, n: nat) -> nat
        decreases n,
    {
        if n == 0 {
            0
        } else {
            (if self.stat_rises() {
                1nat
            } else {
                0nat
            }) + self.step_spec().stat_requests((n - 1) as nat)
        }
    }

    /// What a dot leaves alone and how it moves on: the registers keep their values,
    /// the status line becomes what the sources gave at the start of the dot, mode 0
    /// lasts to the end of its line and mode 3 gives way to mode 0 only, and after
    /// the last dot of a line the next line starts at dot 0.
    pub proof fn lemma_step_moves(self)
        requires
            !self.disabled(),
            self.scanline_dot < LINE_DOTS,
        ensures
            ({
                let q = self.step_spec();
                &&& q.lcdc == self.lcdc && q.stat == self.stat && q.lyc == self.lyc
                &&& q.stat_line == self.stat_now()
                &&& self.scanline_dot + 1 < LINE_DOTS ==> {
                    &&& q.scanline_dot == self.scanline_dot + 1
                    &&& q.ly == self.ly
                    &&& self.mode == Mode::HBlank ==> q.mode == Mode::HBlank
                    &&& self.mode == Mode::DrawPixel ==> q.mode == Mode::DrawPixel || q.mode
                        == Mode::HBlank
                }
                &&& self.scanline_dot + 1 == LINE_DOTS ==> {
                    &&& q.scanline_dot == 0
                    &&& q.ly == (self.ly + 1) % (FRAME_LINES as int)
                }
            }),
    {
    }

    /// On a line on which `LY` is `LYC`, with that source selected, the status line
    /// is high in every dot: the status interrupt is requested in the first dot if
    /// the line was low before, and never after.
    pub proof fn lemma_coincidence_line(self, n: nat)
        requires
            !self.disabled(),
            self.ly == self.lyc,
            self.stat & 0x40 != 0,
            self.scanline_dot + n <= LINE_DOTS,
        ensures
            self.stat_requests(n) == (if n > 0 && !self.stat_line {
                1nat
            } else {
                0nat
            }),
        decreases n,
    {
        if n > 0 {
            self.lemma_step_moves();
            let q = self.step_spec();
            if n > 1 {
                q.lemma_coincidence_line((n - 1) as nat);
            } else {
                assert(q.stat_requests(0) == 0);
            }
        }
    }

    /// Where the sources of mode 0 and of the coincidence are both selected and
    /// `LYC` is the next line: from a dot of mode 3 or 0 to the last dot of the
    /// next line, the status interrupt is requested exactly once if the status line
    /// is low at the start, and not at all if it is high.  The coincidence at the
    /// start of the next line requests nothing more, because mode 0 holds the line
    /// high until then.
    #[verifier::rlimit(60)]
    pub proof fn lemma_line_before_coincidence(self)
        requires
            !self.disabled(),
            self.scanline_dot < LINE_DOTS,
            self.ly + 1 < FRAME_LINES,
            self.lyc == self.ly + 1,
            self.stat & 0x08 != 0,
            self.stat & 0x40 != 0,
            self.mode == Mode::DrawPixel || self.mode == Mode::HBlank,
            self.stat_line ==> self.mode == Mode::HBlank,
        ensures
            self.stat_requests((2 * LINE_DOTS - self.scanline_dot) as nat) == (if self.stat_line {
                0nat
            } else {
                1nat
            }),
        decreases LINE_DOTS - self.scanline_dot,
    {
        self.lemma_step_moves();
        let q = self.step_spec();
        let n = (2 * LINE_DOTS - self.scanline_dot) as nat;
        assert(self.stat_now() == (self.mode == Mode::HBlank));
        if self.scanline_dot + 1 < LINE_DOTS {
            q.lemma_line_before_coincidence();
        } else {
            q.lemma_coincidence_line(LINE_DOTS as nat);
        }
        assert(self.stat_requests(n) == (if self.stat_rises() {
            1nat
        } else {
            0nat
        }) + q.stat_requests((n - 1) as nat));
    }

    /// With `LYC` on line 5 and the sources of mode 0 and of the coincidence
    /// selected: from the first dot of mode 3 of line 4, the status line low, to the
    /// last dot of line 5, the status interrupt is requested exactly once.
    pub proof fn lemma_one_request_through_coincidence(self)
        requires
            !self.disabled(),
            self.ly == 4,
            self.lyc == 5,
            self.scanline_dot == 80,
            self.mode == Mode::DrawPixel,
            !self.stat_line,
            self.stat & 0x08 != 0,
            self.stat & 0x40 != 0,
        ensures
            self.stat_requests((2 * LINE_DOTS - 80) as nat) == 1,
    {
        self.lemma_line_before_coincidence();
    }

    /// The status register reads the sources that were selected in bits 3..=6, the
    /// coincidence of `LY` and `LYC` in bit 2 and the number of the mode in bits
    /// 1..=0; bit 7 reads zero.
    pub proof fn lemma_stat_bits(self)
        requires
            self.stat & 0x87 == 0,
        ensures
            self.stat_bits() & 0x03 == self.mode.number(),
            (self.stat_bits() & 0x04 != 0) == (self.ly == self.lyc),
            self.stat_bits() & 0x78 == self.stat,
            self.stat_bits() & 0x80 == 0,
    {
        let s = self.stat;
        let c: u8 = if self.ly == self.lyc {
            4
        } else {
            0
        };
        let m = self.mode.number();
        assert((s | c | m) & 0x03 == m && ((s | c | m) & 0x04 != 0) == (c == 4) && (s | c | m)
            & 0x78 == s && (s | c | m) & 0x80 == 0) by (bit_vector)
            requires
                s & 0x87 == 0,
                c == 4 || c == 0,
                m <= 3,
        ;
    }

    /// Whether the bus may touch video memory now.
    pub open spec fn vram_open(self) -> bool {
        !self.strict_access || self.disabled() || self.mode != Mode::DrawPixel
    }

    /// Whether the bus may touch the object table now.
    pub open spec fn oam_open(self) -> bool {
        !self.strict_access || self.disabled() || (self.mode != Mode::DrawPixel && self.mode
            != Mode::OamScan)
    }

    /// The status register as it reads: the source selection, the coincidence flag
    /// and the mode.
    pub open spec fn stat_bits(self) -> u8 {
        self.stat | (if self.ly == self.lyc {
            4u8
        } else {
            0u8
        }) | self.mode.number()
    }

    /// The byte read at `addr` of video memory, the object table, or `FF40`–`FF4B`.
    pub open spec fn load_spec(self, addr: u16) -> u8 {
        if 0x8000 <= addr <= 0x9fff {
            if self.vram_open() {
                self.vram[addr - 0x8000]
            } else {
                0xff
            }
        } else if 0xfe00 <= addr <= 0xfe9f {
            if self.oam_open() {
                self.oam[addr - 0xfe00]
            } else {
                0xff
            }
        } else if addr == 0xff40 {
            self.lcdc
        } else if addr == 0xff41 {
            self.stat_bits()
        } else if addr == 0xff42 {
            self.scy
        } else if addr == 0xff43 {
            self.scx
        } else if addr == 0xff44 {
            self.ly
        } else if addr == 0xff45 {
            self.lyc
        } else if addr == 0xff47 {
            self.bgp
        } else if addr == 0xff48 {
            self.obp0
        } else if addr == 0xff49 {
            self.obp1
        } else if addr == 0xff4a {
            self.wy
        } else if addr == 0xff4b {
            self.wx
        } else {
            0xff
        }
    }

    /// The unit after a write to `lcdc`.  Clearing bit 7 switches the unit off: it
    /// goes to the first dot of line 0 in mode 0, and the picture under construction
    /// is blanked.  Setting bit 7 while it is clear switches the unit on: a fresh
    /// frame starts, at the first dot of line 0 in mode 2, with the window at its
    /// first line.
    pub open spec fn store_lcdc_spec(self, data: u8) -> Ppu {
        if data & 0x80 == 0 {
            Ppu {
                lcdc: data,
                scanline_dot: 0,
                ly: 0,
                mode: Mode::HBlank,
                fetcher: PixelFetcher { lx: 0, ..self.fetcher },
                back_buffer: vstd::array::spec_array_fill_for_copy_type::<u8, 23040>(0),
                ..self
            }
        } else if self.disabled() {
            Ppu {
                lcdc: data,
                scanline_dot: 0,
                ly: 0,
                mode: Mode::OamScan,
                fetcher: PixelFetcher { wly: 0, ..self.fetcher },
                ..self
            }
        } else {
            Ppu { lcdc: data, ..self }
        }
    }

    /// The unit after a write to one of the registers `FF40`–`FF4B`.
    pub open spec fn store_reg_spec(self, addr: u16, data: u8) -> Ppu {
        if addr == 0xff40 {
            self.store_lcdc_spec(data)
        } else if addr == 0xff41 {
            Ppu { stat: data & 0x78, ..self }
        } else if addr == 0xff42 {
            Ppu { scy: data, ..self }
        } else if addr == 0xff43 {
            Ppu { scx: data, ..self }
        } else if addr == 0xff45 {
            Ppu { lyc: data, ..self }
        } else if addr == 0xff47 {
            Ppu { bgp: data, ..self }
        } else if addr == 0xff48 {
            Ppu { obp0: data, ..self }
        } else if addr == 0xff49 {
            Ppu { obp1: data, ..self }
        } else if addr == 0xff4a {
            Ppu { wy: data, ..self }
        } else if addr == 0xff4b {
            Ppu { wx: data, ..self }
        } else {
            self
        }
    }

    /// The unit after a write of `data` to `addr`.
    pub open spec fn store_spec(self, addr: u16, data: u8) -> Ppu {
        if 0x8000 <= addr <= 0x9fff {
            if self.vram_open() {
                Ppu { vram: vstd::array::spec_array_update(self.vram, addr - 0x8000, data), ..self }
            } else {
                self
            }
        } else if 0xfe00 <= addr <= 0xfe9f {
            if self.oam_open() {
                Ppu { oam: vstd::array::spec_array_update(self.oam, addr - 0xfe00, data), ..self }
            } else {
                self
            }
        } else {
            self.store_reg_spec(addr, data)
        }
    }

    /// The unit after the DMA engine wrote byte `i` of the object table.
    pub open spec fn dma_spec(self, i: int, data: u8) -> Ppu {
        Ppu { oam: vstd::array::spec_array_update(self.oam, i, data), ..self }
    }

    /// The unit with the picture flag cleared.
    pub open spec fn frame_taken(self) -> Ppu {
        Ppu { frame_ready: false, ..self }
    }

    /// Switching the unit off raises no interrupt, whatever the mode, and leaves
    /// it at the top of a frame; while it is off its dots change nothing and raise
    /// nothing; switching it on again starts a fresh frame: the first dot of line 0,
    /// in mode 2, the window at its first line.
    pub proof fn lemma_lcd_off(self, off: u8, on: u8, ints: InterruptManager)
        requires
            off & 0x80 == 0,
            on & 0x80 != 0,
        ensures
            ({
                let p = self.store_spec(0xff40, off);
                let q = p.store_spec(0xff40, on);
                &&& p.disabled()
                &&& p.ly == 0 && p.scanline_dot == 0 && p.mode == Mode::HBlank
                &&& p.step_spec() == p
                &&& p.step_ints_spec(ints) == ints
                &&& !q.disabled()
                &&& q.ly == 0 && q.scanline_dot == 0 && q.mode == Mode::OamScan
                &&& q.fetcher.wly == 0
                &&& q == Ppu {
                    lcdc: on,
                    mode: Mode::OamScan,
                    fetcher: PixelFetcher { wly: 0, ..p.fetcher },
                    ..p
                }
            }),
    {
    }

    /// The place in the frame, counted in dots from its first.
    pub open spec fn position(self) -> int {
        self.ly * LINE_DOTS + self.scanline_dot
    }

    /// While the picture lasts, each dot moves the unit on by one place: it stays
    /// switched on, and `n` dots after place `p` it is at place `p + n`.
    pub proof fn lemma_run_position(self, n: nat)
        requires
            !self.disabled(),
            self.scanline_dot < LINE_DOTS,
            self.position() + n <= 144 * LINE_DOTS,
        ensures
            !self.run_spec(n).disabled(),
            self.run_spec(n).lcdc == self.lcdc,
            self.run_spec(n).scanline_dot < LINE_DOTS,
            self.run_spec(n).position() == self.position() + n,
        decreases n,
    {
        if n > 0 {
            self.lemma_step_moves();
            self.step_spec().lemma_run_position((n - 1) as nat);
        }
    }

    /// A fresh frame: from the first dot of line 0, after `k` dots of the 144 lines
    /// of the picture the unit is in line `k / 456` at dot `k % 456`, and none of
    /// these dots requests the vertical-blank interrupt.
    pub proof fn lemma_fresh_frame(self, k: nat)
        requires
            !self.disabled(),
            self.ly == 0,
            self.scanline_dot == 0,
            k < 144 * LINE_DOTS,
        ensures
            self.run_spec(k).ly == k / (LINE_DOTS as nat),
            self.run_spec(k).scanline_dot == k % (LINE_DOTS as nat),
            self.run_spec(k).ly < 144,
            !self.run_spec(k).vblank_starts(),
    {
        self.lemma_run_position(k);
    }

    /// After the unit was switched off and on again, a fresh frame starts: line 0
    /// begins with the scan of the objects, after `k` dots of the picture `LY` is
    /// `k / 456`, and no dot of the picture requests the vertical-blank interrupt.
    pub proof fn lemma_switched_on_again(self, off: u8, on: u8, k: nat)
        requires
            off & 0x80 == 0,
            on & 0x80 != 0,
            k < 144 * LINE_DOTS,
        ensures
            ({
                let q = self.store_spec(0xff40, off).store_spec(0xff40, on);
                &&& q.mode == Mode::OamScan && q.ly == 0 && q.scanline_dot == 0
                &&& q.run_spec(k).ly == k / (LINE_DOTS as nat)
                &&& !q.run_spec(k).vblank_starts()
            }),
    {
        let q = self.store_spec(0xff40, off).store_spec(0xff40, on);
        self.lemma_lcd_off(off, on, InterruptManager { enable: 0, pending: 0 });
        q.lemma_fresh_frame(k);
    }

    /// A dot requests the status interrupt only when the status line rises: while
    /// the line stays high, no source requests another.
    pub proof fn lemma_stat_edge(self, ints: InterruptManager)
        requires
            self.stat_line,
            !self.vblank_starts(),
        ensures
            self.step_ints_spec(ints) == ints,
    {
    }

    /// The unit at power-on: switched off, a blank picture.
    pub fn new() -> (p: Ppu)
        ensures
            p.wf(),
            p.disabled(),
            p == Ppu::power_on(),
    {
        let p = Ppu {
            front_buffer: [0u8;23040],
            back_buffer: [0u8;23040],
            frame_ready: false,
            strict_access: false,
            vram: [0u8;8192],
            oam: [0u8;160],
            lyc: 0,
            bgp: 0x1b,
            scx: 1,
            scy: 0,
            wx: 0,
            wy: 0,
            lcdc: 0,
            obp0: 0,
            obp1: 0,
            stat: 0,
            scanline_dot: 0,
            ly: 0,
            mode: Mode::OamScan,
            objs: LineObjects::new(),
            fetcher: PixelFetcher::new(),
            stat_line: false,
        };
        assert(0u8 & 0x80 == 0) by (bit_vector);
        assert(0u8 & 0x87 == 0) by (bit_vector);
        p
    }

    /// Whether the unit is switched off.
    pub fn is_disabled(&self) -> (r: bool)
        ensures
            r == self.disabled(),
    {
        self.lcdc & 0x80 == 0
    }

    /// The registers that the fetcher reads.
    pub fn fetcher_regs(&self) -> (r: Regs)
        ensures
            r == self.regs(),
    {
        Regs {
            lcdc: self.lcdc,
            ly: self.ly,
            scx: self.scx,
            scy: self.scy,
            wx: self.wx,
            wy: self.wy,
            bgp: self.bgp,
            obp0: self.obp0,
            obp1: self.obp1,
        }
    }

    /// The status line now.
    pub fn request_stat(&self) -> (r: bool)
        ensures
            r == self.stat_now(),
    {
        let hblank = matches!(self.mode, Mode::HBlank);
        let vblank = matches!(self.mode, Mode::VBlank);
        let scan = matches!(self.mode, Mode::OamScan);
        (hblank && self.stat & 0x08 != 0) || (vblank && self.stat & 0x10 != 0) || (scan
            && self.stat & 0x20 != 0) || (self.ly == self.lyc && self.stat & 0x40 != 0)
    }

    /// A dot of mode 2.
    fn oam_scan(&mut self)
        requires
            old(self).wf(),
            old(self).mode == Mode::OamScan,
        ensures
            final(self).wf(),
            *final(self) == old(self).oam_scan_spec(),
    {
        if self.scanline_dot == 0 {
            self.objs.scan(&self.oam, self.ly, self.lcdc);
        }
        if self.scanline_dot >= 79 {
            self.mode = Mode::DrawPixel;
            let r = self.fetcher_regs();
            self.fetcher.reset_scanline(r);
        }
    }

    /// A dot of mode 3.
    fn draw(&mut self)
        requires
            old(self).wf(),
            old(self).mode == Mode::DrawPixel,
        ensures
            final(self).wf(),
            *final(self) == old(self).draw_spec(),
    {
        let r = self.fetcher_regs();
        self.fetcher.window_check(r);
        self.fetcher.fetch(r, &self.vram);
        let lx = self.fetcher.lx;
        match self.fetcher.emit(r, &self.objs) {
            None => {},
            Some(shade) => {
                let at = self.ly as usize * 160 + lx as usize;
                self.back_buffer[at] = shade;
                if self.fetcher.lx >= 160 {
                    self.mode = Mode::HBlank;
                    self.fetcher.end_line();
                }
            },
        }
    }

    /// Publishes the picture.
    fn publish(&mut self)
        requires
            old(self).wf(),
        ensures
            final(self).wf(),
            *final(self) == old(self).published_spec(),
    {
        self.front_buffer = self.back_buffer;
        self.frame_ready = true;
        self.fetcher.wly = 0;
    }

    /// Moves the dot counter on.
    fn advance(&mut self)
        requires
            old(self).wf(),
            old(self).mode == Mode::DrawPixel ==> old(self).fetcher.lx < 160,
        ensures
            final(self).wf(),
            *final(self) == old(self).advanced_spec(),
    {
        if self.scanline_dot + 1 < LINE_DOTS {
            self.scanline_dot = self.scanline_dot + 1;
        } else {
            self.scanline_dot = 0;
            self.ly = (self.ly + 1) % FRAME_LINES;
            self.mode = if self.ly < 144 {
                Mode::OamScan
            } else {
                Mode::VBlank
            };
        }
    }

    /// One dot.  The interrupts that the dot requests are raised in `ints`.
    pub fn step(&mut self, ints: &mut InterruptManager)
        requires
            old(self).wf(),
            old(ints).wf(),
        ensures
            final(self).wf(),
            final(ints).wf(),
            *final(self) == old(self).step_spec(),
            *final(ints) == old(self).step_ints_spec(*old(ints)),
    {
        if self.is_disabled() {
            return ;
        }
        let prev_stat = self.stat_line;
        let now = self.request_stat();
        match self.mode {
            Mode::OamScan => self.oam_scan(),
            Mode::DrawPixel => self.draw(),
            Mode::HBlank => {},
            Mode::VBlank => {
                if self.scanline_dot == 0 && self.ly == 144 {
                    self.publish();
                    ints.interrupt(INT_VBLANK);
                }
            },
        }
        self.advance();
        self.stat_line = now;
        if !prev_stat && now {
            ints.interrupt(INT_STAT);
        }
    }

    /// Whether the bus may touch video memory now.
    fn is_vram_open(&self) -> (r: bool)
        ensures
            r == self.vram_open(),
    {
        !self.strict_access || self.is_disabled() || !matches!(self.mode, Mode::DrawPixel)
    }

    /// Whether the bus may touch the object table now.
    fn is_oam_open(&self) -> (r: bool)
        ensures
            r == self.oam_open(),
    {
        !self.strict_access || self.is_disabled() || (!matches!(self.mode, Mode::DrawPixel)
            && !matches!(self.mode, Mode::OamScan))
    }

    /// Reads the byte at `addr`.  The status register shows the mode in its two low
    /// bits and the coincidence of `LY` and `LYC` in bit 2.
    pub fn load(&self, addr: u16) -> (r: u8)
        ensures
            r == self.load_spec(addr),
            self.wf() && addr == 0xff41 ==> r & 0x03 == self.mode.number() && (r & 0x04 != 0) == (
            self.ly == self.lyc) && r & 0x78 == self.stat,
    {
        proof {
            if self.wf() {
                self.lemma_stat_bits();
            }
        }
        if 0x8000 <= addr && addr <= 0x9fff {
            if self.is_vram_open() {
                self.vram[(addr - 0x8000) as usize]
            } else {
                0xff
            }
        } else if 0xfe00 <= addr && addr <= 0xfe9f {
            if self.is_oam_open() {
                self.oam[(addr - 0xfe00) as usize]
            } else {
                0xff
            }
        } else if addr == 0xff40 {
            self.lcdc
        } else if addr == 0xff41 {
            self.stat | (if self.ly == self.lyc {
                4u8
            } else {
                0u8
            }) | self.mode.to_bits()
        } else if addr == 0xff42 {
            self.scy
        } else if addr == 0xff43 {
            self.scx
        } else if addr == 0xff44 {
            self.ly
        } else if addr == 0xff45 {
            self.lyc
        } else if addr == 0xff47 {
            self.bgp
        } else if addr == 0xff48 {
            self.obp0
        } else if addr == 0xff49 {
            self.obp1
        } else if addr == 0xff4a {
            self.wy
        } else if addr == 0xff4b {
            self.wx
        } else {
            0xff
        }
    }

    /// Writes `lcdc`.
    fn store_lcdc(&mut self, data: u8)
        requires
            old(self).wf(),
        ensures
            final(self).wf(),
            *final(self) == old(self).store_lcdc_spec(data),
    {
        if data & 0x80 == 0 {
            self.scanline_dot = 0;
            self.ly = 0;
            self.mode = Mode::HBlank;
            self.fetcher.lx = 0;
            self.back_buffer = [0u8;23040];
        } else if self.is_disabled() {
            self.scanline_dot = 0;
            self.ly = 0;
            self.mode = Mode::OamScan;
            self.fetcher.wly = 0;
        }
        self.lcdc = data;
    }

    /// Writes one of the registers `FF40`–`FF4B`.
    fn store_reg(&mut self, addr: u16, data: u8)
        requires
            old(self).wf(),
        ensures
            final(self).wf(),
            *final(self) == old(self).store_reg_spec(addr, data),
    {
        if addr == 0xff40 {
            self.store_lcdc(data);
        } else if addr == 0xff41 {
            assert((data & 0x78) & 0x87 == 0) by (bit_vector);
            self.stat = data & 0x78;
        } else if addr == 0xff42 {
            self.scy = data;
        } else if addr == 0xff43 {
            self.scx = data;
        } else if addr == 0xff45 {
            self.lyc = data;
        } else if addr == 0xff47 {
            self.bgp = data;
        } else if addr == 0xff48 {
            self.obp0 = data;
        } else if addr == 0xff49 {
            self.obp1 = data;
        } else if addr == 0xff4a {
            self.wy = data;
        } else if addr == 0xff4b {
            self.wx = data;
        }
    }

    /// Writes `data` to `addr`.
    pub fn store(&mut self, addr: u16, data: u8)
        requires
            old(self).wf(),
        ensures
            final(self).wf(),
            *final(self) == old(self).store_spec(addr, data),
    {
        if 0x8000 <= addr && addr <= 0x9fff {
            if self.is_vram_open() {
                self.vram[(addr - 0x8000) as usize] = data;
            }
        } else if 0xfe00 <= addr && addr <= 0xfe9f {
            if self.is_oam_open() {
                self.oam[(addr - 0xfe00) as usize] = data;
            }
        } else {
            self.store_reg(addr, data);
        }
    }

    /// Writes byte `i` of the object table for the DMA engine, which no mode stops.
    pub fn dma_write(&mut self, i: usize, data: u8)
        requires
            old(self).wf(),
            i < 160,
        ensures
            final(self).wf(),
            *final(self) == old(self).dma_spec(i as int, data),
    {
        self.oam[i] = data;
    }

    /// The last complete picture: 160 by 144 shades of 0..=3, row by row.
    pub fn frame(&self) -> (r: &[u8; 23040])
        requires
            self.wf(),
        ensures
            *r == self.front_buffer,
            forall|i: int| 0 <= i < 23040 ==> r[i] <= 3,
    {
        &self.front_buffer
    }

    /// Clears the picture flag: the host has the picture.
    pub fn take_frame(&mut self) -> (ready: bool)
        ensures
            ready == old(self).frame_ready,
            *final(self) == old(self).frame_taken(),
    {
        let ready = self.frame_ready;
        self.frame_ready = false;
        ready
    }

    /// The colour number at pixel `(x, y)` of the first tile map as it lies, with
    /// the tiles numbered from `1000`.
    pub open spec fn strip_pixel(self, x: int, y: int) -> u8 {
        let tile = self.vram[0x1800 + x / 8 + (y / 8) * 32];
        let row = 0x1000 + tile * 16 + (y % 8) * 2;
        pixel_color_spec(self.vram[row], self.vram[row + 1], (x % 8) as u8, false)
    }

    /// Draws the upper left 160 by 144 pixels of the first tile map into `fb`, row
    /// by row: the map as it lies, without scroll, objects or palette.  The picture
    /// is drawn whole, whichever strip is asked for.
    pub fn render_strip(&self, fb: &mut [u8], _y: usize)
        requires
            old(fb)@.len() >= 23040,
        ensures
            final(fb)@.len() == old(fb)@.len(),
            forall|x: int, y: int|
                0 <= x < 160 && 0 <= y < 144 ==> final(fb)@[y * 160 + x] == self.strip_pixel(x, y),
            forall|i: int| 23040 <= i < old(fb)@.len() ==> final(fb)@[i] == old(fb)@[i],
    {
        let mut i: usize = 0;
        while i < 23040
            invariant
                i <= 23040,
                fb@.len() == old(fb)@.len(),
                fb@.len() >= 23040,
                forall|j: int| 0 <= j < i ==> fb@[j] == self.strip_pixel(j % 160, j / 160),
                forall|j: int| 23040 <= j < fb@.len() ==> fb@[j] == old(fb)@[j],
            decreases 23040 - i,
        {
            let x = i % 160;
            let y = i / 160;
            let tile = self.vram[0x1800 + x / 8 + (y / 8) * 32] as usize;
            let row = 0x1000 + tile * 16 + (y % 8) * 2;
            fb[i] = pixel_color(self.vram[row], self.vram[row + 1], (x % 8) as u8, false);
            i = i + 1;
        }
        assert forall|x: int, y: int| 0 <= x < 160 && 0 <= y < 144 implies fb@[y * 160 + x]
            == self.strip_pixel(x, y) by {
            let j = y * 160 + x;
            assert(j % 160 == x && j / 160 == y);
        }
    }
}

} // verus!
