//! The memory bus of the console: the memory map, the joypad, the timer and the
//! engine that copies the object table.
use crate::apu::Apu;
use crate::interrupts::{InterruptManager, INT_TIMER};
use crate::mapper::{Mapper, MapperView};
use crate::ppu::Ppu;
use crate::timer::Timer;
use vstd::prelude::*;

verus! {

/// Bytes that the DMA engine copies: the object table.
pub const DMA_LENGTH: u8 = 0xa0;

/// What the joypad register reads: the two unused bits set, the row selection, and
/// in the low nibble a zero for each pressed key of a selected row.  `keys` has a
/// one for each pressed key: the directions in the low nibble, the buttons in the
/// high; a row is selected by a zero in bit 4 (directions) or 5 (buttons) of `sel`.
pub open spec fn joypad_spec(sel: u8, keys: u8) -> u8 {
    let directions: u8 = if sel & 0x10 == 0 {
        keys & 0x0f
    } else {
        0
    };
    let buttons: u8 = if sel & 0x20 == 0 {
        keys >> 4
    } else {
        0
    };
    (0xcf | sel) & !directions & !buttons
}

/// What the joypad register reads.
pub fn joypad(sel: u8, keys: u8) -> (r: u8)
    ensures
        r == joypad_spec(sel, keys),
{
    let directions: u8 = if sel & 0x10 == 0 {
        keys & 0x0f
    } else {
        0
    };
    let buttons: u8 = if sel & 0x20 == 0 {
        keys >> 4
    } else {
        0
    };
    (0xcf | sel) & !directions & !buttons
}

/// Everything behind the bus.
pub struct Bus {
    pub ppu: Ppu,
    pub apu: Apu,
    pub mapper: Mapper,
    pub wram: [u8; 8192],
    pub hram: [u8; 127],
    /// High byte of the address that the DMA engine copies from.
    pub oam_dma_src: u8,
    /// Bytes that the DMA engine has copied; from `DMA_LENGTH` on it is idle.
    pub oam_dma_idx: u8,
    /// The byte that the DMA engine copied last.
    pub oam_dma_byte: u8,
    pub timer: Timer,
    /// The keys that are pressed, as the host last told.
    pub keys: u8,
    /// The row selection of the joypad register.
    pub key_sel: u8,
    /// The boot image, while it is mapped.
    pub boot_rom: Option<Vec<u8>>,
}

/// The bus as a mathematical value.
pub struct BusView {
    pub ppu: Ppu,
    pub apu: Apu,
    pub mapper: MapperView,
    pub wram: [u8; 8192],
    pub hram: [u8; 127],
    pub oam_dma_src: u8,
    pub oam_dma_idx: u8,
    pub oam_dma_byte: u8,
    pub timer: Timer,
    pub keys: u8,
    pub key_sel: u8,
    pub boot_rom: Option<Seq<u8>>,
}

impl View for Bus {
    type V = BusView;

    open spec fn view(&self) -> BusView {
        BusView {
            ppu: self.ppu,
            apu: self.apu,
            mapper: self.mapper@,
            wram: self.wram,
            hram: self.hram,
            oam_dma_src: self.oam_dma_src,
            oam_dma_idx: self.oam_dma_idx,
            oam_dma_byte: self.oam_dma_byte,
            timer: self.timer,
            keys: self.keys,
            key_sel: self.key_sel,
            boot_rom: match self.boot_rom {
                Some(b) => Some(b@),
                None => None,
            },
        }
    }
}

impl BusView {
    /// The units are well formed and a boot image has 256 bytes.
    pub open spec fn wf(self) -> bool {
        &&& self.ppu.wf()
        &&& self.apu.wf()
        &&& self.boot_rom matches Some(b) ==> b.len() == 256
    }

    /// The bus at power-on around the given units and cartridge: the two RAMs zero,
    /// the DMA engine idle, the timer zero, no key pressed, no row selected.
    pub open spec fn power_on(
        ppu: Ppu,
        apu: Apu,
        mapper: MapperView,
        boot_rom: Option<Seq<u8>>,
    ) -> BusView {
        BusView {
            ppu,
            apu,
            mapper,
            wram: vstd::array::spec_array_fill_for_copy_type::<u8, 8192>(0),
            hram: vstd::array::spec_array_fill_for_copy_type::<u8, 127>(0),
            oam_dma_src: 0xff,
            oam_dma_idx: 0xff,
            oam_dma_byte: 0xff,
            timer: Timer::zero(),
            keys: 0,
            key_sel: 0xc0,
            boot_rom,
        }
    }

    /// Whether the DMA engine is copying.
    pub open spec fn dma_active(self) -> bool {
        self.oam_dma_idx < DMA_LENGTH
    }

    /// The byte of the input and output page at `a` of `FF00`–`FF7F`.
    pub open spec fn io_load(self, a: u16) -> u8 {
        if a == 0xff00 {
            joypad_spec(self.key_sel, self.keys)
        } else if a == 0xff01 {
            0x00
        } else if a == 0xff02 {
            0x7e
        } else if a == 0xff05 {
            self.timer.tima
        } else if a == 0xff06 {
            self.timer.tma
        } else if a == 0xff07 {
            self.timer.tac
        } else if a == 0xff46 {
            self.oam_dma_src
        } else if 0xff10 <= a <= 0xff3f {
            self.apu.load_spec(a)
        } else if 0xff40 <= a <= 0xff4b {
            self.ppu.load_spec(a)
        } else {
            0xff
        }
    }

    /// The byte at `a` as the memory map gives it, the DMA engine aside.
    pub open spec fn raw_load(self, a: u16) -> u8 {
        if a <= 0x00ff && self.boot_rom is Some {
            self.boot_rom->0[a as int]
        } else if a <= 0x7fff || 0xa000 <= a <= 0xbfff {
            self.mapper.load(a)
        } else if a <= 0x9fff || 0xfe00 <= a <= 0xfe9f {
            self.ppu.load_spec(a)
        } else if a <= 0xdfff {
            self.wram[a - 0xc000]
        } else if a <= 0xfdff {
            self.wram[a - 0xe000]
        } else if a <= 0xfeff {
            0xff
        } else if a <= 0xff7f {
            self.io_load(a)
        } else if a <= 0xfffe {
            self.hram[a - 0xff80]
        } else {
            0xff
        }
    }

    /// The byte that the processor reads at `a`.  While the DMA engine copies, every
    /// address outside high RAM gives the byte that the engine copied last.
    pub open spec fn load(self, a: u16) -> u8 {
        if self.dma_active() && !(0xff80 <= a <= 0xfffe) {
            self.oam_dma_byte
        } else {
            self.raw_load(a)
        }
    }

    /// The bus after a write of `d` into the input and output page.
    pub open spec fn io_store(self, a: u16, d: u8) -> BusView {
        if a == 0xff00 {
            BusView { key_sel: d & 0x30, ..self }
        } else if a == 0xff04 {
            BusView { timer: self.timer.div_reset_spec(), ..self }
        } else if a == 0xff05 {
            BusView { timer: self.timer.store_tima_spec(d), ..self }
        } else if a == 0xff06 {
            BusView { timer: Timer { tma: d, ..self.timer }, ..self }
        } else if a == 0xff07 {
            BusView { timer: Timer { tac: d & 7, ..self.timer }, ..self }
        } else if a == 0xff46 {
            BusView { oam_dma_src: d, oam_dma_idx: 0, ..self }
        } else if 0xff10 <= a <= 0xff3f {
            BusView { apu: self.apu.store_spec(a, d), ..self }
        } else if 0xff40 <= a <= 0xff4b {
            BusView { ppu: self.ppu.store_spec(a, d), ..self }
        } else {
            self
        }
    }

    /// The bus after a write of `d` to `a`.  The first write to `FF50` unmaps the
    /// boot image.
    pub open spec fn store(self, a: u16, d: u8) -> BusView {
        if a == 0xff50 && self.boot_rom is Some {
            BusView { boot_rom: None, ..self }
        } else if a <= 0x7fff || 0xa000 <= a <= 0xbfff {
            BusView { mapper: self.mapper.store(a, d), ..self }
        } else if a <= 0x9fff || 0xfe00 <= a <= 0xfe9f {
            BusView { ppu: self.ppu.store_spec(a, d), ..self }
        } else if a <= 0xdfff {
            BusView { wram: vstd::array::spec_array_update(self.wram, a - 0xc000, d), ..self }
        } else if a <= 0xfdff {
            BusView { wram: vstd::array::spec_array_update(self.wram, a - 0xe000, d), ..self }
        } else if a <= 0xfeff {
            self
        } else if a <= 0xff7f {
            self.io_store(a, d)
        } else if a <= 0xfffe {
            BusView { hram: vstd::array::spec_array_update(self.hram, a - 0xff80, d), ..self }
        } else {
            self
        }
    }

    /// The address that the DMA engine copies from next.
    pub open spec fn dma_source(self) -> u16 {
        (self.oam_dma_src * 256 + self.oam_dma_idx) as u16
    }

    /// The bus after the DMA engine had its T-cycle: while it is active it copies
    /// one byte into the object table.
    pub open spec fn dma_step(self) -> BusView {
        if self.dma_active() {
            let byte = self.raw_load(self.dma_source());
            BusView {
                ppu: self.ppu.dma_spec(self.oam_dma_idx as int, byte),
                oam_dma_byte: byte,
                oam_dma_idx: (self.oam_dma_idx + 1) as u8,
                ..self
            }
        } else {
            self
        }
    }

    /// The bus after one T-cycle in which the divider is `div`: the pixel unit, the
    /// audio unit, the DMA engine and the timer advance, in this order.
    pub open spec fn step(self, div: u16) -> BusView {
        let b = BusView {
            ppu: self.ppu.step_spec(),
            apu: self.apu.step_spec(div & 0x1000 != 0),
            ..self
        }.dma_step();
        BusView { timer: self.timer.step_spec(div), ..b }
    }

    /// The interrupt registers after that T-cycle.
    pub open spec fn step_ints(self, ints: InterruptManager) -> InterruptManager {
        let i = self.ppu.step_ints_spec(ints);
        if self.timer.requests() {
            i.raise_spec(INT_TIMER)
        } else {
            i
        }
    }

    /// When a tick overflows `TIMA`, the timer interrupt is not requested in that
    /// T-cycle but in the next, and in that next cycle `TIMA` holds `TMA`.
    pub proof fn lemma_timer_overflow(self, div: u16, next: u16, ints: InterruptManager)
        requires
            !self.timer.reload,
            self.timer.tima == 0xff,
            self.timer.falls(div),
        ensures
            ({
                let b1 = self.step(div);
                let i1 = self.step_ints(ints);
                let b2 = b1.step(next);
                let i2 = b1.step_ints(i1);
                &&& b1.timer.tima == 0
                &&& i1.requested(INT_TIMER) == ints.requested(INT_TIMER)
                &&& b2.timer.tima == self.timer.tma
                &&& i2.requested(INT_TIMER)
            }),
    {
        self.timer.lemma_overflow(div, next);
        self.ppu.lemma_step_ints(ints);
        let b1 = self.step(div);
        let i1 = self.step_ints(ints);
        let j = b1.ppu.step_ints_spec(i1);
        j.lemma_raise(INT_TIMER, INT_TIMER);
    }

    /// While the DMA engine copies, the processor reads high RAM as ever, and from
    /// every other address the byte that the engine copied last.
    pub proof fn lemma_dma_conflict(self, a: u16)
        requires
            self.dma_active(),
        ensures
            0xff80 <= a <= 0xfffe ==> self.load(a) == self.hram[a - 0xff80],
            !(0xff80 <= a <= 0xfffe) ==> self.load(a) == self.oam_dma_byte,
    {
    }
}

impl Bus {
    /// A bus at power-on around the given units and cartridge.  A boot image must
    /// have 256 bytes.
    pub fn new(ppu: Ppu, apu: Apu, mapper: Mapper, boot_rom: Option<Vec<u8>>) -> (b: Bus)
        requires
            ppu.wf(),
            apu.wf(),
            boot_rom matches Some(image) ==> image@.len() == 256,
        ensures
            b@.wf(),
            b.mapper == mapper,
            b.boot_rom == boot_rom,
            b@ == BusView::power_on(ppu, apu, mapper@, b@.boot_rom),
    {
        Bus {
            ppu,
            apu,
            mapper,
            wram: [0u8;8192],
            hram: [0u8;127],
            oam_dma_src: 0xff,
            oam_dma_idx: 0xff,
            oam_dma_byte: 0xff,
            timer: Timer::new(),
            keys: 0,
            key_sel: 0xc0,
            boot_rom,
        }
    }

    /// Tells the bus which keys are pressed: a one for each, the directions right,
    /// left, up, down in bits 0..=3, the buttons A, B, select, start in bits 4..=7.
    pub fn set_keys(&mut self, keys: u8)
        ensures
            final(self)@ == (BusView { keys, ..old(self)@ }),
    {
        self.keys = keys;
    }

    /// Reads the input and output page.
    fn load_io(&self, a: u16) -> (r: u8)
        requires
            self@.wf(),
            0xff00 <= a <= 0xff7f,
        ensures
            r == self@.io_load(a),
    {
        if a == 0xff00 {
            joypad(self.key_sel, self.keys)
        } else if a == 0xff01 {
            0x00
        } else if a == 0xff02 {
            0x7e
        } else if a == 0xff05 {
            self.timer.tima
        } else if a == 0xff06 {
            self.timer.tma
        } else if a == 0xff07 {
            self.timer.tac
        } else if a == 0xff46 {
            self.oam_dma_src
        } else if 0xff10 <= a && a <= 0xff3f {
            self.apu.load(a)
        } else if 0xff40 <= a && a <= 0xff4b {
            self.ppu.load(a)
        } else {
            0xff
        }
    }

    /// Reads the byte at `a` as the memory map gives it.
    pub fn read_raw(&self, a: u16) -> (r: u8)
        requires
            self@.wf(),
        ensures
            r == self@.raw_load(a),
    {
        if a <= 0x00ff {
            match &self.boot_rom {
                Some(image) => {
                    return image[a as usize];
                },
                None => {},
            }
        }
        if a <= 0x7fff || (0xa000 <= a && a <= 0xbfff) {
            self.mapper.load(a)
        } else if a <= 0x9fff || (0xfe00 <= a && a <= 0xfe9f) {
            self.ppu.load(a)
        } else if a <= 0xdfff {
            self.wram[(a - 0xc000) as usize]
        } else if a <= 0xfdff {
            self.wram[(a - 0xe000) as usize]
        } else if a <= 0xfeff {
            0xff
        } else if a <= 0xff7f {
            self.load_io(a)
        } else if a <= 0xfffe {
            self.hram[(a - 0xff80) as usize]
        } else {
            0xff
        }
    }

    /// Reads the byte at `a` as the processor sees it.
    pub fn read(&self, a: u16) -> (r: u8)
        requires
            self@.wf(),
        ensures
            r == self@.load(a),
    {
        if self.oam_dma_idx < DMA_LENGTH && !(0xff80 <= a && a <= 0xfffe) {
            self.oam_dma_byte
        } else {
            self.read_raw(a)
        }
    }

    /// Writes into the input and output page.
    fn store_io(&mut self, a: u16, d: u8)
        requires
            old(self)@.wf(),
            0xff00 <= a <= 0xff7f,
        ensures
            final(self)@.wf(),
            final(self)@ == old(self)@.io_store(a, d),
    {
        if a == 0xff00 {
            self.key_sel = d & 0x30;
        } else if a == 0xff04 {
            self.timer.div_reset();
        } else if a == 0xff05 {
            self.timer.store_tima(d);
        } else if a == 0xff06 {
            self.timer.tma = d;
        } else if a == 0xff07 {
            self.timer.tac = d & 7;
        } else if a == 0xff46 {
            self.oam_dma_src = d;
            self.oam_dma_idx = 0;
        } else if 0xff10 <= a && a <= 0xff3f {
            self.apu.store(a, d);
        } else if 0xff40 <= a && a <= 0xff4b {
            self.ppu.store(a, d);
        }
    }

    /// Writes `d` to `a`.
    pub fn write(&mut self, a: u16, d: u8)
        requires
            old(self)@.wf(),
        ensures
            final(self)@.wf(),
            final(self)@ == old(self)@.store(a, d),
    {
        if a == 0xff50 && self.boot_rom.is_some() {
            self.boot_rom = None;
        } else if a <= 0x7fff || (0xa000 <= a && a <= 0xbfff) {
            self.mapper.store(a, d);
        } else if a <= 0x9fff || (0xfe00 <= a && a <= 0xfe9f) {
            self.ppu.store(a, d);
        } else if a <= 0xdfff {
            self.wram[(a - 0xc000) as usize] = d;
        } else if a <= 0xfdff {
            self.wram[(a - 0xe000) as usize] = d;
        } else if a <= 0xfeff {
        } else if a <= 0xff7f {
            self.store_io(a, d);
        } else if a <= 0xfffe {
            self.hram[(a - 0xff80) as usize] = d;
        }
    }

    /// The T-cycle of the DMA engine.
    fn step_dma(&mut self)
        requires
            old(self)@.wf(),
        ensures
            final(self)@.wf(),
            final(self)@ == old(self)@.dma_step(),
    {
        if self.oam_dma_idx < DMA_LENGTH {
            let source = self.oam_dma_src as u16 * 256 + self.oam_dma_idx as u16;
            let byte = self.read_raw(source);
            self.ppu.dma_write(self.oam_dma_idx as usize, byte);
            self.oam_dma_byte = byte;
            self.oam_dma_idx = self.oam_dma_idx + 1;
        }
    }

    /// One T-cycle of everything behind the bus.
    pub fn tick(&mut self, div: u16, ints: &mut InterruptManager)
        requires
            old(self)@.wf(),
            old(ints).wf(),
        ensures
            final(self)@.wf(),
            final(ints).wf(),
            final(self)@ == old(self)@.step(div),
            *final(ints) == old(self)@.step_ints(*old(ints)),
    {
        self.ppu.step(ints);
        self.apu.step(div & 0x1000 != 0);
        self.step_dma();
        if self.timer.step(div) {
            ints.interrupt(INT_TIMER);
        }
    }
}

impl crate::sm83::bus::Bus for Bus {
    open spec fn inv(v: BusView) -> bool {
        v.wf()
    }

    open spec fn load_spec(v: BusView, a: u16) -> (BusView, u8) {
        (v, v.load(a))
    }

    open spec fn store_spec(v: BusView, a: u16, d: u8) -> BusView {
        v.store(a, d)
    }

    open spec fn external_step_spec(v: BusView, div: u16, ints: InterruptManager) -> (
        BusView,
        InterruptManager,
    ) {
        (v.step(div), v.step_ints(ints))
    }

    fn load(&mut self, a: u16) -> (r: u8) {
        self.read(a)
    }

    fn store(&mut self, a: u16, d: u8) {
        self.write(a, d)
    }

    fn external_step(&mut self, div: u16, ints: &mut InterruptManager) {
        self.tick(div, ints)
    }
}

} // verus!
