//! Cartridges: the header, and the four memory bank controllers.
use vstd::prelude::*;
use vstd::slice::slice_to_vec;

verus! {

/// Smallest image that holds a complete header.
pub const HEADER_END: usize = 0x150;

/// Bytes in one bank of cartridge ROM.
pub const ROM_BANK: usize = 0x4000;

/// Bytes in one bank of cartridge RAM.
pub const RAM_BANK: usize = 0x2000;

/// The part of a cartridge header that was found wrong.
#[derive(Debug, Clone, Copy, PartialEq, Eq, Structural)]
pub enum HeaderField {
    /// The image is shorter than a header.
    Length,
    /// The checksum byte at `014D` does not match the bytes `0134`–`014C`.
    Checksum,
    /// The RAM size code at `0149`.
    RamSize,
    /// A cartridge without controller that is not 32 KiB of ROM without RAM.
    Layout,
}

/// Why a cartridge was refused, or a save.
#[derive(Debug, Clone, Copy, PartialEq, Eq, Structural)]
pub enum Error {
    InvalidCartridge(HeaderField),
    /// The controller code at `0147` is none of those implemented.
    UnsupportedMapper(u8),
    /// A save of another length than the cartridge's RAM.
    SramSizeMismatch { expected: usize, found: usize },
}

impl HeaderField {
    /// Name of the field, for messages.
    pub open spec fn name_spec(self) -> Seq<char> {
        match self {
            HeaderField::Length => "image length"@,
            HeaderField::Checksum => "header checksum"@,
            HeaderField::RamSize => "RAM size code"@,
            HeaderField::Layout => "ROM-only layout"@,
        }
    }

    /// Name of the field, for messages.
    pub fn name(&self) -> (s: &'static str)
        ensures
            s@ == self.name_spec(),
    {
        match self {
            HeaderField::Length => "image length",
            HeaderField::Checksum => "header checksum",
            HeaderField::RamSize => "RAM size code",
            HeaderField::Layout => "ROM-only layout",
        }
    }
}

/// Which controller a cartridge has.
#[derive(Debug, Clone, Copy, PartialEq, Eq, Structural)]
pub enum MapperKind {
    NoMbc,
    Mbc1,
    Mbc3,
    Mbc5,
}

/// A cartridge: its ROM, its RAM, and the state of its controller.
#[allow(inconsistent_fields)]
pub enum Mapper {
    /// 32 KiB of ROM, no banking.
    NoMbc { rom: Vec<u8>, ram: Vec<u8> },
    Mbc1 {
        rom: Vec<u8>,
        ram: Vec<u8>,
        rom_mask: usize,
        ram_en: bool,
        rom_bk: u8,
        ram_bk: u8,
        mode: bool,
    },
    Mbc3 { rom: Vec<u8>, ram: Vec<u8>, rom_mask: usize, ram_en: bool, rom_bk: u8, ram_bk: u8 },
    Mbc5 { rom: Vec<u8>, ram: Vec<u8>, rom_mask: usize, ram_en: bool, rom_bk: u16, ram_bk: u8 },
}

/// A cartridge as a mathematical value.  Fields that a controller lacks are zero.
pub struct MapperView {
    pub kind: MapperKind,
    pub rom: Seq<u8>,
    pub ram: Seq<u8>,
    pub rom_mask: usize,
    pub ram_en: bool,
    pub rom_bk: u16,
    pub ram_bk: u8,
    pub mode: bool,
}

impl View for Mapper {
    type V = MapperView;

    open spec fn view(&self) -> MapperView {
        match *self {
            Mapper::NoMbc { rom, ram } => MapperView {
                kind: MapperKind::NoMbc,
                rom: rom@,
                ram: ram@,
                rom_mask: 0,
                ram_en: false,
                rom_bk: 0,
                ram_bk: 0,
                mode: false,
            },
            Mapper::Mbc1 { rom, ram, rom_mask, ram_en, rom_bk, ram_bk, mode } => MapperView {
                kind: MapperKind::Mbc1,
                rom: rom@,
                ram: ram@,
                rom_mask,
                ram_en,
                rom_bk: rom_bk as u16,
                ram_bk,
                mode,
            },
            Mapper::Mbc3 { rom, ram, rom_mask, ram_en, rom_bk, ram_bk } => MapperView {
                kind: MapperKind::Mbc3,
                rom: rom@,
                ram: ram@,
                rom_mask,
                ram_en,
                rom_bk: rom_bk as u16,
                ram_bk,
                mode: false,
            },
            Mapper::Mbc5 { rom, ram, rom_mask, ram_en, rom_bk, ram_bk } => MapperView {
                kind: MapperKind::Mbc5,
                rom: rom@,
                ram: ram@,
                rom_mask,
                ram_en,
                rom_bk,
                ram_bk,
                mode: false,
            },
        }
    }
}

// ------------------------------------------------------------------------- header
/// Sum of `byte + 1` over the bytes of `bin` from `lo` up to, not including, `hi`.
pub open spec fn header_sum(bin: Seq<u8>, lo: int, hi: int) -> int
    decreases hi - lo,
{
    if lo >= hi {
        0
    } else {
        header_sum(bin, lo, hi - 1) + bin[hi - 1] + 1
    }
}

/// The checksum that a header must carry at `014D`: the negated sum of `byte + 1`
/// over `0134`–`014C`, reduced to a byte.
pub open spec fn header_checksum(bin: Seq<u8>) -> int {
    (-header_sum(bin, 0x134, 0x14d)) % 256
}

/// Number of 16 KiB ROM banks for the size code `code` at `0148`: two, doubled
/// `code` times.
pub open spec fn rom_banks_of(code: nat) -> int
    decreases code,
{
    if code == 0 {
        2
    } else {
        2 * rom_banks_of((code - 1) as nat)
    }
}

/// The mask of a ROM address for the size code `code`: the size of the ROM less
/// one, or every bit of a machine word where the size is beyond a machine word.
pub open spec fn rom_mask_of(code: u8) -> usize {
    if rom_banks_of(code as nat) * ROM_BANK - 1 <= usize::MAX {
        (rom_banks_of(code as nat) * ROM_BANK - 1) as usize
    } else {
        usize::MAX
    }
}

/// A larger size code gives no fewer banks, and there are always at least two.
pub proof fn lemma_rom_banks_grow(i: nat, j: nat)
    requires
        i <= j,
    ensures
        2 <= rom_banks_of(i) <= rom_banks_of(j),
    decreases j,
{
    if i < j {
        lemma_rom_banks_grow(i, (j - 1) as nat);
    } else if i > 0 {
        lemma_rom_banks_grow((i - 1) as nat, (i - 1) as nat);
    }
}

/// Number of 8 KiB RAM banks for the size code at `0149`, if the code is known.
pub open spec fn ram_banks_of(code: u8) -> Option<int> {
    if code == 0x00 {
        Some(0)
    } else if code == 0x02 {
        Some(1)
    } else if code == 0x03 {
        Some(4)
    } else if code == 0x04 {
        Some(16)
    } else if code == 0x05 {
        Some(8)
    } else {
        None
    }
}

/// The controller for the code at `0147`, if it is one of those implemented.
pub open spec fn kind_of(code: u8) -> Option<MapperKind> {
    if code == 0x00 {
        Some(MapperKind::NoMbc)
    } else if 0x01 <= code <= 0x03 {
        Some(MapperKind::Mbc1)
    } else if 0x11 <= code <= 0x13 {
        Some(MapperKind::Mbc3)
    } else if 0x19 <= code <= 0x1e {
        Some(MapperKind::Mbc5)
    } else {
        None
    }
}

/// What the header of the image `bin` yields: the cartridge as it is at power-on,
/// or the first fault, looked for in the order length, checksum, RAM size,
/// controller, layout.  Every ROM size code is taken.
pub open spec fn parse_spec(bin: Seq<u8>) -> Result<MapperView, Error> {
    if bin.len() < HEADER_END {
        Err(Error::InvalidCartridge(HeaderField::Length))
    } else if header_checksum(bin) != bin[0x14d] {
        Err(Error::InvalidCartridge(HeaderField::Checksum))
    } else if ram_banks_of(bin[0x149]) is None {
        Err(Error::InvalidCartridge(HeaderField::RamSize))
    } else if kind_of(bin[0x147]) is None {
        Err(Error::UnsupportedMapper(bin[0x147]))
    } else {
        let ram_banks = ram_banks_of(bin[0x149])->0;
        let kind = kind_of(bin[0x147])->0;
        if kind == MapperKind::NoMbc {
            if bin[0x148] != 0 || ram_banks != 0 || bin.len() != 0x8000 {
                Err(Error::InvalidCartridge(HeaderField::Layout))
            } else {
                Ok(
                    MapperView {
                        kind,
                        rom: bin,
                        ram: Seq::empty(),
                        rom_mask: 0,
                        ram_en: false,
                        rom_bk: 0,
                        ram_bk: 0,
                        mode: false,
                    },
                )
            }
        } else {
            Ok(
                MapperView {
                    kind,
                    rom: bin,
                    ram: Seq::new((ram_banks * RAM_BANK) as nat, |i: int| 0xffu8),
                    rom_mask: rom_mask_of(bin[0x148]),
                    ram_en: false,
                    rom_bk: if kind == MapperKind::Mbc1 {
                        0
                    } else {
                        1
                    },
                    ram_bk: 0,
                    mode: false,
                },
            )
        }
    }
}

/// An image is refused for exactly these faults: it is shorter than a header, its
/// checksum is wrong, its RAM size code or its controller code is unknown, or it
/// has no controller and is not 32 KiB of ROM without RAM.  The ROM size code
/// alone refuses no image.
pub proof fn lemma_faults(bin: Seq<u8>)
    ensures
        parse_spec(bin) is Err <==> {
            ||| bin.len() < HEADER_END
            ||| header_checksum(bin) != bin[0x14d]
            ||| ram_banks_of(bin[0x149]) is None
            ||| kind_of(bin[0x147]) is None
            ||| bin[0x147] == 0 && (bin[0x148] != 0 || bin[0x149] != 0 || bin.len() != 0x8000)
        },
        parse_spec(bin) matches Ok(m) ==> m.rom == bin && (m.kind != MapperKind::NoMbc
            ==> m.rom_mask == rom_mask_of(bin[0x148])),
{
}

// --------------------------------------------------------------------- addressing
impl MapperView {
    /// The ROM bank that `4000`–`7FFF` shows.  A first controller selects bank 1
    /// where bank 0 is written, and in banking mode 0 takes the upper bits of the
    /// bank from the RAM bank register, which matters for ROMs of more than 32 banks.
    pub open spec fn rom_bank(self) -> int {
        if self.kind == MapperKind::Mbc1 {
            (if self.mode {
                0
            } else {
                self.ram_bk * 32
            }) + (if self.rom_bk == 0 {
                1
            } else {
                self.rom_bk as int
            })
        } else {
            self.rom_bk as int
        }
    }

    /// The RAM bank that `A000`–`BFFF` shows.  A first controller shows bank 0
    /// unless its banking mode is 1.
    pub open spec fn ram_bank(self) -> int {
        if self.kind == MapperKind::Mbc1 && !self.mode {
            0
        } else {
            self.ram_bk as int
        }
    }

    /// Place in the ROM of address `a` of `0000`–`7FFF`.
    pub open spec fn rom_index(self, a: u16) -> usize {
        if self.kind == MapperKind::NoMbc || a < 0x4000 {
            a as usize
        } else {
            ((self.rom_bank() * ROM_BANK + (a - 0x4000)) as usize) & self.rom_mask
        }
    }

    /// Place in the RAM of address `a` of `A000`–`BFFF`.
    pub open spec fn ram_index(self, a: u16) -> int {
        if self.kind == MapperKind::NoMbc {
            a - 0xa000
        } else {
            self.ram_bank() * RAM_BANK + (a - 0xa000)
        }
    }

    /// Whether the RAM answers: always without controller, else once enabled.
    pub open spec fn ram_open(self) -> bool {
        self.kind == MapperKind::NoMbc || self.ram_en
    }

    /// The byte read at `a`.  Outside the ROM and the RAM, and where the RAM is
    /// closed, reads give `FF`.
    pub open spec fn load(self, a: u16) -> u8 {
        if a < 0x8000 {
            let i = self.rom_index(a);
            if i < self.rom.len() {
                self.rom[i as int]
            } else {
                0xff
            }
        } else if 0xa000 <= a < 0xc000 {
            let i = self.ram_index(a);
            if self.ram_open() && i < self.ram.len() {
                self.ram[i]
            } else {
                0xff
            }
        } else {
            0xff
        }
    }

    /// The controller registers after a write of `d` into `0000`–`7FFF`.
    pub open spec fn control(self, a: u16, d: u8) -> MapperView {
        if self.kind == MapperKind::NoMbc {
            self
        } else if a < 0x2000 {
            MapperView { ram_en: d & 0x0f == 0x0a, ..self }
        } else if a < 0x4000 {
            if self.kind == MapperKind::Mbc1 {
                MapperView { rom_bk: (d & 0x1f) as u16, ..self }
            } else if self.kind == MapperKind::Mbc3 {
                MapperView {
                    rom_bk: if d & 0x7f == 0 {
                        1
                    } else {
                        (d & 0x7f) as u16
                    },
                    ..self
                }
            } else if a < 0x3000 {
                MapperView { rom_bk: ((self.rom_bk / 256) * 256 + d) as u16, ..self }
            } else {
                MapperView { rom_bk: (self.rom_bk % 256 + (d & 1) * 256) as u16, ..self }
            }
        } else if a < 0x6000 {
            if self.kind == MapperKind::Mbc1 {
                MapperView { ram_bk: d & 3, ..self }
            } else if self.kind == MapperKind::Mbc3 {
                if d < 4 {
                    MapperView { ram_bk: d, ..self }
                } else {
                    self
                }
            } else {
                MapperView { ram_bk: d & 0x0f, ..self }
            }
        } else {
            if self.kind == MapperKind::Mbc1 {
                MapperView { mode: d & 1 != 0, ..self }
            } else {
                self
            }
        }
    }

    /// The cartridge after a write of `d` to `a`.
    pub open spec fn store(self, a: u16, d: u8) -> MapperView {
        if a < 0x8000 {
            self.control(a, d)
        } else if 0xa000 <= a < 0xc000 {
            let i = self.ram_index(a);
            if self.ram_open() && i < self.ram.len() {
                MapperView { ram: self.ram.update(i, d), ..self }
            } else {
                self
            }
        } else {
            self
        }
    }

    /// The save RAM: nothing without controller.
    pub open spec fn get_sram(self) -> Option<Seq<u8>> {
        if self.kind == MapperKind::NoMbc {
            None
        } else {
            Some(self.ram)
        }
    }

    /// Whether a save of `n` bytes is accepted: always without controller, where it
    /// is ignored; else when it has the length of the RAM.
    pub open spec fn accepts_sram(self, n: nat) -> bool {
        self.kind == MapperKind::NoMbc || n == self.ram.len()
    }

    /// The cartridge after the save `sram` was restored.
    pub open spec fn set_sram(self, sram: Seq<u8>) -> MapperView {
        if self.kind == MapperKind::NoMbc || sram.len() != self.ram.len() {
            self
        } else {
            MapperView { ram: sram, ..self }
        }
    }
}

/// A first controller never shows bank 0 in `4000`–`7FFF` through its bank
/// register: where zero is written, it selects bank 1.
pub proof fn lemma_mbc1_bank_zero(m: MapperView, a: u16, d: u8)
    requires
        m.kind == MapperKind::Mbc1,
        0x2000 <= a < 0x4000,
        d & 0x1f == 0,
    ensures
        m.control(a, d).rom_bk == 0,
        m.control(a, d).rom_bank() == (if m.mode {
            1
        } else {
            m.ram_bk * 32 + 1
        }),
{
}

/// Restoring the save that was just taken changes nothing: every read gives what it
/// gave before.
pub proof fn lemma_sram_round_trip(m: MapperView, a: u16)
    ensures
        m.get_sram() matches Some(sram) ==> m.accepts_sram(sram.len()) && m.set_sram(sram) == m
            && m.set_sram(sram).load(a) == m.load(a),
{
}

/// A save that is restored is the save that is taken next.
pub proof fn lemma_sram_restored(m: MapperView, sram: Seq<u8>)
    requires
        m.kind != MapperKind::NoMbc,
        sram.len() == m.ram.len(),
    ensures
        m.set_sram(sram).get_sram() == Some(sram),
{
}

// --------------------------------------------------------------------- operations
/// The mask of a ROM address for a size code.
fn rom_mask(code: u8) -> (m: usize)
    ensures
        m == rom_mask_of(code),
{
    let mut size: usize = 2 * ROM_BANK;
    let mut i: u8 = 0;
    while i < code
        invariant
            i <= code,
            size == rom_banks_of(i as nat) * ROM_BANK,
        decreases code - i,
    {
        if size > usize::MAX / 2 {
            proof {
                lemma_rom_banks_grow((i + 1) as nat, code as nat);
                assert(rom_banks_of((i + 1) as nat) == 2 * rom_banks_of(i as nat));
            }
            return usize::MAX;
        }
        size = size * 2;
        i = i + 1;
    }
    proof {
        lemma_rom_banks_grow(0, code as nat);
    }
    size - 1
}

/// Number of 8 KiB RAM banks for a size code.
fn ram_banks(code: u8) -> (r: Option<usize>)
    ensures
        match r {
            Some(n) => ram_banks_of(code) == Some(n as int),
            None => ram_banks_of(code) is None,
        },
{
    if code == 0x00 {
        Some(0)
    } else if code == 0x02 {
        Some(1)
    } else if code == 0x03 {
        Some(4)
    } else if code == 0x04 {
        Some(16)
    } else if code == 0x05 {
        Some(8)
    } else {
        None
    }
}

/// The controller for a controller code.
fn kind_for(code: u8) -> (r: Option<MapperKind>)
    ensures
        r == kind_of(code),
{
    if code == 0x00 {
        Some(MapperKind::NoMbc)
    } else if 0x01 <= code && code <= 0x03 {
        Some(MapperKind::Mbc1)
    } else if 0x11 <= code && code <= 0x13 {
        Some(MapperKind::Mbc3)
    } else if 0x19 <= code && code <= 0x1e {
        Some(MapperKind::Mbc5)
    } else {
        None
    }
}

/// The checksum of the header of `bin`.
fn checksum(bin: &[u8]) -> (r: u8)
    requires
        bin@.len() >= HEADER_END,
    ensures
        r == header_checksum(bin@),
{
    let mut sum: u32 = 0;
    let mut a: usize = 0x134;
    while a < 0x14d
        invariant
            0x134 <= a <= 0x14d,
            bin@.len() >= HEADER_END,
            sum == header_sum(bin@, 0x134, a as int),
            sum <= 256 * (a - 0x134),
        decreases 0x14d - a,
    {
        sum = sum + bin[a] as u32 + 1;
        a = a + 1;
    }
    ((0x10000 - sum) % 256) as u8
}

/// RAM as a cartridge has it at power-on: `n` bytes of `FF`.
fn blank_ram(n: usize) -> (ram: Vec<u8>)
    ensures
        ram@ == Seq::new(n as nat, |i: int| 0xffu8),
{
    let ram = vec![0xffu8; n];
    assert(ram@ =~= Seq::new(n as nat, |i: int| 0xffu8));
    ram
}

/// Replaces `ram` by the save `sram` if the lengths agree.
fn restore(ram: &mut Vec<u8>, sram: &[u8]) -> (r: Result<(), Error>)
    ensures
        sram@.len() == old(ram)@.len() ==> r is Ok && final(ram)@ == sram@,
        sram@.len() != old(ram)@.len() ==> final(ram)@ == old(ram)@ && r == Err::<(), Error>(
            Error::SramSizeMismatch { expected: old(ram)@.len() as usize, found: sram@.len() as usize },
        ),
{
    if sram.len() != ram.len() {
        Err(Error::SramSizeMismatch { expected: ram.len(), found: sram.len() })
    } else {
        *ram = slice_to_vec(sram);
        Ok(())
    }
}

/// Writes `d` at place `i` of `ram` if the RAM is open and has that place.
fn write_ram(ram: &mut Vec<u8>, open: bool, i: usize, d: u8)
    ensures
        final(ram)@ == (if open && i < old(ram)@.len() {
            old(ram)@.update(i as int, d)
        } else {
            old(ram)@
        }),
{
    if open && i < ram.len() {
        ram.set(i, d);
    }
}

impl Mapper {
    /// Reads the header of a cartridge image and builds the cartridge.
    pub fn from_bin(bin: &[u8]) -> (r: Result<Mapper, Error>)
        ensures
            match r {
                Ok(m) => parse_spec(bin@) == Ok::<MapperView, Error>(m@),
                Err(e) => parse_spec(bin@) == Err::<MapperView, Error>(e),
            },
    {
        if bin.len() < HEADER_END {
            return Err(Error::InvalidCartridge(HeaderField::Length));
        }
        if checksum(bin) != bin[0x14d] {
            return Err(Error::InvalidCartridge(HeaderField::Checksum));
        }
        let ram_banks = match ram_banks(bin[0x149]) {
            Some(n) => n,
            None => {
                return Err(Error::InvalidCartridge(HeaderField::RamSize));
            },
        };
        let kind = match kind_for(bin[0x147]) {
            Some(k) => k,
            None => {
                return Err(Error::UnsupportedMapper(bin[0x147]));
            },
        };
        let rom_mask = rom_mask(bin[0x148]);
        match kind {
            MapperKind::NoMbc => {
                if bin[0x148] != 0 || ram_banks != 0 || bin.len() != 0x8000 {
                    return Err(Error::InvalidCartridge(HeaderField::Layout));
                }
                let ram = Vec::new();
                assert(ram@ =~= Seq::<u8>::empty());
                Ok(Mapper::NoMbc { rom: slice_to_vec(bin), ram })
            },
            MapperKind::Mbc1 => Ok(
                Mapper::Mbc1 {
                    rom: slice_to_vec(bin),
                    ram: blank_ram(ram_banks * RAM_BANK),
                    rom_mask,
                    ram_en: false,
                    rom_bk: 0,
                    ram_bk: 0,
                    mode: false,
                },
            ),
            MapperKind::Mbc3 => Ok(
                Mapper::Mbc3 {
                    rom: slice_to_vec(bin),
                    ram: blank_ram(ram_banks * RAM_BANK),
                    rom_mask,
                    ram_en: false,
                    rom_bk: 1,
                    ram_bk: 0,
                },
            ),
            MapperKind::Mbc5 => Ok(
                Mapper::Mbc5 {
                    rom: slice_to_vec(bin),
                    ram: blank_ram(ram_banks * RAM_BANK),
                    rom_mask,
                    ram_en: false,
                    rom_bk: 1,
                    ram_bk: 0,
                },
            ),
        }
    }

    /// Restores a save.  Without controller there is nothing to restore and the
    /// save is ignored; else its length must be that of the cartridge's RAM.
    pub fn set_sram(&mut self, sram: &[u8]) -> (r: Result<(), Error>)
        ensures
            final(self)@ == old(self)@.set_sram(sram@),
            r is Ok <==> old(self)@.accepts_sram(sram@.len()),
            r matches Err(e) ==> e == (Error::SramSizeMismatch {
                expected: old(self)@.ram.len() as usize,
                found: sram@.len() as usize,
            }),
    {
        match self {
            Mapper::NoMbc { .. } => Ok(()),
            Mapper::Mbc1 { ram, .. } => restore(ram, sram),
            Mapper::Mbc3 { ram, .. } => restore(ram, sram),
            Mapper::Mbc5 { ram, .. } => restore(ram, sram),
        }
    }

    /// The save RAM, if the cartridge has a controller.
    pub fn get_sram(&self) -> (r: Option<&[u8]>)
        ensures
            match r {
                Some(s) => self@.get_sram() == Some(s@),
                None => self@.get_sram() is None,
            },
    {
        match self {
            Mapper::NoMbc { .. } => None,
            Mapper::Mbc1 { ram, .. } | Mapper::Mbc3 { ram, .. } | Mapper::Mbc5 { ram, .. } => Some(
                ram.as_slice(),
            ),
        }
    }

    /// Reads the byte at `a`.
    pub fn load(&self, a: u16) -> (r: u8)
        ensures
            r == self@.load(a),
    {
        if a < 0x8000 {
            let i = self.rom_index(a);
            let rom = self.rom();
            if i < rom.len() {
                rom[i]
            } else {
                0xff
            }
        } else if 0xa000 <= a && a < 0xc000 {
            let i = self.ram_index(a);
            let ram = self.ram();
            if self.ram_open() && i < ram.len() {
                ram[i]
            } else {
                0xff
            }
        } else {
            0xff
        }
    }

    /// The ROM.
    pub fn rom(&self) -> (r: &Vec<u8>)
        ensures
            r@ == self@.rom,
    {
        match self {
            Mapper::NoMbc { rom, .. } => rom,
            Mapper::Mbc1 { rom, .. } => rom,
            Mapper::Mbc3 { rom, .. } => rom,
            Mapper::Mbc5 { rom, .. } => rom,
        }
    }

    /// The RAM.
    pub fn ram(&self) -> (r: &Vec<u8>)
        ensures
            r@ == self@.ram,
    {
        match self {
            Mapper::NoMbc { ram, .. } => ram,
            Mapper::Mbc1 { ram, .. } => ram,
            Mapper::Mbc3 { ram, .. } => ram,
            Mapper::Mbc5 { ram, .. } => ram,
        }
    }

    /// Whether the RAM answers.
    pub fn ram_open(&self) -> (r: bool)
        ensures
            r == self@.ram_open(),
    {
        match self {
            Mapper::NoMbc { .. } => true,
            Mapper::Mbc1 { ram_en, .. } => *ram_en,
            Mapper::Mbc3 { ram_en, .. } => *ram_en,
            Mapper::Mbc5 { ram_en, .. } => *ram_en,
        }
    }

    /// Place in the ROM of address `a` of `0000`–`7FFF`.
    pub fn rom_index(&self, a: u16) -> (i: usize)
        requires
            a < 0x8000,
        ensures
            i == self@.rom_index(a),
    {
        if a < 0x4000 {
            return a as usize;
        }
        let off = (a - 0x4000) as usize;
        match self {
            Mapper::NoMbc { .. } => a as usize,
            Mapper::Mbc1 { rom_bk, ram_bk, mode, rom_mask, .. } => {
                let low: usize = if *rom_bk == 0 {
                    1
                } else {
                    *rom_bk as usize
                };
                let high: usize = if *mode {
                    0
                } else {
                    *ram_bk as usize * 32
                };
                ((high + low) * ROM_BANK + off) & *rom_mask
            },
            Mapper::Mbc3 { rom_bk, rom_mask, .. } => (*rom_bk as usize * ROM_BANK + off)
                & *rom_mask,
            Mapper::Mbc5 { rom_bk, rom_mask, .. } => (*rom_bk as usize * ROM_BANK + off)
                & *rom_mask,
        }
    }

    /// Place in the RAM of address `a` of `A000`–`BFFF`.
    pub fn ram_index(&self, a: u16) -> (i: usize)
        requires
            0xa000 <= a < 0xc000,
        ensures
            i == self@.ram_index(a),
    {
        let off = (a - 0xa000) as usize;
        match self {
            Mapper::NoMbc { .. } => off,
            Mapper::Mbc1 { ram_bk, mode, .. } => mbc1_get_ram_bank(*ram_bk as usize, *mode)
                * RAM_BANK + off,
            Mapper::Mbc3 { ram_bk, .. } => *ram_bk as usize * RAM_BANK + off,
            Mapper::Mbc5 { ram_bk, .. } => *ram_bk as usize * RAM_BANK + off,
        }
    }

    /// Writes `d` to `a`: into the controller's registers below `8000`, into the
    /// RAM in `A000`–`BFFF`.
    pub fn store(&mut self, a: u16, d: u8)
        ensures
            final(self)@ == old(self)@.store(a, d),
    {
        if 0xa000 <= a && a < 0xc000 {
            let i = self.ram_index(a);
            let open = self.ram_open();
            match self {
                Mapper::NoMbc { ram, .. } => write_ram(ram, open, i, d),
                Mapper::Mbc1 { ram, .. } => write_ram(ram, open, i, d),
                Mapper::Mbc3 { ram, .. } => write_ram(ram, open, i, d),
                Mapper::Mbc5 { ram, .. } => write_ram(ram, open, i, d),
            }
        } else if a < 0x8000 {
            match self {
                Mapper::NoMbc { .. } => {},
                Mapper::Mbc1 { ram_en, rom_bk, ram_bk, mode, .. } => {
                    if a < 0x2000 {
                        *ram_en = d & 0x0f == 0x0a;
                    } else if a < 0x4000 {
                        *rom_bk = d & 0x1f;
                    } else if a < 0x6000 {
                        *ram_bk = d & 3;
                    } else {
                        *mode = d & 1 != 0;
                    }
                },
                Mapper::Mbc3 { ram_en, rom_bk, ram_bk, .. } => {
                    if a < 0x2000 {
                        *ram_en = d & 0x0f == 0x0a;
                    } else if a < 0x4000 {
                        *rom_bk = if d & 0x7f == 0 {
                            1
                        } else {
                            d & 0x7f
                        };
                    } else if a < 0x6000 {
                        if d < 4 {
                            *ram_bk = d;
                        }
                    }
                },
                Mapper::Mbc5 { ram_en, rom_bk, ram_bk, .. } => {
                    if a < 0x2000 {
                        *ram_en = d & 0x0f == 0x0a;
                    } else if a < 0x3000 {
                        *rom_bk = (*rom_bk / 256) * 256 + d as u16;
                    } else if a < 0x4000 {
                        proof {
                            crate::bits::lemma_and_le_u8(d, 1);
                        }
                        *rom_bk = *rom_bk % 256 + (d & 1) as u16 * 256;
                    } else if a < 0x6000 {
                        *ram_bk = d & 0x0f;
                    }
                },
            }
        }
    }
}

/// The RAM bank that a first controller shows for bank register `rbk` in banking
/// mode `mode`.
pub fn mbc1_get_ram_bank(rbk: usize, mode: bool) -> (r: usize)
    ensures
        r == (if mode {
            rbk
        } else {
            0
        }),
{
    if mode {
        rbk
    } else {
        0
    }
}

} // verus!
