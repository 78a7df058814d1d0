//! The console: a processor that owns the bus, which owns the units and the
//! cartridge.
use crate::apu::{Apu, Channel1, Envelope};
use crate::bus::{Bus, BusView};
use crate::interrupts::InterruptManager;
use crate::mapper::{Error, Mapper, MapperView};
use crate::ppu::unit::Mode;
use crate::ppu::Ppu;
use crate::sm83::alu::{flags, pack_flags};
use crate::sm83::cpu::{Sm83, Sm83View, State};
use crate::timer::Timer;
use vstd::prelude::*;

verus! {

/// The console.
pub struct Gameboy {
    pub cpu: Sm83<Bus>,
}

/// The registers as the boot image leaves them, for a cartridge whose header
/// checksum is `checksum`: the half-carry and carry flags are set unless it is zero.
pub open spec fn post_boot_regs(checksum: u8) -> State {
    State {
        a: 0x01,
        b: 0x00,
        c: 0x13,
        d: 0x00,
        e: 0xd8,
        f: flags(true, false, checksum != 0, checksum != 0),
        h: 0x01,
        l: 0x4d,
        pc: 0x0100,
        sp: 0xfffe,
        ir: 0,
    }
}

/// The first pulse channel as the boot image leaves it, after its chime.
pub open spec fn post_boot_channel() -> Channel1 {
    Channel1 {
        active: true,
        triggered: false,
        pan_left: true,
        pan_right: true,
        sweep_pace: 0,
        sweep_dir: false,
        sweep_step: 0,
        sweep_enabled: false,
        sweep_timer: 8,
        duty: 2,
        period: 1985,
        internal_period: 1985,
        envelope: Envelope { init_vol: 15, env_dir: false, pace: 3, volume: 0, pace_timer: 3 },
        length_timer: 64,
        length_en: false,
        freq_timer: 184,
        duty_pos: 7,
    }
}

impl View for Gameboy {
    type V = Sm83View<BusView>;

    open spec fn view(&self) -> Sm83View<BusView> {
        self.cpu@
    }
}

impl Gameboy {
    pub open spec fn wf(self) -> bool {
        self.cpu.wf()
    }

    /// The console at power-on, about to run the boot image `boot_rom`: every
    /// register zero, the units at power-on.
    pub open spec fn power_on_spec(mapper: MapperView, boot_rom: Option<Seq<u8>>) -> Sm83View<
        BusView,
    > {
        Sm83View {
            bus: BusView::power_on(Ppu::power_on(), Apu::power_on(), mapper, boot_rom),
            regs: State { a: 0, b: 0, c: 0, d: 0, e: 0, f: 0, h: 0, l: 0, pc: 0, sp: 0, ir: 0 },
            div: 0,
            ints: InterruptManager { enable: 0, pending: 0 },
            ime: false,
            ime_pending: false,
            halted: false,
            cycles: 0,
        }
    }

    /// The console in the state in which a boot image hands over to the cartridge:
    /// the processor at `0100`, the picture on in the last line of a frame, the
    /// audio on after the chime, the vertical-blank interrupt requested.
    pub open spec fn post_boot_spec(mapper: MapperView) -> Sm83View<BusView> {
        let cold = Self::power_on_spec(mapper, None);
        Sm83View {
            regs: post_boot_regs(mapper.load(0x014d)),
            div: 0xabcc,
            ints: InterruptManager { enable: 0, pending: 0x01 },
            bus: BusView {
                timer: Timer { tac: 0xf8, ..Timer::zero() },
                apu: Apu {
                    seq_timer: 2,
                    last_div_edge: true,
                    enable: true,
                    volume_left: 7,
                    volume_right: 7,
                    ch1: post_boot_channel(),
                    ..Apu::power_on()
                },
                ppu: Ppu {
                    lcdc: 0x91,
                    ly: 153,
                    mode: Mode::VBlank,
                    bgp: 0xfc,
                    ..Ppu::power_on()
                },
                ..cold.bus
            },
            ..cold
        }
    }

    /// The console as it starts: with a boot image at power-on, without one in the
    /// state in which a boot image hands over.
    pub open spec fn start_spec(mapper: MapperView, boot_rom: Option<Seq<u8>>) -> Sm83View<
        BusView,
    > {
        if boot_rom is Some {
            Self::power_on_spec(mapper, boot_rom)
        } else {
            Self::post_boot_spec(mapper)
        }
    }

    /// A console with the cartridge `mapper`.  With a boot image, which must have
    /// 256 bytes, it starts at power-on and runs the image; without one it starts in
    /// the state in which a boot image hands over.
    pub fn new(mapper: Mapper, boot_rom: Option<Vec<u8>>) -> (gb: Gameboy)
        requires
            boot_rom matches Some(image) ==> image@.len() == 256,
        ensures
            gb.wf(),
            gb.cpu.bus.mapper == mapper,
            gb.cpu.bus.boot_rom == boot_rom,
            gb@ == Self::start_spec(mapper@, gb@.bus.boot_rom),
    {
        let have_boot = boot_rom.is_some();
        let bus = Bus::new(Ppu::new(), Apu::new(), mapper, boot_rom);
        let mut cpu = Sm83::new(bus);
        if !have_boot {
            let checksum = cpu.bus.mapper.load(0x014d);
            cpu.regs = State {
                a: 0x01,
                b: 0x00,
                c: 0x13,
                d: 0x00,
                e: 0xd8,
                f: pack_flags(true, false, checksum != 0, checksum != 0),
                h: 0x01,
                l: 0x4d,
                pc: 0x0100,
                sp: 0xfffe,
                ir: 0,
            };
            cpu.div = 0xabcc;
            cpu.ints.pending = 0x01;
            cpu.bus.timer.tac = 0xf8;
            cpu.bus.apu.seq_timer = 2;
            cpu.bus.apu.last_div_edge = true;
            cpu.bus.apu.enable = true;
            cpu.bus.apu.volume_left = 7;
            cpu.bus.apu.volume_right = 7;
            cpu.bus.apu.ch1 = Channel1 {
                active: true,
                triggered: false,
                pan_left: true,
                pan_right: true,
                sweep_pace: 0,
                sweep_dir: false,
                sweep_step: 0,
                sweep_enabled: false,
                sweep_timer: 8,
                duty: 2,
                period: 1985,
                internal_period: 1985,
                envelope: Envelope {
                    init_vol: 15,
                    env_dir: false,
                    pace: 3,
                    volume: 0,
                    pace_timer: 3,
                },
                length_timer: 64,
                length_en: false,
                freq_timer: 184,
                duty_pos: 7,
            };
            cpu.bus.ppu.lcdc = 0x91;
            cpu.bus.ppu.ly = 153;
            cpu.bus.ppu.mode = Mode::VBlank;
            cpu.bus.ppu.bgp = 0xfc;
        }
        Gameboy { cpu }
    }

    /// Runs one instruction, or one T-cycle while the processor is halted.
    pub fn step(&mut self)
        requires
            old(self).wf(),
        ensures
            final(self).wf(),
            final(self)@ == Sm83::<Bus>::step_spec(old(self)@),
    {
        self.cpu.step();
    }

    /// Restores a save into the cartridge's RAM.
    pub fn set_sram(&mut self, sram: &[u8]) -> (r: Result<(), Error>)
        requires
            old(self).wf(),
        ensures
            final(self).wf(),
            final(self)@ == (Sm83View {
                bus: BusView {
                    mapper: old(self)@.bus.mapper.set_sram(sram@),
                    ..old(self)@.bus
                },
                ..old(self)@
            }),
            r is Ok <==> old(self)@.bus.mapper.accepts_sram(sram@.len()),
            r matches Err(e) ==> e == (Error::SramSizeMismatch {
                expected: old(self)@.bus.mapper.ram.len() as usize,
                found: sram@.len() as usize,
            }),
    {
        self.cpu.bus.mapper.set_sram(sram)
    }

    /// The cartridge's RAM, to be saved, if the cartridge has a controller.
    pub fn get_sram(&self) -> (r: Option<&[u8]>)
        ensures
            match r {
                Some(s) => self@.bus.mapper.get_sram() == Some(s@),
                None => self@.bus.mapper.get_sram() is None,
            },
    {
        self.cpu.bus.mapper.get_sram()
    }

    /// Tells the console which keys are pressed: a one for each, the directions
    /// right, left, up, down in bits 0..=3, the buttons A, B, select, start in bits
    /// 4..=7.
    pub fn set_keys(&mut self, keys: u8)
        requires
            old(self).wf(),
        ensures
            final(self).wf(),
            final(self)@ == (Sm83View { bus: BusView { keys, ..old(self)@.bus }, ..old(self)@ }),
    {
        self.cpu.bus.set_keys(keys);
    }

    /// The last complete picture: 160 by 144 shades of 0..=3, row by row.
    pub fn frame(&self) -> (r: &[u8; 23040])
        requires
            self.wf(),
        ensures
            *r == self@.bus.ppu.front_buffer,
            forall|i: int| 0 <= i < 23040 ==> r[i] <= 3,
    {
        self.cpu.bus.ppu.frame()
    }

    /// Whether a picture was completed since the last call; the flag is cleared.
    pub fn take_frame(&mut self) -> (ready: bool)
        requires
            old(self).wf(),
        ensures
            final(self).wf(),
            ready == old(self)@.bus.ppu.frame_ready,
            final(self)@ == (Sm83View {
                bus: BusView { ppu: old(self)@.bus.ppu.frame_taken(), ..old(self)@.bus },
                ..old(self)@
            }),
    {
        self.cpu.bus.ppu.take_frame()
    }

    /// The batch of stereo frames: samples of sixteen bits, left first.
    pub fn audio(&self) -> (r: &[i16; 2048])
        ensures
            *r == self@.bus.apu.buffer,
    {
        self.cpu.bus.apu.batch()
    }

    /// Whether a batch was completed since the last call; the flag is cleared.  The
    /// batch is to be read before the next step.
    pub fn take_audio(&mut self) -> (ready: bool)
        requires
            old(self).wf(),
        ensures
            final(self).wf(),
            ready == old(self)@.bus.apu.batch_ready,
            final(self)@ == (Sm83View {
                bus: BusView { apu: old(self)@.bus.apu.batch_taken(), ..old(self)@.bus },
                ..old(self)@
            }),
    {
        self.cpu.bus.apu.take_batch()
    }
}

} // verus!
