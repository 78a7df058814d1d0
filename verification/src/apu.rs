//! The audio unit: two pulse channels, a wave channel, a noise channel, the frame
//! sequencer that clocks their lengths, sweep and envelopes, and the mixer that
//! fills a buffer of stereo frames.
use crate::bits::{lemma_and_le_u8, lemma_shr_le_u16};
use vstd::prelude::*;

verus! {

/// Stereo frames per second that the mixer produces.
pub const SAMPLE_RATE: usize = 44100;

/// Stereo frames in one batch.
pub const FRAME_COUNT: usize = 1024;

/// Samples in one batch: two per frame, left first.
pub const BUFFER_SIZE: usize = 2048;

/// T-cycles between two stereo frames: the clock divided by the sample rate.
pub const OUTPUT_PERIOD: u8 = 95;

/// The output period is the clock divided by the sample rate.
pub proof fn lemma_output_period()
    ensures
        OUTPUT_PERIOD == crate::CLOCK_HZ / SAMPLE_RATE,
{
}

/// The duty patterns of the pulse channels, one bit per step.
pub open spec fn duty_pattern(duty: u8) -> u8 {
    if duty == 0 {
        0x01
    } else if duty == 1 {
        0x03
    } else if duty == 2 {
        0x0f
    } else {
        0xfc
    }
}

/// Whether a pulse channel is high at step `pos` of duty pattern `duty`.
pub open spec fn duty_high(duty: u8, pos: u8) -> bool {
    (duty_pattern(duty) >> pos) & 1 != 0
}

/// The signed twelve-bit level that the converter gives for amplitude `amp` of 0..=15.
pub open spec fn dac_level(amp: int) -> int {
    amp * 0x222 - 0x1000
}

/// The divisors of the noise channel.
pub open spec fn noise_divisor(code: u8) -> u32 {
    if code == 0 {
        8
    } else {
        (16 * code) as u32
    }
}

/// A count that stops at zero.
pub open spec fn count_down(t: int) -> int {
    if t > 0 {
        t - 1
    } else {
        0
    }
}

/// The sum `sum` of the channels of one side under master volume `vol` of 0..=7:
/// volume `v` lets `(v + 1) / 8` of the sum through.
#[verifier::opaque]
pub open spec fn scale(sum: int, vol: u8) -> int {
    (sum * (vol + 1)) / 8
}

// ----------------------------------------------------------------------- envelope
/// The volume envelope of a channel.
#[derive(Clone, Copy, Debug, PartialEq, Eq, Structural)]
pub struct Envelope {
    pub init_vol: u8,
    /// False: the volume falls; true: it rises.
    pub env_dir: bool,
    pub pace: u8,
    pub volume: u8,
    pub pace_timer: u8,
}

impl Envelope {
    pub open spec fn wf(self) -> bool {
        self.init_vol <= 15 && self.pace <= 7 && self.volume <= 15 && self.pace_timer <= 7
    }

    /// The envelope at power-on.
    pub open spec fn zero() -> Envelope {
        Envelope { init_vol: 0, env_dir: false, pace: 0, volume: 0, pace_timer: 0 }
    }

    /// The register byte: initial volume, direction, pace.
    pub open spec fn bits(self) -> u8 {
        (self.init_vol * 16 + (if self.env_dir { 8int } else { 0 }) + self.pace) as u8
    }

    /// The envelope after its register was written: the volume restarts.
    pub open spec fn updated(self, data: u8) -> Envelope {
        Envelope {
            init_vol: data / 16,
            env_dir: data & 8 != 0,
            pace: data % 8,
            volume: data / 16,
            pace_timer: self.pace_timer,
        }
    }

    /// Whether the register byte `data` leaves the converter on.
    pub open spec fn dac_on(data: u8) -> bool {
        data & 0xf8 != 0
    }

    /// Whether the converter of the channel is on.
    pub open spec fn dac_enabled(self) -> bool {
        self.init_vol != 0 || self.env_dir
    }

    /// The envelope restarted by a trigger.
    pub open spec fn restarted(self) -> Envelope {
        Envelope { pace_timer: self.pace, volume: self.init_vol, ..self }
    }

    /// One envelope step of the frame sequencer: with a pace, the timer counts down;
    /// at zero it reloads and the volume moves by one within 0..=15.
    pub open spec fn step_spec(self) -> Envelope {
        if self.pace == 0 {
            self
        } else if count_down(self.pace_timer as int) != 0 {
            Envelope { pace_timer: (self.pace_timer - 1) as u8, ..self }
        } else {
            Envelope {
                pace_timer: self.pace,
                volume: if self.volume < 15 && self.env_dir {
                    (self.volume + 1) as u8
                } else if self.volume > 0 && !self.env_dir {
                    (self.volume - 1) as u8
                } else {
                    self.volume
                },
                ..self
            }
        }
    }

    /// The envelope at power-on.
    pub fn new() -> (r: Envelope)
        ensures
            r == Envelope::zero(),
            r.wf(),
    {
        Envelope { init_vol: 0, env_dir: false, pace: 0, volume: 0, pace_timer: 0 }
    }

    /// The register byte.
    pub fn to_bits(&self) -> (r: u8)
        requires
            self.wf(),
        ensures
            r == self.bits(),
    {
        self.init_vol * 16 + (if self.env_dir {
            8
        } else {
            0
        }) + self.pace
    }

    /// Writes the register; says whether the converter stays on.
    pub fn update_from_bits(&mut self, data: u8) -> (on: bool)
        requires
            old(self).wf(),
        ensures
            final(self).wf(),
            *final(self) == old(self).updated(data),
            on == Envelope::dac_on(data),
    {
        self.init_vol = data / 16;
        self.env_dir = data & 8 != 0;
        self.pace = data % 8;
        self.volume = self.init_vol;
        data & 0xf8 != 0
    }

    /// Whether the converter of the channel is on.
    pub fn is_dac_enabled(&self) -> (r: bool)
        ensures
            r == self.dac_enabled(),
    {
        self.init_vol != 0 || self.env_dir
    }

    /// Restarts the envelope.
    pub fn restart(&mut self)
        requires
            old(self).wf(),
        ensures
            final(self).wf(),
            *final(self) == old(self).restarted(),
    {
        self.pace_timer = self.pace;
        self.volume = self.init_vol;
    }

    /// One envelope step of the frame sequencer.
    pub fn step(&mut self)
        requires
            old(self).wf(),
        ensures
            final(self).wf(),
            *final(self) == old(self).step_spec(),
    {
        if self.pace != 0 {
            if self.pace_timer > 0 {
                self.pace_timer = self.pace_timer - 1;
            }
            if self.pace_timer != 0 {
                return ;
            }
            self.pace_timer = self.pace;
            if self.volume < 0xf && self.env_dir {
                self.volume = self.volume + 1;
            } else if self.volume > 0 && !self.env_dir {
                self.volume = self.volume - 1;
            }
        }
    }
}

/// The length counter `t` after a length step, and whether the channel stays active.
pub open spec fn length_step(enabled: bool, t: int, active: bool) -> (int, bool) {
    if enabled {
        (count_down(t), active && count_down(t) != 0)
    } else {
        (t, active)
    }
}

/// The pulse pattern table.
pub fn pattern(duty: u8) -> (r: u8)
    ensures
        r == duty_pattern(duty),
{
    if duty == 0 {
        0x01
    } else if duty == 1 {
        0x03
    } else if duty == 2 {
        0x0f
    } else {
        0xfc
    }
}

/// The level of the converter for amplitude `amp`.
pub fn level(amp: u8) -> (r: i16)
    requires
        amp <= 15,
    ensures
        r == dac_level(amp as int),
        -4096 <= r <= 4094,
{
    amp as i16 * 0x222 - 0x1000
}

// ---------------------------------------------------------------- pulse with sweep
/// The first pulse channel, with frequency sweep.
#[derive(Clone, Copy, Debug, PartialEq, Eq, Structural)]
pub struct Channel1 {
    pub active: bool,
    pub triggered: bool,
    pub pan_left: bool,
    pub pan_right: bool,
    pub sweep_pace: u8,
    /// False: the period grows; true: it shrinks.
    pub sweep_dir: bool,
    pub sweep_step: u8,
    pub sweep_enabled: bool,
    pub sweep_timer: u8,
    pub duty: u8,
    pub period: u16,
    /// The shadow of the period that the sweep works on.
    pub internal_period: u16,
    pub envelope: Envelope,
    pub length_timer: u8,
    pub length_en: bool,
    pub freq_timer: u16,
    pub duty_pos: u8,
}

impl Channel1 {
    pub open spec fn wf(self) -> bool {
        &&& self.sweep_pace <= 7
        &&& self.sweep_step <= 7
        &&& self.sweep_timer <= 8
        &&& self.duty <= 3
        &&& self.period <= 0x7ff
        &&& self.internal_period <= 0x7ff
        &&& self.envelope.wf()
        &&& self.length_timer <= 64
        &&& self.freq_timer <= 8192
        &&& self.duty_pos <= 7
    }

    /// The channel at power-on, and after the unit was switched off.
    pub open spec fn zero() -> Channel1 {
        Channel1 {
            active: false,
            triggered: false,
            pan_left: false,
            pan_right: false,
            sweep_pace: 0,
            sweep_dir: false,
            sweep_step: 0,
            sweep_enabled: false,
            sweep_timer: 0,
            duty: 0,
            period: 0,
            internal_period: 0,
            envelope: Envelope::zero(),
            length_timer: 0,
            length_en: false,
            freq_timer: 0,
            duty_pos: 0,
        }
    }

    /// The period that the sweep computes next: the shadow, plus or minus the shadow
    /// shifted right by the sweep step.
    pub open spec fn sweep_next(self) -> int {
        if self.sweep_dir {
            self.internal_period - (self.internal_period >> (self.sweep_step as u16))
        } else {
            self.internal_period + (self.internal_period >> (self.sweep_step as u16))
        }
    }

    /// The overflow check of the sweep: a next period above 2047 silences the channel.
    pub open spec fn sweep_checked(self) -> Channel1 {
        if self.sweep_next() <= 0x7ff {
            self
        } else {
            Channel1 { active: false, ..self }
        }
    }

    /// The byte read at register `addr`.  Bits that a register lacks read as one.
    pub open spec fn load_spec(self, addr: u16) -> u8 {
        if addr == 0xff10 {
            (0x80 + self.sweep_pace * 16 + bit(self.sweep_dir) * 8 + self.sweep_step) as u8
        } else if addr == 0xff11 {
            (self.duty * 64 + 0x3f) as u8
        } else if addr == 0xff12 {
            self.envelope.bits()
        } else if addr == 0xff14 {
            (bit(self.length_en) * 64 + 0xbf) as u8
        } else {
            0xff
        }
    }

    /// The channel after an envelope step of the frame sequencer.
    pub open spec fn step_envelope_spec(self) -> Channel1 {
        Channel1 { envelope: self.envelope.step_spec(), ..self }
    }

    /// The channel after a pending trigger was served.  With the converter on, the
    /// channel becomes active, the frequency timer and the envelope reload, an
    /// expired length restarts, and the sweep takes the period as its shadow.
    pub open spec fn triggered_spec(self) -> Channel1 {
        let c = Channel1 { triggered: false, ..self };
        if !(self.triggered && self.envelope.dac_enabled()) {
            c
        } else {
            let c1 = Channel1 {
                active: true,
                envelope: self.envelope.restarted(),
                length_timer: if self.length_timer == 0 {
                    64
                } else {
                    self.length_timer
                },
                internal_period: self.period,
                sweep_enabled: self.sweep_pace != 0 || self.sweep_step != 0,
                freq_timer: ((2048 - self.period) * 4) as u16,
                ..c
            };
            if self.sweep_step != 0 {
                c1.sweep_checked()
            } else {
                c1
            }
        }
    }

    /// The channel after one T-cycle of its frequency timer: at zero the timer
    /// reloads to `(2048 - period) * 4` and the duty position advances.
    pub open spec fn clocked_spec(self) -> Channel1 {
        if !self.active {
            self
        } else if count_down(self.freq_timer as int) != 0 {
            Channel1 { freq_timer: (self.freq_timer - 1) as u16, ..self }
        } else {
            Channel1 {
                freq_timer: ((2048 - self.internal_period) * 4) as u16,
                duty_pos: ((self.duty_pos + 1) % 8) as u8,
                ..self
            }
        }
    }

    /// One T-cycle.
    pub open spec fn step_spec(self) -> Channel1 {
        self.triggered_spec().clocked_spec()
    }

    /// One length step of the frame sequencer.
    pub open spec fn step_len_spec(self) -> Channel1 {
        let (t, active) = length_step(self.length_en, self.length_timer as int, self.active);
        Channel1 { length_timer: t as u8, active, ..self }
    }

    /// One sweep step of the frame sequencer.  When the sweep timer expires it
    /// reloads; an enabled sweep with a pace then computes the next period, writes
    /// it to the period and the shadow if the step is not zero, and checks once more.
    pub open spec fn step_sweep_spec(self) -> Channel1 {
        if count_down(self.sweep_timer as int) != 0 {
            Channel1 { sweep_timer: (self.sweep_timer - 1) as u8, ..self }
        } else {
            let c = Channel1 {
                sweep_timer: if self.sweep_pace != 0 {
                    self.sweep_pace
                } else {
                    8
                },
                ..self
            };
            if !(self.sweep_enabled && self.sweep_pace != 0) {
                c
            } else if c.sweep_next() > 0x7ff {
                Channel1 { active: false, ..c }
            } else if self.sweep_step == 0 {
                c
            } else {
                Channel1 {
                    period: c.sweep_next() as u16,
                    internal_period: c.sweep_next() as u16,
                    ..c
                }.sweep_checked()
            }
        }
    }

    /// The level that the channel puts out.
    pub open spec fn amp(self) -> int {
        if !self.active || !self.envelope.dac_enabled() {
            0
        } else if duty_high(self.duty, self.duty_pos) {
            dac_level(self.envelope.volume as int)
        } else {
            dac_level(0)
        }
    }

    /// The channel at power-on.
    pub fn new() -> (r: Channel1)
        ensures
            r == Channel1::zero(),
            r.wf(),
    {
        Channel1 {
            active: false,
            triggered: false,
            pan_left: false,
            pan_right: false,
            sweep_pace: 0,
            sweep_dir: false,
            sweep_step: 0,
            sweep_enabled: false,
            sweep_timer: 0,
            duty: 0,
            period: 0,
            internal_period: 0,
            envelope: Envelope::new(),
            length_timer: 0,
            length_en: false,
            freq_timer: 0,
            duty_pos: 0,
        }
    }

    /// Whether the converter is on.
    pub fn dac_enabled(&self) -> (r: bool)
        ensures
            r == self.envelope.dac_enabled(),
    {
        self.envelope.is_dac_enabled()
    }

    /// Computes the next period of the sweep; a period above 2047 silences the
    /// channel and yields nothing.
    pub fn calculate_sweep_next_freq(&mut self) -> (r: Option<u16>)
        requires
            old(self).wf(),
        ensures
            final(self).wf(),
            *final(self) == old(self).sweep_checked(),
            match r {
                Some(p) => p == old(self).sweep_next() && p <= 0x7ff,
                None => old(self).sweep_next() > 0x7ff,
            },
    {
        proof {
            lemma_shr_le_u16(self.internal_period, self.sweep_step as u16);
        }
        let delta = self.internal_period >> (self.sweep_step as u16);
        let next = if !self.sweep_dir {
            self.internal_period + delta
        } else {
            self.internal_period - delta
        };
        if next <= 0x7ff {
            Some(next)
        } else {
            self.active = false;
            None
        }
    }

    /// Writes one of the registers of the first pulse channel.
    pub fn store(&mut self, addr: u16, data: u8)
        requires
            old(self).wf(),
        ensures
            final(self).wf(),
            *final(self) == Apu::store_ch1(*old(self), addr, data),
    {
        if addr == 0xff10 {
            self.sweep_pace = (data / 16) % 8;
            self.sweep_dir = data & 8 != 0;
            self.sweep_step = data % 8;
        } else if addr == 0xff11 {
            self.duty = data / 64;
            self.length_timer = 64 - data % 64;
        } else if addr == 0xff12 {
            let on = self.envelope.update_from_bits(data);
            self.active = self.active && on;
        } else if addr == 0xff13 {
            self.period = (self.period / 256) * 256 + data as u16;
        } else if addr == 0xff14 {
            self.period = self.period % 256 + (data % 8) as u16 * 256;
            self.length_en = data & 0x40 != 0;
            self.triggered = data & 0x80 != 0;
        }
    }

    /// Reads register `addr`.
    pub fn load(&self, addr: u16) -> (r: u8)
        requires
            self.wf(),
        ensures
            r == self.load_spec(addr),
    {
        if addr == 0xff10 {
            0x80 + self.sweep_pace * 16 + flag(self.sweep_dir) * 8 + self.sweep_step
        } else if addr == 0xff11 {
            self.duty * 64 + 0x3f
        } else if addr == 0xff12 {
            self.envelope.to_bits()
        } else if addr == 0xff14 {
            flag(self.length_en) * 64 + 0xbf
        } else {
            0xff
        }
    }

    /// One envelope step of the frame sequencer.
    pub fn step_envelope(&mut self)
        requires
            old(self).wf(),
        ensures
            final(self).wf(),
            *final(self) == old(self).step_envelope_spec(),
    {
        self.envelope.step();
    }

    /// One T-cycle.
    pub fn step(&mut self)
        requires
            old(self).wf(),
        ensures
            final(self).wf(),
            *final(self) == old(self).step_spec(),
    {
        let fire = self.triggered && self.dac_enabled();
        self.triggered = false;
        if fire {
            self.active = true;
            self.envelope.restart();
            if self.length_timer == 0 {
                self.length_timer = 64;
            }
            self.internal_period = self.period;
            self.sweep_enabled = self.sweep_pace != 0 || self.sweep_step != 0;
            self.freq_timer = (2048 - self.period) * 4;
            if self.sweep_step != 0 {
                let _ = self.calculate_sweep_next_freq();
            }
        }
        if self.active {
            if self.freq_timer > 0 {
                self.freq_timer = self.freq_timer - 1;
            }
            if self.freq_timer == 0 {
                self.freq_timer = (2048 - self.internal_period) * 4;
                self.duty_pos = (self.duty_pos + 1) % 8;
            }
        }
    }

    /// One length step of the frame sequencer.
    pub fn step_len(&mut self)
        requires
            old(self).wf(),
        ensures
            final(self).wf(),
            *final(self) == old(self).step_len_spec(),
    {
        if self.length_en {
            if self.length_timer > 0 {
                self.length_timer = self.length_timer - 1;
            }
            self.active = self.active && self.length_timer != 0;
        }
    }

    /// One sweep step of the frame sequencer.
    pub fn step_sweep(&mut self)
        requires
            old(self).wf(),
        ensures
            final(self).wf(),
            *final(self) == old(self).step_sweep_spec(),
    {
        if self.sweep_timer > 0 {
            self.sweep_timer = self.sweep_timer - 1;
        }
        if self.sweep_timer != 0 {
            return ;
        }
        self.sweep_timer = if self.sweep_pace != 0 {
            self.sweep_pace
        } else {
            8
        };
        if self.sweep_enabled && self.sweep_pace != 0 {
            match self.calculate_sweep_next_freq() {
                Some(p) => {
                    if self.sweep_step != 0 {
                        self.period = p;
                        self.internal_period = p;
                        let _ = self.calculate_sweep_next_freq();
                    }
                },
                None => {},
            }
        }
    }

    /// The level that the channel puts out.
    pub fn get_amp(&self) -> (r: i16)
        requires
            self.wf(),
        ensures
            r == self.amp(),
            -4096 <= r <= 4094,
    {
        if !self.active || !self.dac_enabled() {
            return 0;
        }
        if (pattern(self.duty) >> self.duty_pos) & 1 != 0 {
            level(self.envelope.volume)
        } else {
            level(0)
        }
    }
}

// -------------------------------------------------------------------------- pulse
/// The second pulse channel.
#[derive(Clone, Copy, Debug, PartialEq, Eq, Structural)]
pub struct Channel2 {
    pub active: bool,
    pub triggered: bool,
    pub pan_left: bool,
    pub pan_right: bool,
    pub duty: u8,
    pub period: u16,
    pub envelope: Envelope,
    pub length_timer: u8,
    pub length_en: bool,
    pub freq_timer: u16,
    pub duty_pos: u8,
}

impl Channel2 {
    pub open spec fn wf(self) -> bool {
        &&& self.duty <= 3
        &&& self.period <= 0x7ff
        &&& self.envelope.wf()
        &&& self.length_timer <= 64
        &&& self.freq_timer <= 8192
        &&& self.duty_pos <= 7
    }

    /// The channel at power-on, and after the unit was switched off.
    pub open spec fn zero() -> Channel2 {
        Channel2 {
            active: false,
            triggered: false,
            pan_left: false,
            pan_right: false,
            duty: 0,
            period: 0,
            envelope: Envelope::zero(),
            length_timer: 0,
            length_en: false,
            freq_timer: 0,
            duty_pos: 0,
        }
    }

    /// The byte read at register `addr`.  Bits that a register lacks read as one.
    pub open spec fn load_spec(self, addr: u16) -> u8 {
        if addr == 0xff16 {
            (self.duty * 64 + 0x3f) as u8
        } else if addr == 0xff17 {
            self.envelope.bits()
        } else if addr == 0xff19 {
            (bit(self.length_en) * 64 + 0xbf) as u8
        } else {
            0xff
        }
    }

    /// The channel after an envelope step of the frame sequencer.
    pub open spec fn step_envelope_spec(self) -> Channel2 {
        Channel2 { envelope: self.envelope.step_spec(), ..self }
    }

    /// The channel after a pending trigger was served.
    pub open spec fn triggered_spec(self) -> Channel2 {
        let c = Channel2 { triggered: false, ..self };
        if !(self.triggered && self.envelope.dac_enabled()) {
            c
        } else {
            Channel2 {
                active: true,
                envelope: self.envelope.restarted(),
                length_timer: if self.length_timer == 0 {
                    64
                } else {
                    self.length_timer
                },
                freq_timer: ((2048 - self.period) * 4) as u16,
                ..c
            }
        }
    }

    /// The channel after one T-cycle of its frequency timer.
    pub open spec fn clocked_spec(self) -> Channel2 {
        if !self.active {
            self
        } else if count_down(self.freq_timer as int) != 0 {
            Channel2 { freq_timer: (self.freq_timer - 1) as u16, ..self }
        } else {
            Channel2 {
                freq_timer: ((2048 - self.period) * 4) as u16,
                duty_pos: ((self.duty_pos + 1) % 8) as u8,
                ..self
            }
        }
    }

    /// One T-cycle.
    pub open spec fn step_spec(self) -> Channel2 {
        self.triggered_spec().clocked_spec()
    }

    /// One length step of the frame sequencer.
    pub open spec fn step_len_spec(self) -> Channel2 {
        let (t, active) = length_step(self.length_en, self.length_timer as int, self.active);
        Channel2 { length_timer: t as u8, active, ..self }
    }

    /// The level that the channel puts out.
    pub open spec fn amp(self) -> int {
        if !self.active || !self.envelope.dac_enabled() {
            0
        } else if duty_high(self.duty, self.duty_pos) {
            dac_level(self.envelope.volume as int)
        } else {
            dac_level(0)
        }
    }

    /// The channel at power-on.
    pub fn new() -> (r: Channel2)
        ensures
            r == Channel2::zero(),
            r.wf(),
    {
        Channel2 {
            active: false,
            triggered: false,
            pan_left: false,
            pan_right: false,
            duty: 0,
            period: 0,
            envelope: Envelope::new(),
            length_timer: 0,
            length_en: false,
            freq_timer: 0,
            duty_pos: 0,
        }
    }

    /// Whether the converter is on.
    pub fn dac_enabled(&self) -> (r: bool)
        ensures
            r == self.envelope.dac_enabled(),
    {
        self.envelope.is_dac_enabled()
    }

    /// Writes one of the registers of the second pulse channel.
    pub fn store(&mut self, addr: u16, data: u8)
        requires
            old(self).wf(),
        ensures
            final(self).wf(),
            *final(self) == Apu::store_ch2(*old(self), addr, data),
    {
        if addr == 0xff16 {
            self.duty = data / 64;
            self.length_timer = 64 - data % 64;
        } else if addr == 0xff17 {
            let on = self.envelope.update_from_bits(data);
            self.active = self.active && on;
        } else if addr == 0xff18 {
            self.period = (self.period / 256) * 256 + data as u16;
        } else if addr == 0xff19 {
            self.period = self.period % 256 + (data % 8) as u16 * 256;
            self.length_en = data & 0x40 != 0;
            self.triggered = data & 0x80 != 0;
        }
    }

    /// Reads register `addr`.
    pub fn load(&self, addr: u16) -> (r: u8)
        requires
            self.wf(),
        ensures
            r == self.load_spec(addr),
    {
        if addr == 0xff16 {
            self.duty * 64 + 0x3f
        } else if addr == 0xff17 {
            self.envelope.to_bits()
        } else if addr == 0xff19 {
            flag(self.length_en) * 64 + 0xbf
        } else {
            0xff
        }
    }

    /// One envelope step of the frame sequencer.
    pub fn step_envelope(&mut self)
        requires
            old(self).wf(),
        ensures
            final(self).wf(),
            *final(self) == old(self).step_envelope_spec(),
    {
        self.envelope.step();
    }

    /// One T-cycle.
    pub fn step(&mut self)
        requires
            old(self).wf(),
        ensures
            final(self).wf(),
            *final(self) == old(self).step_spec(),
    {
        let fire = self.triggered && self.dac_enabled();
        self.triggered = false;
        if fire {
            self.active = true;
            self.envelope.restart();
            if self.length_timer == 0 {
                self.length_timer = 64;
            }
            self.freq_timer = (2048 - self.period) * 4;
        }
        if self.active {
            if self.freq_timer > 0 {
                self.freq_timer = self.freq_timer - 1;
            }
            if self.freq_timer == 0 {
                self.freq_timer = (2048 - self.period) * 4;
                self.duty_pos = (self.duty_pos + 1) % 8;
            }
        }
    }

    /// One length step of the frame sequencer.
    pub fn step_len(&mut self)
        requires
            old(self).wf(),
        ensures
            final(self).wf(),
            *final(self) == old(self).step_len_spec(),
    {
        if self.length_en {
            if self.length_timer > 0 {
                self.length_timer = self.length_timer - 1;
            }
            self.active = self.active && self.length_timer != 0;
        }
    }

    /// The level that the channel puts out.
    pub fn get_amp(&self) -> (r: i16)
        requires
            self.wf(),
        ensures
            r == self.amp(),
            -4096 <= r <= 4094,
    {
        if !self.active || !self.dac_enabled() {
            return 0;
        }
        if (pattern(self.duty) >> self.duty_pos) & 1 != 0 {
            level(self.envelope.volume)
        } else {
            level(0)
        }
    }
}

// --------------------------------------------------------------------------- wave
/// The wave channel: thirty-two four-bit samples in sixteen bytes.
#[derive(Clone, Copy, Debug)]
pub struct Channel3 {
    pub active: bool,
    pub dac_enabled: bool,
    pub triggered: bool,
    pub pan_left: bool,
    pub pan_right: bool,
    pub period: u16,
    pub out_level: u8,
    pub wave: [u8; 16],
    pub length_timer: u16,
    pub length_en: bool,
    pub freq_timer: u16,
    pub wave_pos: u8,
}

/// A four-bit sample of the wave channel at output level `out_level`: shifted right
/// by four (mute), zero, one or two bits.
pub open spec fn wave_output(sample: int, out_level: u8) -> int {
    if out_level == 0 {
        sample / 16
    } else if out_level == 1 {
        sample
    } else if out_level == 2 {
        sample / 2
    } else {
        sample / 4
    }
}

impl Channel3 {
    pub open spec fn wf(self) -> bool {
        &&& self.period <= 0x7ff
        &&& self.out_level <= 3
        &&& self.length_timer <= 256
        &&& self.freq_timer <= 4096
        &&& self.wave_pos <= 31
    }

    /// The channel at power-on: everything zero.
    pub open spec fn zero() -> Channel3 {
        Channel3 {
            active: false,
            dac_enabled: false,
            triggered: false,
            pan_left: false,
            pan_right: false,
            period: 0,
            out_level: 0,
            wave: vstd::array::spec_array_fill_for_copy_type::<u8, 16>(0),
            length_timer: 0,
            length_en: false,
            freq_timer: 0,
            wave_pos: 0,
        }
    }

    /// Everything but the wave samples is zero.
    pub open spec fn is_reset(self) -> bool {
        &&& !self.active
        &&& !self.dac_enabled
        &&& !self.triggered
        &&& !self.pan_left
        &&& !self.pan_right
        &&& self.period == 0
        &&& self.out_level == 0
        &&& self.length_timer == 0
        &&& !self.length_en
        &&& self.freq_timer == 0
        &&& self.wave_pos == 0
    }

    /// The channel with everything but the wave samples zero.
    pub open spec fn reset_spec(self) -> Channel3 {
        Channel3 {
            active: false,
            dac_enabled: false,
            triggered: false,
            pan_left: false,
            pan_right: false,
            period: 0,
            out_level: 0,
            wave: self.wave,
            length_timer: 0,
            length_en: false,
            freq_timer: 0,
            wave_pos: 0,
        }
    }

    /// The byte read at register or sample `addr`.  Bits that a register lacks read
    /// as one.
    pub open spec fn load_spec(self, addr: u16) -> u8 {
        if addr == 0xff1a {
            (bit(self.dac_enabled) * 128 + 0x7f) as u8
        } else if addr == 0xff1c {
            (self.out_level * 32 + 0x9f) as u8
        } else if addr == 0xff1e {
            (bit(self.length_en) * 64 + 0xbf) as u8
        } else if 0xff30 <= addr <= 0xff3f {
            self.wave[addr - 0xff30]
        } else {
            0xff
        }
    }

    /// The channel after a pending trigger was served.
    pub open spec fn triggered_spec(self) -> Channel3 {
        let c = Channel3 { triggered: false, ..self };
        if !(self.triggered && self.dac_enabled) {
            c
        } else {
            Channel3 {
                active: true,
                length_timer: if self.length_timer == 0 {
                    256
                } else {
                    self.length_timer
                },
                freq_timer: ((2048 - self.period) * 2) as u16,
                ..c
            }
        }
    }

    /// The channel after one T-cycle of its frequency timer: at zero the timer
    /// reloads to `(2048 - period) * 2` and the position advances.
    pub open spec fn clocked_spec(self) -> Channel3 {
        if !self.active {
            self
        } else if count_down(self.freq_timer as int) != 0 {
            Channel3 { freq_timer: (self.freq_timer - 1) as u16, ..self }
        } else {
            Channel3 {
                freq_timer: ((2048 - self.period) * 2) as u16,
                wave_pos: ((self.wave_pos + 1) % 32) as u8,
                ..self
            }
        }
    }

    /// One T-cycle.
    pub open spec fn step_spec(self) -> Channel3 {
        self.triggered_spec().clocked_spec()
    }

    /// One length step of the frame sequencer.
    pub open spec fn step_len_spec(self) -> Channel3 {
        let (t, active) = length_step(self.length_en, self.length_timer as int, self.active);
        Channel3 { length_timer: t as u16, active, ..self }
    }

    /// The sample at the wave position: the high nibble of a byte comes first.
    pub open spec fn sample(self) -> int {
        let byte = self.wave[(self.wave_pos / 2) as int];
        if self.wave_pos % 2 == 0 {
            (byte / 16) as int
        } else {
            (byte % 16) as int
        }
    }

    /// The level that the channel puts out.
    pub open spec fn amp(self) -> int {
        if !self.active || !self.dac_enabled {
            0
        } else {
            dac_level(wave_output(self.sample(), self.out_level))
        }
    }

    /// The channel at power-on.
    pub fn new() -> (r: Channel3)
        ensures
            r == Channel3::zero(),
            r.wf(),
    {
        Channel3 {
            active: false,
            dac_enabled: false,
            triggered: false,
            pan_left: false,
            pan_right: false,
            period: 0,
            out_level: 0,
            wave: [0u8;16],
            length_timer: 0,
            length_en: false,
            freq_timer: 0,
            wave_pos: 0,
        }
    }

    /// Zeroes everything but the wave samples.
    pub fn reset(&mut self)
        ensures
            *final(self) == old(self).reset_spec(),
            final(self).wf(),
    {
        self.active = false;
        self.dac_enabled = false;
        self.triggered = false;
        self.pan_left = false;
        self.pan_right = false;
        self.period = 0;
        self.out_level = 0;
        self.length_timer = 0;
        self.length_en = false;
        self.freq_timer = 0;
        self.wave_pos = 0;
    }

    /// Writes one of the registers or samples of the wave channel.
    pub fn store(&mut self, addr: u16, data: u8)
        requires
            old(self).wf(),
        ensures
            final(self).wf(),
            *final(self) == Apu::store_ch3(*old(self), addr, data),
    {
        if addr == 0xff1a {
            self.dac_enabled = data & 0x80 != 0;
            self.active = self.active && self.dac_enabled;
        } else if addr == 0xff1b {
            self.length_timer = 256 - data as u16;
        } else if addr == 0xff1c {
            self.out_level = (data / 32) % 4;
        } else if addr == 0xff1d {
            self.period = (self.period / 256) * 256 + data as u16;
        } else if addr == 0xff1e {
            self.period = self.period % 256 + (data % 8) as u16 * 256;
            self.length_en = data & 0x40 != 0;
            self.triggered = data & 0x80 != 0;
        } else if 0xff30 <= addr && addr <= 0xff3f {
            self.wave[(addr - 0xff30) as usize] = data;
        }
    }

    /// Reads register or sample `addr`.
    pub fn load(&self, addr: u16) -> (r: u8)
        requires
            self.wf(),
        ensures
            r == self.load_spec(addr),
    {
        if addr == 0xff1a {
            flag(self.dac_enabled) * 128 + 0x7f
        } else if addr == 0xff1c {
            self.out_level * 32 + 0x9f
        } else if addr == 0xff1e {
            flag(self.length_en) * 64 + 0xbf
        } else if 0xff30 <= addr && addr <= 0xff3f {
            self.wave[(addr - 0xff30) as usize]
        } else {
            0xff
        }
    }

    /// One T-cycle.
    pub fn step(&mut self)
        requires
            old(self).wf(),
        ensures
            final(self).wf(),
            *final(self) == old(self).step_spec(),
    {
        let fire = self.triggered && self.dac_enabled;
        self.triggered = false;
        if fire {
            self.active = true;
            if self.length_timer == 0 {
                self.length_timer = 256;
            }
            self.freq_timer = (2048 - self.period) * 2;
        }
        if self.active {
            if self.freq_timer > 0 {
                self.freq_timer = self.freq_timer - 1;
            }
            if self.freq_timer == 0 {
                self.freq_timer = (2048 - self.period) * 2;
                self.wave_pos = (self.wave_pos + 1) % 32;
            }
        }
    }

    /// One length step of the frame sequencer.
    pub fn step_len(&mut self)
        requires
            old(self).wf(),
        ensures
            final(self).wf(),
            *final(self) == old(self).step_len_spec(),
    {
        if self.length_en {
            if self.length_timer > 0 {
                self.length_timer = self.length_timer - 1;
            }
            self.active = self.active && self.length_timer != 0;
        }
    }

    /// The level that the channel puts out.
    pub fn get_amp(&self) -> (r: i16)
        requires
            self.wf(),
        ensures
            r == self.amp(),
            -4096 <= r <= 4094,
    {
        if !self.active || !self.dac_enabled {
            return 0;
        }
        let byte = self.wave[(self.wave_pos / 2) as usize];
        let nibble = if self.wave_pos % 2 == 0 {
            byte / 16
        } else {
            byte % 16
        };
        let amp = if self.out_level == 0 {
            nibble / 16
        } else if self.out_level == 1 {
            nibble
        } else if self.out_level == 2 {
            nibble / 2
        } else {
            nibble / 4
        };
        level(amp)
    }
}

// -------------------------------------------------------------------------- noise
/// The noise channel: a fifteen-bit shift register with linear feedback.
#[derive(Clone, Copy, Debug, PartialEq, Eq, Structural)]
pub struct Channel4 {
    pub active: bool,
    pub triggered: bool,
    pub pan_left: bool,
    pub pan_right: bool,
    pub clock_shift: u8,
    pub clock_div: u8,
    /// True: the register is seven bits wide.
    pub width: bool,
    pub envelope: Envelope,
    pub length_timer: u8,
    pub length_en: bool,
    pub freq_timer: u32,
    pub lfsr: u16,
}

/// The shift register after one clock: the exclusive or of its two low bits enters
/// at bit 14, and in the narrow width at bit 6 as well.
pub open spec fn lfsr_next(lfsr: u16, narrow: bool) -> u16 {
    let x = (lfsr & 1) ^ ((lfsr >> 1) & 1);
    let wide = (lfsr >> 1) | (x << 14);
    if narrow {
        (wide & !(1u16 << 6)) | (x << 6)
    } else {
        wide
    }
}

impl Channel4 {
    pub open spec fn wf(self) -> bool {
        &&& self.clock_shift <= 15
        &&& self.clock_div <= 7
        &&& self.envelope.wf()
        &&& self.length_timer <= 64
    }

    /// The channel at power-on, and after the unit was switched off.
    pub open spec fn zero() -> Channel4 {
        Channel4 {
            active: false,
            triggered: false,
            pan_left: false,
            pan_right: false,
            clock_shift: 0,
            clock_div: 0,
            width: false,
            envelope: Envelope::zero(),
            length_timer: 0,
            length_en: false,
            freq_timer: 0,
            lfsr: 0,
        }
    }

    /// What the frequency timer reloads to: the divisor shifted left by the clock shift.
    pub open spec fn reload(self) -> u32 {
        noise_divisor(self.clock_div) << (self.clock_shift as u32)
    }

    /// The byte read at register `addr`.  Bits that a register lacks read as one.
    pub open spec fn load_spec(self, addr: u16) -> u8 {
        if addr == 0xff21 {
            self.envelope.bits()
        } else if addr == 0xff22 {
            (self.clock_shift * 16 + bit(self.width) * 8 + self.clock_div) as u8
        } else if addr == 0xff23 {
            (bit(self.length_en) * 64 + 0xbf) as u8
        } else {
            0xff
        }
    }

    /// The channel after an envelope step of the frame sequencer.
    pub open spec fn step_envelope_spec(self) -> Channel4 {
        Channel4 { envelope: self.envelope.step_spec(), ..self }
    }

    /// The channel after a pending trigger was served: the shift register is all ones.
    pub open spec fn triggered_spec(self) -> Channel4 {
        let c = Channel4 { triggered: false, ..self };
        if !(self.triggered && self.envelope.dac_enabled()) {
            c
        } else {
            Channel4 {
                active: true,
                envelope: self.envelope.restarted(),
                length_timer: if self.length_timer == 0 {
                    64
                } else {
                    self.length_timer
                },
                freq_timer: self.reload(),
                lfsr: 0x7fff,
                ..c
            }
        }
    }

    /// The channel after one T-cycle of its frequency timer: at zero the timer
    /// reloads and the shift register is clocked.
    pub open spec fn clocked_spec(self) -> Channel4 {
        if !self.active {
            self
        } else if count_down(self.freq_timer as int) != 0 {
            Channel4 { freq_timer: (self.freq_timer - 1) as u32, ..self }
        } else {
            Channel4 { freq_timer: self.reload(), lfsr: lfsr_next(self.lfsr, self.width), ..self }
        }
    }

    /// One T-cycle.
    pub open spec fn step_spec(self) -> Channel4 {
        self.triggered_spec().clocked_spec()
    }

    /// One length step of the frame sequencer.
    pub open spec fn step_len_spec(self) -> Channel4 {
        let (t, active) = length_step(self.length_en, self.length_timer as int, self.active);
        Channel4 { length_timer: t as u8, active, ..self }
    }

    /// The level that the channel puts out: high while the low bit of the shift
    /// register is clear.
    pub open spec fn amp(self) -> int {
        if !self.active || !self.envelope.dac_enabled() {
            0
        } else if self.lfsr & 1 == 0 {
            dac_level(self.envelope.volume as int)
        } else {
            dac_level(0)
        }
    }

    /// The channel at power-on.
    pub fn new() -> (r: Channel4)
        ensures
            r == Channel4::zero(),
            r.wf(),
    {
        Channel4 {
            active: false,
            triggered: false,
            pan_left: false,
            pan_right: false,
            clock_shift: 0,
            clock_div: 0,
            width: false,
            envelope: Envelope::new(),
            length_timer: 0,
            length_en: false,
            freq_timer: 0,
            lfsr: 0,
        }
    }

    /// Whether the converter is on.
    pub fn dac_enabled(&self) -> (r: bool)
        ensures
            r == self.envelope.dac_enabled(),
    {
        self.envelope.is_dac_enabled()
    }

    /// What the frequency timer reloads to.
    pub fn timer_reload(&self) -> (r: u32)
        requires
            self.wf(),
        ensures
            r == self.reload(),
    {
        let divisor: u32 = if self.clock_div == 0 {
            8
        } else {
            16 * (self.clock_div as u32)
        };
        divisor << (self.clock_shift as u32)
    }

    /// Writes one of the registers of the noise channel.
    pub fn store(&mut self, addr: u16, data: u8)
        requires
            old(self).wf(),
        ensures
            final(self).wf(),
            *final(self) == Apu::store_ch4(*old(self), addr, data),
    {
        if addr == 0xff20 {
            self.length_timer = 64 - data % 64;
        } else if addr == 0xff21 {
            let on = self.envelope.update_from_bits(data);
            self.active = self.active && on;
        } else if addr == 0xff22 {
            self.clock_shift = data / 16;
            self.width = data & 8 != 0;
            self.clock_div = data % 8;
        } else if addr == 0xff23 {
            self.length_en = data & 0x40 != 0;
            self.triggered = data & 0x80 != 0;
        }
    }

    /// Reads register `addr`.
    pub fn load(&self, addr: u16) -> (r: u8)
        requires
            self.wf(),
        ensures
            r == self.load_spec(addr),
    {
        if addr == 0xff21 {
            self.envelope.to_bits()
        } else if addr == 0xff22 {
            self.clock_shift * 16 + flag(self.width) * 8 + self.clock_div
        } else if addr == 0xff23 {
            flag(self.length_en) * 64 + 0xbf
        } else {
            0xff
        }
    }

    /// One envelope step of the frame sequencer.
    pub fn step_envelope(&mut self)
        requires
            old(self).wf(),
        ensures
            final(self).wf(),
            *final(self) == old(self).step_envelope_spec(),
    {
        self.envelope.step();
    }

    /// One T-cycle.
    pub fn step(&mut self)
        requires
            old(self).wf(),
        ensures
            final(self).wf(),
            *final(self) == old(self).step_spec(),
    {
        let fire = self.triggered && self.dac_enabled();
        self.triggered = false;
        if fire {
            self.active = true;
            self.envelope.restart();
            if self.length_timer == 0 {
                self.length_timer = 64;
            }
            self.freq_timer = self.timer_reload();
            self.lfsr = 0x7fff;
        }
        if self.active {
            if self.freq_timer > 0 {
                self.freq_timer = self.freq_timer - 1;
            }
            if self.freq_timer == 0 {
                self.freq_timer = self.timer_reload();
                let x = (self.lfsr & 1) ^ ((self.lfsr >> 1) & 1);
                self.lfsr = (self.lfsr >> 1) | (x << 14);
                if self.width {
                    self.lfsr = (self.lfsr & !(1u16 << 6)) | (x << 6);
                }
            }
        }
    }

    /// One length step of the frame sequencer.
    pub fn step_len(&mut self)
        requires
            old(self).wf(),
        ensures
            final(self).wf(),
            *final(self) == old(self).step_len_spec(),
    {
        if self.length_en {
            if self.length_timer > 0 {
                self.length_timer = self.length_timer - 1;
            }
            self.active = self.active && self.length_timer != 0;
        }
    }

    /// The level that the channel puts out.
    pub fn get_amp(&self) -> (r: i16)
        requires
            self.wf(),
        ensures
            r == self.amp(),
            -4096 <= r <= 4094,
    {
        if !self.active || !self.dac_enabled() {
            return 0;
        }
        if self.lfsr & 1 == 0 {
            level(self.envelope.volume)
        } else {
            level(0)
        }
    }
}

// --------------------------------------------------------------------------- unit
/// The audio unit.
pub struct Apu {
    /// The batch under construction: stereo frames, left sample first.
    pub buffer: [i16; 2048],
    /// Place of the next sample in the buffer.
    pub buffer_at: usize,
    /// Set when a batch was completed; the host clears it when it has the batch.
    pub batch_ready: bool,
    /// T-cycles since the last stereo frame.
    pub output_timer: u8,
    /// Step of the frame sequencer.
    pub seq_timer: u8,
    /// The divider bit as it was in the last T-cycle.
    pub last_div_edge: bool,
    pub enable: bool,
    pub ch1: Channel1,
    pub ch2: Channel2,
    pub ch3: Channel3,
    pub ch4: Channel4,
    pub volume_left: u8,
    pub volume_right: u8,
    pub vin_left: bool,
    pub vin_right: bool,
}

/// A flag as a number.
pub open spec fn bit(x: bool) -> int {
    if x {
        1
    } else {
        0
    }
}

/// What a channel adds to one side of the mix.
pub open spec fn panned(on: bool, amp: int) -> int {
    if on {
        amp
    } else {
        0
    }
}

impl Apu {
    pub open spec fn wf(self) -> bool {
        &&& self.buffer_at < 2048
        &&& self.buffer_at % 2 == 0
        &&& self.output_timer < OUTPUT_PERIOD
        &&& self.seq_timer < 8
        &&& self.ch1.wf()
        &&& self.ch2.wf()
        &&& self.ch3.wf()
        &&& self.ch4.wf()
        &&& self.volume_left <= 7
        &&& self.volume_right <= 7
    }

    /// The unit at power-on: off, every channel zero, an empty batch of silence.
    pub open spec fn power_on() -> Apu {
        Apu {
            buffer: vstd::array::spec_array_fill_for_copy_type::<i16, 2048>(0),
            buffer_at: 0,
            batch_ready: false,
            output_timer: 0,
            seq_timer: 0,
            last_div_edge: false,
            enable: false,
            ch1: Channel1::zero(),
            ch2: Channel2::zero(),
            ch3: Channel3::zero(),
            ch4: Channel4::zero(),
            volume_left: 0,
            volume_right: 0,
            vin_left: false,
            vin_right: false,
        }
    }

    /// The power register: the unit's switch and the four activity flags.
    pub open spec fn power_bits(self) -> u8 {
        (0x70 + bit(self.enable) * 128 + bit(self.ch4.active) * 8 + bit(self.ch3.active) * 4
            + bit(self.ch2.active) * 2 + bit(self.ch1.active)) as u8
    }

    /// The panning register: left flags in the high nibble, right flags in the low.
    pub open spec fn pan_bits(self) -> u8 {
        (bit(self.ch4.pan_left) * 128 + bit(self.ch3.pan_left) * 64 + bit(self.ch2.pan_left) * 32
            + bit(self.ch1.pan_left) * 16 + bit(self.ch4.pan_right) * 8 + bit(self.ch3.pan_right)
            * 4 + bit(self.ch2.pan_right) * 2 + bit(self.ch1.pan_right)) as u8
    }

    /// The master volume register.
    pub open spec fn volume_bits(self) -> u8 {
        (bit(self.vin_left) * 128 + self.volume_left * 16 + bit(self.vin_right) * 8
            + self.volume_right) as u8
    }

    /// The byte read at `addr` of `FF10`–`FF3F`.  Bits that a register lacks read as one.
    pub open spec fn load_spec(self, addr: u16) -> u8 {
        if addr == 0xff26 {
            self.power_bits()
        } else if addr == 0xff25 {
            self.pan_bits()
        } else if addr == 0xff24 {
            self.volume_bits()
        } else if 0xff10 <= addr <= 0xff14 {
            self.ch1.load_spec(addr)
        } else if 0xff15 <= addr <= 0xff19 {
            self.ch2.load_spec(addr)
        } else if 0xff1a <= addr <= 0xff1e || 0xff30 <= addr <= 0xff3f {
            self.ch3.load_spec(addr)
        } else if 0xff1f <= addr <= 0xff23 {
            self.ch4.load_spec(addr)
        } else {
            0xff
        }
    }

    /// The unit switched off: every channel zero but for the wave samples, the
    /// master volumes zero.
    pub open spec fn powered_off(self) -> Apu {
        Apu {
            enable: false,
            ch1: Channel1::zero(),
            ch2: Channel2::zero(),
            ch3: self.ch3.reset_spec(),
            ch4: Channel4::zero(),
            volume_left: 0,
            volume_right: 0,
            vin_left: false,
            vin_right: false,
            ..self
        }
    }

    /// Whether a write to `addr` is heard: while the unit is off, only the power
    /// register and the wave samples are.
    pub open spec fn listens(self, addr: u16) -> bool {
        self.enable || addr == 0xff26 || 0xff30 <= addr <= 0xff3f
    }

    /// The first pulse channel after a write to one of its registers.
    pub open spec fn store_ch1(c: Channel1, addr: u16, data: u8) -> Channel1 {
        if addr == 0xff10 {
            Channel1 {
                sweep_pace: (data / 16) % 8,
                sweep_dir: data & 8 != 0,
                sweep_step: data % 8,
                ..c
            }
        } else if addr == 0xff11 {
            Channel1 { duty: data / 64, length_timer: (64 - data % 64) as u8, ..c }
        } else if addr == 0xff12 {
            Channel1 {
                active: c.active && Envelope::dac_on(data),
                envelope: c.envelope.updated(data),
                ..c
            }
        } else if addr == 0xff13 {
            Channel1 { period: ((c.period / 256) * 256 + data) as u16, ..c }
        } else if addr == 0xff14 {
            Channel1 {
                period: (c.period % 256 + (data % 8) * 256) as u16,
                length_en: data & 0x40 != 0,
                triggered: data & 0x80 != 0,
                ..c
            }
        } else {
            c
        }
    }

    /// The second pulse channel after a write to one of its registers.
    pub open spec fn store_ch2(c: Channel2, addr: u16, data: u8) -> Channel2 {
        if addr == 0xff16 {
            Channel2 { duty: data / 64, length_timer: (64 - data % 64) as u8, ..c }
        } else if addr == 0xff17 {
            Channel2 {
                active: c.active && Envelope::dac_on(data),
                envelope: c.envelope.updated(data),
                ..c
            }
        } else if addr == 0xff18 {
            Channel2 { period: ((c.period / 256) * 256 + data) as u16, ..c }
        } else if addr == 0xff19 {
            Channel2 {
                period: (c.period % 256 + (data % 8) * 256) as u16,
                length_en: data & 0x40 != 0,
                triggered: data & 0x80 != 0,
                ..c
            }
        } else {
            c
        }
    }

    /// The wave channel after a write to one of its registers or samples.
    pub open spec fn store_ch3(c: Channel3, addr: u16, data: u8) -> Channel3 {
        if addr == 0xff1a {
            Channel3 { dac_enabled: data & 0x80 != 0, active: c.active && data & 0x80 != 0, ..c }
        } else if addr == 0xff1b {
            Channel3 { length_timer: (256 - data) as u16, ..c }
        } else if addr == 0xff1c {
            Channel3 { out_level: (data / 32) % 4, ..c }
        } else if addr == 0xff1d {
            Channel3 { period: ((c.period / 256) * 256 + data) as u16, ..c }
        } else if addr == 0xff1e {
            Channel3 {
                period: (c.period % 256 + (data % 8) * 256) as u16,
                length_en: data & 0x40 != 0,
                triggered: data & 0x80 != 0,
                ..c
            }
        } else if 0xff30 <= addr <= 0xff3f {
            Channel3 { wave: vstd::array::spec_array_update(c.wave, addr - 0xff30, data), ..c }
        } else {
            c
        }
    }

    /// The noise channel after a write to one of its registers.
    pub open spec fn store_ch4(c: Channel4, addr: u16, data: u8) -> Channel4 {
        if addr == 0xff20 {
            Channel4 { length_timer: (64 - data % 64) as u8, ..c }
        } else if addr == 0xff21 {
            Channel4 {
                active: c.active && Envelope::dac_on(data),
                envelope: c.envelope.updated(data),
                ..c
            }
        } else if addr == 0xff22 {
            Channel4 { clock_shift: data / 16, width: data & 8 != 0, clock_div: data % 8, ..c }
        } else if addr == 0xff23 {
            Channel4 { length_en: data & 0x40 != 0, triggered: data & 0x80 != 0, ..c }
        } else {
            c
        }
    }

    /// The unit after a write to the panning register.
    pub open spec fn store_pan(self, data: u8) -> Apu {
        Apu {
            ch4: Channel4 { pan_left: data & 0x80 != 0, pan_right: data & 0x08 != 0, ..self.ch4 },
            ch3: Channel3 { pan_left: data & 0x40 != 0, pan_right: data & 0x04 != 0, ..self.ch3 },
            ch2: Channel2 { pan_left: data & 0x20 != 0, pan_right: data & 0x02 != 0, ..self.ch2 },
            ch1: Channel1 { pan_left: data & 0x10 != 0, pan_right: data & 0x01 != 0, ..self.ch1 },
            ..self
        }
    }

    /// The unit after a write to the master volume register.
    pub open spec fn store_volume(self, data: u8) -> Apu {
        Apu {
            volume_left: (data / 16) % 8,
            volume_right: data % 8,
            vin_left: data & 0x80 != 0,
            vin_right: data & 0x08 != 0,
            ..self
        }
    }

    /// The unit after a write to the power register: bit 7 switches it on or off.
    pub open spec fn store_power(self, data: u8) -> Apu {
        if data & 0x80 != 0 {
            Apu { enable: true, ..self }
        } else {
            self.powered_off()
        }
    }

    /// The unit after a write to one of the three control registers.
    pub open spec fn store_control(self, addr: u16, data: u8) -> Apu {
        if addr == 0xff26 {
            self.store_power(data)
        } else if addr == 0xff25 {
            self.store_pan(data)
        } else {
            self.store_volume(data)
        }
    }

    /// The unit after a write of `data` to `addr` of `FF10`–`FF3F`.
    pub open spec fn store_spec(self, addr: u16, data: u8) -> Apu {
        if !self.listens(addr) {
            self
        } else if 0xff24 <= addr <= 0xff26 {
            self.store_control(addr, data)
        } else {
            Apu {
                ch1: Self::store_ch1(self.ch1, addr, data),
                ch2: Self::store_ch2(self.ch2, addr, data),
                ch3: Self::store_ch3(self.ch3, addr, data),
                ch4: Self::store_ch4(self.ch4, addr, data),
                ..self
            }
        }
    }

    /// The unit after a length step of all four channels.
    pub open spec fn lengths_spec(self) -> Apu {
        Apu {
            ch1: self.ch1.step_len_spec(),
            ch2: self.ch2.step_len_spec(),
            ch3: self.ch3.step_len_spec(),
            ch4: self.ch4.step_len_spec(),
            ..self
        }
    }

    /// The unit after an envelope step of the three channels that have an envelope.
    pub open spec fn envelopes_spec(self) -> Apu {
        Apu {
            ch1: self.ch1.step_envelope_spec(),
            ch2: self.ch2.step_envelope_spec(),
            ch4: self.ch4.step_envelope_spec(),
            ..self
        }
    }

    /// The unit after a step of the frame sequencer: lengths on the even steps,
    /// the sweep on steps 2 and 6, the envelopes on step 7.
    pub open spec fn sequenced_spec(self) -> Apu {
        let seq = ((self.seq_timer + 1) % 8) as u8;
        let a = Apu { seq_timer: seq, ..self };
        if seq == 7 {
            a.envelopes_spec()
        } else if seq == 2 || seq == 6 {
            let b = a.lengths_spec();
            Apu { ch1: b.ch1.step_sweep_spec(), ..b }
        } else if seq % 2 == 0 {
            a.lengths_spec()
        } else {
            a
        }
    }

    /// The sum of the channels on the left, before the master volume.
    pub open spec fn left_sum(self) -> int {
        panned(self.ch1.pan_left, self.ch1.amp()) + panned(self.ch2.pan_left, self.ch2.amp())
            + panned(self.ch3.pan_left, self.ch3.amp()) + panned(self.ch4.pan_left, self.ch4.amp())
    }

    /// The sum of the channels on the right, before the master volume.
    pub open spec fn right_sum(self) -> int {
        panned(self.ch1.pan_right, self.ch1.amp()) + panned(self.ch2.pan_right, self.ch2.amp())
            + panned(self.ch3.pan_right, self.ch3.amp()) + panned(
            self.ch4.pan_right,
            self.ch4.amp(),
        )
    }

    /// The stereo frame that the unit puts out now: silence while it is off.
    pub open spec fn mix_spec(self) -> (i16, i16) {
        if self.enable {
            (
                scale(self.left_sum(), self.volume_left) as i16,
                scale(self.right_sum(), self.volume_right) as i16,
            )
        } else {
            (0, 0)
        }
    }

    /// The unit after one T-cycle of the output timer, where `frame` is what it puts
    /// out: every `OUTPUT_PERIOD` cycles the frame enters the buffer, and a full
    /// buffer is a batch, after which the buffer fills from the start again.
    pub open spec fn emitted_spec(self, frame: (i16, i16)) -> Apu {
        if self.output_timer + 1 < OUTPUT_PERIOD {
            Apu { output_timer: (self.output_timer + 1) as u8, ..self }
        } else {
            let at = self.buffer_at as int;
            let full = at + 2 >= 2048;
            Apu {
                output_timer: 0,
                buffer: vstd::array::spec_array_update(
                    vstd::array::spec_array_update(self.buffer, at, frame.0),
                    at + 1,
                    frame.1,
                ),
                buffer_at: if full {
                    0
                } else {
                    (at + 2) as usize
                },
                batch_ready: self.batch_ready || full,
                ..self
            }
        }
    }

    /// The unit after the channels and the frame sequencer had their T-cycle, where
    /// `div_edge` is bit 12 of the divider: the sequencer steps when the bit falls.
    pub open spec fn clocked_spec(self, div_edge: bool) -> Apu {
        let a = Apu {
            ch1: self.ch1.step_spec(),
            ch2: self.ch2.step_spec(),
            ch3: self.ch3.step_spec(),
            ch4: self.ch4.step_spec(),
            last_div_edge: div_edge,
            ..self
        };
        if self.last_div_edge && !div_edge {
            a.sequenced_spec()
        } else {
            a
        }
    }

    /// One T-cycle.  While the unit is off only the output timer runs.
    pub open spec fn step_spec(self, div_edge: bool) -> Apu {
        let a = if self.enable {
            self.clocked_spec(div_edge)
        } else {
            self
        };
        a.emitted_spec(a.mix_spec())
    }

    /// The unit with the batch flag cleared.
    pub open spec fn batch_taken(self) -> Apu {
        Apu { batch_ready: false, ..self }
    }

    /// Switching the unit off zeroes every channel but keeps the wave samples, byte
    /// for byte.
    pub proof fn lemma_power_off(self, data: u8)
        requires
            data & 0x80 == 0,
        ensures
            ({
                let a = self.store_spec(0xff26, data);
                &&& !a.enable
                &&& a.ch1 == Channel1::zero()
                &&& a.ch2 == Channel2::zero()
                &&& a.ch4 == Channel4::zero()
                &&& a.ch3.is_reset()
                &&& a.ch3.wave == self.ch3.wave
            }),
    {
    }

    /// While the unit is off, writes to its registers are ignored: only the power
    /// register and the wave samples listen.
    pub proof fn lemma_off_ignores(self, addr: u16, data: u8)
        requires
            !self.enable,
            addr != 0xff26,
            !(0xff30 <= addr <= 0xff3f),
        ensures
            self.store_spec(addr, data) == self,
    {
    }

    /// The unit at power-on: off, silent, an empty batch.
    pub fn new() -> (r: Apu)
        ensures
            r.wf(),
            r == Apu::power_on(),
    {
        Apu {
            buffer: [0i16;2048],
            buffer_at: 0,
            batch_ready: false,
            output_timer: 0,
            seq_timer: 0,
            last_div_edge: false,
            enable: false,
            ch1: Channel1::new(),
            ch2: Channel2::new(),
            ch3: Channel3::new(),
            ch4: Channel4::new(),
            volume_left: 0,
            volume_right: 0,
            vin_left: false,
            vin_right: false,
        }
    }

    /// The power register.
    fn load_power(&self) -> (r: u8)
        ensures
            r == self.power_bits(),
    {
        0x70 + flag(self.enable) * 128 + flag(self.ch4.active) * 8 + flag(self.ch3.active) * 4
            + flag(self.ch2.active) * 2 + flag(self.ch1.active)
    }

    /// The panning register.
    fn load_pan(&self) -> (r: u8)
        ensures
            r == self.pan_bits(),
    {
        flag(self.ch4.pan_left) * 128 + flag(self.ch3.pan_left) * 64 + flag(self.ch2.pan_left)
            * 32 + flag(self.ch1.pan_left) * 16 + flag(self.ch4.pan_right) * 8 + flag(
            self.ch3.pan_right,
        ) * 4 + flag(self.ch2.pan_right) * 2 + flag(self.ch1.pan_right)
    }

    /// The master volume register.
    fn load_volume(&self) -> (r: u8)
        requires
            self.volume_left <= 7,
            self.volume_right <= 7,
        ensures
            r == self.volume_bits(),
    {
        flag(self.vin_left) * 128 + self.volume_left * 16 + flag(self.vin_right) * 8
            + self.volume_right
    }

    /// Reads the register at `addr`.
    pub fn load(&self, addr: u16) -> (r: u8)
        requires
            self.wf(),
        ensures
            r == self.load_spec(addr),
    {
        if addr == 0xff26 {
            self.load_power()
        } else if addr == 0xff25 {
            self.load_pan()
        } else if addr == 0xff24 {
            self.load_volume()
        } else if 0xff10 <= addr && addr <= 0xff14 {
            self.ch1.load(addr)
        } else if 0xff15 <= addr && addr <= 0xff19 {
            self.ch2.load(addr)
        } else if (0xff1a <= addr && addr <= 0xff1e) || (0xff30 <= addr && addr <= 0xff3f) {
            self.ch3.load(addr)
        } else if 0xff1f <= addr && addr <= 0xff23 {
            self.ch4.load(addr)
        } else {
            0xff
        }
    }

    /// Switches the unit off.
    fn power_off(&mut self)
        requires
            old(self).wf(),
        ensures
            final(self).wf(),
            *final(self) == old(self).powered_off(),
    {
        self.enable = false;
        self.ch1 = Channel1::new();
        self.ch2 = Channel2::new();
        self.ch3.reset();
        self.ch4 = Channel4::new();
        self.volume_left = 0;
        self.volume_right = 0;
        self.vin_left = false;
        self.vin_right = false;
    }

    /// Writes the panning register.
    fn set_pan(&mut self, data: u8)
        ensures
            *final(self) == old(self).store_pan(data),
    {
        self.ch4.pan_left = data & 0x80 != 0;
        self.ch4.pan_right = data & 0x08 != 0;
        self.ch3.pan_left = data & 0x40 != 0;
        self.ch3.pan_right = data & 0x04 != 0;
        self.ch2.pan_left = data & 0x20 != 0;
        self.ch2.pan_right = data & 0x02 != 0;
        self.ch1.pan_left = data & 0x10 != 0;
        self.ch1.pan_right = data & 0x01 != 0;
    }

    /// Writes the master volume register.
    fn set_volume(&mut self, data: u8)
        ensures
            *final(self) == old(self).store_volume(data),
            final(self).volume_left <= 7,
            final(self).volume_right <= 7,
    {
        self.volume_left = (data / 16) % 8;
        self.volume_right = data % 8;
        self.vin_left = data & 0x80 != 0;
        self.vin_right = data & 0x08 != 0;
    }

    /// Writes one of the three control registers.
    fn store_master(&mut self, addr: u16, data: u8)
        requires
            old(self).wf(),
            0xff24 <= addr <= 0xff26,
        ensures
            final(self).wf(),
            *final(self) == old(self).store_control(addr, data),
    {
        if addr == 0xff26 {
            if data & 0x80 != 0 {
                self.enable = true;
            } else {
                self.power_off();
            }
        } else if addr == 0xff25 {
            self.set_pan(data);
        } else {
            self.set_volume(data);
        }
    }

    /// Writes `data` to the register at `addr`.  While the unit is off only the
    /// power register and the wave samples listen; switching it off zeroes every
    /// channel but keeps the wave samples.
    pub fn store(&mut self, addr: u16, data: u8)
        requires
            old(self).wf(),
        ensures
            final(self).wf(),
            *final(self) == old(self).store_spec(addr, data),
    {
        if !self.enable && addr != 0xff26 && !(0xff30 <= addr && addr <= 0xff3f) {
            return ;
        }
        if 0xff10 <= addr && addr <= 0xff14 {
            self.ch1.store(addr, data);
        } else if 0xff15 <= addr && addr <= 0xff19 {
            self.ch2.store(addr, data);
        } else if (0xff1a <= addr && addr <= 0xff1e) || (0xff30 <= addr && addr <= 0xff3f) {
            self.ch3.store(addr, data);
        } else if 0xff1f <= addr && addr <= 0xff23 {
            self.ch4.store(addr, data);
        } else if 0xff24 <= addr && addr <= 0xff26 {
            self.store_master(addr, data);
        }
    }

    /// A length step of all four channels.
    fn step_lengths(&mut self)
        requires
            old(self).wf(),
        ensures
            final(self).wf(),
            *final(self) == old(self).lengths_spec(),
    {
        self.ch1.step_len();
        self.ch2.step_len();
        self.ch3.step_len();
        self.ch4.step_len();
    }

    /// An envelope step of the three channels that have an envelope.
    fn step_envelopes(&mut self)
        requires
            old(self).wf(),
        ensures
            final(self).wf(),
            *final(self) == old(self).envelopes_spec(),
    {
        self.ch1.step_envelope();
        self.ch2.step_envelope();
        self.ch4.step_envelope();
    }

    /// One step of the frame sequencer.
    fn sequence(&mut self)
        requires
            old(self).wf(),
        ensures
            final(self).wf(),
            *final(self) == old(self).sequenced_spec(),
    {
        self.seq_timer = (self.seq_timer + 1) % 8;
        let seq = self.seq_timer;
        if seq == 7 {
            self.step_envelopes();
        } else if seq == 2 || seq == 6 {
            self.step_lengths();
            self.ch1.step_sweep();
        } else if seq % 2 == 0 {
            self.step_lengths();
        }
    }

    /// The sum of the channels on the left, before the master volume.
    fn left(&self) -> (r: i32)
        requires
            self.wf(),
        ensures
            r == self.left_sum(),
            -16384 <= r <= 16376,
    {
        let c1 = pan(self.ch1.pan_left, self.ch1.get_amp());
        let c2 = pan(self.ch2.pan_left, self.ch2.get_amp());
        let c3 = pan(self.ch3.pan_left, self.ch3.get_amp());
        let c4 = pan(self.ch4.pan_left, self.ch4.get_amp());
        c1 + c2 + c3 + c4
    }

    /// The sum of the channels on the right, before the master volume.
    fn right(&self) -> (r: i32)
        requires
            self.wf(),
        ensures
            r == self.right_sum(),
            -16384 <= r <= 16376,
    {
        let c1 = pan(self.ch1.pan_right, self.ch1.get_amp());
        let c2 = pan(self.ch2.pan_right, self.ch2.get_amp());
        let c3 = pan(self.ch3.pan_right, self.ch3.get_amp());
        let c4 = pan(self.ch4.pan_right, self.ch4.get_amp());
        c1 + c2 + c3 + c4
    }

    /// The stereo frame that the unit puts out now.
    pub fn mix(&self) -> (r: (i16, i16))
        requires
            self.wf(),
        ensures
            r == self.mix_spec(),
    {
        if !self.enable {
            return (0, 0);
        }
        let l = self.left();
        let r = self.right();
        (scaled(l, self.volume_left), scaled(r, self.volume_right))
    }

    /// Counts one T-cycle of the output timer; when it expires, `frame` enters the
    /// buffer.
    pub fn write(&mut self, frame: (i16, i16))
        requires
            old(self).wf(),
        ensures
            final(self).wf(),
            *final(self) == old(self).emitted_spec(frame),
    {
        if self.output_timer + 1 < OUTPUT_PERIOD {
            self.output_timer = self.output_timer + 1;
            return ;
        }
        self.output_timer = 0;
        let at = self.buffer_at;
        self.buffer[at] = frame.0;
        self.buffer[at + 1] = frame.1;
        if at + 2 >= 2048 {
            self.buffer_at = 0;
            self.batch_ready = true;
        } else {
            self.buffer_at = at + 2;
        }
    }

    /// One T-cycle, where `div_edge` is bit 12 of the divider.
    pub fn step(&mut self, div_edge: bool)
        requires
            old(self).wf(),
        ensures
            final(self).wf(),
            *final(self) == old(self).step_spec(div_edge),
    {
        if self.enable {
            self.ch1.step();
            self.ch2.step();
            self.ch3.step();
            self.ch4.step();
            let fell = self.last_div_edge && !div_edge;
            self.last_div_edge = div_edge;
            if fell {
                self.sequence();
            }
        }
        if self.output_timer + 1 < OUTPUT_PERIOD {
            self.output_timer = self.output_timer + 1;
        } else {
            let frame = self.mix();
            self.write(frame);
        }
    }

    /// The batch buffer.
    pub fn batch(&self) -> (r: &[i16; 2048])
        ensures
            *r == self.buffer,
    {
        &self.buffer
    }

    /// Clears the batch flag: the host has the batch.
    pub fn take_batch(&mut self) -> (ready: bool)
        ensures
            ready == old(self).batch_ready,
            *final(self) == old(self).batch_taken(),
    {
        let ready = self.batch_ready;
        self.batch_ready = false;
        ready
    }
}

/// A flag as a number.
pub fn flag(x: bool) -> (r: u8)
    ensures
        r == bit(x),
{
    if x {
        1
    } else {
        0
    }
}

/// What a channel adds to one side of the mix.
pub fn pan(on: bool, amp: i16) -> (r: i32)
    ensures
        r == panned(on, amp as int),
{
    if on {
        amp as i32
    } else {
        0
    }
}

/// The sum of one side under a master volume.
pub fn scaled(sum: i32, vol: u8) -> (r: i16)
    requires
        -16384 <= sum <= 16376,
        vol <= 7,
    ensures
        r == scale(sum as int, vol),
        r == scale(sum as int, vol) as i16,
{
    let factor: u32 = vol as u32 + 1;
    let base: u32 = (sum + 16384) as u32;
    assert(base * factor <= 32760 * 8) by (nonlinear_arith)
        requires
            base <= 32760,
            factor <= 8,
    ;
    let biased: u32 = base * factor;
    let q: u32 = biased / 8;
    proof {
        reveal(scale);
        let p = sum * (vol + 1);
        let k = 2048 * (vol + 1);
        assert(biased == p + 8 * k) by (nonlinear_arith)
            requires
                biased == (sum + 16384) * (vol + 1),
                p == sum * (vol + 1),
                k == 2048 * (vol + 1),
        ;
        assert((p + 8 * k) / 8 == p / 8 + k);
        assert(-16384 * 8 <= p <= 16376 * 8) by (nonlinear_arith)
            requires
                p == sum * (vol + 1),
                -16384 <= sum <= 16376,
                0 <= vol <= 7,
        ;
    }
    (q as i32 - 2048 * (factor as i32)) as i16
}

} // verus!
