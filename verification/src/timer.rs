//! The timer: a counter `TIMA` that ticks when a chosen bit of the divider falls,
//! and on overflow reloads from `TMA` and requests an interrupt one T-cycle later.
use vstd::prelude::*;

verus! {

/// The timer registers.
#[derive(Debug, Clone, Copy, PartialEq, Eq, Structural)]
pub struct Timer {
    pub tima: u8,
    pub tma: u8,
    /// Bit 2 enables the timer; bits 1..0 choose the bit of the divider.
    pub tac: u8,
    /// The chosen bit of the divider, gated by the enable bit, as it was in the
    /// last T-cycle.
    pub prev: bool,
    /// Set in the T-cycle in which `TIMA` overflowed: the reload is due in the next.
    pub reload: bool,
}

/// The bit of the divider that `tac` chooses: bit 9, 3, 5 or 7.
pub open spec fn tap_bit(tac: u8) -> u16 {
    if tac & 3 == 0 {
        9
    } else if tac & 3 == 1 {
        3
    } else if tac & 3 == 2 {
        5
    } else {
        7
    }
}

/// The signal whose falling edge ticks `TIMA`: the chosen bit of the divider `div`,
/// while bit 2 of `tac` enables the timer.
pub open spec fn timer_signal(tac: u8, div: u16) -> bool {
    tac & 4 != 0 && (div >> tap_bit(tac)) & 1 != 0
}

impl Timer {
    /// The timer at power-on.
    pub open spec fn zero() -> Timer {
        Timer { tima: 0, tma: 0, tac: 0, prev: false, reload: false }
    }

    /// The timer after a reload that was due: `TIMA` takes the value of `TMA`.
    pub open spec fn reloaded(self) -> Timer {
        if self.reload {
            Timer { tima: self.tma, reload: false, ..self }
        } else {
            self
        }
    }

    /// The timer after a tick of `TIMA`; an overflow makes a reload due.
    pub open spec fn ticked(self) -> Timer {
        if self.tima == 0xff {
            Timer { tima: 0, reload: true, ..self }
        } else {
            Timer { tima: (self.tima + 1) as u8, ..self }
        }
    }

    /// Whether the signal falls in the T-cycle in which the divider is `div`.
    pub open spec fn falls(self, div: u16) -> bool {
        self.prev && !timer_signal(self.tac, div)
    }

    /// The timer after the T-cycle in which the divider is `div`: a reload that is
    /// due happens, then `TIMA` ticks if the signal falls.
    pub open spec fn step_spec(self, div: u16) -> Timer {
        let t = self.reloaded();
        let t1 = if self.falls(div) {
            t.ticked()
        } else {
            t
        };
        Timer { prev: timer_signal(self.tac, div), ..t1 }
    }

    /// Whether the T-cycle requests the timer interrupt: a reload was due.
    pub open spec fn requests(self) -> bool {
        self.reload
    }

    /// The timer after the divider was cleared by a write: the signal is low at
    /// once, so `TIMA` ticks if the signal was high.
    pub open spec fn div_reset_spec(self) -> Timer {
        let t = if self.prev {
            self.ticked()
        } else {
            self
        };
        Timer { prev: false, ..t }
    }

    /// The timer after a write to `TIMA`: a reload that is due is called off.
    pub open spec fn store_tima_spec(self, d: u8) -> Timer {
        Timer { tima: d, reload: false, ..self }
    }

    /// When a tick overflows `TIMA`, the interrupt is requested exactly one T-cycle
    /// later, and in that cycle `TIMA` is `TMA`.
    pub proof fn lemma_overflow(self, div: u16, next: u16)
        requires
            !self.reload,
            self.tima == 0xff,
            self.falls(div),
        ensures
            !self.requests(),
            self.step_spec(div).tima == 0,
            self.step_spec(div).requests(),
            self.step_spec(div).step_spec(next).tima == self.tma,
            !self.step_spec(div).step_spec(next).requests(),
    {
    }

    /// No interrupt is requested without an overflow in the T-cycle before.
    pub proof fn lemma_no_overflow(self, div: u16)
        requires
            !self.reload,
            !(self.tima == 0xff && self.falls(div)),
        ensures
            !self.step_spec(div).requests(),
    {
    }

    /// A write to `TIMA` in the T-cycle of the overflow calls the reload off: no
    /// interrupt is requested, and `TIMA` keeps what was written.
    pub proof fn lemma_write_cancels(self, div: u16, d: u8, next: u16)
        requires
            self.tima == 0xff,
            self.falls(div),
        ensures
            ({
                let t = self.step_spec(div).store_tima_spec(d);
                !t.requests() && t.step_spec(next).tima == d
            }),
    {
    }

    /// The timer at power-on.
    pub fn new() -> (t: Timer)
        ensures
            t == Timer::zero(),
    {
        Timer { tima: 0, tma: 0, tac: 0, prev: false, reload: false }
    }

    /// The signal now.
    pub fn signal(&self, div: u16) -> (r: bool)
        ensures
            r == timer_signal(self.tac, div),
    {
        let tap: u16 = if self.tac & 3 == 0 {
            9
        } else if self.tac & 3 == 1 {
            3
        } else if self.tac & 3 == 2 {
            5
        } else {
            7
        };
        self.tac & 4 != 0 && (div >> tap) & 1 != 0
    }

    /// Ticks `TIMA`.
    pub fn tick(&mut self)
        ensures
            *final(self) == old(self).ticked(),
    {
        if self.tima == 0xff {
            self.tima = 0;
            self.reload = true;
        } else {
            self.tima = self.tima + 1;
        }
    }

    /// One T-cycle; says whether the timer interrupt is requested.
    pub fn step(&mut self, div: u16) -> (irq: bool)
        ensures
            *final(self) == old(self).step_spec(div),
            irq == old(self).requests(),
    {
        let irq = self.reload;
        if self.reload {
            self.tima = self.tma;
            self.reload = false;
        }
        let bit = self.signal(div);
        if self.prev && !bit {
            self.tick();
        }
        self.prev = bit;
        irq
    }

    /// Tells the timer that the divider was cleared.
    pub fn div_reset(&mut self)
        ensures
            *final(self) == old(self).div_reset_spec(),
    {
        if self.prev {
            self.tick();
        }
        self.prev = false;
    }

    /// Writes `TIMA`.
    pub fn store_tima(&mut self, d: u8)
        ensures
            *final(self) == old(self).store_tima_spec(d),
    {
        self.tima = d;
        self.reload = false;
    }
}

} // verus!
