//! The interrupt enable and request registers.
use crate::bits::{lemma_and_le_u8, lemma_bit_five, lemma_or_five_bits};
use vstd::prelude::*;

verus! {

/// Bit number of the vertical-blank interrupt.
pub const INT_VBLANK: u8 = 0;

/// Bit number of the LCD status interrupt.
pub const INT_STAT: u8 = 1;

/// Bit number of the timer interrupt.
pub const INT_TIMER: u8 = 2;

/// Bit number of the serial interrupt.
pub const INT_SERIAL: u8 = 3;

/// Bit number of the joypad interrupt.
pub const INT_JOYPAD: u8 = 4;

/// `IE` (the enable mask) and `IF` (the request mask), five bits each.
#[derive(Clone, Copy, Debug, PartialEq, Eq, Structural)]
pub struct InterruptManager {
    pub enable: u8,
    pub pending: u8,
}

/// Number of the request that is served first among those in `mask`: the lowest bit set.
pub open spec fn highest_priority(mask: u8) -> u8 {
    if mask & 0x01 != 0 {
        0
    } else if mask & 0x02 != 0 {
        1
    } else if mask & 0x04 != 0 {
        2
    } else if mask & 0x08 != 0 {
        3
    } else {
        4
    }
}

/// Address that the processor jumps to when it serves request `n`.
pub open spec fn vector_of(n: u8) -> u16 {
    (0x40 + 8 * n) as u16
}

impl InterruptManager {
    /// Both masks fit in five bits.
    pub open spec fn wf(self) -> bool {
        self.enable <= 0x1f && self.pending <= 0x1f
    }

    /// The registers after request `n` was raised.
    pub open spec fn raise_spec(self, n: u8) -> Self {
        InterruptManager { pending: self.pending | (1u8 << n), ..self }
    }

    /// The registers after request `n` was served.
    pub open spec fn clear_spec(self, n: u8) -> Self {
        InterruptManager { pending: self.pending & !(1u8 << n), ..self }
    }

    /// Whether request `n` is raised.
    pub open spec fn requested(self, n: u8) -> bool {
        self.pending & (1u8 << n) != 0
    }

    /// A request that was raised is raised, and no other request changed.
    pub proof fn lemma_raise(self, n: u8, m: u8)
        requires
            n < 5,
            m < 5,
        ensures
            self.raise_spec(n).requested(n),
            m != n ==> self.raise_spec(n).requested(m) == self.requested(m),
            self.raise_spec(n).enable == self.enable,
    {
        let p = self.pending;
        assert((p | (1u8 << n)) & (1u8 << n) != 0) by (bit_vector)
            requires
                n < 5,
        ;
        assert(m != n ==> ((p | (1u8 << n)) & (1u8 << m) != 0) == (p & (1u8 << m) != 0))
            by (bit_vector)
            requires
                n < 5,
                m < 5,
        ;
    }

    /// The requests that are both raised and enabled.
    pub open spec fn active(self) -> u8 {
        self.enable & self.pending
    }

    /// Nothing enabled, nothing requested.
    pub fn new() -> (r: Self)
        ensures
            r == (InterruptManager { enable: 0, pending: 0 }),
            r.wf(),
    {
        InterruptManager { enable: 0, pending: 0 }
    }

    /// Raises request `n`.
    pub fn interrupt(&mut self, n: u8)
        requires
            n < 5,
            old(self).wf(),
        ensures
            *final(self) == old(self).raise_spec(n),
            final(self).wf(),
    {
        proof {
            lemma_bit_five(n);
            lemma_or_five_bits(self.pending, 1u8 << n);
        }
        self.pending = self.pending | (1u8 << n);
    }

    /// The requests that are both raised and enabled.
    pub fn active_mask(&self) -> (r: u8)
        ensures
            r == self.active(),
    {
        self.enable & self.pending
    }

    /// Marks request `n` as served.
    pub fn acknowledge(&mut self, n: u8)
        requires
            n < 5,
            old(self).wf(),
        ensures
            *final(self) == old(self).clear_spec(n),
            final(self).wf(),
    {
        proof {
            lemma_and_le_u8(self.pending, !(1u8 << n));
        }
        self.pending = self.pending & !(1u8 << n);
    }
}

/// Number of the request that is served first among those in `mask`.
pub fn first_request(mask: u8) -> (n: u8)
    ensures
        n == highest_priority(mask),
        n < 5,
{
    if mask & 0x01 != 0 {
        0
    } else if mask & 0x02 != 0 {
        1
    } else if mask & 0x04 != 0 {
        2
    } else if mask & 0x08 != 0 {
        3
    } else {
        4
    }
}

/// Address that the processor jumps to when it serves request `n`.
pub fn vector(n: u8) -> (a: u16)
    requires
        n < 5,
    ensures
        a == vector_of(n),
{
    0x40 + 8 * (n as u16)
}

} // verus!
