//! Cycle-accurate core of a Game Boy (DMG): the SM83 processor, the pixel and
//! audio units, the memory bus with its timer, and the cartridge mappers.
//!
//! Every unit is a deterministic state machine.  Each operation has a
//! mathematical definition (a `spec` function) and an executable implementation
//! proved equal to it, so the laws stated about the definitions hold of the
//! running code.
use vstd::prelude::*;

pub mod apu;
pub mod bits;
pub mod bus;
pub mod fifo;
pub mod gameboy;
pub mod interrupts;
pub mod mapper;
pub mod ppu;
pub mod sm83;
pub mod timer;

pub use gameboy::Gameboy;

verus! {

/// Master clock of the console, in T-cycles per second.
pub const CLOCK_HZ: usize = 4194304;

} // verus!
