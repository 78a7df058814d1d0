//! The pixel unit: the scan of the object table, the pixel fetcher with its two
//! queues, and the unit itself with its modes, registers and interrupts.
pub mod fetcher;
pub mod oam;
pub mod pixels;
pub mod unit;

pub use unit::Ppu;
