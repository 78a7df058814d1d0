//! The SM83 processor.
pub mod alu;
pub mod bus;
pub mod cpu;
pub mod ram;
pub mod text;
pub mod timing;
