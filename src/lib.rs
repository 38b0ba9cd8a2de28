//! Execution core of a 65816-family emulator: a banked 24-bit address
//! space, memory-map translation onto cartridge ROM, and the CPU's
//! fetch/decode/execute step.

pub mod util;
pub mod cartridge;
pub mod mem;
pub mod cpu;
