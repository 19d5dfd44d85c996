//! An emulator core for the classic 8-bit handheld game console: a CPU with
//! the full primary and extended opcode tables, a memory-mapped bus, a timer,
//! a scanline-driven display controller, an interrupt controller, a joypad,
//! and two cartridge bank-controller variants.
//!
//! Every component carries a functional specification: the contracts describe
//! the exact new machine state for each operation, over mathematical views of
//! the hardware state. The pixel contents of the rendered framebuffer are the
//! one part left underspecified; the scanline timing that drives it is exact.

pub mod cartridge;
pub mod cpu;
pub mod gameboy;
pub mod header;
pub mod interrupt;
pub mod joypad;
pub mod lcd;
pub mod mmu;
pub mod registers;
pub mod timer;
pub mod utils;
