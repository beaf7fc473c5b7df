//! A CHIP-8 virtual machine core: the machine state, the opcode decoder,
//! and the per-instruction executor, each with a verified contract over a
//! mathematical model of the machine.  The host around it supplies a
//! clock, a display surface, a key source and a ROM image; the core does
//! no I/O of its own.

pub mod chip8_state;
pub mod chip8_vm;
pub mod display;
pub mod fonts_sprites;
pub mod instructions;
pub mod utils;
pub mod write_to_memory;
