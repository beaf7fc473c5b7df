//! A read-only snapshot of the register/memory/timer/stack core of the
//! machine, handed to a host's debug overlay so that it can render the
//! registers without being able to mutate the running machine.

use vstd::prelude::*;

verus! {

/// Size of the address space in bytes.
pub const MEMORY_SIZE: usize = 0x1000;

/// Bytes reserved below the program region; the font table lives at its
/// start and the loaded program begins right after it, at 0x200.
pub const CHIP8_RESERVED_MEMORY_SIZE: usize = 0x200;

/// The register/memory/timer/stack core of the machine state, without the
/// display and input bookkeeping.
pub struct Chip8State {
    pub memory: [u8; MEMORY_SIZE],
    pub v: [u8; 16],
    pub i: u16,
    pub delay_timer: u8,
    pub sound_timer: u8,
    pub program_counter: u16,
    pub stack_pointer: u8,
    pub stack: [u16; 16],
}

} // verus!
