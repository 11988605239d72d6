//! Core of a CHIP-8 interpreter: instruction decoding, the machine state
//! and the rules by which one tick fetches and executes an instruction.

pub mod chip8_instr;
pub mod machine;
mod rng;
pub mod instruction_laws;
pub mod laws;
pub mod screen;
pub mod semantics;

pub use chip8_instr::Chip8Instr;
pub use machine::Chip8;

use vstd::prelude::*;

verus! {

/// Screen width in pixels.
pub const SCREEN_WIDTH: usize = 64;

/// Screen height in pixels.
pub const SCREEN_HEIGHT: usize = 32;

/// Number of pixels on the screen.
pub const SCREEN_SIZE: usize = SCREEN_WIDTH * SCREEN_HEIGHT;

/// Bytes of memory.
pub const RAM_SIZE: usize = 4096;

/// Return addresses the call stack can hold.
pub const STACK_SIZE: usize = 16;

/// Number of general-purpose registers `V0` to `VF`.
pub const NUM_REGS: usize = 16;

/// Number of keys on the hex keypad.
pub const NUM_KEYS: usize = 16;

/// Address at which programs are loaded and execution starts.
pub const PC_START_ADDR: u16 = 0x200;

/// The register that receives carry, borrow and shifted-out bits.
pub const FLAG_REG: usize = 0xF;

} // verus!
