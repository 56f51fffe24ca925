//! A verified CHIP-8 interpreter.
//!
//! The machine state (memory, registers, program counter, stack, timers,
//! framebuffer, key latch) lives in [`interp::Chip8`]; every instruction's
//! effect is stated as a mathematical step function over the abstract
//! [`model::MachineState`] and proved of the executable interpreter.

pub mod insn;
pub mod interp;
pub mod laws;
pub mod model;

pub use insn::Instruction;
pub use interp::Chip8;
pub use model::Chip8Error;
