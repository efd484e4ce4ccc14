//! A CHIP-8 virtual machine core, verified with Verus.
//!
//! [`Emulator`] holds the whole machine: memory, registers, call stack, key
//! latches, timers and framebuffer. A host loads a program, latches keys,
//! calls [`Emulator::tick`] once per instruction and
//! [`Emulator::tick_timers`] sixty times a second, and reads the framebuffer
//! and the sound timer to present them.
//!
//! What every operation does is stated over [`machine::Machine`], the
//! mathematical model that an emulator's view is, by the functions of
//! [`semantics`]; [`theorems`] holds what follows for sequences of
//! instructions.

pub mod alu;
pub mod display;
pub mod emulator;
pub mod error;
pub mod instruction;
pub mod keypad;
pub mod machine;
mod random;
pub mod semantics;
pub mod stack;
pub mod theorems;

pub use emulator::Emulator;
pub use error::Chip8Error;
pub use instruction::{decode, Instruction};
pub use machine::{SCREEN_HEIGHT, SCREEN_WIDTH};
