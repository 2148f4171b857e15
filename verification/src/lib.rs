//! A verified core for a CHIP-8 style virtual machine: sixteen 8-bit
//! registers, 4 KB of memory, a 64 by 32 monochrome display, a 16-key pad and
//! two timers.
//!
//! The host loads a program with [`Emulator::load`], then calls
//! [`Emulator::tick`] or [`Emulator::step`] at the instruction rate and
//! [`Emulator::tick_timers`] at the timer rate, feeds key events to
//! [`Emulator::keypress`] and reads the picture from
//! [`Emulator::get_display`].
//!
//! [`state::MachineState`] is the mathematical model of the machine; every
//! method of [`Emulator`] is specified as a function on it, and [`laws`] holds
//! what follows for whole steps.

pub mod constants;
pub mod emulator;
pub mod fontset;
pub mod keypad;
pub mod laws;
pub mod opcode;
mod rng;
pub mod sprite;
pub mod state;

pub use crate::emulator::Emulator;
pub use crate::opcode::{decode, Instruction};
pub use crate::state::{Fault, MachineState};
