//! An interpreter core for the CHIP-8 virtual machine.
//!
//! The crate holds the machine's state, the instruction decoder, the
//! per-instruction state transitions and the timer clock. Every executable
//! function carries a contract over [`MachineState`], the mathematical model
//! of the machine, and is proved against it.

pub mod emu;
pub mod error;
pub mod font;
pub mod instruction;
pub mod laws;
mod random;
pub mod render;
pub mod state;

pub use emu::Emu;
pub use error::EmuError;
pub use instruction::{decode, Instruction};
pub use state::{MachineState, Quirks, SCREEN_HEIGHT, SCREEN_WIDTH};
