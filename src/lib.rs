//! A CHIP-8 interpreter whose behaviour is stated as a transition function on
//! an abstract machine state, and whose executable code is proved against it.

pub mod font;
pub mod instr;
pub mod machine;
pub mod emulator;
pub mod keymap;
pub mod theorems;

pub use emulator::Emulator;
pub use instr::{Instr, decode};
pub use keymap::key_index;
pub use machine::{EmuState, Fault, Step};
