//! A CHIP-8 virtual machine: the interpreter core, its keypad and its
//! framebuffer, with every function proved against a mathematical model
//! of the machine.

pub mod font;
pub mod framebuffer;
pub mod instruction;
pub mod interpreter;
pub mod keyboard;
pub mod laws;
pub mod machine;
pub mod pacing;
pub mod render;
