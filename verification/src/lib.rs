//! A virtual machine for an 8-bit instruction set with sixteen registers, a
//! flat memory, a call stack, two timers, a hexadecimal keypad and a
//! monochrome framebuffer.
//!
//! The executable engine is [`processor::Processor`]: it loads a program,
//! fetches and decodes opcodes and executes instructions. What it does is
//! stated over the mathematical model [`machine::Machine`], and [`laws`] holds
//! what follows for every state. [`keypad`] and [`screen`] are the pure parts
//! of input and output: which host key is which key of the keypad, and the
//! enlarged picture of the framebuffer. Polling a keyboard, opening a window
//! and reading a program file are left to the caller.

pub mod consts;
pub mod error;
pub mod instruction;
pub mod keypad;
pub mod laws;
pub mod machine;
pub mod processor;
pub mod screen;
