//! A CHIP-8 virtual machine core with machine-checked contracts.
//!
//! The machine has 4096 bytes of memory, sixteen 8-bit registers, a 16-bit
//! address register, a call stack of sixteen return addresses, two timers, a
//! sixteen-key pad and a 64 by 32 monochrome screen. Each cycle fetches one
//! 16-bit word, decodes it and carries the instruction out.
//!
//! - [`model`] is the mathematical model: the state of a machine as plain
//!   sequences and numbers, and what each instruction makes of it.
//! - [`instruction`] holds the instructions and the decoder.
//! - [`chip8`] is the machine itself. Every function of it is specified
//!   against the model.
//! - [`register`] and [`stack`] are the register file and the call stack.
//! - [`display`] holds the facts about drawing sprites.
//! - [`drivers`] maps the host's keyboard and window to the pad and screen.
//! - [`error`] holds the faults that are reported to the host.
//!
//! # Faults
//!
//! The machine never reads or writes outside its memory, its registers, its
//! keypad or its call stack. A step that would do so reports a fault and
//! leaves the machine unchanged: a fetch or a memory instruction beyond the
//! last address, a call with the stack full, a return with the stack empty,
//! a key instruction that names a key above `0xF`, a word that encodes no
//! instruction. Functions that take an index from the caller (a register, a
//! key, a stack slot) require it to be in range.
//!
//! # Program counter
//!
//! Skips and the key wait move the program counter with 16-bit wrapping
//! arithmetic. Within a cycle it never wraps: the fetch leaves it between 2
//! and the size of memory. A program counter outside memory faults at the
//! next fetch.
//!
//! # Randomness
//!
//! One instruction masks a random byte. `Chip8::execute` and
//! `Chip8::execute_word` take the byte as an argument, so their outcome is
//! a function of their arguments. `Chip8::decode_and_execute` and
//! `Chip8::tick` draw the byte themselves.

pub mod chip8;
pub mod display;
pub mod drivers;
pub mod error;
pub mod instruction;
pub mod model;
mod random;
pub mod register;
pub mod stack;
