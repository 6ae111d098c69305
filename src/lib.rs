//! A toolchain for a small 32-bit, 16-register virtual machine: a two-pass
//! assembler from a line-oriented text language to 32-bit instruction words,
//! and an interpreter that executes those words over 64-bit registers and a
//! byte-addressed memory.
//!
//! - `lexer` turns source text into lines of tokens (`token`, `opcode`,
//!   `register`, `literal`, `text`).
//! - `template`, `encoding`, `pattern` and `table` hold the pattern table:
//!   token shapes, 32-bit run-length templates and field maps, validated
//!   when built.
//! - `bitpush` and `construct` encode one line; `assemble` drives the two
//!   passes over labels (`labels`).
//! - `alu`, `ieee` and `cpu` give the interpreter: an exact model of one
//!   step (`cpu::exec_spec`) and of a run (`cpu::run_spec`). Floating-point
//!   arithmetic is handed to the caller as `cpu::FloatJob`s.
//! - `newtypes` and `nibbles` are small helpers.
use vstd::prelude::*;

pub mod alu;
pub mod assemble;
pub mod bitpush;
pub mod construct;
pub mod cpu;
pub mod encoding;
pub mod error;
pub mod ieee;
pub mod instruction;
pub mod labels;
pub mod lexer;
pub mod literal;
pub mod newtypes;
pub mod nibbles;
pub mod opcode;
pub mod pattern;
pub mod register;
pub mod table;
pub mod template;
pub mod text;
pub mod token;

pub use assemble::assemble;
pub use cpu::{load_program, Flags, CPU};
pub use opcode::Opcode;
pub use register::Register;
pub use token::{AmbiguousToken, Token, TokenVariant};

verus! {

} // verus!
