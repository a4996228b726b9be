//! Reads the textual disassembly of register-machine bytecode, one class a
//! file, and writes it as statements that are close to Java.
//!
//! The instructions of a method are read one statement at a time by the
//! shapes that the opcode table gives to commands, rewritten once per method,
//! and written by the templates of the same table. Every function states
//! what it returns over a model of the text that it reads or writes.

pub mod access_flag;
pub mod annotation;
pub mod class;
pub mod error;
pub mod field;
pub mod instruction;
pub mod literal;
pub mod method;
pub mod text;
pub mod tokenizer;
pub mod types;
pub mod warning;
