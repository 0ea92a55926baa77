//! The virtual machine: its instruction set and the AArch64 compiler.
pub mod aarch64;
pub mod builder;
pub mod compiler;
pub mod cpu;
pub mod engine;
pub mod error;
pub mod image;
pub mod instr;
pub mod instruction;
pub mod interrupt;
pub mod register;
