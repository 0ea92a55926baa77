//! Compilation of AArch64 instructions into VM instructions.
pub mod bits;
pub mod compiler;
