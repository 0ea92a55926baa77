//! Helpers for compiling AArch64 instructions.
pub mod aarch64_prelude;
