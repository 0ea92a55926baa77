//! The kinds of guest images a CPU can be set up from.
use vstd::prelude::*;

verus! {

/// The format of a guest image.
#[derive(Clone, Copy, Debug, PartialEq, Eq, Structural)]
pub enum Architecture {
    /// An AArch64 ELF executable.
    AArch64Elf,
    /// A raw AArch64 binary.
    AArch64Bin,
}

} // verus!
