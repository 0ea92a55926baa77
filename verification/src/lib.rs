//! An AArch64 user-mode emulator: instruction decoding, compilation of
//! AArch64 instructions into a compact byte-coded VM instruction set, and the
//! bit-level helpers both rely on.
pub mod utility;
pub mod machineinstr;
pub mod virtio;
pub mod vm;
