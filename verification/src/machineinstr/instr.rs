//! Instructions as produced by a machine instruction parser.
use vstd::prelude::*;

verus! {

/// A parsed machine instruction and the number of bytes it was encoded in.
#[derive(Debug, Clone, Copy, PartialEq, Eq)]
pub struct NativeInstr<I> {
    pub op: I,
    pub size: u8,
}

} // verus!
