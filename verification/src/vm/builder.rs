//! The builder of a VM.
use vstd::prelude::*;

verus! {

/// Collects what a VM is made of before it is built.
pub struct VMBuilder {}

impl VMBuilder {
    /// An empty builder.
    pub fn new() -> (r: Self)
        ensures
            r == (VMBuilder {}),
    {
        Self {}
    }
}

} // verus!
