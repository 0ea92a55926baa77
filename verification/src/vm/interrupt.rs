//! Interrupts raised while the VM runs.
use vstd::prelude::*;

verus! {

/// Why the VM stopped running compiled code.
#[derive(Debug, Clone, Copy, PartialEq, Eq, Structural)]
pub enum Interrupt {
    /// An integer operation overflowed.
    IntegerOverflow,
    /// An interrupt carrying a value.
    Interrupt(usize),
}

} // verus!
