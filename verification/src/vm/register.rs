//! Identifiers of the VM's registers, scratch slots and jump targets.
use vstd::prelude::*;

verus! {

/// A VM register.
#[derive(Clone, Copy, Debug, PartialEq, Eq, Structural)]
pub struct RegId(pub u8);

/// A VM scratch slot.
#[derive(Clone, Copy, Debug, PartialEq, Eq, Structural)]
pub struct SlotId(pub u8);

/// An entry of the VM's jump table.
#[derive(Clone, Copy, Debug, PartialEq, Eq, Structural)]
pub struct JumpId(pub u32);

} // verus!
