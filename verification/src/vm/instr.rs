//! VM instructions as a data type.
use vstd::prelude::*;

use crate::vm::interrupt::Interrupt;
use crate::vm::register::RegId;

verus! {

/// A VM instruction and the size of the native instruction it stands for.
#[derive(Debug, Clone, Copy)]
pub struct VmInstr {
    pub op: VmInstrOp,
    pub size: u8,
}

/// The operations of the VM; `size` is an operand size in bytes.
#[derive(Debug, Clone, Copy)]
#[allow(inconsistent_fields)]
pub enum VmInstrOp {
    /// Move register to register.
    MoveReg2Reg { size: u8, src: RegId, dst: RegId },
    /// Move register to memory.
    MoveReg2Mem { size: u8, src: RegId, dst: usize },
    /// Move memory to register.
    MoveMem2Reg { size: u8, src: usize, dst: RegId },
    /// Move constant to register.
    MoveCst2Reg { size: u8, src: u64, dst: RegId },
    /// Add constant to register.
    AddCst { size: u8, src: RegId, dst: RegId, value: u64 },
    /// Bitwise or constant.
    OrCst { size: u8, src: RegId, dst: RegId, value: u64 },
    /// Bitwise or register.
    OrReg { size: u8, src: RegId, dst: RegId, value: RegId },
    /// Right shift constant.
    LSRCst { src: RegId, dst: RegId, shift: u8 },
    /// Left shift constant.
    LSLCst { src: RegId, dst: RegId, shift: u8 },
    /// Right rotate constant.
    RORCst { src: RegId, dst: RegId, shift: u8 },
    /// Arithmetic shift right constant.
    ASRCst { src: RegId, dst: RegId, shift: u8 },
    /// Raise an interrupt.
    Interrupt { interrupt: Interrupt },
}

/// Whether `size` is an operand size in bytes.
pub open spec fn is_operand_size(size: u8) -> bool {
    size == 1 || size == 2 || size == 4 || size == 8
}

/// The mask of the low `size` bytes of a double word.
pub open spec fn operand_mask(size: u8) -> u64 {
    if size == 1 {
        0xff
    } else if size == 2 {
        0xffff
    } else if size == 4 {
        0xffff_ffff
    } else {
        0xffff_ffff_ffff_ffff
    }
}

/// The mask of the low `size` bytes of a double word.
pub fn make_mask(size: u8) -> (r: u64)
    requires
        is_operand_size(size),
    ensures
        r == operand_mask(size),
{
    match size {
        1 => 0xff,
        2 => 0xffff,
        4 => 0xffffffff,
        _ => 0xffffffffffffffff,
    }
}

} // verus!
