//! Operand layouts of VM instructions. An encoded instruction is its opcode
//! followed by its operands, immediates in little-endian byte order.
use vstd::prelude::*;

use super::bytes::{le_bytes16, le_bytes32, le_bytes64, to_le_bytes16, to_le_bytes32, to_le_bytes64};
use crate::vm::register::{RegId, SlotId};

verus! {

pub const VMIR_REG1: u8 = 0b0000;
pub const VMIR_REG2: u8 = 0b0001;
pub const VMIR_REG3: u8 = 0b0010;
pub const VMIR_REG1U8: u8 = 0b0011;
pub const VMIR_REG2U8: u8 = 0b0100;
pub const VMIR_REG1U64: u8 = 0b0101;
pub const VMIR_REG2I64: u8 = 0b0110;

#[derive(Clone, Copy, Debug, PartialEq, Eq, Structural)]
pub struct Reg1 {
    pub op1: RegId,
}

impl Reg1 {
    /// The bytes of the instruction made of `opcode` and these operands.
    pub open spec fn encoding(self, opcode: u8) -> Seq<u8> {
        seq![opcode, self.op1.0]
    }

    /// Encodes the instruction made of `opcode` and these operands.
    pub fn build(self, opcode: u8) -> (r: [u8; 2])
        ensures
            r@ == self.encoding(opcode),
    {
        let r = [opcode, self.op1.0];
        assert(r@ =~= self.encoding(opcode));
        r
    }
}

#[derive(Clone, Copy, Debug, PartialEq, Eq, Structural)]
pub struct Reg2 {
    pub op1: RegId,
    pub op2: RegId,
}

impl Reg2 {
    /// The bytes of the instruction made of `opcode` and these operands.
    pub open spec fn encoding(self, opcode: u8) -> Seq<u8> {
        seq![opcode, self.op1.0, self.op2.0]
    }

    /// Encodes the instruction made of `opcode` and these operands.
    pub fn build(self, opcode: u8) -> (r: [u8; 3])
        ensures
            r@ == self.encoding(opcode),
    {
        let r = [opcode, self.op1.0, self.op2.0];
        assert(r@ =~= self.encoding(opcode));
        r
    }
}

#[derive(Clone, Copy, Debug, PartialEq, Eq, Structural)]
pub struct Reg3 {
    pub op1: RegId,
    pub op2: RegId,
    pub op3: RegId,
}

impl Reg3 {
    /// The bytes of the instruction made of `opcode` and these operands.
    pub open spec fn encoding(self, opcode: u8) -> Seq<u8> {
        seq![opcode, self.op1.0, self.op2.0, self.op3.0]
    }

    /// Encodes the instruction made of `opcode` and these operands.
    pub fn build(self, opcode: u8) -> (r: [u8; 4])
        ensures
            r@ == self.encoding(opcode),
    {
        let r = [opcode, self.op1.0, self.op2.0, self.op3.0];
        assert(r@ =~= self.encoding(opcode));
        r
    }
}

#[derive(Clone, Copy, Debug, PartialEq, Eq, Structural)]
pub struct Reg1Imm8 {
    pub op1: RegId,
    pub imm8: u8,
}

impl Reg1Imm8 {
    /// The bytes of the instruction made of `opcode` and these operands.
    pub open spec fn encoding(self, opcode: u8) -> Seq<u8> {
        seq![opcode, self.op1.0, self.imm8]
    }

    /// Encodes the instruction made of `opcode` and these operands.
    pub fn build(self, opcode: u8) -> (r: [u8; 3])
        ensures
            r@ == self.encoding(opcode),
    {
        let r = [opcode, self.op1.0, self.imm8];
        assert(r@ =~= self.encoding(opcode));
        r
    }

    pub fn u8(&self) -> (r: u8)
        ensures
            r == self.imm8,
    {
        self.imm8
    }

    /// The immediate reinterpreted as a signed integer.
    pub fn i8(&self) -> (r: i8)
        ensures
            r == self.imm8 as i8,
    {
        self.imm8 as i8
    }
}

#[derive(Clone, Copy, Debug, PartialEq, Eq, Structural)]
pub struct Reg1Imm16 {
    pub op1: RegId,
    pub imm16: u16,
}

impl Reg1Imm16 {
    /// The bytes of the instruction made of `opcode` and these operands.
    pub open spec fn encoding(self, opcode: u8) -> Seq<u8> {
        seq![opcode, self.op1.0] + le_bytes16(self.imm16)
    }

    /// Encodes the instruction made of `opcode` and these operands.
    pub fn build(self, opcode: u8) -> (r: [u8; 4])
        ensures
            r@ == self.encoding(opcode),
    {
        let imm = to_le_bytes16(self.imm16);
        let r = [opcode, self.op1.0, imm[0], imm[1]];
        assert(r@ =~= self.encoding(opcode));
        r
    }

    pub fn u16(&self) -> (r: u16)
        ensures
            r == self.imm16,
    {
        self.imm16
    }

    /// The immediate reinterpreted as a signed integer.
    pub fn i16(&self) -> (r: i16)
        ensures
            r == self.imm16 as i16,
    {
        self.imm16 as i16
    }
}

#[derive(Clone, Copy, Debug, PartialEq, Eq, Structural)]
pub struct Reg1Imm32 {
    pub op1: RegId,
    pub imm32: u32,
}

impl Reg1Imm32 {
    /// The bytes of the instruction made of `opcode` and these operands.
    pub open spec fn encoding(self, opcode: u8) -> Seq<u8> {
        seq![opcode, self.op1.0] + le_bytes32(self.imm32)
    }

    /// Encodes the instruction made of `opcode` and these operands.
    pub fn build(self, opcode: u8) -> (r: [u8; 6])
        ensures
            r@ == self.encoding(opcode),
    {
        let imm = to_le_bytes32(self.imm32);
        let r = [opcode, self.op1.0, imm[0], imm[1], imm[2], imm[3]];
        assert(r@ =~= self.encoding(opcode));
        r
    }

    pub fn u32(&self) -> (r: u32)
        ensures
            r == self.imm32,
    {
        self.imm32
    }

    /// The immediate reinterpreted as a signed integer.
    pub fn i32(&self) -> (r: i32)
        ensures
            r == self.imm32 as i32,
    {
        self.imm32 as i32
    }
}

#[derive(Clone, Copy, Debug, PartialEq, Eq, Structural)]
pub struct Reg1Imm64 {
    pub op1: RegId,
    pub imm64: u64,
}

impl Reg1Imm64 {
    /// The bytes of the instruction made of `opcode` and these operands.
    pub open spec fn encoding(self, opcode: u8) -> Seq<u8> {
        seq![opcode, self.op1.0] + le_bytes64(self.imm64)
    }

    /// Encodes the instruction made of `opcode` and these operands.
    pub fn build(self, opcode: u8) -> (r: [u8; 10])
        ensures
            r@ == self.encoding(opcode),
    {
        let imm = to_le_bytes64(self.imm64);
        let r = [opcode, self.op1.0, imm[0], imm[1], imm[2], imm[3], imm[4], imm[5], imm[6], imm[7]];
        assert(r@ =~= self.encoding(opcode));
        r
    }

    pub fn u64(&self) -> (r: u64)
        ensures
            r == self.imm64,
    {
        self.imm64
    }

    /// The immediate reinterpreted as a signed integer.
    pub fn i64(&self) -> (r: i64)
        ensures
            r == self.imm64 as i64,
    {
        self.imm64 as i64
    }
}

#[derive(Clone, Copy, Debug, PartialEq, Eq, Structural)]
pub struct Reg2Imm8 {
    pub op1: RegId,
    pub op2: RegId,
    pub imm8: u8,
}

impl Reg2Imm8 {
    /// The bytes of the instruction made of `opcode` and these operands.
    pub open spec fn encoding(self, opcode: u8) -> Seq<u8> {
        seq![opcode, self.op1.0, self.op2.0, self.imm8]
    }

    /// Encodes the instruction made of `opcode` and these operands.
    pub fn build(self, opcode: u8) -> (r: [u8; 4])
        ensures
            r@ == self.encoding(opcode),
    {
        let r = [opcode, self.op1.0, self.op2.0, self.imm8];
        assert(r@ =~= self.encoding(opcode));
        r
    }

    pub fn u8(&self) -> (r: u8)
        ensures
            r == self.imm8,
    {
        self.imm8
    }

    /// The immediate reinterpreted as a signed integer.
    pub fn i8(&self) -> (r: i8)
        ensures
            r == self.imm8 as i8,
    {
        self.imm8 as i8
    }
}

#[derive(Clone, Copy, Debug, PartialEq, Eq, Structural)]
pub struct Reg2Imm16 {
    pub op1: RegId,
    pub op2: RegId,
    pub imm16: u16,
}

impl Reg2Imm16 {
    /// The bytes of the instruction made of `opcode` and these operands.
    pub open spec fn encoding(self, opcode: u8) -> Seq<u8> {
        seq![opcode, self.op1.0, self.op2.0] + le_bytes16(self.imm16)
    }

    /// Encodes the instruction made of `opcode` and these operands.
    pub fn build(self, opcode: u8) -> (r: [u8; 5])
        ensures
            r@ == self.encoding(opcode),
    {
        let imm = to_le_bytes16(self.imm16);
        let r = [opcode, self.op1.0, self.op2.0, imm[0], imm[1]];
        assert(r@ =~= self.encoding(opcode));
        r
    }

    pub fn u16(&self) -> (r: u16)
        ensures
            r == self.imm16,
    {
        self.imm16
    }

    /// The immediate reinterpreted as a signed integer.
    pub fn i16(&self) -> (r: i16)
        ensures
            r == self.imm16 as i16,
    {
        self.imm16 as i16
    }
}

#[derive(Clone, Copy, Debug, PartialEq, Eq, Structural)]
pub struct Reg2Imm32 {
    pub op1: RegId,
    pub op2: RegId,
    pub imm32: u32,
}

impl Reg2Imm32 {
    /// The bytes of the instruction made of `opcode` and these operands.
    pub open spec fn encoding(self, opcode: u8) -> Seq<u8> {
        seq![opcode, self.op1.0, self.op2.0] + le_bytes32(self.imm32)
    }

    /// Encodes the instruction made of `opcode` and these operands.
    pub fn build(self, opcode: u8) -> (r: [u8; 7])
        ensures
            r@ == self.encoding(opcode),
    {
        let imm = to_le_bytes32(self.imm32);
        let r = [opcode, self.op1.0, self.op2.0, imm[0], imm[1], imm[2], imm[3]];
        assert(r@ =~= self.encoding(opcode));
        r
    }

    pub fn u32(&self) -> (r: u32)
        ensures
            r == self.imm32,
    {
        self.imm32
    }

    /// The immediate reinterpreted as a signed integer.
    pub fn i32(&self) -> (r: i32)
        ensures
            r == self.imm32 as i32,
    {
        self.imm32 as i32
    }
}

#[derive(Clone, Copy, Debug, PartialEq, Eq, Structural)]
pub struct Reg2Imm64 {
    pub op1: RegId,
    pub op2: RegId,
    pub imm64: u64,
}

impl Reg2Imm64 {
    /// The bytes of the instruction made of `opcode` and these operands.
    pub open spec fn encoding(self, opcode: u8) -> Seq<u8> {
        seq![opcode, self.op1.0, self.op2.0] + le_bytes64(self.imm64)
    }

    /// Encodes the instruction made of `opcode` and these operands.
    pub fn build(self, opcode: u8) -> (r: [u8; 11])
        ensures
            r@ == self.encoding(opcode),
    {
        let imm = to_le_bytes64(self.imm64);
        let r = [opcode, self.op1.0, self.op2.0, imm[0], imm[1], imm[2], imm[3], imm[4], imm[5], imm[6], imm[7]];
        assert(r@ =~= self.encoding(opcode));
        r
    }

    pub fn u64(&self) -> (r: u64)
        ensures
            r == self.imm64,
    {
        self.imm64
    }

    /// The immediate reinterpreted as a signed integer.
    pub fn i64(&self) -> (r: i64)
        ensures
            r == self.imm64 as i64,
    {
        self.imm64 as i64
    }
}

#[derive(Clone, Copy, Debug, PartialEq, Eq, Structural)]
pub struct Imm16 {
    pub imm16: u16,
}

impl Imm16 {
    /// The bytes of the instruction made of `opcode` and these operands.
    pub open spec fn encoding(self, opcode: u8) -> Seq<u8> {
        seq![opcode] + le_bytes16(self.imm16)
    }

    /// Encodes the instruction made of `opcode` and these operands.
    pub fn build(self, opcode: u8) -> (r: [u8; 3])
        ensures
            r@ == self.encoding(opcode),
    {
        let imm = to_le_bytes16(self.imm16);
        let r = [opcode, imm[0], imm[1]];
        assert(r@ =~= self.encoding(opcode));
        r
    }

    pub fn u16(&self) -> (r: u16)
        ensures
            r == self.imm16,
    {
        self.imm16
    }

    /// The immediate reinterpreted as a signed integer.
    pub fn i16(&self) -> (r: i16)
        ensures
            r == self.imm16 as i16,
    {
        self.imm16 as i16
    }
}

#[derive(Clone, Copy, Debug, PartialEq, Eq, Structural)]
pub struct Imm32 {
    pub imm32: u32,
}

impl Imm32 {
    /// The bytes of the instruction made of `opcode` and these operands.
    pub open spec fn encoding(self, opcode: u8) -> Seq<u8> {
        seq![opcode] + le_bytes32(self.imm32)
    }

    /// Encodes the instruction made of `opcode` and these operands.
    pub fn build(self, opcode: u8) -> (r: [u8; 5])
        ensures
            r@ == self.encoding(opcode),
    {
        let imm = to_le_bytes32(self.imm32);
        let r = [opcode, imm[0], imm[1], imm[2], imm[3]];
        assert(r@ =~= self.encoding(opcode));
        r
    }

    pub fn u32(&self) -> (r: u32)
        ensures
            r == self.imm32,
    {
        self.imm32
    }

    /// The immediate reinterpreted as a signed integer.
    pub fn i32(&self) -> (r: i32)
        ensures
            r == self.imm32 as i32,
    {
        self.imm32 as i32
    }
}

#[derive(Clone, Copy, Debug, PartialEq, Eq, Structural)]
pub struct Reg1Slot1 {
    pub op1: RegId,
    pub slot_id: SlotId,
}

impl Reg1Slot1 {
    /// The bytes of the instruction made of `opcode` and these operands.
    pub open spec fn encoding(self, opcode: u8) -> Seq<u8> {
        seq![opcode, self.op1.0, self.slot_id.0]
    }

    /// Encodes the instruction made of `opcode` and these operands.
    pub fn build(self, opcode: u8) -> (r: [u8; 3])
        ensures
            r@ == self.encoding(opcode),
    {
        let r = [opcode, self.op1.0, self.slot_id.0];
        assert(r@ =~= self.encoding(opcode));
        r
    }
}

#[derive(Clone, Copy, Debug, PartialEq, Eq, Structural)]
pub struct SlotImm32 {
    pub slot_id: SlotId,
    pub imm32: u32,
}

impl SlotImm32 {
    /// The bytes of the instruction made of `opcode` and these operands.
    pub open spec fn encoding(self, opcode: u8) -> Seq<u8> {
        seq![opcode, self.slot_id.0] + le_bytes32(self.imm32)
    }

    /// Encodes the instruction made of `opcode` and these operands.
    pub fn build(self, opcode: u8) -> (r: [u8; 6])
        ensures
            r@ == self.encoding(opcode),
    {
        let imm = to_le_bytes32(self.imm32);
        let r = [opcode, self.slot_id.0, imm[0], imm[1], imm[2], imm[3]];
        assert(r@ =~= self.encoding(opcode));
        r
    }

    pub fn u32(&self) -> (r: u32)
        ensures
            r == self.imm32,
    {
        self.imm32
    }

    /// The immediate reinterpreted as a signed integer.
    pub fn i32(&self) -> (r: i32)
        ensures
            r == self.imm32 as i32,
    {
        self.imm32 as i32
    }
}

#[derive(Clone, Copy, Debug, PartialEq, Eq, Structural)]
pub struct Slot3 {
    pub slot1: SlotId,
    pub slot2: SlotId,
    pub slot3: SlotId,
}

impl Slot3 {
    /// The bytes of the instruction made of `opcode` and these operands.
    pub open spec fn encoding(self, opcode: u8) -> Seq<u8> {
        seq![opcode, self.slot1.0, self.slot2.0, self.slot3.0]
    }

    /// Encodes the instruction made of `opcode` and these operands.
    pub fn build(self, opcode: u8) -> (r: [u8; 4])
        ensures
            r@ == self.encoding(opcode),
    {
        let r = [opcode, self.slot1.0, self.slot2.0, self.slot3.0];
        assert(r@ =~= self.encoding(opcode));
        r
    }
}

} // verus!
