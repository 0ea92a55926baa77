//! The VM instruction format.
//!
//! A compiled instruction starts with a two-byte header giving the size of
//! the native instruction it comes from (4 bits), its own size in
//! bytes (6 bits) and the size of the previous compiled instruction (6 bits);
//! encoded VM operations follow, each an opcode and its operands.
pub mod buf;
pub mod bytes;
pub mod instructions;
pub mod operands;

use vstd::prelude::*;

use crate::vm::register::RegId;
use buf::{buf_limit, buf_push, InstrBuf};
use bytes::{
    from_le16, from_le32, from_le64, le_bytes16, le_bytes32, le_bytes64, lemma_le16_roundtrip,
    lemma_le16_bytes_of_read, lemma_le32_bytes_of_read, lemma_le32_roundtrip,
    lemma_le64_bytes_of_read, lemma_le64_roundtrip,
};
use instructions::{
    UADD_REG3,
    USUB_REG3,
    UMUL_REG3,
    UDIV_REG3,
    UADD_REG2IMM8,
    USUB_REG2IMM8,
    UMUL_REG2IMM8,
    UDIV_REG2IMM8,
    UADD_REG2IMM32,
    USUB_REG2IMM32,
    UMUL_REG2IMM32,
    UDIV_REG2IMM32,
    IADD_REG2IMM32,
    ISUB_REG2IMM32,
    IMUL_REG2IMM32,
    IDIV_REG2IMM32,
    UADD_REG2IMM64,
    USUB_REG2IMM64,
    UMUL_REG2IMM64,
    UDIV_REG2IMM64,
    IADD_REG2IMM64,
    ISUB_REG2IMM64,
    IMUL_REG2IMM64,
    IDIV_REG2IMM64,
    OR_REG3,
    AND_REG3,
    XOR_REG3,
    OR_REG2IMM64,
    AND_REG2IMM64,
    XOR_REG2IMM64,
    LSHL_REG2IMM8,
    LSHR_REG2IMM8,
    RROT_REG2IMM8,
    ASHR_REG2IMM8,
    PSH_REG,
    POP_REG,
    MOV_REG2,
    MOV_IPR_REG,
    MOV_REG1IMM64,
    MOV_REG1IMM16,
    ULOAD_REG1IMM64,
    USTORE_REG1IMM64,
    BR_IPV_IMM32,
    BR_IPR_IMM32_REL,
    NOP,
    SVC_IMM16,
    BRK_IMM16,
};
use operands::{Imm16, Imm32, Reg1, Reg1Imm16, Reg1Imm32, Reg1Imm64, Reg1Imm8, Reg2, Reg2Imm16, Reg2Imm32, Reg2Imm64, Reg2Imm8, Reg3};

verus! {

/// The size of the native instruction, from the header byte `b0`.
pub open spec fn header_real_size(b0: u8) -> u8 {
    (b0 & 0b1111_0000u8) >> 4u8
}

/// The size of the compiled instruction, from the header bytes `b0, b1`.
pub open spec fn header_curr_size(b0: u8, b1: u8) -> u8 {
    ((b0 & 0b0000_1111u8) << 2u8) | ((b1 & 0b1100_0000u8) >> 6u8)
}

/// The size of the previous compiled instruction, from the header byte `b1`.
pub open spec fn header_prev_size(b1: u8) -> u8 {
    b1 & 0b0011_1111u8
}

/// The two header bytes that `build_instr_sig` writes.
pub open spec fn instr_sig(orgn_size: u8, curr_size: u8, prev_size: u8) -> Seq<u8> {
    seq![
        ((orgn_size << 4u8) | ((curr_size & 0b0011_1100u8) >> 2u8)) as u8,
        (((curr_size & 0b0000_0011u8) << 6u8) | prev_size) as u8,
    ]
}

/// A header written from sizes that fit their fields reads back as those sizes.
pub proof fn lemma_instr_sig_roundtrip(orgn_size: u8, curr_size: u8, prev_size: u8)
    requires
        orgn_size < 16,
        curr_size < 64,
        prev_size < 64,
    ensures
        header_real_size(instr_sig(orgn_size, curr_size, prev_size)[0]) == orgn_size,
        header_curr_size(instr_sig(orgn_size, curr_size, prev_size)[0], instr_sig(orgn_size, curr_size, prev_size)[1]) == curr_size,
        header_prev_size(instr_sig(orgn_size, curr_size, prev_size)[1]) == prev_size,
{
    let a1 = ((orgn_size << 4u8) | ((curr_size & 0b0011_1100u8) >> 2u8)) as u8;
    let a2 = (((curr_size & 0b0000_0011u8) << 6u8) | prev_size) as u8;
    assert((a1 & 0b1111_0000u8) >> 4u8 == orgn_size && ((a1 & 0b0000_1111u8) << 2u8) | ((a2
        & 0b1100_0000u8) >> 6u8) == curr_size && a2 & 0b0011_1111u8 == prev_size) by (bit_vector)
        requires
            orgn_size < 16,
            curr_size < 64,
            prev_size < 64,
            a1 == ((orgn_size << 4u8) | ((curr_size & 0b0011_1100u8) >> 2u8)) as u8,
            a2 == (((curr_size & 0b0000_0011u8) << 6u8) | prev_size) as u8,
    ;
}

/// Writes the two header bytes of a compiled instruction: the size of the
/// native instruction it comes from, its own size and the size of the
/// compiled instruction before it.
pub fn build_instr_sig(out: &mut InstrBuf, orgn_size: u8, curr_size: u8, prev_size: u8)
    requires
        old(out)@.len() + 2 <= buf_limit(),
    ensures
        final(out)@ == old(out)@ + instr_sig(orgn_size, curr_size, prev_size),
{
    let a1 = (orgn_size << 4u8) | ((curr_size & 0b0011_1100u8) >> 2u8);
    let a2 = ((curr_size & 0b0000_0011u8) << 6u8) | prev_size;
    buf_push(out, a1);
    buf_push(out, a2);
    assert(out@ =~= old(out)@ + instr_sig(orgn_size, curr_size, prev_size));
}

/// The `Reg1` operands read at `off`.
pub open spec fn reg1_at(b: Seq<u8>, off: int) -> Reg1 {
    Reg1 { op1: RegId(b[off + 0]) }
}

/// The `Reg2` operands read at `off`.
pub open spec fn reg2_at(b: Seq<u8>, off: int) -> Reg2 {
    Reg2 { op1: RegId(b[off + 0]), op2: RegId(b[off + 1]) }
}

/// The `Reg3` operands read at `off`.
pub open spec fn reg3_at(b: Seq<u8>, off: int) -> Reg3 {
    Reg3 { op1: RegId(b[off + 0]), op2: RegId(b[off + 1]), op3: RegId(b[off + 2]) }
}

/// The `Reg1Imm8` operands read at `off`.
pub open spec fn reg1u8_at(b: Seq<u8>, off: int) -> Reg1Imm8 {
    Reg1Imm8 { op1: RegId(b[off + 0]), imm8: b[off + 1] }
}

/// The `Reg2Imm8` operands read at `off`.
pub open spec fn reg2u8_at(b: Seq<u8>, off: int) -> Reg2Imm8 {
    Reg2Imm8 { op1: RegId(b[off + 0]), op2: RegId(b[off + 1]), imm8: b[off + 2] }
}

/// The `Reg1Imm32` operands read at `off`.
pub open spec fn reg1u32_at(b: Seq<u8>, off: int) -> Reg1Imm32 {
    Reg1Imm32 { op1: RegId(b[off + 0]), imm32: from_le32(b[off + 1], b[off + 2], b[off + 3], b[off + 4]) }
}

/// The `Reg1Imm64` operands read at `off`.
pub open spec fn reg1u64_at(b: Seq<u8>, off: int) -> Reg1Imm64 {
    Reg1Imm64 { op1: RegId(b[off + 0]), imm64: from_le64(b.subrange(off + 1, off + 9)) }
}

/// The `Reg1Imm16` operands read at `off`.
pub open spec fn reg1u16_at(b: Seq<u8>, off: int) -> Reg1Imm16 {
    Reg1Imm16 { op1: RegId(b[off + 0]), imm16: from_le16(b[off + 1], b[off + 2]) }
}

/// The `Reg2Imm32` operands read at `off`.
pub open spec fn reg2u32_at(b: Seq<u8>, off: int) -> Reg2Imm32 {
    Reg2Imm32 { op1: RegId(b[off + 0]), op2: RegId(b[off + 1]), imm32: from_le32(b[off + 2], b[off + 3], b[off + 4], b[off + 5]) }
}

/// The `Reg2Imm64` operands read at `off`.
pub open spec fn reg2u64_at(b: Seq<u8>, off: int) -> Reg2Imm64 {
    Reg2Imm64 { op1: RegId(b[off + 0]), op2: RegId(b[off + 1]), imm64: from_le64(b.subrange(off + 2, off + 10)) }
}

/// The `Imm16` operands read at `off`.
pub open spec fn u16_at(b: Seq<u8>, off: int) -> Imm16 {
    Imm16 { imm16: from_le16(b[off + 0], b[off + 1]) }
}

/// The `Imm32` operands read at `off`.
pub open spec fn u32_at(b: Seq<u8>, off: int) -> Imm32 {
    Imm32 { imm32: from_le32(b[off + 0], b[off + 1], b[off + 2], b[off + 3]) }
}

/// An instruction encoded from `Reg1` operands reads back as those operands.
pub proof fn lemma_reg1_roundtrip(b: Seq<u8>, off: int, x: Reg1, opcode: u8)
    requires
        0 <= off,
        off + 2 <= b.len(),
        b.subrange(off, off + 2) == x.encoding(opcode),
    ensures
        b[off] == opcode,
        reg1_at(b, off + 1) == x,
{
    let s = b.subrange(off, off + 2);
    assert(s == seq![opcode, x.op1.0]);
    assert(b[off + 0] == s[0] && b[off + 1] == s[1]);
}

/// An instruction encoded from `Reg2` operands reads back as those operands.
pub proof fn lemma_reg2_roundtrip(b: Seq<u8>, off: int, x: Reg2, opcode: u8)
    requires
        0 <= off,
        off + 3 <= b.len(),
        b.subrange(off, off + 3) == x.encoding(opcode),
    ensures
        b[off] == opcode,
        reg2_at(b, off + 1) == x,
{
    let s = b.subrange(off, off + 3);
    assert(s == seq![opcode, x.op1.0, x.op2.0]);
    assert(b[off + 0] == s[0] && b[off + 1] == s[1] && b[off + 2] == s[2]);
}

/// An instruction encoded from `Reg3` operands reads back as those operands.
pub proof fn lemma_reg3_roundtrip(b: Seq<u8>, off: int, x: Reg3, opcode: u8)
    requires
        0 <= off,
        off + 4 <= b.len(),
        b.subrange(off, off + 4) == x.encoding(opcode),
    ensures
        b[off] == opcode,
        reg3_at(b, off + 1) == x,
{
    let s = b.subrange(off, off + 4);
    assert(s == seq![opcode, x.op1.0, x.op2.0, x.op3.0]);
    assert(b[off + 0] == s[0] && b[off + 1] == s[1] && b[off + 2] == s[2] && b[off + 3] == s[3]);
}

/// An instruction encoded from `Reg1Imm8` operands reads back as those operands.
pub proof fn lemma_reg1u8_roundtrip(b: Seq<u8>, off: int, x: Reg1Imm8, opcode: u8)
    requires
        0 <= off,
        off + 3 <= b.len(),
        b.subrange(off, off + 3) == x.encoding(opcode),
    ensures
        b[off] == opcode,
        reg1u8_at(b, off + 1) == x,
{
    let s = b.subrange(off, off + 3);
    assert(s == seq![opcode, x.op1.0, x.imm8]);
    assert(b[off + 0] == s[0] && b[off + 1] == s[1] && b[off + 2] == s[2]);
}

/// An instruction encoded from `Reg2Imm8` operands reads back as those operands.
pub proof fn lemma_reg2u8_roundtrip(b: Seq<u8>, off: int, x: Reg2Imm8, opcode: u8)
    requires
        0 <= off,
        off + 4 <= b.len(),
        b.subrange(off, off + 4) == x.encoding(opcode),
    ensures
        b[off] == opcode,
        reg2u8_at(b, off + 1) == x,
{
    let s = b.subrange(off, off + 4);
    assert(s == seq![opcode, x.op1.0, x.op2.0, x.imm8]);
    assert(b[off + 0] == s[0] && b[off + 1] == s[1] && b[off + 2] == s[2] && b[off + 3] == s[3]);
}

/// An instruction encoded from `Reg1Imm32` operands reads back as those operands.
pub proof fn lemma_reg1u32_roundtrip(b: Seq<u8>, off: int, x: Reg1Imm32, opcode: u8)
    requires
        0 <= off,
        off + 6 <= b.len(),
        b.subrange(off, off + 6) == x.encoding(opcode),
    ensures
        b[off] == opcode,
        reg1u32_at(b, off + 1) == x,
{
    let s = b.subrange(off, off + 6);
    let q = le_bytes32(x.imm32);
    assert(s == seq![opcode, x.op1.0] + q);
    assert(b[off + 0] == s[0] && b[off + 1] == s[1] && b[off + 2] == s[2] && b[off + 3] == s[3] && b[off + 4] == s[4] && b[off + 5] == s[5]);
    lemma_le32_roundtrip(x.imm32);
}

/// An instruction encoded from `Reg1Imm64` operands reads back as those operands.
pub proof fn lemma_reg1u64_roundtrip(b: Seq<u8>, off: int, x: Reg1Imm64, opcode: u8)
    requires
        0 <= off,
        off + 10 <= b.len(),
        b.subrange(off, off + 10) == x.encoding(opcode),
    ensures
        b[off] == opcode,
        reg1u64_at(b, off + 1) == x,
{
    let s = b.subrange(off, off + 10);
    let q = le_bytes64(x.imm64);
    assert(s == seq![opcode, x.op1.0] + q);
    assert(b[off + 0] == s[0] && b[off + 1] == s[1] && b[off + 2] == s[2] && b[off + 3] == s[3] && b[off + 4] == s[4] && b[off + 5] == s[5] && b[off + 6] == s[6] && b[off + 7] == s[7] && b[off + 8] == s[8] && b[off + 9] == s[9]);
    lemma_le64_roundtrip(x.imm64);
    assert(b.subrange(off + 2, off + 10) =~= s.subrange(2, 10));
    assert(s.subrange(2, 10) =~= q);
}

/// An instruction encoded from `Reg1Imm16` operands reads back as those operands.
pub proof fn lemma_reg1u16_roundtrip(b: Seq<u8>, off: int, x: Reg1Imm16, opcode: u8)
    requires
        0 <= off,
        off + 4 <= b.len(),
        b.subrange(off, off + 4) == x.encoding(opcode),
    ensures
        b[off] == opcode,
        reg1u16_at(b, off + 1) == x,
{
    let s = b.subrange(off, off + 4);
    let q = le_bytes16(x.imm16);
    assert(s == seq![opcode, x.op1.0] + q);
    assert(b[off + 0] == s[0] && b[off + 1] == s[1] && b[off + 2] == s[2] && b[off + 3] == s[3]);
    lemma_le16_roundtrip(x.imm16);
}

/// An instruction encoded from `Reg2Imm32` operands reads back as those operands.
pub proof fn lemma_reg2u32_roundtrip(b: Seq<u8>, off: int, x: Reg2Imm32, opcode: u8)
    requires
        0 <= off,
        off + 7 <= b.len(),
        b.subrange(off, off + 7) == x.encoding(opcode),
    ensures
        b[off] == opcode,
        reg2u32_at(b, off + 1) == x,
{
    let s = b.subrange(off, off + 7);
    let q = le_bytes32(x.imm32);
    assert(s == seq![opcode, x.op1.0, x.op2.0] + q);
    assert(b[off + 0] == s[0] && b[off + 1] == s[1] && b[off + 2] == s[2] && b[off + 3] == s[3] && b[off + 4] == s[4] && b[off + 5] == s[5] && b[off + 6] == s[6]);
    lemma_le32_roundtrip(x.imm32);
}

/// An instruction encoded from `Reg2Imm64` operands reads back as those operands.
pub proof fn lemma_reg2u64_roundtrip(b: Seq<u8>, off: int, x: Reg2Imm64, opcode: u8)
    requires
        0 <= off,
        off + 11 <= b.len(),
        b.subrange(off, off + 11) == x.encoding(opcode),
    ensures
        b[off] == opcode,
        reg2u64_at(b, off + 1) == x,
{
    let s = b.subrange(off, off + 11);
    let q = le_bytes64(x.imm64);
    assert(s == seq![opcode, x.op1.0, x.op2.0] + q);
    assert(b[off + 0] == s[0] && b[off + 1] == s[1] && b[off + 2] == s[2] && b[off + 3] == s[3] && b[off + 4] == s[4] && b[off + 5] == s[5] && b[off + 6] == s[6] && b[off + 7] == s[7] && b[off + 8] == s[8] && b[off + 9] == s[9] && b[off + 10] == s[10]);
    lemma_le64_roundtrip(x.imm64);
    assert(b.subrange(off + 3, off + 11) =~= s.subrange(3, 11));
    assert(s.subrange(3, 11) =~= q);
}

/// An instruction encoded from `Imm16` operands reads back as those operands.
pub proof fn lemma_u16_roundtrip(b: Seq<u8>, off: int, x: Imm16, opcode: u8)
    requires
        0 <= off,
        off + 3 <= b.len(),
        b.subrange(off, off + 3) == x.encoding(opcode),
    ensures
        b[off] == opcode,
        u16_at(b, off + 1) == x,
{
    let s = b.subrange(off, off + 3);
    let q = le_bytes16(x.imm16);
    assert(s == seq![opcode] + q);
    assert(b[off + 0] == s[0] && b[off + 1] == s[1] && b[off + 2] == s[2]);
    lemma_le16_roundtrip(x.imm16);
}

/// An instruction encoded from `Imm32` operands reads back as those operands.
pub proof fn lemma_u32_roundtrip(b: Seq<u8>, off: int, x: Imm32, opcode: u8)
    requires
        0 <= off,
        off + 5 <= b.len(),
        b.subrange(off, off + 5) == x.encoding(opcode),
    ensures
        b[off] == opcode,
        u32_at(b, off + 1) == x,
{
    let s = b.subrange(off, off + 5);
    let q = le_bytes32(x.imm32);
    assert(s == seq![opcode] + q);
    assert(b[off + 0] == s[0] && b[off + 1] == s[1] && b[off + 2] == s[2] && b[off + 3] == s[3] && b[off + 4] == s[4]);
    lemma_le32_roundtrip(x.imm32);
}

/// How many operand bytes follow `opcode` when a compiled instruction is
/// walked; `None` for the opcodes a walk does not handle.
pub open spec fn operand_len(opcode: u8) -> Option<nat> {
    if opcode == MOV_IPR_REG || opcode == PSH_REG || opcode == POP_REG {
        Some(1)
    } else if opcode == MOV_REG2 {
        Some(2)
    } else if opcode == UADD_REG3 || opcode == USUB_REG3 || opcode == UMUL_REG3 || opcode == UDIV_REG3
        || opcode == OR_REG3 || opcode == AND_REG3 || opcode == XOR_REG3 {
        Some(3)
    } else if opcode == MOV_REG1IMM16 {
        Some(3)
    } else if opcode == MOV_REG1IMM64 || opcode == ULOAD_REG1IMM64 || opcode == USTORE_REG1IMM64 {
        Some(9)
    } else if opcode == LSHL_REG2IMM8 || opcode == LSHR_REG2IMM8 || opcode == RROT_REG2IMM8
        || opcode == ASHR_REG2IMM8 || opcode == UADD_REG2IMM8 || opcode == USUB_REG2IMM8
        || opcode == UMUL_REG2IMM8 || opcode == UDIV_REG2IMM8 {
        Some(3)
    } else if opcode == UADD_REG2IMM32 || opcode == USUB_REG2IMM32 || opcode == UMUL_REG2IMM32
        || opcode == UDIV_REG2IMM32 || opcode == IADD_REG2IMM32 || opcode == ISUB_REG2IMM32
        || opcode == IMUL_REG2IMM32 || opcode == IDIV_REG2IMM32 {
        Some(6)
    } else if opcode == UADD_REG2IMM64 || opcode == USUB_REG2IMM64 || opcode == UMUL_REG2IMM64
        || opcode == UDIV_REG2IMM64 || opcode == IADD_REG2IMM64 || opcode == ISUB_REG2IMM64
        || opcode == IMUL_REG2IMM64 || opcode == IDIV_REG2IMM64 || opcode == OR_REG2IMM64
        || opcode == AND_REG2IMM64 || opcode == XOR_REG2IMM64 {
        Some(10)
    } else if opcode == SVC_IMM16 || opcode == BRK_IMM16 {
        Some(2)
    } else if opcode == BR_IPV_IMM32 || opcode == BR_IPR_IMM32_REL {
        Some(4)
    } else if opcode == NOP {
        Some(0)
    } else {
        None
    }
}

/// Whether the operations of `b` from `off` up to `end` can be walked: the walk
/// stops at `end` or at the end of `b`, and each operation on the way has an
/// opcode that a walk handles and all its operand bytes.
pub open spec fn walkable(b: Seq<u8>, off: nat, end: nat) -> bool
    decreases b.len() - off,
{
    if off >= end || off >= b.len() {
        true
    } else {
        match operand_len(b[off as int]) {
            None => false,
            Some(n) => off + 1 + n <= b.len() && walkable(b, off + 1 + n, end),
        }
    }
}

/// The operation of `b` at `off`, as a walk hands it to a visitor.
pub open spec fn operation_at(b: Seq<u8>, off: int) -> VmOperation {
    let opcode = b[off];
    if opcode == MOV_IPR_REG || opcode == PSH_REG || opcode == POP_REG {
        VmOperation::Reg1(opcode, reg1_at(b, off + 1))
    } else if opcode == MOV_REG2 {
        VmOperation::Reg2(opcode, reg2_at(b, off + 1))
    } else if opcode == UADD_REG3 || opcode == USUB_REG3 || opcode == UMUL_REG3 || opcode == UDIV_REG3
        || opcode == OR_REG3 || opcode == AND_REG3 || opcode == XOR_REG3 {
        VmOperation::Reg3(opcode, reg3_at(b, off + 1))
    } else if opcode == MOV_REG1IMM16 {
        VmOperation::Reg1Imm16(opcode, reg1u16_at(b, off + 1))
    } else if opcode == MOV_REG1IMM64 || opcode == ULOAD_REG1IMM64 || opcode == USTORE_REG1IMM64 {
        VmOperation::Reg1Imm64(opcode, reg1u64_at(b, off + 1))
    } else if opcode == LSHL_REG2IMM8 || opcode == LSHR_REG2IMM8 || opcode == RROT_REG2IMM8
        || opcode == ASHR_REG2IMM8 || opcode == UADD_REG2IMM8 || opcode == USUB_REG2IMM8
        || opcode == UMUL_REG2IMM8 || opcode == UDIV_REG2IMM8 {
        VmOperation::Reg2Imm8(opcode, reg2u8_at(b, off + 1))
    } else if opcode == UADD_REG2IMM32 || opcode == USUB_REG2IMM32 || opcode == UMUL_REG2IMM32
        || opcode == UDIV_REG2IMM32 || opcode == IADD_REG2IMM32 || opcode == ISUB_REG2IMM32
        || opcode == IMUL_REG2IMM32 || opcode == IDIV_REG2IMM32 {
        VmOperation::Reg2Imm32(opcode, reg2u32_at(b, off + 1))
    } else if opcode == UADD_REG2IMM64 || opcode == USUB_REG2IMM64 || opcode == UMUL_REG2IMM64
        || opcode == UDIV_REG2IMM64 || opcode == IADD_REG2IMM64 || opcode == ISUB_REG2IMM64
        || opcode == IMUL_REG2IMM64 || opcode == IDIV_REG2IMM64 || opcode == OR_REG2IMM64
        || opcode == AND_REG2IMM64 || opcode == XOR_REG2IMM64 {
        VmOperation::Reg2Imm64(opcode, reg2u64_at(b, off + 1))
    } else if opcode == SVC_IMM16 || opcode == BRK_IMM16 {
        VmOperation::U16(opcode, u16_at(b, off + 1))
    } else if opcode == BR_IPV_IMM32 || opcode == BR_IPR_IMM32_REL {
        VmOperation::U32(opcode, u32_at(b, off + 1))
    } else {
        VmOperation::NoOperand(opcode)
    }
}

/// The bytes of `operation`: its opcode, then its operands in the order and
/// byte order in which they are built.
pub open spec fn operation_bytes(operation: VmOperation) -> Seq<u8> {
    match operation {
        VmOperation::NoOperand(op) => seq![op],
        VmOperation::Reg1(op, x) => x.encoding(op),
        VmOperation::Reg2(op, x) => x.encoding(op),
        VmOperation::Reg3(op, x) => x.encoding(op),
        VmOperation::Reg1Imm8(op, x) => x.encoding(op),
        VmOperation::Reg1Imm16(op, x) => x.encoding(op),
        VmOperation::Reg1Imm32(op, x) => x.encoding(op),
        VmOperation::Reg1Imm64(op, x) => x.encoding(op),
        VmOperation::Reg2Imm8(op, x) => x.encoding(op),
        VmOperation::Reg2Imm16(op, x) => x.encoding(op),
        VmOperation::Reg2Imm32(op, x) => x.encoding(op),
        VmOperation::Reg2Imm64(op, x) => x.encoding(op),
        VmOperation::U16(op, x) => x.encoding(op),
        VmOperation::U32(op, x) => x.encoding(op),
    }
}

/// The operation a walk reads at `off` is the one whose bytes are there:
/// building it again gives back exactly the opcode and operand bytes it was
/// read from, each operand in its place.
pub proof fn lemma_operation_at_builds_back(b: Seq<u8>, off: int)
    requires
        0 <= off < b.len(),
        operand_len(b[off]) is Some,
        off + 1 + operand_len(b[off])->Some_0 <= b.len(),
    ensures
        operation_bytes(operation_at(b, off)) == b.subrange(
            off,
            off + 1 + operand_len(b[off])->Some_0,
        ),
{
    let n = operand_len(b[off])->Some_0;
    let s = b.subrange(off, off + 1 + n);
    let v = operation_at(b, off);
    lemma_le16_bytes_of_read(b[off + 1], b[off + 2]);
    lemma_le16_bytes_of_read(b[off + 2], b[off + 3]);
    lemma_le32_bytes_of_read(b[off + 1], b[off + 2], b[off + 3], b[off + 4]);
    lemma_le32_bytes_of_read(b[off + 3], b[off + 4], b[off + 5], b[off + 6]);
    match v {
        VmOperation::Reg1Imm64(_, x) => {
            lemma_le64_bytes_of_read(b.subrange(off + 2, off + 10));
        },
        VmOperation::Reg2Imm64(_, x) => {
            lemma_le64_bytes_of_read(b.subrange(off + 3, off + 11));
        },
        _ => {},
    }
    assert(operation_bytes(v) =~= s);
}

/// Whether walking the operations of `b` from `off` up to `end` may take a
/// visitor from `v0` to `v1`: each operation, in order, is handed to the
/// visitor, until `end` or the end of `b`.
pub open spec fn walks<V: InstrVisitor>(b: Seq<u8>, off: nat, end: nat, v0: V, v1: V) -> bool
    decreases b.len() - off,
{
    if off >= end || off >= b.len() {
        v1 == v0
    } else {
        match operand_len(b[off as int]) {
            None => false,
            Some(n) => off + 1 + n <= b.len() && exists|mid: V|
                #![trigger v0.visits(operation_at(b, off as int), &mid)]
                v0.visits(operation_at(b, off as int), &mid) && walks(b, off + 1 + n, end, mid, v1),
        }
    }
}

/// A compiled VM instruction, viewed over its bytes.
pub enum VmIr<'r> {
    Ref(&'r [u8]),
}

impl<'r> View for VmIr<'r> {
    type V = Seq<u8>;

    open spec fn view(&self) -> Seq<u8> {
        match self {
            VmIr::Ref(inst) => inst@,
        }
    }
}

/// One operation of a compiled instruction: its opcode and its operands.
#[derive(Clone, Copy, Debug, PartialEq, Eq, Structural)]
pub enum VmOperation {
    NoOperand(u8),
    Reg1(u8, Reg1),
    Reg2(u8, Reg2),
    Reg3(u8, Reg3),
    Reg1Imm8(u8, Reg1Imm8),
    Reg1Imm16(u8, Reg1Imm16),
    Reg1Imm32(u8, Reg1Imm32),
    Reg1Imm64(u8, Reg1Imm64),
    Reg2Imm8(u8, Reg2Imm8),
    Reg2Imm16(u8, Reg2Imm16),
    Reg2Imm32(u8, Reg2Imm32),
    Reg2Imm64(u8, Reg2Imm64),
    U16(u8, Imm16),
    U32(u8, Imm32),
}

/// Receives the operations of a compiled instruction, in order. Each
/// implementation says, through `visits`, what receiving an operation does to
/// it.
pub trait InstrVisitor {
    /// Whether receiving `operation` may take the visitor from `self` to
    /// `next`. An implementation that does not say holds it of every pair of
    /// states.
    open spec fn visits(&self, operation: VmOperation, next: &Self) -> bool {
        true
    }

    fn visit_no_operand(&mut self, op: u8)
        ensures
            old(self).visits(VmOperation::NoOperand(op), &*final(self)),
    ;

    fn visit_reg1(&mut self, op: u8, operand: Reg1)
        ensures
            old(self).visits(VmOperation::Reg1(op, operand), &*final(self)),
    ;

    fn visit_reg2(&mut self, op: u8, operand: Reg2)
        ensures
            old(self).visits(VmOperation::Reg2(op, operand), &*final(self)),
    ;

    fn visit_reg3(&mut self, op: u8, operand: Reg3)
        ensures
            old(self).visits(VmOperation::Reg3(op, operand), &*final(self)),
    ;

    fn visit_reg1imm8(&mut self, op: u8, operand: Reg1Imm8)
        ensures
            old(self).visits(VmOperation::Reg1Imm8(op, operand), &*final(self)),
    ;

    fn visit_reg1imm16(&mut self, op: u8, operand: Reg1Imm16)
        ensures
            old(self).visits(VmOperation::Reg1Imm16(op, operand), &*final(self)),
    ;

    fn visit_reg1imm32(&mut self, op: u8, operand: Reg1Imm32)
        ensures
            old(self).visits(VmOperation::Reg1Imm32(op, operand), &*final(self)),
    ;

    fn visit_reg1imm64(&mut self, op: u8, operand: Reg1Imm64)
        ensures
            old(self).visits(VmOperation::Reg1Imm64(op, operand), &*final(self)),
    ;

    fn visit_reg2imm8(&mut self, op: u8, operand: Reg2Imm8)
        ensures
            old(self).visits(VmOperation::Reg2Imm8(op, operand), &*final(self)),
    ;

    fn visit_reg2imm16(&mut self, op: u8, operand: Reg2Imm16)
        ensures
            old(self).visits(VmOperation::Reg2Imm16(op, operand), &*final(self)),
    ;

    fn visit_reg2imm32(&mut self, op: u8, operand: Reg2Imm32)
        ensures
            old(self).visits(VmOperation::Reg2Imm32(op, operand), &*final(self)),
    ;

    fn visit_reg2imm64(&mut self, op: u8, operand: Reg2Imm64)
        ensures
            old(self).visits(VmOperation::Reg2Imm64(op, operand), &*final(self)),
    ;

    fn visit_u16(&mut self, op: u8, operand: Imm16)
        ensures
            old(self).visits(VmOperation::U16(op, operand), &*final(self)),
    ;

    fn visit_u32(&mut self, op: u8, operand: Imm32)
        ensures
            old(self).visits(VmOperation::U32(op, operand), &*final(self)),
    ;
}

fn read_le16(b0: u8, b1: u8) -> (r: u16)
    ensures
        r == from_le16(b0, b1),
{
    (b0 as u16) | ((b1 as u16) << 8u16)
}

fn read_le32(b0: u8, b1: u8, b2: u8, b3: u8) -> (r: u32)
    ensures
        r == from_le32(b0, b1, b2, b3),
{
    (b0 as u32) | ((b1 as u32) << 8u32) | ((b2 as u32) << 16u32) | ((b3 as u32) << 24u32)
}

impl<'r> VmIr<'r> {
    pub fn from_ref(slice: &'r [u8]) -> (r: Self)
        ensures
            r@ == slice@,
    {
        Self::Ref(slice)
    }

    fn byte(&self, i: usize) -> (r: u8)
        requires
            i < self@.len(),
        ensures
            r == self@[i as int],
    {
        match self {
            VmIr::Ref(inst) => inst[i],
        }
    }

    fn read_le64_at(&self, o: usize) -> (r: u64)
        requires
            o + 8 <= self@.len(),
        ensures
            r == from_le64(self@.subrange(o as int, o + 8)),
    {
        proof {
            self.lemma_len_fits();
        }
        (self.byte(o) as u64) | ((self.byte(o + 1) as u64) << 8u64) | ((self.byte(o + 2) as u64)
            << 16u64) | ((self.byte(o + 3) as u64) << 24u64) | ((self.byte(o + 4) as u64) << 32u64)
            | ((self.byte(o + 5) as u64) << 40u64) | ((self.byte(o + 6) as u64) << 48u64) | ((
        self.byte(o + 7) as u64) << 56u64)
    }

    /// The size of the native instruction this one comes from.
    pub fn real_size(&self) -> (r: u8)
        requires
            self@.len() >= 1,
        ensures
            r == header_real_size(self@[0]),
    {
        (self.byte(0) & 0b1111_0000) >> 4
    }

    /// The size of this compiled instruction, header included.
    pub fn curr_size(&self) -> (r: u8)
        requires
            self@.len() >= 2,
        ensures
            r == header_curr_size(self@[0], self@[1]),
    {
        ((self.byte(0) & 0b0000_1111) << 2) | ((self.byte(1) & 0b1100_0000) >> 6)
    }

    /// The size of the compiled instruction before this one.
    pub fn prev_size(&self) -> (r: u8)
        requires
            self@.len() >= 2,
        ensures
            r == header_prev_size(self@[1]),
    {
        self.byte(1) & 0b0011_1111
    }

    /// Takes the opcode at `*offset`, if `*offset` lies within this
    /// instruction, and moves `offset` past it.
    pub fn opcode(&self, offset: &mut usize) -> (r: Option<u8>)
        requires
            self@.len() >= 2,
        ensures
            *old(offset) >= header_curr_size(self@[0], self@[1]) ==> r is None && *final(offset)
                == *old(offset),
            *old(offset) < header_curr_size(self@[0], self@[1]) ==> *final(offset) == *old(offset)
                + 1 && r == (if *old(offset) < self@.len() {
                Some(self@[*old(offset) as int])
            } else {
                None
            }),
    {
        if *offset >= self.curr_size() as usize {
            return None;
        }
        let o = *offset;
        let v = if o < self.len() {
            Some(self.byte(o))
        } else {
            None
        };
        *offset = o + 1;
        v
    }

    proof fn lemma_len_fits(&self)
        ensures
            self@.len() <= usize::MAX,
    {
        match self {
            VmIr::Ref(inst) => assert(inst@.len() == inst.len()),
        }
    }

    fn len(&self) -> (r: usize)
        ensures
            r == self@.len(),
    {
        match self {
            VmIr::Ref(inst) => inst.len(),
        }
    }

    /// Reads `Reg1` operands at `*offset` and moves `offset` past them.
    pub fn reg1(&self, offset: &mut usize) -> (r: Reg1)
        requires
            *old(offset) + 1 <= self@.len(),
        ensures
            r == reg1_at(self@, *old(offset) as int),
            *final(offset) == *old(offset) + 1,
    {
        proof {
            self.lemma_len_fits();
        }
        let o = *offset;
        let r = Reg1 { op1: RegId(self.byte(o + 0)) };
        *offset = o + 1;
        r
    }

    /// Reads `Reg2` operands at `*offset` and moves `offset` past them.
    pub fn reg2(&self, offset: &mut usize) -> (r: Reg2)
        requires
            *old(offset) + 2 <= self@.len(),
        ensures
            r == reg2_at(self@, *old(offset) as int),
            *final(offset) == *old(offset) + 2,
    {
        proof {
            self.lemma_len_fits();
        }
        let o = *offset;
        let r = Reg2 { op1: RegId(self.byte(o + 0)), op2: RegId(self.byte(o + 1)) };
        *offset = o + 2;
        r
    }

    /// Reads `Reg3` operands at `*offset` and moves `offset` past them.
    pub fn reg3(&self, offset: &mut usize) -> (r: Reg3)
        requires
            *old(offset) + 3 <= self@.len(),
        ensures
            r == reg3_at(self@, *old(offset) as int),
            *final(offset) == *old(offset) + 3,
    {
        proof {
            self.lemma_len_fits();
        }
        let o = *offset;
        let r = Reg3 { op1: RegId(self.byte(o + 0)), op2: RegId(self.byte(o + 1)), op3: RegId(self.byte(o + 2)) };
        *offset = o + 3;
        r
    }

    /// Reads `Reg1Imm8` operands at `*offset` and moves `offset` past them.
    pub fn reg1u8(&self, offset: &mut usize) -> (r: Reg1Imm8)
        requires
            *old(offset) + 2 <= self@.len(),
        ensures
            r == reg1u8_at(self@, *old(offset) as int),
            *final(offset) == *old(offset) + 2,
    {
        proof {
            self.lemma_len_fits();
        }
        let o = *offset;
        let r = Reg1Imm8 { op1: RegId(self.byte(o + 0)), imm8: self.byte(o + 1) };
        *offset = o + 2;
        r
    }

    /// Reads `Reg2Imm8` operands at `*offset` and moves `offset` past them.
    pub fn reg2u8(&self, offset: &mut usize) -> (r: Reg2Imm8)
        requires
            *old(offset) + 3 <= self@.len(),
        ensures
            r == reg2u8_at(self@, *old(offset) as int),
            *final(offset) == *old(offset) + 3,
    {
        proof {
            self.lemma_len_fits();
        }
        let o = *offset;
        let r = Reg2Imm8 { op1: RegId(self.byte(o + 0)), op2: RegId(self.byte(o + 1)), imm8: self.byte(o + 2) };
        *offset = o + 3;
        r
    }

    /// Reads `Reg1Imm32` operands at `*offset` and moves `offset` past them.
    pub fn reg1u32(&self, offset: &mut usize) -> (r: Reg1Imm32)
        requires
            *old(offset) + 5 <= self@.len(),
        ensures
            r == reg1u32_at(self@, *old(offset) as int),
            *final(offset) == *old(offset) + 5,
    {
        proof {
            self.lemma_len_fits();
        }
        let o = *offset;
        let r = Reg1Imm32 { op1: RegId(self.byte(o + 0)), imm32: read_le32(self.byte(o + 1), self.byte(o + 2), self.byte(o + 3), self.byte(o + 4)) };
        *offset = o + 5;
        r
    }

    /// Reads `Reg1Imm64` operands at `*offset` and moves `offset` past them.
    pub fn reg1u64(&self, offset: &mut usize) -> (r: Reg1Imm64)
        requires
            *old(offset) + 9 <= self@.len(),
        ensures
            r == reg1u64_at(self@, *old(offset) as int),
            *final(offset) == *old(offset) + 9,
    {
        proof {
            self.lemma_len_fits();
        }
        let o = *offset;
        let r = Reg1Imm64 { op1: RegId(self.byte(o + 0)), imm64: self.read_le64_at(o + 1) };
        *offset = o + 9;
        r
    }

    /// Reads `Reg1Imm16` operands at `*offset` and moves `offset` past them.
    pub fn reg1u16(&self, offset: &mut usize) -> (r: Reg1Imm16)
        requires
            *old(offset) + 3 <= self@.len(),
        ensures
            r == reg1u16_at(self@, *old(offset) as int),
            *final(offset) == *old(offset) + 3,
    {
        proof {
            self.lemma_len_fits();
        }
        let o = *offset;
        let r = Reg1Imm16 { op1: RegId(self.byte(o + 0)), imm16: read_le16(self.byte(o + 1), self.byte(o + 2)) };
        *offset = o + 3;
        r
    }

    /// Reads `Reg2Imm32` operands at `*offset` and moves `offset` past them.
    pub fn reg2u32(&self, offset: &mut usize) -> (r: Reg2Imm32)
        requires
            *old(offset) + 6 <= self@.len(),
        ensures
            r == reg2u32_at(self@, *old(offset) as int),
            *final(offset) == *old(offset) + 6,
    {
        proof {
            self.lemma_len_fits();
        }
        let o = *offset;
        let r = Reg2Imm32 { op1: RegId(self.byte(o + 0)), op2: RegId(self.byte(o + 1)), imm32: read_le32(self.byte(o + 2), self.byte(o + 3), self.byte(o + 4), self.byte(o + 5)) };
        *offset = o + 6;
        r
    }

    /// Reads `Reg2Imm64` operands at `*offset` and moves `offset` past them.
    pub fn reg2u64(&self, offset: &mut usize) -> (r: Reg2Imm64)
        requires
            *old(offset) + 10 <= self@.len(),
        ensures
            r == reg2u64_at(self@, *old(offset) as int),
            *final(offset) == *old(offset) + 10,
    {
        proof {
            self.lemma_len_fits();
        }
        let o = *offset;
        let r = Reg2Imm64 { op1: RegId(self.byte(o + 0)), op2: RegId(self.byte(o + 1)), imm64: self.read_le64_at(o + 2) };
        *offset = o + 10;
        r
    }

    /// Reads `Imm16` operands at `*offset` and moves `offset` past them.
    pub fn u16(&self, offset: &mut usize) -> (r: Imm16)
        requires
            *old(offset) + 2 <= self@.len(),
        ensures
            r == u16_at(self@, *old(offset) as int),
            *final(offset) == *old(offset) + 2,
    {
        proof {
            self.lemma_len_fits();
        }
        let o = *offset;
        let r = Imm16 { imm16: read_le16(self.byte(o + 0), self.byte(o + 1)) };
        *offset = o + 2;
        r
    }

    /// Reads `Imm32` operands at `*offset` and moves `offset` past them.
    pub fn u32(&self, offset: &mut usize) -> (r: Imm32)
        requires
            *old(offset) + 4 <= self@.len(),
        ensures
            r == u32_at(self@, *old(offset) as int),
            *final(offset) == *old(offset) + 4,
    {
        proof {
            self.lemma_len_fits();
        }
        let o = *offset;
        let r = Imm32 { imm32: read_le32(self.byte(o + 0), self.byte(o + 1), self.byte(o + 2), self.byte(o + 3)) };
        *offset = o + 4;
        r
    }

    /// Walks the operations of this instruction, in order, handing each to
    /// `visitor`.
    pub fn visit<V: InstrVisitor>(&self, visitor: &mut V)
        requires
            self@.len() >= 2,
            walkable(self@, 2, header_curr_size(self@[0], self@[1]) as nat),
        ensures
            walks(self@, 2, header_curr_size(self@[0], self@[1]) as nat, *old(visitor), *final(visitor)),
    {
        let ghost end = header_curr_size(self@[0], self@[1]) as nat;
        let ghost b = self@;
        let ghost v_init = *visitor;
        let mut offset: usize = 2;
        loop
            invariant_except_break
                2 <= offset <= self@.len() + 1,
                walkable(self@, offset as nat, end),
                forall|vf: V| #[trigger] walks(b, offset as nat, end, *visitor, vf) ==> walks(b, 2, end, v_init, vf),
            invariant
                b == self@,
                self@.len() >= 2,
                end == header_curr_size(self@[0], self@[1]),
            ensures
                walks(b, 2, end, v_init, *visitor),
            decreases self@.len() + 1 - offset,
        {
            let o = offset;
            let ghost v_before = *visitor;
            let opcode = match self.opcode(&mut offset) {
                Some(op) => op,
                None => {
                    proof {
                        assert(walks(b, o as nat, end, v_before, v_before));
                    }
                    break;
                },
            };
            assert(operand_len(opcode) is Some);
            if opcode == MOV_IPR_REG || opcode == PSH_REG || opcode == POP_REG {
                let operand = self.reg1(&mut offset);
                visitor.visit_reg1(opcode, operand);
            } else if opcode == MOV_REG2 {
                let operand = self.reg2(&mut offset);
                visitor.visit_reg2(opcode, operand);
            } else if opcode == UADD_REG3 || opcode == USUB_REG3 || opcode == UMUL_REG3 || opcode
                == UDIV_REG3 || opcode == OR_REG3 || opcode == AND_REG3 || opcode == XOR_REG3 {
                let operand = self.reg3(&mut offset);
                visitor.visit_reg3(opcode, operand);
            } else if opcode == MOV_REG1IMM16 {
                let operand = self.reg1u16(&mut offset);
                visitor.visit_reg1imm16(opcode, operand);
            } else if opcode == MOV_REG1IMM64 || opcode == ULOAD_REG1IMM64 || opcode
                == USTORE_REG1IMM64 {
                let operand = self.reg1u64(&mut offset);
                visitor.visit_reg1imm64(opcode, operand);
            } else if opcode == LSHL_REG2IMM8 || opcode == LSHR_REG2IMM8 || opcode == RROT_REG2IMM8
                || opcode == ASHR_REG2IMM8 || opcode == UADD_REG2IMM8 || opcode == USUB_REG2IMM8
                || opcode == UMUL_REG2IMM8 || opcode == UDIV_REG2IMM8 {
                let operand = self.reg2u8(&mut offset);
                visitor.visit_reg2imm8(opcode, operand);
            } else if opcode == UADD_REG2IMM32 || opcode == USUB_REG2IMM32 || opcode
                == UMUL_REG2IMM32 || opcode == UDIV_REG2IMM32 || opcode == IADD_REG2IMM32 || opcode
                == ISUB_REG2IMM32 || opcode == IMUL_REG2IMM32 || opcode == IDIV_REG2IMM32 {
                let operand = self.reg2u32(&mut offset);
                visitor.visit_reg2imm32(opcode, operand);
            } else if opcode == UADD_REG2IMM64 || opcode == USUB_REG2IMM64 || opcode
                == UMUL_REG2IMM64 || opcode == UDIV_REG2IMM64 || opcode == IADD_REG2IMM64 || opcode
                == ISUB_REG2IMM64 || opcode == IMUL_REG2IMM64 || opcode == IDIV_REG2IMM64 || opcode
                == OR_REG2IMM64 || opcode == AND_REG2IMM64 || opcode == XOR_REG2IMM64 {
                let operand = self.reg2u64(&mut offset);
                visitor.visit_reg2imm64(opcode, operand);
            } else if opcode == SVC_IMM16 || opcode == BRK_IMM16 {
                let operand = self.u16(&mut offset);
                visitor.visit_u16(opcode, operand);
            } else if opcode == BR_IPV_IMM32 || opcode == BR_IPR_IMM32_REL {
                let operand = self.u32(&mut offset);
                visitor.visit_u32(opcode, operand);
            } else {
                visitor.visit_no_operand(opcode);
            }
            proof {
                let n = operand_len(opcode)->Some_0;
                assert(offset == o + 1 + n);
                assert(v_before.visits(operation_at(b, o as int), &*visitor));
                assert forall|vf: V| #[trigger] walks(b, offset as nat, end, *visitor, vf) implies walks(
                    b,
                    2,
                    end,
                    v_init,
                    vf,
                ) by {
                    assert(walks(b, o as nat, end, v_before, vf));
                }
            }
        }
    }
}

} // verus!
