//! The compilation of one AArch64 instruction into a VM instruction.
use vstd::multiset::Multiset;
use vstd::prelude::*;

use crate::machineinstr::instruction::AArch64Instr;
use crate::machineinstr::operands::{ExceptionGen, PcRelAddressing};
use crate::machineinstr::parse_rules::spec_decode_instr;
use crate::utility::{
    extract_bits16, lemma_field_u8_five_bits, lemma_field_u8_one_bit, lemma_field_u8_two_bits,
};
use crate::vm::aarch64::bits::{
    bit_masks_defined, decode_bit_masks, decode_bit_masks_defined, decode_bit_masks_spec,
    decode_operand_for_ld_st, decode_shift, ld_st_operand_defined, ld_st_operand_spec,
    shift_type_of, sign_extend, sign_extend_spec, ShiftType,
};
use crate::vm::instruction::buf::{
    buf_as_slice, buf_extend_from_slice, buf_len, buf_limit, buf_new, buf_resize, InstrBuf,
};
use crate::vm::instruction::instructions::{
    AND_REG2IMM64, ASHR_REG2IMM8, BRK_IMM16, BR_IPR_IMM32_REL, BR_IPR_IMM32_REL_IF_SLOT_ZERO,
    BR_IPR_REG1, BR_IPV_IMM32, IADD_REG2IMM32, IADD_REG2IMM64, LSHL_REG2IMM8, LSHR_REG2IMM8,
    MOV_BIT_REG2IMM8, MOV_IPR_REG, MOV_REG1IMM16, MOV_REG2, NOP, OR_REG1SLOT1, OR_REG3,
    REPL_REG2IMM16, RROT_REG2IMM8, SLOAD_REL_REG2IMM32, SSTORE_REL_REG2IMM32, STORE_SLOT_REG,
    SVC_IMM16, UADD_REG2IMM32, UADD_REG2IMM64, UADD_REG2IMM8, USTORE_REL_REG2IMM32,
};
use crate::vm::instruction::operands::{
    Imm16, Imm32, Reg1, Reg1Imm16, Reg1Imm32, Reg1Imm64, Reg1Imm8, Reg1Slot1, Reg2, Reg2Imm16,
    Reg2Imm32, Reg2Imm64, Reg2Imm8, Reg3, SlotImm32,
};
use crate::vm::instruction::bytes::{from_le64, le_bytes32, le_bytes64, lemma_le64_roundtrip};
use crate::vm::instruction::{
    build_instr_sig, header_curr_size, header_prev_size, header_real_size, instr_sig,
    lemma_instr_sig_roundtrip, operation_bytes, InstrVisitor, VmOperation,
};
use crate::vm::register::{JumpId, RegId, SlotId};

verus! {

/// The VM registers that stand for the AArch64 registers.
pub ghost struct CompilerRegs {
    pub gpr: Seq<RegId>,
    pub fpr: Seq<RegId>,
    pub stack: RegId,
    pub pstate: RegId,
    pub btype_next: RegId,
}

/// Compiles AArch64 instructions into VM instructions, mapping each
/// AArch64 register to a VM register.
pub struct AArch64Compiler {
    gpr_registers: [RegId; 32],
    fpr_registers: [RegId; 32],
    stack_reg: RegId,
    pstate_reg: RegId,
    btype_next: RegId,
}

impl View for AArch64Compiler {
    type V = CompilerRegs;

    closed spec fn view(&self) -> CompilerRegs {
        CompilerRegs {
            gpr: self.gpr_registers@,
            fpr: self.fpr_registers@,
            stack: self.stack_reg,
            pstate: self.pstate_reg,
            btype_next: self.btype_next,
        }
    }
}

/// The VM instruction made of the header and the operations `payload`: its
/// size is the header's two bytes and the payload.
pub open spec fn compiled_bytes(orgn_size: u8, prev_size: u8, payload: Seq<u8>) -> Seq<u8> {
    instr_sig(orgn_size, (2 + payload.len()) as u8, prev_size) + payload
}

/// The shift opcode for a shift type.
pub open spec fn shift_opcode(t: ShiftType) -> u8 {
    match t {
        ShiftType::LSL => LSHL_REG2IMM8,
        ShiftType::LSR => LSHR_REG2IMM8,
        ShiftType::ASR => ASHR_REG2IMM8,
        ShiftType::ROR => RROT_REG2IMM8,
    }
}

/// The scratch slot the compiled instructions use.
pub open spec fn slot0() -> SlotId {
    SlotId(0)
}

impl CompilerRegs {
    /// The VM register for the general purpose register `r`.
    pub open spec fn x(self, r: u8) -> RegId {
        self.gpr[r as int]
    }

    /// The VM register for the base register `r` of an address: register
    /// 31 is the stack pointer.
    pub open spec fn base(self, r: u8) -> RegId {
        if r == 31 {
            self.stack
        } else {
            self.gpr[r as int]
        }
    }

    /// Whether `compile_instr` runs to its end on `instr`: the instruction
    /// is one it compiles, its register numbers are below 32 and its
    /// fields are ones the compilation handles.
    pub open spec fn compilable(self, instr: AArch64Instr) -> bool {
        match instr {
            AArch64Instr::MovzVar32(o) | AArch64Instr::MovzVar64(o) => o.rd < 32,
            AArch64Instr::Nop => true,
            AArch64Instr::Adr(o) => o.rd < 32,
            AArch64Instr::StpVar64(o) => {
                &&& o.rn < 32
                &&& o.rt < 32
                &&& o.rt2 < 32
                &&& (o.o == 1 || o.o == 2 || o.o == 3)
                &&& self.x(o.rt) != self.base(o.rn)
                &&& self.x(o.rt2) != self.base(o.rn)
            },
            AArch64Instr::OrrShiftedReg64(o) | AArch64Instr::OrrShiftedReg32(o) => {
                &&& o.rm < 32
                &&& o.rn < 32
                &&& o.rd < 32
                &&& (o.imm6 == 0 && o.shift == 0 && o.rn == 31 || o.shift < 4)
            },
            AArch64Instr::Svc(_) | AArch64Instr::Brk(_) => true,
            AArch64Instr::LdrImm64(o) | AArch64Instr::StrImm64(o) | AArch64Instr::LdrbImm(o) => {
                &&& o.rn < 32
                &&& o.rt < 32
                &&& ld_st_operand_defined(o)
            },
            AArch64Instr::AddImm64(o) => o.rn < 32 && o.sh <= 2,
            AArch64Instr::SubImm64(o) => {
                &&& o.rn < 32
                &&& o.sh <= 2
                &&& ((o.imm12 as u32) << (o.sh * 12) as u8) != 0
            },
            AArch64Instr::BlImm(_) | AArch64Instr::BImm(_) => true,
            AArch64Instr::Adrp(o) => o.rd < 32,
            AArch64Instr::Cbz64(o) => o.rt < 32,
            AArch64Instr::Ret(o) => o.rn < 32,
            AArch64Instr::Sbfm64(o) => {
                &&& o.rn < 32
                &&& o.rd < 32
                &&& decode_bit_masks_defined(o.n, o.imms, o.immr, false, 64)
            },
            _ => false,
        }
    }

    /// The VM operations that `instr` compiles to, header excluded.
    pub open spec fn operations(self, instr: AArch64Instr) -> Seq<u8> {
        match instr {
            AArch64Instr::MovzVar32(o) | AArch64Instr::MovzVar64(o) => Reg1Imm16 {
                op1: self.x(o.rd),
                imm16: o.imm16,
            }.encoding(MOV_REG1IMM16),
            AArch64Instr::Nop => Seq::empty(),
            AArch64Instr::Adr(o) => {
                let imm = sign_extend_spec(((o.immhi as i64) << 2u64) | (o.immlo as i64), 20);
                Reg1 { op1: self.x(o.rd) }.encoding(MOV_IPR_REG) + Reg2Imm32 {
                    op1: self.x(o.rd),
                    op2: self.x(o.rd),
                    imm32: imm as u32,
                }.encoding(IADD_REG2IMM32)
            },
            AArch64Instr::StpVar64(o) => {
                let rn = self.base(o.rn);
                let signed_offs = o.o == 10;
                let wback = o.o == 1 || o.o == 3;
                let post_index = o.o == 1;
                let offs: i32 = if !post_index {
                    o.imm7 as i32
                } else {
                    0
                };
                let store = if signed_offs {
                    SSTORE_REL_REG2IMM32
                } else {
                    USTORE_REL_REG2IMM32
                };
                let offs2: u32 = if signed_offs {
                    (offs + 8) as u32
                } else {
                    (offs as u32 + 8) as u32
                };
                let pair = Reg2Imm32 { op1: self.x(o.rt), op2: rn, imm32: offs as u32 }.encoding(
                    store,
                ) + Reg2Imm32 { op1: self.x(o.rt2), op2: rn, imm32: offs2 }.encoding(store);
                if post_index && wback {
                    pair + Reg2Imm8 { op1: rn, op2: rn, imm8: o.imm7 }.encoding(UADD_REG2IMM8)
                } else {
                    pair
                }
            },
            AArch64Instr::OrrShiftedReg64(o) | AArch64Instr::OrrShiftedReg32(o) => {
                if o.imm6 == 0 && o.shift == 0 && o.rn == 0b11111 {
                    Reg2 { op1: self.x(o.rm), op2: self.x(o.rd) }.encoding(MOV_REG2)
                } else {
                    Reg2Imm8 { op1: self.x(o.rm), op2: self.x(o.rd), imm8: o.imm6 }.encoding(
                        shift_opcode(shift_type_of(o.shift)),
                    ) + Reg3 { op1: self.x(o.rd), op2: self.x(o.rd), op3: self.x(o.rn) }.encoding(
                        OR_REG3,
                    )
                }
            },
            AArch64Instr::Svc(o) => Imm16 { imm16: o.imm16 }.encoding(SVC_IMM16),
            AArch64Instr::Brk(o) => Imm16 { imm16: o.imm16 }.encoding(BRK_IMM16),
            AArch64Instr::LdrImm64(o) => {
                let (_, post_index, _, offset) = ld_st_operand_spec(o);
                let offset_temp: i16 = if !post_index {
                    offset
                } else {
                    0
                };
                Reg2Imm32 {
                    op1: self.base(o.rn),
                    op2: self.x(o.rt),
                    imm32: offset_temp as u32,
                }.encoding(SLOAD_REL_REG2IMM32)
            },
            AArch64Instr::StrImm64(o) => {
                let (wback, post_index, _, offset) = ld_st_operand_spec(o);
                let offset_temp: i16 = if !post_index {
                    offset
                } else {
                    0
                };
                let dst = self.base(o.rn);
                let store = Reg2Imm32 {
                    op1: self.x(o.rt),
                    op2: dst,
                    imm32: offset_temp as u32,
                }.encoding(SSTORE_REL_REG2IMM32);
                if wback {
                    store + Reg2Imm32 { op1: dst, op2: dst, imm32: offset as u32 }.encoding(
                        IADD_REG2IMM32,
                    )
                } else {
                    store
                }
            },
            AArch64Instr::LdrbImm(o) => {
                let (wback, post_index, _, offset) = ld_st_operand_spec(o);
                let offset_temp: i16 = if !post_index {
                    offset
                } else {
                    0
                };
                let src = self.base(o.rn);
                let dst = self.x(o.rt);
                let load = Reg2Imm32 { op1: src, op2: dst, imm32: offset_temp as u32 }.encoding(
                    SLOAD_REL_REG2IMM32,
                ) + Reg2Imm64 { op1: dst, op2: dst, imm64: 0xFF }.encoding(AND_REG2IMM64);
                if wback {
                    load + Reg2Imm32 { op1: src, op2: src, imm32: offset as u32 }.encoding(
                        IADD_REG2IMM32,
                    )
                } else {
                    load
                }
            },
            AArch64Instr::AddImm64(o) => {
                let imm = (o.imm12 as u32) << (o.sh * 12) as u8;
                let dst = if o.rd == 31 {
                    self.stack
                } else {
                    self.x(o.rn)
                };
                Reg2Imm32 { op1: self.base(o.rn), op2: dst, imm32: imm }.encoding(UADD_REG2IMM32)
            },
            AArch64Instr::SubImm64(o) => {
                let imm = (!((o.imm12 as u32) << (o.sh * 12) as u8) + 1) as u32;
                let dst = if o.rd == 31 {
                    self.stack
                } else {
                    self.x(o.rn)
                };
                Reg2Imm32 { op1: self.base(o.rn), op2: dst, imm32: imm }.encoding(IADD_REG2IMM32)
            },
            AArch64Instr::BlImm(o) => {
                let x30 = self.x(30);
                Reg1 { op1: x30 }.encoding(MOV_IPR_REG) + Reg2Imm64 {
                    op1: x30,
                    op2: x30,
                    imm64: 4,
                }.encoding(UADD_REG2IMM64) + Imm32 {
                    imm32: sign_extend_spec((o.imm26 << 2u32) as i64, 28) as u32,
                }.encoding(BR_IPR_IMM32_REL)
            },
            AArch64Instr::BImm(o) => Imm32 {
                imm32: sign_extend_spec((o.imm26 << 2u32) as i64, 28) as u32,
            }.encoding(BR_IPR_IMM32_REL),
            AArch64Instr::Adrp(o) => {
                let imm = sign_extend_spec(
                    ((o.immhi << 14u32) | ((o.immlo as u32) << 12u32)) as i64,
                    33,
                );
                let rd = self.x(o.rd);
                Reg1 { op1: rd }.encoding(MOV_IPR_REG) + Reg2Imm64 {
                    op1: rd,
                    op2: rd,
                    imm64: 0xFFFF_FFFF_FFFF_F000,
                }.encoding(AND_REG2IMM64) + Reg2Imm64 { op1: rd, op2: rd, imm64: imm as u64 }.encoding(
                    IADD_REG2IMM64,
                )
            },
            AArch64Instr::Cbz64(o) => Reg1Slot1 { op1: self.x(o.rt), slot_id: slot0() }.encoding(
                STORE_SLOT_REG,
            ) + SlotImm32 { slot_id: slot0(), imm32: o.imm19 << 2u32 }.encoding(
                BR_IPR_IMM32_REL_IF_SLOT_ZERO,
            ),
            AArch64Instr::Ret(o) => Reg1Imm16 { op1: self.btype_next, imm16: 0 }.encoding(
                MOV_REG1IMM16,
            ) + Reg1 { op1: self.x(o.rn) }.encoding(BR_IPR_REG1),
            AArch64Instr::Sbfm64(o) => {
                let (wmask, tmask) = decode_bit_masks_spec(o.n, o.imms, o.immr, 64);
                let src = self.x(o.rn);
                let dst = self.x(o.rd);
                Reg2Imm8 { op1: src, op2: dst, imm8: o.immr }.encoding(RROT_REG2IMM8)
                    + Reg2Imm64 { op1: dst, op2: dst, imm64: wmask }.encoding(AND_REG2IMM64)
                    + Reg2Imm64 { op1: dst, op2: dst, imm64: tmask }.encoding(AND_REG2IMM64)
                    + Reg1Slot1 { op1: dst, slot_id: slot0() }.encoding(STORE_SLOT_REG)
                    + Reg2Imm8 { op1: src, op2: dst, imm8: o.imms }.encoding(MOV_BIT_REG2IMM8)
                    + Reg2Imm16 { op1: dst, op2: dst, imm16: (64u16 << 8u16) | 1 }.encoding(
                    REPL_REG2IMM16,
                ) + Reg2Imm64 { op1: dst, op2: dst, imm64: !tmask }.encoding(AND_REG2IMM64)
                    + Reg1Slot1 { op1: dst, slot_id: slot0() }.encoding(OR_REG1SLOT1)
            },
            _ => Seq::empty(),
        }
    }
}

/// A compiled instruction has at most 52 bytes of operations, so it always
/// fits the 6-bit size field of its header.
pub proof fn lemma_compiled_len(regs: CompilerRegs, instr: AArch64Instr)
    requires
        regs.compilable(instr),
    ensures
        regs.operations(instr).len() <= 52,
{
}

/// The header of a compiled instruction reads back as the size of the
/// native instruction, the instruction's own length and the size of the
/// previous one, whenever those sizes fit their fields.
pub proof fn lemma_compiled_header(
    regs: CompilerRegs,
    orgn_size: u8,
    prev_size: u8,
    instr: AArch64Instr,
)
    requires
        regs.compilable(instr),
        orgn_size < 16,
        prev_size < 64,
    ensures
        ({
            let b = compiled_bytes(orgn_size, prev_size, regs.operations(instr));
            &&& header_real_size(b[0]) == orgn_size
            &&& header_curr_size(b[0], b[1]) == b.len()
            &&& header_prev_size(b[1]) == prev_size
        }),
{
    let p = regs.operations(instr);
    lemma_compiled_len(regs, instr);
    let curr = (2 + p.len()) as u8;
    lemma_instr_sig_roundtrip(orgn_size, curr, prev_size);
    let b = compiled_bytes(orgn_size, prev_size, p);
    assert(b[0] == instr_sig(orgn_size, curr, prev_size)[0]);
    assert(b[1] == instr_sig(orgn_size, curr, prev_size)[1]);
}

/// A system call compiles to the VM system call operation and a breakpoint
/// to the VM breakpoint operation, each followed by the instruction's 16-bit
/// immediate, low byte first, and nothing else.
pub proof fn lemma_compiled_exception_generation(regs: CompilerRegs, o: ExceptionGen)
    ensures
        regs.operations(AArch64Instr::Svc(o)) == seq![
            SVC_IMM16,
            (o.imm16 % 256) as u8,
            (o.imm16 / 256) as u8,
        ],
        regs.operations(AArch64Instr::Brk(o)) == seq![
            BRK_IMM16,
            (o.imm16 % 256) as u8,
            (o.imm16 / 256) as u8,
        ],
{
    let x = o.imm16;
    assert(x as u8 == (x % 256) as u8 && (x >> 8u16) as u8 == (x / 256) as u8) by (bit_vector);
    assert(regs.operations(AArch64Instr::Svc(o)) =~= seq![
        SVC_IMM16,
        (x % 256) as u8,
        (x / 256) as u8,
    ]);
    assert(regs.operations(AArch64Instr::Brk(o)) =~= seq![
        BRK_IMM16,
        (x % 256) as u8,
        (x / 256) as u8,
    ]);
}

/// An ADRP compiles to three operations on the VM register of `rd`: the
/// program counter is moved into it, then it is masked with an immediate
/// that clears exactly its low 12 bits, leaving the start of its 4 KiB page,
/// then a page offset, a multiple of 4096, is added to it.
pub proof fn lemma_compiled_adrp(regs: CompilerRegs, o: PcRelAddressing)
    ensures
        ({
            let ops = regs.operations(AArch64Instr::Adrp(o));
            let rd = regs.x(o.rd).0;
            let mask = from_le64(ops.subrange(5, 13));
            let offset = from_le64(ops.subrange(16, 24));
            &&& ops.len() == 24
            &&& ops.subrange(0, 2) == seq![MOV_IPR_REG, rd]
            &&& ops.subrange(2, 5) == seq![AND_REG2IMM64, rd, rd]
            &&& forall|pc: u64| #[trigger] (pc & mask) == pc - pc % 4096
            &&& ops.subrange(13, 16) == seq![IADD_REG2IMM64, rd, rd]
            &&& offset % 4096 == 0
        }),
{
    let ops = regs.operations(AArch64Instr::Adrp(o));
    let rd = regs.x(o.rd);
    let hi = o.immhi;
    let lo = o.immlo;
    let v: u32 = ((hi << 14u32) | ((lo as u32) << 12u32)) as u32;
    let imm = sign_extend_spec(v as i64, 33);
    let m: u64 = 0xFFFF_FFFF_FFFF_F000;
    assert(v % 4096 == 0) by (bit_vector)
        requires
            v == ((hi << 14u32) | ((lo as u32) << 12u32)),
    ;
    assert(imm == v as i64) by (bit_vector)
        requires
            imm == (if (v as i64) & (1i64 << 32u8) != 0 {
                (v as i64) | !(((1i64 << 33u8) - 1) as i64)
            } else {
                v as i64
            }),
    ;
    let a = Reg1 { op1: rd }.encoding(MOV_IPR_REG);
    let b = Reg2Imm64 { op1: rd, op2: rd, imm64: m }.encoding(AND_REG2IMM64);
    let c = Reg2Imm64 { op1: rd, op2: rd, imm64: imm as u64 }.encoding(IADD_REG2IMM64);
    assert(ops == a + b + c);
    assert(ops.subrange(5, 13) =~= le_bytes64(m));
    assert(ops.subrange(16, 24) =~= le_bytes64(imm as u64));
    lemma_le64_roundtrip(m);
    lemma_le64_roundtrip(imm as u64);
    assert(ops.subrange(0, 2) =~= seq![MOV_IPR_REG, rd.0]);
    assert(ops.subrange(2, 5) =~= seq![AND_REG2IMM64, rd.0, rd.0]);
    assert(ops.subrange(13, 16) =~= seq![IADD_REG2IMM64, rd.0, rd.0]);
    assert forall|pc: u64| #[trigger] (pc & m) == pc - pc % 4096 by {
        assert((pc & 0xFFFF_FFFF_FFFF_F000u64) == pc - pc % 4096) by (bit_vector);
    }
}

/// The fields of a decoded `MovzVar32` are in range.
#[verifier::spinoff_prover]
proof fn lemma_decoded_movz_var32(raw: u32)
    ensures
        spec_decode_instr(raw) matches Some(AArch64Instr::MovzVar32(o)) ==> o.rd < 32,
{
    broadcast use lemma_field_u8_one_bit, lemma_field_u8_two_bits, lemma_field_u8_five_bits;

}

/// The fields of a decoded `MovzVar64` are in range.
#[verifier::spinoff_prover]
proof fn lemma_decoded_movz_var64(raw: u32)
    ensures
        spec_decode_instr(raw) matches Some(AArch64Instr::MovzVar64(o)) ==> o.rd < 32,
{
    broadcast use lemma_field_u8_one_bit, lemma_field_u8_two_bits, lemma_field_u8_five_bits;

}

/// The fields of a decoded `Adr` are in range.
#[verifier::spinoff_prover]
proof fn lemma_decoded_adr(raw: u32)
    ensures
        spec_decode_instr(raw) matches Some(AArch64Instr::Adr(o)) ==> o.rd < 32,
{
    broadcast use lemma_field_u8_one_bit, lemma_field_u8_two_bits, lemma_field_u8_five_bits;

}

/// The fields of a decoded `Adrp` are in range.
#[verifier::spinoff_prover]
proof fn lemma_decoded_adrp(raw: u32)
    ensures
        spec_decode_instr(raw) matches Some(AArch64Instr::Adrp(o)) ==> o.rd < 32,
{
    broadcast use lemma_field_u8_one_bit, lemma_field_u8_two_bits, lemma_field_u8_five_bits;

}

/// The fields of a decoded `StpVar64` are in range.
#[verifier::spinoff_prover]
proof fn lemma_decoded_stp_var64(raw: u32)
    ensures
        spec_decode_instr(raw) matches Some(AArch64Instr::StpVar64(o)) ==> o.rn < 32 && o.rt < 32 && o.rt2 < 32,
{
    broadcast use lemma_field_u8_one_bit, lemma_field_u8_two_bits, lemma_field_u8_five_bits;

}

/// The fields of a decoded `OrrShiftedReg64` are in range.
#[verifier::spinoff_prover]
proof fn lemma_decoded_orr_shifted_reg64(raw: u32)
    ensures
        spec_decode_instr(raw) matches Some(AArch64Instr::OrrShiftedReg64(o)) ==> o.rm < 32 && o.rn < 32 && o.rd < 32 && o.shift < 4,
{
    broadcast use lemma_field_u8_one_bit, lemma_field_u8_two_bits, lemma_field_u8_five_bits;

}

/// The fields of a decoded `OrrShiftedReg32` are in range.
#[verifier::spinoff_prover]
proof fn lemma_decoded_orr_shifted_reg32(raw: u32)
    ensures
        spec_decode_instr(raw) matches Some(AArch64Instr::OrrShiftedReg32(o)) ==> o.rm < 32 && o.rn < 32 && o.rd < 32 && o.shift < 4,
{
    broadcast use lemma_field_u8_one_bit, lemma_field_u8_two_bits, lemma_field_u8_five_bits;

}

/// The fields of a decoded `LdrImm64` are in range.
#[verifier::spinoff_prover]
proof fn lemma_decoded_ldr_imm64(raw: u32)
    ensures
        spec_decode_instr(raw) matches Some(AArch64Instr::LdrImm64(o)) ==> o.rn < 32 && o.rt < 32 && o.size < 4,
{
    broadcast use lemma_field_u8_one_bit, lemma_field_u8_two_bits, lemma_field_u8_five_bits;

}

/// The fields of a decoded `StrImm64` are in range.
#[verifier::spinoff_prover]
proof fn lemma_decoded_str_imm64(raw: u32)
    ensures
        spec_decode_instr(raw) matches Some(AArch64Instr::StrImm64(o)) ==> o.rn < 32 && o.rt < 32 && o.size < 4,
{
    broadcast use lemma_field_u8_one_bit, lemma_field_u8_two_bits, lemma_field_u8_five_bits;

}

/// The fields of a decoded `LdrbImm` are in range.
#[verifier::spinoff_prover]
proof fn lemma_decoded_ldrb_imm(raw: u32)
    ensures
        spec_decode_instr(raw) matches Some(AArch64Instr::LdrbImm(o)) ==> o.rn < 32 && o.rt < 32 && o.size < 4,
{
    broadcast use lemma_field_u8_one_bit, lemma_field_u8_two_bits, lemma_field_u8_five_bits;

}

/// The fields of a decoded `AddImm64` are in range.
#[verifier::spinoff_prover]
proof fn lemma_decoded_add_imm64(raw: u32)
    ensures
        spec_decode_instr(raw) matches Some(AArch64Instr::AddImm64(o)) ==> o.rn < 32 && o.sh < 2,
{
    broadcast use lemma_field_u8_one_bit, lemma_field_u8_two_bits, lemma_field_u8_five_bits;

}

/// The fields of a decoded `SubImm64` are in range.
#[verifier::spinoff_prover]
proof fn lemma_decoded_sub_imm64(raw: u32)
    ensures
        spec_decode_instr(raw) matches Some(AArch64Instr::SubImm64(o)) ==> o.rn < 32 && o.sh < 2,
{
    broadcast use lemma_field_u8_one_bit, lemma_field_u8_two_bits, lemma_field_u8_five_bits;

}

/// The fields of a decoded `Cbz64` are in range.
#[verifier::spinoff_prover]
proof fn lemma_decoded_cbz64(raw: u32)
    ensures
        spec_decode_instr(raw) matches Some(AArch64Instr::Cbz64(o)) ==> o.rt < 32,
{
    broadcast use lemma_field_u8_one_bit, lemma_field_u8_two_bits, lemma_field_u8_five_bits;

}

/// The fields of a decoded `Ret` are in range.
#[verifier::spinoff_prover]
proof fn lemma_decoded_ret(raw: u32)
    ensures
        spec_decode_instr(raw) matches Some(AArch64Instr::Ret(o)) ==> o.rn < 32,
{
    broadcast use lemma_field_u8_one_bit, lemma_field_u8_two_bits, lemma_field_u8_five_bits;

}

/// The fields of a decoded `Sbfm64` are in range.
#[verifier::spinoff_prover]
proof fn lemma_decoded_sbfm64(raw: u32)
    ensures
        spec_decode_instr(raw) matches Some(AArch64Instr::Sbfm64(o)) ==> o.rn < 32 && o.rd < 32,
{
    broadcast use lemma_field_u8_one_bit, lemma_field_u8_two_bits, lemma_field_u8_five_bits;

}

/// The instructions the decoder produces are ones the compiler accepts,
/// for the kinds it compiles: their register numbers and fixed-width
/// fields are always in range, so what is left to hold is, for a store pair,
/// a supported indexing mode and a base register other than the two stored,
/// for a subtraction, an immediate other than zero, and for a signed
/// bit-field move, a bit-mask encoding that decodes. Other kinds are not
/// accepted.
#[verifier::spinoff_prover]
pub proof fn lemma_decoded_instructions_compile(regs: CompilerRegs, raw: u32)
    requires
        spec_decode_instr(raw) is Some,
    ensures
        ({
            let instr = spec_decode_instr(raw)->Some_0;
            match instr {
                AArch64Instr::StpVar64(o) => regs.compilable(instr) <==> ((o.o == 1 || o.o == 2
                    || o.o == 3) && regs.x(o.rt) != regs.base(o.rn) && regs.x(o.rt2) != regs.base(
                    o.rn,
                )),
                AArch64Instr::SubImm64(o) => regs.compilable(instr) <==> ((o.imm12 as u32) << (
                o.sh * 12) as u8) != 0,
                AArch64Instr::Sbfm64(o) => regs.compilable(instr) <==> decode_bit_masks_defined(
                    o.n,
                    o.imms,
                    o.immr,
                    false,
                    64,
                ),
                AArch64Instr::MovzVar32(_) | AArch64Instr::MovzVar64(_) | AArch64Instr::Nop
                | AArch64Instr::Adr(_) | AArch64Instr::OrrShiftedReg64(_)
                | AArch64Instr::OrrShiftedReg32(_) | AArch64Instr::Svc(_) | AArch64Instr::Brk(_)
                | AArch64Instr::LdrImm64(_) | AArch64Instr::StrImm64(_) | AArch64Instr::LdrbImm(_)
                | AArch64Instr::AddImm64(_) | AArch64Instr::BlImm(_) | AArch64Instr::BImm(_)
                | AArch64Instr::Adrp(_) | AArch64Instr::Cbz64(_) | AArch64Instr::Ret(
                    _,
                ) => regs.compilable(instr),
                _ => !regs.compilable(instr),
            }
        }),
{
    lemma_decoded_movz_var32(raw);
    lemma_decoded_movz_var64(raw);
    lemma_decoded_adr(raw);
    lemma_decoded_adrp(raw);
    lemma_decoded_stp_var64(raw);
    lemma_decoded_orr_shifted_reg64(raw);
    lemma_decoded_orr_shifted_reg32(raw);
    lemma_decoded_ldr_imm64(raw);
    lemma_decoded_str_imm64(raw);
    lemma_decoded_ldrb_imm(raw);
    lemma_decoded_add_imm64(raw);
    lemma_decoded_sub_imm64(raw);
    lemma_decoded_cbz64(raw);
    lemma_decoded_ret(raw);
    lemma_decoded_sbfm64(raw);
}

/// Whether `ipr` is the lowest native address among the pairs of `m`.
pub open spec fn is_lowest_ipr(m: Multiset<(u64, usize)>, ipr: u64) -> bool {
    &&& exists|e: (u64, usize)| #[trigger] m.contains(e) && e.0 == ipr
    &&& forall|e: (u64, usize)| #[trigger] m.contains(e) ==> ipr <= e.0
}

/// Pairs of a native address (ipr) and the index of a VM instruction (ipv)
/// that jumps to it; a pair with the lowest address comes out first.
pub struct IprIpvTable {
    /// Kept in decreasing order of address, so the lowest comes last.
    entries: Vec<(u64, usize)>,
}

impl View for IprIpvTable {
    type V = Multiset<(u64, usize)>;

    closed spec fn view(&self) -> Multiset<(u64, usize)> {
        self.entries@.to_multiset()
    }
}

impl IprIpvTable {
    /// The table's invariant: its entries are ordered by decreasing address.
    pub closed spec fn wf(&self) -> bool {
        forall|i: int, j: int|
            0 <= i < j < self.entries@.len() ==> self.entries@[j].0 <= self.entries@[i].0
    }

    /// An empty table.
    pub fn new() -> (r: Self)
        ensures
            r.wf(),
            r@ == Multiset::<(u64, usize)>::empty(),
    {
        let r = Self { entries: Vec::new() };
        proof {
            broadcast use vstd::seq_lib::group_to_multiset_ensures;
            assert(r.entries@.to_multiset() =~= Multiset::empty());
        }
        r
    }

    /// Adds the pair `(ipr, ipv)`.
    pub fn push(&mut self, ipr: u64, ipv: usize)
        requires
            old(self).wf(),
        ensures
            final(self).wf(),
            final(self)@ == old(self)@.insert((ipr, ipv)),
    {
        let mut p: usize = 0;
        while p < self.entries.len() && self.entries[p].0 >= ipr
            invariant
                self.wf(),
                self.entries@ == old(self).entries@,
                p <= self.entries@.len(),
                forall|i: int| 0 <= i < p ==> ipr <= #[trigger] self.entries@[i].0,
            decreases self.entries@.len() - p,
        {
            p = p + 1;
        }
        let ghost s = self.entries@;
        self.entries.insert(p, (ipr, ipv));
        proof {
            broadcast use vstd::seq_lib::group_to_multiset_ensures;
            assert(p < s.len() ==> s[p as int].0 < ipr);
            assert forall|i: int, j: int| 0 <= i < j < self.entries@.len() implies self.entries@[j].0
                <= self.entries@[i].0 by {
                if i < p && j > p {
                    assert(self.entries@[j] == s[j - 1]);
                    assert(s[p as int].0 < ipr);
                }
            }
        }
    }

    /// Whether `ipr` is the lowest address in the table.
    pub fn check_ipr(&self, ipr: u64) -> (r: bool)
        requires
            self.wf(),
        ensures
            r == is_lowest_ipr(self@, ipr),
    {
        proof {
            broadcast use vstd::seq_lib::group_to_multiset_ensures;
        }
        let n = self.entries.len();
        if n == 0 {
            proof {
                assert forall|e: (u64, usize)| !self@.contains(e) by {
                    assert(!self.entries@.contains(e));
                }
            }
            return false;
        }
        let peek = self.entries[n - 1];
        proof {
            let s = self.entries@;
            assert(s.contains(peek));
            assert(self@.contains(peek));
            assert forall|e: (u64, usize)| #[trigger] self@.contains(e) implies peek.0 <= e.0 by {
                assert(s.contains(e));
                let j = choose|j: int| 0 <= j < s.len() && s[j] == e;
                assert(s[j].0 >= s[n - 1].0);
            }
        }
        peek.0 == ipr
    }

    /// Takes out a pair with the lowest address and gives its VM
    /// instruction index; `None` when the table is empty.
    pub fn pop(&mut self) -> (r: Option<usize>)
        requires
            old(self).wf(),
        ensures
            final(self).wf(),
            old(self)@.len() == 0 ==> r is None && final(self)@ == old(self)@,
            old(self)@.len() > 0 ==> exists|e: (u64, usize)| {
                &&& old(self)@.contains(e)
                &&& is_lowest_ipr(old(self)@, e.0)
                &&& r == Some(e.1)
                &&& final(self)@ == old(self)@.remove(e)
            },
    {
        proof {
            broadcast use vstd::seq_lib::group_to_multiset_ensures;
        }
        let ghost s = self.entries@;
        let r = self.entries.pop();
        proof {
            if s.len() > 0 {
                let e = s[s.len() - 1];
                assert(s.contains(e));
                assert(old(self)@.contains(e));
                assert(s.remove(s.len() - 1) =~= self.entries@);
                assert forall|x: (u64, usize)| #[trigger] old(self)@.contains(x) implies e.0 <= x.0 by {
                    assert(s.contains(x));
                    let j = choose|j: int| 0 <= j < s.len() && s[j] == x;
                    assert(s[j].0 >= s[s.len() - 1].0);
                }
                assert(is_lowest_ipr(old(self)@, e.0));
            }
        }
        match r {
            Some(v) => Some(v.1),
            None => None,
        }
    }
}

/// Records whether a compiled instruction jumps to a native address that
/// is only known later; no operation is recognised as one yet.
pub struct IsJump(pub bool);

impl InstrVisitor for IsJump {
    /// Receiving an operation leaves the record as it is.
    open spec fn visits(&self, operation: VmOperation, next: &Self) -> bool {
        *next == *self
    }

    fn visit_no_operand(&mut self, op: u8) {
    }

    fn visit_reg1(&mut self, op: u8, operand: Reg1) {
    }

    fn visit_reg2(&mut self, op: u8, operand: Reg2) {
    }

    fn visit_reg3(&mut self, op: u8, operand: Reg3) {
    }

    fn visit_reg1imm8(&mut self, op: u8, operand: Reg1Imm8) {
    }

    fn visit_reg1imm16(&mut self, op: u8, operand: Reg1Imm16) {
    }

    fn visit_reg1imm32(&mut self, op: u8, operand: Reg1Imm32) {
    }

    fn visit_reg1imm64(&mut self, op: u8, operand: Reg1Imm64) {
    }

    fn visit_reg2imm8(&mut self, op: u8, operand: Reg2Imm8) {
    }

    fn visit_reg2imm16(&mut self, op: u8, operand: Reg2Imm16) {
    }

    fn visit_reg2imm32(&mut self, op: u8, operand: Reg2Imm32) {
    }

    fn visit_reg2imm64(&mut self, op: u8, operand: Reg2Imm64) {
    }

    fn visit_u16(&mut self, op: u8, operand: Imm16) {
    }

    fn visit_u32(&mut self, op: u8, operand: Imm32) {
    }
}

/// Appends `ops` to `out` unless that would take `out` past the length at
/// which a buffer stops growing.
fn append(out: &mut InstrBuf, ops: &[u8])
    ensures
        old(out)@.len() + ops@.len() <= buf_limit() ==> final(out)@ == old(out)@ + ops@,
        old(out)@.len() + ops@.len() > buf_limit() ==> final(out)@ == old(out)@,
{
    let limit = usize::MAX / 4;
    let len = buf_len(out);
    if len <= limit && ops.len() <= limit - len {
        buf_extend_from_slice(out, ops);
    }
}

/// Re-encodes a compiled instruction with its relative jump turned into a
/// jump to the VM jump table entry `target`.
pub struct JumpRewriter {
    out: InstrBuf,
    curr_size: u8,
    target: JumpId,
}

impl View for JumpRewriter {
    /// The bytes written so far.
    type V = Seq<u8>;

    closed spec fn view(&self) -> Seq<u8> {
        self.out@
    }
}

impl JumpRewriter {
    /// The size the rewritten instruction will be padded to.
    pub closed spec fn size(&self) -> u8 {
        self.curr_size
    }

    /// The jump table entry the relative jump is turned into.
    pub closed spec fn target(&self) -> JumpId {
        self.target
    }

    /// A rewriter that starts with the header of the instruction.
    pub fn new(target: JumpId, orgn_size: u8, curr_size: u8, prev_size: u8) -> (r: Self)
        ensures
            r@ == instr_sig(orgn_size, curr_size, prev_size),
            r.size() == curr_size,
            r.target() == target,
    {
        let mut out = buf_new();
        build_instr_sig(&mut out, orgn_size, curr_size, prev_size);
        Self { out, curr_size, target }
    }

    /// The rewritten instruction, cut or padded with `NOP`s to its size.
    pub fn finish(self) -> (r: InstrBuf)
        ensures
            r@.len() == self.size(),
            self.size() <= self@.len() ==> r@ == self@.take(self.size() as int),
            self.size() > self@.len() ==> r@ == self@ + Seq::new(
                (self.size() - self@.len()) as nat,
                (|i: int| NOP),
            ),
    {
        let mut out = self.out;
        buf_resize(&mut out, self.curr_size as usize, NOP);
        out
    }
}

/// The bytes that a rewriter appends for `operation`: the operation
/// re-encoded, a relative jump turned into a jump to `target`, and nothing
/// for the operations with a 16, 32 or 64-bit immediate and two registers,
/// which it drops.
pub open spec fn rewritten(target: JumpId, operation: VmOperation) -> Seq<u8> {
    match operation {
        VmOperation::NoOperand(op) => seq![op],
        VmOperation::Reg1(op, x) => x.encoding(op),
        VmOperation::Reg2(op, x) => x.encoding(op),
        VmOperation::Reg3(op, x) => x.encoding(op),
        VmOperation::Reg1Imm8(op, x) => x.encoding(op),
        VmOperation::Reg1Imm16(op, x) => x.encoding(op),
        VmOperation::Reg1Imm32(op, x) => x.encoding(op),
        VmOperation::Reg1Imm64(op, x) => x.encoding(op),
        VmOperation::Reg2Imm8(op, x) => x.encoding(op),
        VmOperation::Reg2Imm16(_, _) => Seq::empty(),
        VmOperation::Reg2Imm32(_, _) => Seq::empty(),
        VmOperation::Reg2Imm64(_, _) => Seq::empty(),
        VmOperation::U16(op, x) => if op == BR_IPR_IMM32_REL {
            (Imm32 { imm32: target.0 }).encoding(BR_IPV_IMM32)
        } else {
            x.encoding(op)
        },
        VmOperation::U32(op, x) => x.encoding(op),
    }
}

/// The jump rewriter hands on every operation as it was built, with two
/// exceptions: the relative jump it is given as a 16-bit operation becomes an
/// absolute jump to its target, and the operations with two registers and a
/// 16, 32 or 64-bit immediate are left out.
pub proof fn lemma_rewritten_keeps_operations(target: JumpId, operation: VmOperation)
    ensures
        (operation matches VmOperation::U16(op, _) && op == BR_IPR_IMM32_REL) ==> rewritten(
            target,
            operation,
        ) == seq![BR_IPV_IMM32] + le_bytes32(target.0),
        (operation is Reg2Imm16 || operation is Reg2Imm32 || operation is Reg2Imm64) ==> rewritten(
            target,
            operation,
        ).len() == 0,
        !(operation matches VmOperation::U16(op, _) && op == BR_IPR_IMM32_REL) && !(
        operation is Reg2Imm16 || operation is Reg2Imm32 || operation is Reg2Imm64) ==> rewritten(
            target,
            operation,
        ) == operation_bytes(operation),
{
}

impl InstrVisitor for JumpRewriter {
    /// Receiving an operation appends its rewritten bytes, unless that would
    /// take the buffer past the length at which it stops growing.
    open spec fn visits(&self, operation: VmOperation, next: &Self) -> bool {
        let add = rewritten(self.target(), operation);
        &&& next.size() == self.size()
        &&& next.target() == self.target()
        &&& next@ == (if self@.len() + add.len() <= buf_limit() {
            self@ + add
        } else {
            self@
        })
    }

    fn visit_no_operand(&mut self, op: u8) {
        let one = [op];
        proof {
            assert(one@ =~= seq![op]);
        }
        append(&mut self.out, &one);
    }

    fn visit_reg1(&mut self, op: u8, operand: Reg1) {
        append(&mut self.out, &operand.build(op))
    }

    fn visit_reg2(&mut self, op: u8, operand: Reg2) {
        append(&mut self.out, &operand.build(op))
    }

    fn visit_reg3(&mut self, op: u8, operand: Reg3) {
        append(&mut self.out, &operand.build(op))
    }

    fn visit_reg1imm8(&mut self, op: u8, operand: Reg1Imm8) {
        append(&mut self.out, &operand.build(op))
    }

    fn visit_reg1imm16(&mut self, op: u8, operand: Reg1Imm16) {
        append(&mut self.out, &operand.build(op))
    }

    fn visit_reg1imm32(&mut self, op: u8, operand: Reg1Imm32) {
        append(&mut self.out, &operand.build(op))
    }

    fn visit_reg1imm64(&mut self, op: u8, operand: Reg1Imm64) {
        append(&mut self.out, &operand.build(op))
    }

    fn visit_reg2imm8(&mut self, op: u8, operand: Reg2Imm8) {
        append(&mut self.out, &operand.build(op))
    }

    fn visit_reg2imm16(&mut self, op: u8, operand: Reg2Imm16) {
    }

    fn visit_reg2imm32(&mut self, op: u8, operand: Reg2Imm32) {
    }

    fn visit_reg2imm64(&mut self, op: u8, operand: Reg2Imm64) {
    }

    fn visit_u16(&mut self, op: u8, operand: Imm16) {
        if op == BR_IPR_IMM32_REL {
            let op = Imm32 { imm32: self.target.0 };
            append(&mut self.out, &op.build(BR_IPV_IMM32));
        } else {
            append(&mut self.out, &operand.build(op));
        }
    }

    fn visit_u32(&mut self, op: u8, operand: Imm32) {
        append(&mut self.out, &operand.build(op))
    }
}

/// Appends `ops` to `out`.
fn put(out: &mut InstrBuf, ops: &[u8])
    requires
        old(out)@.len() + ops@.len() <= 128,
    ensures
        final(out)@ == old(out)@ + ops@,
{
    buf_extend_from_slice(out, ops);
}

impl AArch64Compiler {
    pub fn new(
        gpr_registers: [RegId; 32],
        fpr_registers: [RegId; 32],
        stack_reg: RegId,
        pstate_reg: RegId,
        btype_next: RegId,
    ) -> (r: Self)
        ensures
            r@.gpr == gpr_registers@,
            r@.fpr == fpr_registers@,
            r@.stack == stack_reg,
            r@.pstate == pstate_reg,
            r@.btype_next == btype_next,
    {
        Self { gpr_registers, fpr_registers, stack_reg, pstate_reg, btype_next }
    }

    /// The VM register for the general purpose register `reg`.
    pub fn gpr(&self, reg: u8) -> (r: RegId)
        requires
            reg < 32,
        ensures
            r == self@.gpr[reg as int],
    {
        self.gpr_registers[reg as usize]
    }

    /// The VM register for the floating point register `reg`.
    pub fn fpr(&self, reg: u8) -> (r: RegId)
        requires
            reg < 32,
        ensures
            r == self@.fpr[reg as int],
    {
        self.fpr_registers[reg as usize]
    }

    /// The VM register for the base register `reg` of an address.
    fn base(&self, reg: u8) -> (r: RegId)
        requires
            reg < 32,
        ensures
            r == self@.base(reg),
    {
        if reg == 31 {
            self.stack_reg
        } else {
            self.gpr(reg)
        }
    }

    /// Whether `compile_instr` handles `instr`.
    pub fn can_compile(&self, instr: &AArch64Instr) -> (r: bool)
        ensures
            r == self@.compilable(*instr),
    {
        match instr {
            AArch64Instr::MovzVar32(o) | AArch64Instr::MovzVar64(o) => o.rd < 32,
            AArch64Instr::Nop => true,
            AArch64Instr::Adr(o) => o.rd < 32,
            AArch64Instr::StpVar64(o) => {
                if o.rn >= 32 || o.rt >= 32 || o.rt2 >= 32 {
                    return false;
                }
                if !(o.o == 1 || o.o == 2 || o.o == 3) {
                    return false;
                }
                let rn = self.base(o.rn);
                self.gpr(o.rt) != rn && self.gpr(o.rt2) != rn
            },
            AArch64Instr::OrrShiftedReg64(o) | AArch64Instr::OrrShiftedReg32(o) => {
                o.rm < 32 && o.rn < 32 && o.rd < 32 && (o.imm6 == 0 && o.shift == 0 && o.rn == 31
                    || o.shift < 4)
            },
            AArch64Instr::Svc(_) | AArch64Instr::Brk(_) => true,
            AArch64Instr::LdrImm64(o) | AArch64Instr::StrImm64(o) | AArch64Instr::LdrbImm(o) => {
                o.rn < 32 && o.rt < 32 && (extract_bits16(11..12, o.imm12) == 0 || o.size < 16)
            },
            AArch64Instr::AddImm64(o) => o.rn < 32 && o.sh <= 2,
            AArch64Instr::SubImm64(o) => {
                o.rn < 32 && o.sh <= 2 && ((o.imm12 as u32) << (o.sh * 12)) != 0
            },
            AArch64Instr::BlImm(_) | AArch64Instr::BImm(_) => true,
            AArch64Instr::Adrp(o) => o.rd < 32,
            AArch64Instr::Cbz64(o) => o.rt < 32,
            AArch64Instr::Ret(o) => o.rn < 32,
            AArch64Instr::Sbfm64(o) => {
                o.rn < 32 && o.rd < 32 && bit_masks_defined(o.n, o.imms, o.immr, false, 64)
            },
            _ => false,
        }
    }

    /// Compiles `instr`, which was `orgn_size` bytes long and follows a
    /// compiled instruction of `prev_size` bytes, into a VM instruction:
    /// a two-byte header, then the VM operations.
    pub fn compile_instr(
        &self,
        orgn_size: u8,
        prev_size: u8,
        instr: AArch64Instr,
    ) -> (r: InstrBuf)
        requires
            self@.gpr.len() == 32,
            self@.compilable(instr),
        ensures
            r@ == compiled_bytes(orgn_size, prev_size, self@.operations(instr)),
    {
        let mut out = buf_new();
        match instr {
            AArch64Instr::MovzVar32(operand) | AArch64Instr::MovzVar64(operand) => {
                let op = Reg1Imm16 { op1: self.gpr(operand.rd), imm16: operand.imm16 }.build(
                    MOV_REG1IMM16,
                );
                let curr_size = 2 + op.len() as u8;
                build_instr_sig(&mut out, orgn_size, curr_size, prev_size);
                put(&mut out, &op);
            },
            AArch64Instr::Nop => {
                let curr_size: u8 = 2;
                build_instr_sig(&mut out, orgn_size, curr_size, prev_size);
            },
            AArch64Instr::Adr(operand) => {
                let imm = sign_extend(((operand.immhi as i64) << 2u64) | (operand.immlo as i64), 20);
                let op1 = Reg1 { op1: self.gpr(operand.rd) }.build(MOV_IPR_REG);
                let op2 = Reg2Imm32 {
                    op1: self.gpr(operand.rd),
                    op2: self.gpr(operand.rd),
                    imm32: imm as u32,
                }.build(IADD_REG2IMM32);
                let curr_size = 2 + op1.len() as u8 + op2.len() as u8;
                build_instr_sig(&mut out, orgn_size, curr_size, prev_size);
                put(&mut out, &op1);
                put(&mut out, &op2);
            },
            AArch64Instr::StpVar64(operand) => {
                // Base register 31 is the stack pointer.
                let rn = self.base(operand.rn);
                let rt1 = self.gpr(operand.rt);
                let rt2 = self.gpr(operand.rt2);
                let signed_offs = operand.o == 10;
                let (wback, post_index) = match operand.o {
                    0b001 => (true, true),
                    0b011 => (true, false),
                    _ => (false, false),
                };
                let offs: i32 = if !post_index {
                    operand.imm7 as i32
                } else {
                    0
                };
                let (store_instr, offs1, offs2) = if signed_offs {
                    let offs2 = (offs + 8) as u32;
                    (SSTORE_REL_REG2IMM32, offs as u32, offs2)
                } else {
                    (USTORE_REL_REG2IMM32, offs as u32, offs as u32 + 8)
                };
                let op1 = Reg2Imm32 { op1: rt1, op2: rn, imm32: offs1 }.build(store_instr);
                let op2 = Reg2Imm32 { op1: rt2, op2: rn, imm32: offs2 }.build(store_instr);
                if post_index && wback {
                    let op3 = Reg2Imm8 { op1: rn, op2: rn, imm8: operand.imm7 }.build(UADD_REG2IMM8);
                    let curr_size = 2 + op1.len() as u8 + op2.len() as u8 + op3.len() as u8;
                    build_instr_sig(&mut out, orgn_size, curr_size, prev_size);
                    put(&mut out, &op1);
                    put(&mut out, &op2);
                    put(&mut out, &op3);
                } else {
                    let curr_size = 2 + op1.len() as u8 + op2.len() as u8;
                    build_instr_sig(&mut out, orgn_size, curr_size, prev_size);
                    put(&mut out, &op1);
                    put(&mut out, &op2);
                }
            },
            AArch64Instr::OrrShiftedReg64(operand) | AArch64Instr::OrrShiftedReg32(operand) => {
                let rm = self.gpr(operand.rm);
                let rn = self.gpr(operand.rn);
                let rd = self.gpr(operand.rd);
                if operand.imm6 == 0 && operand.shift == 0 && operand.rn == 0b11111 {
                    let op = Reg2 { op1: rm, op2: rd }.build(MOV_REG2);
                    let curr_size = 2 + op.len() as u8;
                    build_instr_sig(&mut out, orgn_size, curr_size, prev_size);
                    put(&mut out, &op);
                } else {
                    let i1 = match decode_shift(operand.shift) {
                        ShiftType::LSL => LSHL_REG2IMM8,
                        ShiftType::LSR => LSHR_REG2IMM8,
                        ShiftType::ASR => ASHR_REG2IMM8,
                        ShiftType::ROR => RROT_REG2IMM8,
                    };
                    let op1 = Reg2Imm8 { op1: rm, op2: rd, imm8: operand.imm6 }.build(i1);
                    let op2 = Reg3 { op1: rd, op2: rd, op3: rn }.build(OR_REG3);
                    let curr_size = 2 + op1.len() as u8 + op2.len() as u8;
                    build_instr_sig(&mut out, orgn_size, curr_size, prev_size);
                    put(&mut out, &op1);
                    put(&mut out, &op2);
                }
            },
            AArch64Instr::Svc(operand) => {
                let op = Imm16 { imm16: operand.imm16 }.build(SVC_IMM16);
                let curr_size = 2 + op.len() as u8;
                build_instr_sig(&mut out, orgn_size, curr_size, prev_size);
                put(&mut out, &op);
            },
            AArch64Instr::Brk(operand) => {
                let op = Imm16 { imm16: operand.imm16 }.build(BRK_IMM16);
                let curr_size = 2 + op.len() as u8;
                build_instr_sig(&mut out, orgn_size, curr_size, prev_size);
                put(&mut out, &op);
            },
            AArch64Instr::LdrImm64(operand) => {
                let (_wback, post_index, _scale, offset) = decode_operand_for_ld_st(operand);
                // Base register 31 is the stack pointer.
                let src = self.base(operand.rn);
                let dst = self.gpr(operand.rt);
                let offset_temp: i16 = if !post_index {
                    offset
                } else {
                    0
                };
                let mut ops = buf_new();
                let v = Reg2Imm32 { op1: src, op2: dst, imm32: offset_temp as u32 }.build(
                    SLOAD_REL_REG2IMM32,
                );
                put(&mut ops, &v);
                let curr_size = buf_len(&ops) as u8 + 2;
                build_instr_sig(&mut out, orgn_size, curr_size, prev_size);
                put(&mut out, buf_as_slice(&ops));
            },
            AArch64Instr::StrImm64(operand) => {
                let (wback, post_index, _scale, offset) = decode_operand_for_ld_st(operand);
                let src = self.gpr(operand.rt);
                // Base register 31 is the stack pointer.
                let dst = self.base(operand.rn);
                let offset_temp: i16 = if !post_index {
                    offset
                } else {
                    0
                };
                let mut ops = buf_new();
                let op = Reg2Imm32 { op1: src, op2: dst, imm32: offset_temp as u32 }.build(
                    SSTORE_REL_REG2IMM32,
                );
                put(&mut ops, &op);
                if wback {
                    let op = Reg2Imm32 { op1: dst, op2: dst, imm32: offset as u32 }.build(
                        IADD_REG2IMM32,
                    );
                    put(&mut ops, &op);
                }
                let curr_size = buf_len(&ops) as u8 + 2;
                build_instr_sig(&mut out, orgn_size, curr_size, prev_size);
                put(&mut out, buf_as_slice(&ops));
            },
            AArch64Instr::LdrbImm(operand) => {
                let (wback, post_index, _, offset) = decode_operand_for_ld_st(operand);
                // Base register 31 is the stack pointer.
                let src = self.base(operand.rn);
                let dst = self.gpr(operand.rt);
                let mut ops = buf_new();
                let offset_temp: i16 = if !post_index {
                    offset
                } else {
                    0
                };
                let op1 = Reg2Imm32 { op1: src, op2: dst, imm32: offset_temp as u32 }.build(
                    SLOAD_REL_REG2IMM32,
                );
                put(&mut ops, &op1);
                let op2 = Reg2Imm64 { op1: dst, op2: dst, imm64: 0x0000_0000_0000_00FF }.build(
                    AND_REG2IMM64,
                );
                put(&mut ops, &op2);
                if wback {
                    let op = Reg2Imm32 { op1: src, op2: src, imm32: offset as u32 }.build(
                        IADD_REG2IMM32,
                    );
                    put(&mut ops, &op);
                }
                let curr_size = buf_len(&ops) as u8 + 2;
                build_instr_sig(&mut out, orgn_size, curr_size, prev_size);
                put(&mut out, buf_as_slice(&ops));
            },
            AArch64Instr::AddImm64(operand) => {
                let imm = (operand.imm12 as u32) << (operand.sh * 12);
                let src = self.base(operand.rn);
                let dst = if operand.rd == 31 {
                    self.stack_reg
                } else {
                    self.gpr(operand.rn)
                };
                let op = Reg2Imm32 { op1: src, op2: dst, imm32: imm }.build(UADD_REG2IMM32);
                let curr_size = op.len() as u8 + 2;
                build_instr_sig(&mut out, orgn_size, curr_size, prev_size);
                put(&mut out, &op);
            },
            AArch64Instr::SubImm64(operand) => {
                let base = (operand.imm12 as u32) << (operand.sh * 12);
                assert(!base < 0xffff_ffffu32) by (bit_vector)
                    requires
                        base != 0,
                ;
                let imm = !base + 1;
                let src = self.base(operand.rn);
                let dst = if operand.rd == 31 {
                    self.stack_reg
                } else {
                    self.gpr(operand.rn)
                };
                let op = Reg2Imm32 { op1: src, op2: dst, imm32: imm }.build(IADD_REG2IMM32);
                let curr_size = op.len() as u8 + 2;
                build_instr_sig(&mut out, orgn_size, curr_size, prev_size);
                put(&mut out, &op);
            },
            AArch64Instr::BlImm(operand) => {
                let x30 = self.gpr(30);
                let op1 = Reg1 { op1: x30 }.build(MOV_IPR_REG);
                let op2 = Reg2Imm64 { op1: x30, op2: x30, imm64: 4 }.build(UADD_REG2IMM64);
                let op3 = Imm32 { imm32: sign_extend((operand.imm26 << 2u32) as i64, 28) as u32 }.build(
                    BR_IPR_IMM32_REL,
                );
                let curr_size = (op1.len() + op2.len() + op3.len() + 2) as u8;
                build_instr_sig(&mut out, orgn_size, curr_size, prev_size);
                put(&mut out, &op1);
                put(&mut out, &op2);
                put(&mut out, &op3);
            },
            AArch64Instr::BImm(operand) => {
                let op = Imm32 { imm32: sign_extend((operand.imm26 << 2u32) as i64, 28) as u32 }.build(
                    BR_IPR_IMM32_REL,
                );
                let curr_size = (op.len() + 2) as u8;
                build_instr_sig(&mut out, orgn_size, curr_size, prev_size);
                put(&mut out, &op);
            },
            AArch64Instr::Adrp(operand) => {
                let imm = sign_extend(
                    ((operand.immhi << 14u32) | ((operand.immlo as u32) << 12u32)) as i64,
                    33,
                );
                let rd = self.gpr(operand.rd);
                let op1 = Reg1 { op1: rd }.build(MOV_IPR_REG);
                let op2 = Reg2Imm64 { op1: rd, op2: rd, imm64: 0xFFFF_FFFF_FFFF_F000 }.build(
                    AND_REG2IMM64,
                );
                let op3 = Reg2Imm64 { op1: rd, op2: rd, imm64: imm as u64 }.build(IADD_REG2IMM64);
                let curr_size = (op1.len() + op2.len() + op3.len() + 2) as u8;
                build_instr_sig(&mut out, orgn_size, curr_size, prev_size);
                put(&mut out, &op1);
                put(&mut out, &op2);
                put(&mut out, &op3);
            },
            AArch64Instr::Cbz64(operand) => {
                let offset = operand.imm19 << 2u32;
                let op1 = Reg1Slot1 { op1: self.gpr(operand.rt), slot_id: SlotId(0) }.build(
                    STORE_SLOT_REG,
                );
                let op2 = SlotImm32 { slot_id: SlotId(0), imm32: offset }.build(
                    BR_IPR_IMM32_REL_IF_SLOT_ZERO,
                );
                let curr_size = op1.len() + op2.len() + 2;
                build_instr_sig(&mut out, orgn_size, curr_size as u8, prev_size);
                put(&mut out, &op1);
                put(&mut out, &op2);
            },
            AArch64Instr::Ret(operand) => {
                let op1 = Reg1Imm16 { op1: self.btype_next, imm16: 0b00 }.build(MOV_REG1IMM16);
                let op2 = Reg1 { op1: self.gpr(operand.rn) }.build(BR_IPR_REG1);
                let curr_size = op1.len() + op2.len() + 2;
                build_instr_sig(&mut out, orgn_size, curr_size as u8, prev_size);
                put(&mut out, &op1);
                put(&mut out, &op2);
            },
            AArch64Instr::Sbfm64(operand) => {
                let immr = operand.immr;
                let imms = operand.imms;
                let (wmask, tmask) = decode_bit_masks(operand.n, imms, immr, false, 64);
                let src = self.gpr(operand.rn);
                let dst = self.gpr(operand.rd);
                let op1 = Reg2Imm8 { op1: src, op2: dst, imm8: immr }.build(RROT_REG2IMM8);
                let op2 = Reg2Imm64 { op1: dst, op2: dst, imm64: wmask }.build(AND_REG2IMM64);
                let op3 = Reg2Imm64 { op1: dst, op2: dst, imm64: tmask }.build(AND_REG2IMM64);
                // Slot 0 holds the bottom bits and-ed with tmask.
                let op4 = Reg1Slot1 { op1: dst, slot_id: SlotId(0) }.build(STORE_SLOT_REG);
                let op5 = Reg2Imm8 { op1: src, op2: dst, imm8: imms }.build(MOV_BIT_REG2IMM8);
                // The top bits.
                let op6 = Reg2Imm16 { op1: dst, op2: dst, imm16: 64u16 << 8u16 | 1 }.build(
                    REPL_REG2IMM16,
                );
                let op7 = Reg2Imm64 { op1: dst, op2: dst, imm64: !tmask }.build(AND_REG2IMM64);
                let op8 = Reg1Slot1 { op1: dst, slot_id: SlotId(0) }.build(OR_REG1SLOT1);
                let curr_size = op1.len() + op2.len() + op3.len() + op4.len() + op5.len()
                    + op6.len() + op7.len() + op8.len() + 2;
                build_instr_sig(&mut out, orgn_size, curr_size as u8, prev_size);
                put(&mut out, &op1);
                put(&mut out, &op2);
                put(&mut out, &op3);
                put(&mut out, &op4);
                put(&mut out, &op5);
                put(&mut out, &op6);
                put(&mut out, &op7);
                put(&mut out, &op8);
            },
            _ => {
                assert(false);
            },
        }
        assert(out@ =~= compiled_bytes(orgn_size, prev_size, self@.operations(instr)));
        out
    }
}

} // verus!
