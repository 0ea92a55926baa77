use aarch64_vm::machineinstr::instruction::AArch64Instr;
use aarch64_vm::machineinstr::operands::{
    HwImm16Rd, Imm26, LoadStoreRegPair, PcRelAddressing, ShImm12RnRd, ShiftRmImm6RnRd,
    SizeImm12RnRt, UncondBranchReg,
};
use aarch64_vm::vm::aarch64::compiler::{AArch64Compiler, IprIpvTable, JumpRewriter};
use aarch64_vm::vm::instruction::instructions::{
    BR_IPR_IMM32_REL, BR_IPR_REG1, BR_IPV_IMM32, IADD_REG2IMM32, LSHR_REG2IMM8, MOV_IPR_REG,
    MOV_REG1IMM16, MOV_REG2, NOP, OR_REG3, SLOAD_REL_REG2IMM32, UADD_REG2IMM32,
    USTORE_REL_REG2IMM32,
};
use aarch64_vm::vm::instruction::operands::{
    Imm16, Imm32, Reg1, Reg1Imm16, Reg1Imm32, Reg1Imm64, Reg1Imm8, Reg2, Reg2Imm16, Reg2Imm32,
    Reg2Imm64, Reg2Imm8, Reg3,
};
use aarch64_vm::vm::instruction::{InstrVisitor, VmIr};
use aarch64_vm::vm::register::{JumpId, RegId};

/// x0..x31 are VM registers 3..34, the stack pointer 40, pstate 41 and the
/// next branch type 42.
fn compiler() -> AArch64Compiler {
    let gpr: [RegId; 32] = core::array::from_fn(|i| RegId(i as u8 + 3));
    let fpr: [RegId; 32] = core::array::from_fn(|i| RegId(i as u8 + 64));
    AArch64Compiler::new(gpr, fpr, RegId(40), RegId(41), RegId(42))
}

#[test]
fn nop_is_a_bare_header() {
    let out = compiler().compile_instr(4, 0, AArch64Instr::Nop).to_vec();
    assert_eq!(out, vec![0x40, 0x80]);
}

#[test]
fn movz_moves_the_immediate() {
    let instr = AArch64Instr::MovzVar64(HwImm16Rd { hw: 0, imm16: 0x1234, rd: 3 });
    let out = compiler().compile_instr(4, 0, instr).to_vec();
    assert_eq!(out, vec![0x41, 0x80, MOV_REG1IMM16, 6, 0x34, 0x12]);
}

#[test]
fn add_immediate_writes_into_the_source_register() {
    // The destination is taken from `rn` unless `rd` is the stack pointer.
    let instr = AArch64Instr::AddImm64(ShImm12RnRd { sh: 0, imm12: 4, rn: 1, rd: 0 });
    let out = compiler().compile_instr(4, 6, instr).to_vec();
    assert_eq!(out, vec![0x42, 0x46, UADD_REG2IMM32, 4, 4, 4, 0, 0, 0]);
}

#[test]
fn sub_immediate_adds_the_negated_shifted_immediate() {
    let instr = AArch64Instr::SubImm64(ShImm12RnRd { sh: 1, imm12: 1, rn: 31, rd: 31 });
    let out = compiler().compile_instr(4, 0, instr).to_vec();
    assert_eq!(out, vec![0x42, 0x40, IADD_REG2IMM32, 40, 40, 0x00, 0xf0, 0xff, 0xff]);
}

#[test]
fn ret_clears_branch_type_and_jumps_to_register() {
    let instr = AArch64Instr::Ret(UncondBranchReg { z: 0, op: 2, a: 0, rn: 30, rm: 0 });
    let out = compiler().compile_instr(4, 7, instr).to_vec();
    assert_eq!(out, vec![0x42, 0x07, MOV_REG1IMM16, 42, 0, 0, BR_IPR_REG1, 33]);
}

#[test]
fn branch_offsets_are_sign_extended() {
    let fwd = compiler().compile_instr(4, 0, AArch64Instr::BImm(Imm26 { imm26: 2 })).to_vec();
    assert_eq!(fwd, vec![0x41, 0xc0, BR_IPR_IMM32_REL, 8, 0, 0, 0]);
    let back = compiler()
        .compile_instr(4, 0, AArch64Instr::BImm(Imm26 { imm26: 0x3ff_ffff }))
        .to_vec();
    assert_eq!(back, vec![0x41, 0xc0, BR_IPR_IMM32_REL, 0xfc, 0xff, 0xff, 0xff]);
}

#[test]
fn orr_with_zero_register_is_a_move() {
    let mov = AArch64Instr::OrrShiftedReg64(ShiftRmImm6RnRd { shift: 0, rm: 2, imm6: 0, rn: 31, rd: 5 });
    let out = compiler().compile_instr(4, 0, mov).to_vec();
    assert_eq!(out, vec![0x41, 0x40, MOV_REG2, 5, 8]);

    let orr = AArch64Instr::OrrShiftedReg64(ShiftRmImm6RnRd { shift: 1, rm: 2, imm6: 3, rn: 1, rd: 5 });
    let out = compiler().compile_instr(4, 0, orr).to_vec();
    assert_eq!(out, vec![0x42, 0x80, LSHR_REG2IMM8, 5, 8, 3, OR_REG3, 8, 8, 4]);
}

#[test]
fn stp_signed_offset_stores_both_registers() {
    let instr = AArch64Instr::StpVar64(LoadStoreRegPair { imm7: 2, o: 2, rt2: 1, rn: 31, rt: 0 });
    let out = compiler().compile_instr(4, 0, instr).to_vec();
    assert_eq!(
        out,
        vec![
            0x44, 0x00, USTORE_REL_REG2IMM32, 3, 40, 2, 0, 0, 0, USTORE_REL_REG2IMM32, 4, 40, 10, 0,
            0, 0,
        ]
    );
}

#[test]
fn ldr_unsigned_offset_is_scaled() {
    let instr = AArch64Instr::LdrImm64(SizeImm12RnRt { idxt: 0, size: 3, imm12: 0x801, rn: 31, rt: 2 });
    let out = compiler().compile_instr(4, 0, instr).to_vec();
    assert_eq!(out, vec![0x42, 0x40, SLOAD_REL_REG2IMM32, 40, 5, 0x08, 0x40, 0, 0]);
}

#[test]
fn adr_reads_ip_then_adds_offset() {
    let instr = AArch64Instr::Adr(PcRelAddressing { immlo: 1, immhi: 1, rd: 0 });
    let out = compiler().compile_instr(4, 0, instr).to_vec();
    assert_eq!(out, vec![0x42, 0xc0, MOV_IPR_REG, 3, IADD_REG2IMM32, 3, 3, 5, 0, 0, 0]);
}

#[derive(Default)]
struct Recorder {
    seen: Vec<(u8, Vec<u8>)>,
}

impl InstrVisitor for Recorder {
    fn visit_no_operand(&mut self, op: u8) {
        self.seen.push((op, vec![]));
    }

    fn visit_reg1(&mut self, op: u8, operand: Reg1) {
        self.seen.push((op, vec![operand.op1.0]));
    }

    fn visit_reg2(&mut self, _op: u8, _operand: Reg2) {}

    fn visit_reg3(&mut self, _op: u8, _operand: Reg3) {}

    fn visit_reg1imm8(&mut self, _op: u8, _operand: Reg1Imm8) {}

    fn visit_reg1imm16(&mut self, _op: u8, _operand: Reg1Imm16) {}

    fn visit_reg1imm32(&mut self, _op: u8, _operand: Reg1Imm32) {}

    fn visit_reg1imm64(&mut self, _op: u8, _operand: Reg1Imm64) {}

    fn visit_reg2imm8(&mut self, _op: u8, _operand: Reg2Imm8) {}

    fn visit_reg2imm16(&mut self, _op: u8, _operand: Reg2Imm16) {}

    fn visit_reg2imm32(&mut self, op: u8, operand: Reg2Imm32) {
        self.seen.push((op, vec![operand.op1.0, operand.op2.0]));
        self.seen.push((op, operand.imm32.to_le_bytes().to_vec()));
    }

    fn visit_reg2imm64(&mut self, _op: u8, _operand: Reg2Imm64) {}

    fn visit_u16(&mut self, _op: u8, _operand: Imm16) {}

    fn visit_u32(&mut self, _op: u8, _operand: Imm32) {}
}

#[test]
fn compiled_instruction_reads_back() {
    let instr = AArch64Instr::Adr(PcRelAddressing { immlo: 1, immhi: 1, rd: 0 });
    let out = compiler().compile_instr(4, 9, instr).to_vec();
    let ir = VmIr::from_ref(&out);
    assert_eq!(ir.real_size(), 4);
    assert_eq!(ir.curr_size() as usize, out.len());
    assert_eq!(ir.prev_size(), 9);
    let mut rec = Recorder::default();
    ir.visit(&mut rec);
    assert_eq!(
        rec.seen,
        vec![
            (MOV_IPR_REG, vec![3]),
            (IADD_REG2IMM32, vec![3, 3]),
            (IADD_REG2IMM32, vec![5, 0, 0, 0]),
        ]
    );
}

#[test]
fn operands_read_back_what_was_built() {
    let op = Reg2Imm64 { op1: RegId(1), op2: RegId(2), imm64: 0x0102_0304_0506_0708 };
    let mut bytes = vec![0, 0];
    bytes.extend_from_slice(&op.build(0x25));
    let ir = VmIr::from_ref(&bytes);
    let mut offset = 2;
    assert_eq!(ir.opcode(&mut offset), None); // the header gives size 0
    let mut offset = 3;
    assert_eq!(ir.reg2u64(&mut offset), op);
    assert_eq!(offset, 13);

    let r3 = Reg3 { op1: RegId(7), op2: RegId(8), op3: RegId(9) };
    let b = r3.build(OR_REG3);
    assert_eq!(b, [OR_REG3, 7, 8, 9]);
    let ir = VmIr::from_ref(&b);
    let mut offset = 1;
    assert_eq!(ir.reg3(&mut offset), r3);
}

#[test]
fn signed_views_of_immediates() {
    let i = Imm32 { imm32: 0xffff_fffe };
    assert_eq!(i.i32(), -2);
    assert_eq!(i.u32(), 0xffff_fffe);
    let h = Imm16 { imm16: 0x8000 };
    assert_eq!(h.i16(), i16::MIN);
}

#[test]
fn ipr_ipv_table_gives_lowest_address_first() {
    let mut t = IprIpvTable::new();
    assert!(!t.check_ipr(0));
    assert_eq!(t.pop(), None);
    t.push(0x100, 1);
    t.push(0x80, 2);
    t.push(0x200, 3);
    assert!(t.check_ipr(0x80));
    assert!(!t.check_ipr(0x100));
    assert_eq!(t.pop(), Some(2));
    assert!(t.check_ipr(0x100));
    assert_eq!(t.pop(), Some(1));
    assert_eq!(t.pop(), Some(3));
    assert_eq!(t.pop(), None);
}

#[test]
fn jump_rewriter_turns_relative_jump_into_table_jump() {
    let mut rw = JumpRewriter::new(JumpId(7), 4, 12, 0);
    rw.visit_u16(BR_IPR_IMM32_REL, Imm16 { imm16: 5 });
    let out = rw.finish().to_vec();
    assert_eq!(
        out,
        vec![0x43, 0x00, BR_IPV_IMM32, 7, 0, 0, 0, NOP, NOP, NOP, NOP, NOP]
    );
}

#[test]
fn jump_rewriter_cuts_to_size() {
    let mut rw = JumpRewriter::new(JumpId(1), 4, 3, 0);
    rw.visit_reg1(MOV_IPR_REG, Reg1 { op1: RegId(9) });
    assert_eq!(rw.finish().to_vec(), vec![0x40, 0xc0, MOV_IPR_REG]);
}

#[test]
fn jump_rewriter_walks_a_compiled_instruction() {
    let instr = AArch64Instr::Adr(PcRelAddressing { immlo: 1, immhi: 1, rd: 0 });
    let out = compiler().compile_instr(4, 0, instr).to_vec();
    let ir = VmIr::from_ref(&out);
    let mut rw = JumpRewriter::new(JumpId(1), ir.real_size(), ir.curr_size(), ir.prev_size());
    ir.visit(&mut rw);
    // The two-register 32-bit immediate operation is dropped, the rest padded.
    assert_eq!(
        rw.finish().to_vec(),
        vec![0x42, 0xc0, MOV_IPR_REG, 3, NOP, NOP, NOP, NOP, NOP, NOP, NOP]
    );
}
