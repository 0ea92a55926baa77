use aarch64_vm::machineinstr::instr::NativeInstr;
use aarch64_vm::machineinstr::instruction::AArch64Instr;
use aarch64_vm::machineinstr::operands::{
    ExceptionGen, HwImm16Rd, Imm26, ShImm12RnRd, UncondBranchReg,
};
use aarch64_vm::machineinstr::parse_rules::{decode_instr, AArch64InstrParserRule};
use aarch64_vm::machineinstr::{MachineInstParser, MachineInstrParserRule};
use aarch64_vm::utility::BitReader;
use aarch64_vm::vm::aarch64::compiler::AArch64Compiler;
use aarch64_vm::vm::register::RegId;

#[test]
fn decodes_nop() {
    assert_eq!(decode_instr(0xd503_201f), Some(AArch64Instr::Nop));
}

#[test]
fn decodes_movz_64() {
    // movz x3, #0x1234
    assert_eq!(
        decode_instr(0xd282_4683),
        Some(AArch64Instr::MovzVar64(HwImm16Rd { hw: 0, imm16: 0x1234, rd: 3 }))
    );
}

#[test]
fn decodes_add_immediate() {
    // add x0, x1, #4
    assert_eq!(
        decode_instr(0x9100_1020),
        Some(AArch64Instr::AddImm64(ShImm12RnRd { sh: 0, imm12: 4, rn: 1, rd: 0 }))
    );
}

#[test]
fn decodes_ret() {
    assert_eq!(
        decode_instr(0xd65f_03c0),
        Some(AArch64Instr::Ret(UncondBranchReg { z: 0, op: 2, a: 0, rn: 30, rm: 0 }))
    );
}

#[test]
fn decodes_svc_and_branch() {
    assert_eq!(
        decode_instr(0xd400_0001),
        Some(AArch64Instr::Svc(ExceptionGen { opc: 0, imm16: 0, op2: 0, ll: 1 }))
    );
    // b #8
    assert_eq!(decode_instr(0x1400_0002), Some(AArch64Instr::BImm(Imm26 { imm26: 2 })));
}

#[test]
fn unsupported_encoding_is_none() {
    // An SVE encoding.
    assert_eq!(decode_instr(0x0400_0000), None);
}

#[test]
fn parser_rule_reads_words_until_the_end() {
    let mut rule = AArch64InstrParserRule;
    let mut buf = BitReader::new(vec![0x1f, 0x20, 0x03, 0xd5, 0xc0, 0x03, 0x5f, 0xd6, 0x00]);
    let first: Option<NativeInstr<AArch64Instr>> = rule.parse(&mut buf);
    let first = first.unwrap();
    assert_eq!(first.op, AArch64Instr::Nop);
    assert_eq!(first.size, 4);
    let second = rule.parse(&mut buf).unwrap();
    assert_eq!(
        second.op,
        AArch64Instr::Ret(UncondBranchReg { z: 0, op: 2, a: 0, rn: 30, rm: 0 })
    );
    assert!(rule.parse(&mut buf).is_none());
}

#[test]
fn machine_inst_parser_yields_each_instruction() {
    let bytes = vec![0x1f, 0x20, 0x03, 0xd5, 0x01, 0x00, 0x00, 0xd4];
    let mut parser = MachineInstParser::new(BitReader::new(bytes), AArch64InstrParserRule);
    assert_eq!(parser.next().unwrap().op, AArch64Instr::Nop);
    assert_eq!(
        parser.next().unwrap().op,
        AArch64Instr::Svc(ExceptionGen { opc: 0, imm16: 0, op2: 0, ll: 1 })
    );
    assert!(parser.next().is_none());
}

fn identity_compiler() -> AArch64Compiler {
    let gpr: [RegId; 32] = core::array::from_fn(|i| RegId(i as u8));
    let fpr: [RegId; 32] = core::array::from_fn(|i| RegId(i as u8 + 32));
    AArch64Compiler::new(gpr, fpr, RegId(64), RegId(65), RegId(66))
}

#[test]
fn decoded_instructions_compile() {
    let c = identity_compiler();
    // movz x3, #0x1234; ret; sub sp, sp, #16
    for raw in [0xd282_4683u32, 0xd65f_03c0, 0xd100_43ff] {
        let instr = decode_instr(raw).unwrap();
        assert!(c.can_compile(&instr), "{raw:#x}");
        let out = c.compile_instr(4, 0, instr).to_vec();
        assert_eq!(((out[0] & 0x0f) << 2 | (out[1] >> 6)) as usize, out.len());
    }
    // sub sp, sp, #0 would add `!0 + 1`, which overflows.
    let sub0 = decode_instr(0xd100_03ff).unwrap();
    assert_eq!(sub0, AArch64Instr::SubImm64(ShImm12RnRd { sh: 0, imm12: 0, rn: 31, rd: 31 }));
    assert!(!c.can_compile(&sub0));
    // madd x0, x1, x2, x3 is not compiled.
    let madd = decode_instr(0x9b02_0c20).unwrap();
    assert!(!c.can_compile(&madd));
}
