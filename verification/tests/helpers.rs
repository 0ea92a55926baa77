use aarch64_vm::vm::aarch64::bits::{
    decode_bit_masks, decode_operand_for_ld_st, decode_shift, highest_set_bit, ones, replicate, ror,
    sign_extend, ShiftType,
};
use aarch64_vm::machineinstr::operands::SizeImm12RnRt;
use aarch64_vm::vm::compiler::aarch64_prelude as prelude;
use aarch64_vm::vm::compiler::aarch64_prelude::{ExtendType, Pstate};
use aarch64_vm::vm::error::{CodegenError, Error, MMUError};
use aarch64_vm::vm::image::Image;
use aarch64_vm::vm::instr::make_mask;

#[test]
fn sign_extend_copies_the_sign_bit() {
    assert_eq!(sign_extend(0x100, 9), -256);
    assert_eq!(sign_extend(0xff, 9), 255);
    assert_eq!(sign_extend(0x1ff, 9), -1);
    assert_eq!(sign_extend(0, 1), 0);
    assert_eq!(sign_extend(1, 1), -1);
    // Without the sign bit, wide fields are left as they are.
    assert_eq!(sign_extend(5, 63), 5);
    assert_eq!(sign_extend(i64::MAX, 64), i64::MAX);
}

#[test]
fn highest_set_bit_positions() {
    assert_eq!(highest_set_bit(1), 0);
    assert_eq!(highest_set_bit(0x80), 7);
    assert_eq!(highest_set_bit(0x7f), 6);
    assert_eq!(highest_set_bit(u64::MAX), 63);
}

#[test]
fn ones_and_replicate_shift_after_each_copy() {
    // Each copy is shifted once more, so `ones(n)` is 2^(n+1) - 2.
    assert_eq!(ones(0), 0);
    assert_eq!(ones(1), 2);
    assert_eq!(ones(3), 14);
    assert_eq!(replicate(1, 2, 4), 272);
    assert_eq!(ror(0b10, 1, 4), 1);
    assert_eq!(ror(0b1, 1, 4), 0);
}

#[test]
fn decode_shift_types() {
    assert!(matches!(decode_shift(0), ShiftType::LSL));
    assert!(matches!(decode_shift(1), ShiftType::LSR));
    assert!(matches!(decode_shift(2), ShiftType::ASR));
    assert!(matches!(decode_shift(3), ShiftType::ROR));
}

#[test]
fn bit_masks_of_a_sixteen_bit_element() {
    let (wmask, tmask) = decode_bit_masks(0, 0b100000, 0, false, 64);
    assert_eq!(wmask, 0x0002_0002_0002_0000);
    assert_eq!(tmask, 0x0002_0002_0002_0000);
}

#[test]
fn load_store_offsets() {
    // Bit 11 set: the offset is `imm12` scaled by the size.
    let unsigned = SizeImm12RnRt { idxt: 0, size: 3, imm12: 0x801, rn: 0, rt: 0 };
    assert_eq!(decode_operand_for_ld_st(unsigned), (false, false, 3, 0x4008));
    // Bit 11 clear: a signed nine-bit offset and the indexing mode.
    let post = SizeImm12RnRt { idxt: 0, size: 3, imm12: 0b0_111111111_01, rn: 0, rt: 0 };
    assert_eq!(decode_operand_for_ld_st(post), (true, true, 3, -1));
    let pre = SizeImm12RnRt { idxt: 0, size: 2, imm12: 0b0_000000100_11, rn: 0, rt: 0 };
    assert_eq!(decode_operand_for_ld_st(pre), (true, false, 2, 4));
}

#[test]
fn pstate_fields() {
    assert_eq!(Pstate::N.range(), 63..64);
    assert_eq!(Pstate::NZCV.range(), 60..64);
    assert_eq!(Pstate::BTYPE.idx(), 40);
    // `ones(1)` is 2, which is shifted out of the top bit.
    assert_eq!(Pstate::N.mask(), 0);
    assert_eq!(Pstate::NZCV.mask(), 0xe000_0000_0000_0000);
}

#[test]
fn prelude_replicate_wraps_the_shift() {
    assert_eq!(prelude::replicate(0xab, 2, 32), 0xab_0000_0000);
    assert_eq!(prelude::replicate(0xab, 8, 8), 0xabab_abab_abab_ab00);
    assert_eq!(prelude::replicate(1, 1, 64), 1);
    assert_eq!(prelude::ones(2), 6);
}

#[test]
fn simd_immediate_expansion() {
    assert_eq!(prelude::adv_simd_exapnd_imm(0, 0, 0xab), 0xab_0000_0000);
    assert_eq!(prelude::adv_simd_exapnd_imm(0, 0b1110, 0xab), 0xabab_abab_abab_ab00);
}

#[test]
fn mask_and_bit_helpers() {
    assert_eq!(prelude::gen_mask64(4..8), 0x00ff_ffff_ffff_fff0);
    assert!(prelude::bit(0b100, 2));
    assert!(!prelude::bit(0b100, 1));
    assert_eq!(prelude::decode_o_for_ld_st_pair_offset(0b001), (true, true));
    assert_eq!(prelude::decode_o_for_ld_st_pair_offset(0b011), (true, false));
    assert_eq!(prelude::decode_o_for_ld_st_pair_offset(0b010), (false, false));
    assert_eq!(prelude::decode_reg_extend(0b110), ExtendType::SXTW);
    assert_eq!(prelude::decode_reg_extend(0b001), ExtendType::UXTH);
}

#[test]
fn transactional_system_access() {
    // MSR to a PSTATE field through op0 0, op1 3, CRn 4 with op2 `11x`.
    assert!(prelude::check_transactional_system_acceess(0, 3, 4, 9, 0b111, 0));
    assert!(!prelude::check_transactional_system_acceess(0, 3, 4, 9, 0b101, 0));
    // Reads of op0 3 with CRn `0xxx` are allowed.
    assert!(prelude::check_transactional_system_acceess(3, 0, 0b0101, 0, 0, 1));
    assert!(!prelude::check_transactional_system_acceess(1, 0, 0, 0, 0, 0));
}

#[test]
fn operand_masks() {
    assert_eq!(make_mask(1), 0xff);
    assert_eq!(make_mask(2), 0xffff);
    assert_eq!(make_mask(4), 0xffff_ffff);
    assert_eq!(make_mask(8), u64::MAX);
}

#[test]
fn image_sections_by_name() {
    let mut image = Image::from_image((0u8..16).collect());
    assert_eq!(image.entrypoint(), 0);
    image.add_section(".text", 0x1000, false, true, 4, 8).set_entrypoint(0x1000);
    assert_eq!(image.entrypoint(), 0x1000);
    assert_eq!(image.section_data(".text"), &[4, 5, 6, 7]);
    assert_eq!(image.section_addr(".text"), 0x1000);
    assert_eq!(image.section_access_info(".text"), (false, true));
    image.add_section(".data", 0x2000, true, false, 8, 16);
    image.add_section(".text", 0x3000, true, false, 0, 2);
    assert_eq!(image.section_addr(".text"), 0x3000);
    assert_eq!(image.section_data(".text"), &[0, 1]);
    let mut names = image.sections();
    names.sort();
    assert_eq!(names, vec![".data", ".text"]);
}

#[test]
fn errors_convert_into_the_vm_error() {
    let e: Error = MMUError::PageFault.into();
    assert_eq!(e, Error::MMU(MMUError::PageFault));
    let e: Error = CodegenError::InvalidType.into();
    assert_eq!(e, Error::Codegen(CodegenError::InvalidType));
}

#[test]
fn image_entrypoint_is_the_last_one_set() {
    let mut image = Image::from_image(vec![0u8; 8]);
    image.add_section(".text", 0x1000, false, true, 0, 4);
    assert_eq!(image.entrypoint(), 0);
    image.set_entrypoint(0x10).add_section(".data", 0x2000, true, false, 4, 8);
    image.set_entrypoint(0x20);
    image.add_section(".text", 0x3000, false, true, 0, 2);
    assert_eq!(image.entrypoint(), 0x20);
}
