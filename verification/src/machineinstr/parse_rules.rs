//! The AArch64 decoder: from a 32-bit instruction word to an [`AArch64Instr`].
//!
//! Each encoding group and class has a spec function stating what it decodes
//! a word to, and an executable decoder proved to agree with it. `None` marks
//! the encodings that are unallocated or that this decoder does not support.
use vstd::prelude::*;

use super::instruction::AArch64Instr;
use super::operands::{
    AddSubImmWithTags,
    AddSubtractExtReg,
    AdvSimdLdStMultiStructures,
    AdvSimdLdStMultiStructuresPostIndexed,
    AdvSimdLdStSingleStructure,
    AdvSimdModifiedImm,
    AdvSimdScalarPairwise,
    AdvSimdShiftByImm,
    AdvSimdXIndexedElem,
    AdvancedSimdCopy,
    AdvancedSimdExtract,
    B5B40Imm14Rt,
    Barriers,
    Bitfield,
    CondCmpImm,
    CondCmpReg,
    ConvBetweenFloatAndFixedPoint,
    DataProc2Src,
    DataProc3Src,
    ExceptionGen,
    ExtractImm,
    FloatingPointCompare,
    FloatingPointImmediate,
    HwImm16Rd,
    Imm16,
    Imm19Cond,
    Imm19Rt,
    Imm26,
    LoadStoreOrdered,
    LoadStoreRegExclusive,
    LoadStoreRegPair,
    LoadStoreRegRegOffset,
    LogicalImm,
    PcRelAddressing,
    Pstate,
    QSizeRmRnRd,
    QSizeRnRd,
    RmCondRnRd,
    RmRaRnRd,
    RmRnRd,
    Rn,
    RnRd,
    RotateRightIntoFlags,
    RsRnRt,
    Rt,
    ShImm12RnRd,
    ShiftRmImm6RnRd,
    SizeImm12RnRt,
    SysRegMov,
    SystemInstructions,
    UncondBranchReg,
};
use super::instr::NativeInstr;
use super::parser::MachineInstrParserRule;
use crate::utility::{
    bit_field32, extract_bits32, extract_u16, extract_u8, field_u16, field_u8, le_u32, BitReader,
};

verus! {

/// What the top-level AArch64 encoding group decodes to.
pub open spec fn spec_decode_instr(raw: u32) -> Option<AArch64Instr> {
    if raw & 0x9e00_0000 == 0x0000_0000 {
        // 0_xx_0000_xxxxxxxxxxxxxxxxxxxxxxxxx
        let op0 = bit_field32(raw, 29, 31);
        let op1 = bit_field32(raw, 16, 25);
        let imm16 = Imm16 {
            imm16: bit_field32(raw, 0, 16) as u16,
        };

        match (op0, op1) {
            (0b00, 0b000000000) => Some(AArch64Instr::Udf(imm16)),
            _ => None,
        }
    } else if raw & 0x9e00_0000 == 0x8000_0000 {
        // 1_xx_0000_xxxxxxxxxxxxxxxxxxxxxxxxx
        // SME encodings
        None
    } else if raw & 0x1e00_0000 == 0x0400_0000 {
        // x_xx_0010_xxxxxxxxxxxxxxxxxxxxxxxxx
        // SVE encodings
        None
    } else if raw & 0x1c00_0000 == 0x1000_0000 {
        // x_xx_100x_xxxxxxxxxxxxxxxxxxxxxxxxx
        spec_parse_aarch64_d_p_i(raw)
    } else if raw & 0x1c00_0000 == 0x1400_0000 {
        // x_xx_101x_xxxxxxxxxxxxxxxxxxxxxxxxx
        spec_parse_aarch64_branches_exception_gen_and_sys_instr(raw)
    } else if raw & 0x0a00_0000 == 0x0800_0000 {
        // x_xx_x1x0_xxxxxxxxxxxxxxxxxxxxxxxxx
        spec_parse_aarch64_load_and_stores(raw)
    } else if raw & 0x0e00_0000 == 0x0a00_0000 {
        // x_xx_x101_xxxxxxxxxxxxxxxxxxxxxxxxx
        spec_parse_aarch64_d_p_r(raw)
    } else if raw & 0x0e00_0000 == 0x0e00_0000 {
        // x_xx_x111_xxxxxxxxxxxxxxxxxxxxxxxxx
        spec_parse_aarch64_dp_sfp_adv_simd(raw)
    } else {
        None
    }
}

/// Decodes one AArch64 instruction word; `None` for the encodings that are
/// not supported.
pub fn decode_instr(raw: u32) -> (r: Option<AArch64Instr>)
    ensures
        r == spec_decode_instr(raw),
{
    if raw & 0x9e00_0000 == 0x0000_0000 {
        // 0_xx_0000_xxxxxxxxxxxxxxxxxxxxxxxxx
        let op0 = extract_bits32(29..31, raw);
        let op1 = extract_bits32(16..25, raw);
        let imm16 = Imm16 {
            imm16: extract_bits32(0..16, raw) as u16,
        };

        match (op0, op1) {
            (0b00, 0b000000000) => Some(AArch64Instr::Udf(imm16)),
            _ => None,
        }
    } else if raw & 0x9e00_0000 == 0x8000_0000 {
        // 1_xx_0000_xxxxxxxxxxxxxxxxxxxxxxxxx
        // SME encodings
        None
    } else if raw & 0x1e00_0000 == 0x0400_0000 {
        // x_xx_0010_xxxxxxxxxxxxxxxxxxxxxxxxx
        // SVE encodings
        None
    } else if raw & 0x1c00_0000 == 0x1000_0000 {
        // x_xx_100x_xxxxxxxxxxxxxxxxxxxxxxxxx
        parse_aarch64_d_p_i(raw)
    } else if raw & 0x1c00_0000 == 0x1400_0000 {
        // x_xx_101x_xxxxxxxxxxxxxxxxxxxxxxxxx
        parse_aarch64_branches_exception_gen_and_sys_instr(raw)
    } else if raw & 0x0a00_0000 == 0x0800_0000 {
        // x_xx_x1x0_xxxxxxxxxxxxxxxxxxxxxxxxx
        parse_aarch64_load_and_stores(raw)
    } else if raw & 0x0e00_0000 == 0x0a00_0000 {
        // x_xx_x101_xxxxxxxxxxxxxxxxxxxxxxxxx
        parse_aarch64_d_p_r(raw)
    } else if raw & 0x0e00_0000 == 0x0e00_0000 {
        // x_xx_x111_xxxxxxxxxxxxxxxxxxxxxxxxx
        parse_aarch64_dp_sfp_adv_simd(raw)
    } else {
        None
    }
}

/// What the data processing (immediate) encoding group decodes to.
pub open spec fn spec_parse_aarch64_d_p_i(raw: u32) -> Option<AArch64Instr> {
    if raw & 0x1f00_0000 == 0x1000_0000 {
        // xxx_100_00x_xxxxxxxxxxxxxxxxxxxxxxx
        spec_parse_pc_rel_addressing(raw)
    } else if raw & 0x1f80_0000 == 0x1100_0000 {
        // xxx_100_010_xxxxxxxxxxxxxxxxxxxxxxx
        spec_parse_add_sub_immediate(raw)
    } else if raw & 0x1f80_0000 == 0x1180_0000 {
        // xxx_100_011_xxxxxxxxxxxxxxxxxxxxxxx
        spec_parse_add_sub_imm_with_tags(raw)
    } else if raw & 0x1f80_0000 == 0x1200_0000 {
        // xxx_100_100_xxxxxxxxxxxxxxxxxxxxxxx
        spec_parse_logical_imm(raw)
    } else if raw & 0x1f80_0000 == 0x1280_0000 {
        // xxx_100_101_xxxxxxxxxxxxxxxxxxxxxxx
        spec_parse_move_wide_imm(raw)
    } else if raw & 0x1f80_0000 == 0x1300_0000 {
        // xxx_100_110_xxxxxxxxxxxxxxxxxxxxxxx
        spec_parse_bitfield(raw)
    } else if raw & 0x1f80_0000 == 0x1380_0000 {
        // xxx_100_111_xxxxxxxxxxxxxxxxxxxxxxx
        spec_parse_extract(raw)
    } else {
        None
    }
}

/// Decodes the data processing (immediate) encoding group.
fn parse_aarch64_d_p_i(raw: u32) -> (r: Option<AArch64Instr>)
    ensures
        r == spec_parse_aarch64_d_p_i(raw),
{
    if raw & 0x1f00_0000 == 0x1000_0000 {
        // xxx_100_00x_xxxxxxxxxxxxxxxxxxxxxxx
        parse_pc_rel_addressing(raw)
    } else if raw & 0x1f80_0000 == 0x1100_0000 {
        // xxx_100_010_xxxxxxxxxxxxxxxxxxxxxxx
        parse_add_sub_immediate(raw)
    } else if raw & 0x1f80_0000 == 0x1180_0000 {
        // xxx_100_011_xxxxxxxxxxxxxxxxxxxxxxx
        parse_add_sub_imm_with_tags(raw)
    } else if raw & 0x1f80_0000 == 0x1200_0000 {
        // xxx_100_100_xxxxxxxxxxxxxxxxxxxxxxx
        parse_logical_imm(raw)
    } else if raw & 0x1f80_0000 == 0x1280_0000 {
        // xxx_100_101_xxxxxxxxxxxxxxxxxxxxxxx
        parse_move_wide_imm(raw)
    } else if raw & 0x1f80_0000 == 0x1300_0000 {
        // xxx_100_110_xxxxxxxxxxxxxxxxxxxxxxx
        parse_bitfield(raw)
    } else if raw & 0x1f80_0000 == 0x1380_0000 {
        // xxx_100_111_xxxxxxxxxxxxxxxxxxxxxxx
        parse_extract(raw)
    } else {
        None
    }
}

/// What the data processing (register) encoding group decodes to.
pub open spec fn spec_parse_aarch64_d_p_r(raw: u32) -> Option<AArch64Instr> {
    if raw & 0x5fe0_0000 == 0x1ac0_0000 {
        // x_0_x_1_101_0110_xxxxx_xxxxxx_xxxxxxxxxx
        spec_parse_data_proc_2src(raw)
    } else if raw & 0x5fe0_0000 == 0x5ac0_0000 {
        // x_1_x_1_101_0110_xxxxx_xxxxxx_xxxxxxxxxx
        spec_parse_data_proc_1src(raw)
    } else if raw & 0x1f00_0000 == 0x0a00_0000 {
        // x_x_x_0_101_0xxx_xxxxx_xxxxxx_xxxxxxxxxx
        spec_parse_logical_shifted_register(raw)
    } else if raw & 0x1f20_0000 == 0x0b00_0000 {
        // x_x_x_0_101_1xx0_xxxxx_xxxxxx_xxxxxxxxxx
        spec_parse_add_sub_shifted_reg(raw)
    } else if raw & 0x1f20_0000 == 0x0b20_0000 {
        // x_x_x_0_101_1xx1_xxxxx_xxxxxx_xxxxxxxxxx
        spec_parse_add_sub_ext_reg(raw)
    } else if raw & 0x1fe0_fc00 == 0x1a00_0000 {
        // x_x_x_1_101_0000_xxxxx_000000_xxxxxxxxxx
        spec_parse_add_sub_with_carry(raw)
    } else if raw & 0x1fe0_7c00 == 0x1a00_0400 {
        // x_x_x_1_101_0000_xxxxx_x00001_xxxxxxxxxx
        spec_parse_rot_right_into_flags(raw)
    } else if raw & 0x1fe0_3c00 == 0x1a00_0800 {
        // x_x_x_1_101_0000_xxxxx_xx0010_xxxxxxxxxx
        spec_parse_eval_into_flags(raw)
    } else if raw & 0x1fe0_0800 == 0x1a40_0000 {
        // x_x_x_1_101_0010_xxxxx_xxxx0x_xxxxxxxxxx
        spec_parse_cond_compare_reg(raw)
    } else if raw & 0x1fe0_0800 == 0x1a40_0800 {
        // x_x_x_1_101_0010_xxxxx_xxxx1x_xxxxxxxxxx
        spec_parse_cond_compare_imm(raw)
    } else if raw & 0x1fe0_0000 == 0x1a80_0000 {
        // x_x_x_1_101_0100_xxxxx_xxxxxx_xxxxxxxxxx
        spec_parse_cond_sel(raw)
    } else if raw & 0x1f00_0000 == 0x1b00_0000 {
        // x_x_x_1_101_1xxx_xxxxx_xxxxxx_xxxxxxxxxx
        spec_parse_data_proccessing_3src(raw)
    } else {
        None
    }
}

/// Decodes the data processing (register) encoding group.
fn parse_aarch64_d_p_r(raw: u32) -> (r: Option<AArch64Instr>)
    ensures
        r == spec_parse_aarch64_d_p_r(raw),
{
    if raw & 0x5fe0_0000 == 0x1ac0_0000 {
        // x_0_x_1_101_0110_xxxxx_xxxxxx_xxxxxxxxxx
        parse_data_proc_2src(raw)
    } else if raw & 0x5fe0_0000 == 0x5ac0_0000 {
        // x_1_x_1_101_0110_xxxxx_xxxxxx_xxxxxxxxxx
        parse_data_proc_1src(raw)
    } else if raw & 0x1f00_0000 == 0x0a00_0000 {
        // x_x_x_0_101_0xxx_xxxxx_xxxxxx_xxxxxxxxxx
        parse_logical_shifted_register(raw)
    } else if raw & 0x1f20_0000 == 0x0b00_0000 {
        // x_x_x_0_101_1xx0_xxxxx_xxxxxx_xxxxxxxxxx
        parse_add_sub_shifted_reg(raw)
    } else if raw & 0x1f20_0000 == 0x0b20_0000 {
        // x_x_x_0_101_1xx1_xxxxx_xxxxxx_xxxxxxxxxx
        parse_add_sub_ext_reg(raw)
    } else if raw & 0x1fe0_fc00 == 0x1a00_0000 {
        // x_x_x_1_101_0000_xxxxx_000000_xxxxxxxxxx
        parse_add_sub_with_carry(raw)
    } else if raw & 0x1fe0_7c00 == 0x1a00_0400 {
        // x_x_x_1_101_0000_xxxxx_x00001_xxxxxxxxxx
        parse_rot_right_into_flags(raw)
    } else if raw & 0x1fe0_3c00 == 0x1a00_0800 {
        // x_x_x_1_101_0000_xxxxx_xx0010_xxxxxxxxxx
        parse_eval_into_flags(raw)
    } else if raw & 0x1fe0_0800 == 0x1a40_0000 {
        // x_x_x_1_101_0010_xxxxx_xxxx0x_xxxxxxxxxx
        parse_cond_compare_reg(raw)
    } else if raw & 0x1fe0_0800 == 0x1a40_0800 {
        // x_x_x_1_101_0010_xxxxx_xxxx1x_xxxxxxxxxx
        parse_cond_compare_imm(raw)
    } else if raw & 0x1fe0_0000 == 0x1a80_0000 {
        // x_x_x_1_101_0100_xxxxx_xxxxxx_xxxxxxxxxx
        parse_cond_sel(raw)
    } else if raw & 0x1f00_0000 == 0x1b00_0000 {
        // x_x_x_1_101_1xxx_xxxxx_xxxxxx_xxxxxxxxxx
        parse_data_proccessing_3src(raw)
    } else {
        None
    }
}

/// What the data processing (scalar floating-point and Advanced SIMD) encoding group decodes to.
pub open spec fn spec_parse_aarch64_dp_sfp_adv_simd(raw: u32) -> Option<AArch64Instr> {
    if raw & 0xf13e_0c00 == 0x4028_0800 {
        // 0100_xxx_0x_x101_00xxxxx10_xxxxxxxxxx
        // Cryptographic AES
        None
    } else if raw & 0xf120_8c00 == 0x5000_0000 {
        // 0101_xxx_0x_x0xx_xxx0xxx00_xxxxxxxxxx
        // Cryptographic three-register SHA
        None
    } else if raw & 0xf13e_0c00 == 0x5028_0800 {
        // 0101_xxx_0x_x101_00xxxxx10_xxxxxxxxxx
        // Cryptographic two-register SHA
        None
    } else if raw & 0xd1e0_8400 == 0x5000_0400 {
        // 01x1_xxx_00_00xx_xxx0xxxx1_xxxxxxxxxx
        // Advanced SIMD scalar copy
        None
    } else if raw & 0xd160_c400 == 0x5040_0400 {
        // 01x1_xxx_0x_10xx_xxx00xxx1_xxxxxxxxxx
        // Advanced SIMD scalar three same FP16
        None
    } else if raw & 0xd17e_0c00 == 0x5078_0800 {
        // 01x1_xxx_0x_1111_00xxxxx10_xxxxxxxxxx
        // Advanced SIMD scalar two-register miscellaneous FP16
        None
    } else if raw & 0xd120_8400 == 0x5000_8400 {
        // 01x1_xxx_0x_x0xx_xxx1xxxx1_xxxxxxxxxx
        // Advanced SIMD scalar three same extra
        None
    } else if raw & 0xd13e_0c00 == 0x5020_0800 {
        // 01x1_xxx_0x_x100_00xxxxx10_xxxxxxxxxx
        // Advanced SIMD scalar two-register miscellaneous
        None
    } else if raw & 0xd13e_0c00 == 0x5030_0800 {
        // 01x1_xxx_0x_x110_00xxxxx10_xxxxxxxxxx
        spec_parse_adv_simd_scalar_pairwise(raw)
    } else if raw & 0xd120_0c00 == 0x5020_0000 {
        // 01x1_xxx_0x_x1xx_xxxxxxx00_xxxxxxxxxx
        // Advanced SIMD scalar three different
        None
    } else if raw & 0xd120_0400 == 0x5020_0400 {
        // 01x1_xxx_0x_x1xx_xxxxxxxx1_xxxxxxxxxx
        // Advanced SIMD scalar three same
        None
    } else if raw & 0xd180_0400 == 0x5100_0400 {
        // 01x1_xxx_10_xxxx_xxxxxxxx1_xxxxxxxxxx
        // Advanced SIMD scalar shifted by immediate
        None
    } else if raw & 0xd100_0400 == 0x5100_0000 {
        // 01x1_xxx_1x_xxxx_xxxxxxxx0_xxxxxxxxxx
        spec_parse_adv_simd_scalar_x_indexed_elem(raw)
    } else if raw & 0xb120_8c00 == 0x0000_0000 {
        // 0x00_xxx_0x_x0xx_xxx0xxx00_xxxxxxxxxx
        // Advanced SIMD table lookup
        None
    } else if raw & 0xb120_8c00 == 0x0000_0800 {
        // 0x00_xxx_0x_x0xx_xxx0xxx10_xxxxxxxxxx
        spec_parse_advanced_simd_permute(raw)
    } else if raw & 0xb120_8400 == 0x2000_0000 {
        // 0x10_xxx_0x_x0xx_xxx0xxxx0_xxxxxxxxxx
        spec_parse_advanced_simd_extract(raw)
    } else if raw & 0x91e0_8400 == 0x0000_0400 {
        // 0xx0_xxx_00_00xx_xxx0xxxx1_xxxxxxxxxx
        spec_parse_advanced_simd_copy(raw)
    } else if raw & 0x9160_c400 == 0x0040_0400 {
        // 0xx0_xxx_0x_10xx_xxx00xxx1_xxxxxxxxxx
        // Advanced SIMD three same (FP16)
        None
    } else if raw & 0x917e_0c00 == 0x0078_0800 {
        // 0xx0_xxx_0x_1111_00xxxxx10_xxxxxxxxxx
        // Advanced SIMD two-register miscellaneous (FP16)
        None
    } else if raw & 0x9120_8400 == 0x0000_8400 {
        // 0xx0_xxx_0x_x0xx_xxx1xxxx1_xxxxxxxxxx
        // Advanced SIMD three-register extension
        None
    } else if raw & 0x913e_0c00 == 0x0020_0800 {
        // 0xx0_xxx_0x_x100_00xxxxx10_xxxxxxxxxx
        spec_parse_adv_simd_2reg_miscellaneous(raw)
    } else if raw & 0x913e_0c00 == 0x0030_0800 {
        // 0xx0_xxx_0x_x110_00xxxxx10_xxxxxxxxxx
        spec_parse_adv_simd_across_lanes(raw)
    } else if raw & 0x9120_0c00 == 0x0020_0000 {
        // 0xx0_xxx_0x_x1xx_xxxxxxx00_xxxxxxxxxx
        // Advanced SIMD three different
        None
    } else if raw & 0x9120_0400 == 0x0020_0400 {
        // 0xx0_xxx_0x_x1xx_xxxxxxxx1_xxxxxxxxxx
        spec_parse_advanced_simd_three_same(raw)
    } else if raw & 0x9180_0400 == 0x0100_0400 {
        // 0xx0_xxx_10_xxxx_xxxxxxxx1_xxxxxxxxxx
        let op2 = field_u8(raw, 19, 23);
        if op2 == 0b0000 {
            spec_parse_adv_simd_modified_imm(raw)
        } else {
            spec_parse_adv_simd_shift_by_imm(raw)
        }
    } else if raw & 0x9100_0400 == 0x0100_0000 {
        // 0xx0_xxx_1x_xxxx_xxxxxxxx0_xxxxxxxxxx
        spec_parse_adv_simd_vec_x_indexed_elem(raw)
    } else if raw & 0xf1e0_c000 == 0xc040_8000 {
        // 1100_xxx_00_10xx_xxx10xxxx_xxxxxxxxxx
        // Cryptographic three-register, imm2
        None
    } else if raw & 0xf1e0_b000 == 0xc060_8000 {
        // 1100_xxx_00_11xx_xxx1x00xx_xxxxxxxxxx
        // Cryptographic three-reigster SHA 512
        None
    } else if raw & 0xf180_8000 == 0xc000_0000 {
        // 1100_xxx_00_xxxx_xxx0xxxxx_xxxxxxxxxx
        // Cryptographic four-register
        None
    } else if raw & 0xf1e0_0000 == 0xc080_0000 {
        // 1100_xxx_01_00xx_xxxxxxxxx_xxxxxxxxxx
        // XAR
        None
    } else if raw & 0xf1ff_f000 == 0xc0c0_8000 {
        // 1100_xxx_01_1000_0001000xx_xxxxxxxxxx
        // Cryptographic two-register SHA 512
        None
    } else if raw & 0x5120_0000 == 0x1000_0000 {
        // x0x1_xxx_0x_x0xx_xxxxxxxxx_xxxxxxxxxx
        spec_parse_conv_between_float_and_fixed_point(raw)
    } else if raw & 0x5120_fc00 == 0x1020_0000 {
        // x0x1_xxx_0x_x1xx_xxx000000_xxxxxxxxxx
        spec_parse_conv_between_float_and_int(raw)
    } else if raw & 0x5120_7c00 == 0x1020_4000 {
        // x0x1_xxx_0x_x1xx_xxxx10000_xxxxxxxxxx
        spec_parse_float_data_proc_1src(raw)
    } else if raw & 0x5120_3c00 == 0x1020_2000 {
        // x0x1_xxx_0x_x1xx_xxxxx1000_xxxxxxxxxx
        spec_parse_floating_point_compare(raw)
    } else if raw & 0x5120_1c00 == 0x1020_1000 {
        // x0x1_xxx_0x_x1xx_xxxxxx100_xxxxxxxxxx
        spec_parse_floating_point_immediate(raw)
    } else if raw & 0x5120_0c00 == 0x1020_0400 {
        // x0x1_xxx_0x_x1xx_xxxxxxx01_xxxxxxxxxx
        // Floating-point conditional compare
        None
    } else if raw & 0x5120_0c00 == 0x1020_0800 {
        // x0x1_xxx_0x_x1xx_xxxxxxx10_xxxxxxxxxx
        spec_parse_float_data_proc_2src(raw)
    } else if raw & 0x5120_0c00 == 0x1020_0c00 {
        // x0x1_xxx_0x_x1xx_xxxxxxx11_xxxxxxxxxx
        spec_parse_floating_point_conditional_select(raw)
    } else if raw & 0x5100_0000 == 0x1100_0000 {
        // x0x1_xxx_1x_xxxx_xxxxxxxxx_xxxxxxxxxx
        spec_parse_fp_data_processing_3src(raw)
    } else {
        None
    }
}

/// Decodes the data processing (scalar floating-point and Advanced SIMD) encoding group.
fn parse_aarch64_dp_sfp_adv_simd(raw: u32) -> (r: Option<AArch64Instr>)
    ensures
        r == spec_parse_aarch64_dp_sfp_adv_simd(raw),
{
    if raw & 0xf13e_0c00 == 0x4028_0800 {
        // 0100_xxx_0x_x101_00xxxxx10_xxxxxxxxxx
        // Cryptographic AES
        None
    } else if raw & 0xf120_8c00 == 0x5000_0000 {
        // 0101_xxx_0x_x0xx_xxx0xxx00_xxxxxxxxxx
        // Cryptographic three-register SHA
        None
    } else if raw & 0xf13e_0c00 == 0x5028_0800 {
        // 0101_xxx_0x_x101_00xxxxx10_xxxxxxxxxx
        // Cryptographic two-register SHA
        None
    } else if raw & 0xd1e0_8400 == 0x5000_0400 {
        // 01x1_xxx_00_00xx_xxx0xxxx1_xxxxxxxxxx
        // Advanced SIMD scalar copy
        None
    } else if raw & 0xd160_c400 == 0x5040_0400 {
        // 01x1_xxx_0x_10xx_xxx00xxx1_xxxxxxxxxx
        // Advanced SIMD scalar three same FP16
        None
    } else if raw & 0xd17e_0c00 == 0x5078_0800 {
        // 01x1_xxx_0x_1111_00xxxxx10_xxxxxxxxxx
        // Advanced SIMD scalar two-register miscellaneous FP16
        None
    } else if raw & 0xd120_8400 == 0x5000_8400 {
        // 01x1_xxx_0x_x0xx_xxx1xxxx1_xxxxxxxxxx
        // Advanced SIMD scalar three same extra
        None
    } else if raw & 0xd13e_0c00 == 0x5020_0800 {
        // 01x1_xxx_0x_x100_00xxxxx10_xxxxxxxxxx
        // Advanced SIMD scalar two-register miscellaneous
        None
    } else if raw & 0xd13e_0c00 == 0x5030_0800 {
        // 01x1_xxx_0x_x110_00xxxxx10_xxxxxxxxxx
        parse_adv_simd_scalar_pairwise(raw)
    } else if raw & 0xd120_0c00 == 0x5020_0000 {
        // 01x1_xxx_0x_x1xx_xxxxxxx00_xxxxxxxxxx
        // Advanced SIMD scalar three different
        None
    } else if raw & 0xd120_0400 == 0x5020_0400 {
        // 01x1_xxx_0x_x1xx_xxxxxxxx1_xxxxxxxxxx
        // Advanced SIMD scalar three same
        None
    } else if raw & 0xd180_0400 == 0x5100_0400 {
        // 01x1_xxx_10_xxxx_xxxxxxxx1_xxxxxxxxxx
        // Advanced SIMD scalar shifted by immediate
        None
    } else if raw & 0xd100_0400 == 0x5100_0000 {
        // 01x1_xxx_1x_xxxx_xxxxxxxx0_xxxxxxxxxx
        parse_adv_simd_scalar_x_indexed_elem(raw)
    } else if raw & 0xb120_8c00 == 0x0000_0000 {
        // 0x00_xxx_0x_x0xx_xxx0xxx00_xxxxxxxxxx
        // Advanced SIMD table lookup
        None
    } else if raw & 0xb120_8c00 == 0x0000_0800 {
        // 0x00_xxx_0x_x0xx_xxx0xxx10_xxxxxxxxxx
        parse_advanced_simd_permute(raw)
    } else if raw & 0xb120_8400 == 0x2000_0000 {
        // 0x10_xxx_0x_x0xx_xxx0xxxx0_xxxxxxxxxx
        parse_advanced_simd_extract(raw)
    } else if raw & 0x91e0_8400 == 0x0000_0400 {
        // 0xx0_xxx_00_00xx_xxx0xxxx1_xxxxxxxxxx
        parse_advanced_simd_copy(raw)
    } else if raw & 0x9160_c400 == 0x0040_0400 {
        // 0xx0_xxx_0x_10xx_xxx00xxx1_xxxxxxxxxx
        // Advanced SIMD three same (FP16)
        None
    } else if raw & 0x917e_0c00 == 0x0078_0800 {
        // 0xx0_xxx_0x_1111_00xxxxx10_xxxxxxxxxx
        // Advanced SIMD two-register miscellaneous (FP16)
        None
    } else if raw & 0x9120_8400 == 0x0000_8400 {
        // 0xx0_xxx_0x_x0xx_xxx1xxxx1_xxxxxxxxxx
        // Advanced SIMD three-register extension
        None
    } else if raw & 0x913e_0c00 == 0x0020_0800 {
        // 0xx0_xxx_0x_x100_00xxxxx10_xxxxxxxxxx
        parse_adv_simd_2reg_miscellaneous(raw)
    } else if raw & 0x913e_0c00 == 0x0030_0800 {
        // 0xx0_xxx_0x_x110_00xxxxx10_xxxxxxxxxx
        parse_adv_simd_across_lanes(raw)
    } else if raw & 0x9120_0c00 == 0x0020_0000 {
        // 0xx0_xxx_0x_x1xx_xxxxxxx00_xxxxxxxxxx
        // Advanced SIMD three different
        None
    } else if raw & 0x9120_0400 == 0x0020_0400 {
        // 0xx0_xxx_0x_x1xx_xxxxxxxx1_xxxxxxxxxx
        parse_advanced_simd_three_same(raw)
    } else if raw & 0x9180_0400 == 0x0100_0400 {
        // 0xx0_xxx_10_xxxx_xxxxxxxx1_xxxxxxxxxx
        let op2 = extract_u8(19..23, raw);
        if op2 == 0b0000 {
            parse_adv_simd_modified_imm(raw)
        } else {
            parse_adv_simd_shift_by_imm(raw)
        }
    } else if raw & 0x9100_0400 == 0x0100_0000 {
        // 0xx0_xxx_1x_xxxx_xxxxxxxx0_xxxxxxxxxx
        parse_adv_simd_vec_x_indexed_elem(raw)
    } else if raw & 0xf1e0_c000 == 0xc040_8000 {
        // 1100_xxx_00_10xx_xxx10xxxx_xxxxxxxxxx
        // Cryptographic three-register, imm2
        None
    } else if raw & 0xf1e0_b000 == 0xc060_8000 {
        // 1100_xxx_00_11xx_xxx1x00xx_xxxxxxxxxx
        // Cryptographic three-reigster SHA 512
        None
    } else if raw & 0xf180_8000 == 0xc000_0000 {
        // 1100_xxx_00_xxxx_xxx0xxxxx_xxxxxxxxxx
        // Cryptographic four-register
        None
    } else if raw & 0xf1e0_0000 == 0xc080_0000 {
        // 1100_xxx_01_00xx_xxxxxxxxx_xxxxxxxxxx
        // XAR
        None
    } else if raw & 0xf1ff_f000 == 0xc0c0_8000 {
        // 1100_xxx_01_1000_0001000xx_xxxxxxxxxx
        // Cryptographic two-register SHA 512
        None
    } else if raw & 0x5120_0000 == 0x1000_0000 {
        // x0x1_xxx_0x_x0xx_xxxxxxxxx_xxxxxxxxxx
        parse_conv_between_float_and_fixed_point(raw)
    } else if raw & 0x5120_fc00 == 0x1020_0000 {
        // x0x1_xxx_0x_x1xx_xxx000000_xxxxxxxxxx
        parse_conv_between_float_and_int(raw)
    } else if raw & 0x5120_7c00 == 0x1020_4000 {
        // x0x1_xxx_0x_x1xx_xxxx10000_xxxxxxxxxx
        parse_float_data_proc_1src(raw)
    } else if raw & 0x5120_3c00 == 0x1020_2000 {
        // x0x1_xxx_0x_x1xx_xxxxx1000_xxxxxxxxxx
        parse_floating_point_compare(raw)
    } else if raw & 0x5120_1c00 == 0x1020_1000 {
        // x0x1_xxx_0x_x1xx_xxxxxx100_xxxxxxxxxx
        parse_floating_point_immediate(raw)
    } else if raw & 0x5120_0c00 == 0x1020_0400 {
        // x0x1_xxx_0x_x1xx_xxxxxxx01_xxxxxxxxxx
        // Floating-point conditional compare
        None
    } else if raw & 0x5120_0c00 == 0x1020_0800 {
        // x0x1_xxx_0x_x1xx_xxxxxxx10_xxxxxxxxxx
        parse_float_data_proc_2src(raw)
    } else if raw & 0x5120_0c00 == 0x1020_0c00 {
        // x0x1_xxx_0x_x1xx_xxxxxxx11_xxxxxxxxxx
        parse_floating_point_conditional_select(raw)
    } else if raw & 0x5100_0000 == 0x1100_0000 {
        // x0x1_xxx_1x_xxxx_xxxxxxxxx_xxxxxxxxxx
        parse_fp_data_processing_3src(raw)
    } else {
        None
    }
}

/// What the loads and stores encoding group decodes to.
pub open spec fn spec_parse_aarch64_load_and_stores(raw: u32) -> Option<AArch64Instr> {
    if raw & 0xbfa0_0000 == 0x0820_0000 {
        // 0x00_1_0_0_00_x_1xxxxx_xxxx_xx_xxxxxxxxxx
        // Compare and swap pair
        None
    } else if raw & 0xbfbf_0000 == 0x0c00_0000 {
        // 0x00_1_1_0_00_x_000000_xxxx_xx_xxxxxxxxxx
        spec_parse_adv_simd_ld_st_multi_structures(raw)
    } else if raw & 0xbfa0_0000 == 0x0c80_0000 {
        // 0x00_1_1_0_01_x_0xxxxx_xxxx_xx_xxxxxxxxxx
        spec_parse_adv_simd_ld_st_multi_structures_post_indexed(raw)
    } else if raw & 0xbf9f_0000 == 0x0d00_0000 {
        // 0x00_1_1_0_10_x_x00000_xxxx_xx_xxxxxxxxxx
        spec_parse_adv_simd_ld_st_single_structure(raw)
    } else if raw & 0xbf80_0000 == 0x0d80_0000 {
        // 0x00_1_1_0_11_x_xxxxxx_xxxx_xx_xxxxxxxxxx
        // Advanced SIMD Load/Store single structure(post-indexed)
        None
    } else if raw & 0xff20_0000 == 0xd920_0000 {
        // 1101_1_0_0_1x_x_1xxxxx_xxxx_xx_xxxxxxxxxx
        // Load/store memory tags
        None
    } else if raw & 0xbfa0_0000 == 0x8820_0000 {
        // 1x00_1_0_0_00_x_1xxxxx_xxxx_xx_xxxxxxxxxx
        // Load/store exclusive pair
        None
    } else if raw & 0x3fa0_0000 == 0x0800_0000 {
        // xx00_1_0_0_00_x_0xxxxx_xxxx_xx_xxxxxxxxxx
        spec_parse_load_store_exclusive_register(raw)
    } else if raw & 0x3fa0_0000 == 0x0880_0000 {
        // xx00_1_0_0_01_x_0xxxxx_xxxx_xx_xxxxxxxxxx
        spec_parse_load_store_ordered(raw)
    } else if raw & 0x3fa0_0000 == 0x08a0_0000 {
        // xx00_1_0_0_01_x_1xxxxx_xxxx_xx_xxxxxxxxxx
        spec_parse_compare_and_swap(raw)
    } else if raw & 0x3f20_0c00 == 0x1900_0000 {
        // xx01_1_0_0_1x_x_0xxxxx_xxxx_00_xxxxxxxxxx
        // LDAPR/STLR(unscaled immediate)
        None
    } else if raw & 0x3b00_0000 == 0x1800_0000 {
        // xx01_1_x_0_0x_x_xxxxxx_xxxx_xx_xxxxxxxxxx
        spec_parse_load_register_literal(raw)
    } else if raw & 0x3b20_0c00 == 0x1900_0400 {
        // xx01_1_x_0_1x_x_0xxxxx_xxxx_01_xxxxxxxxxx
        // Memory Copy and Memory Set
        None
    } else if raw & 0x3b80_0000 == 0x2800_0000 {
        // xx10_1_x_0_00_x_xxxxxx_xxxx_xx_xxxxxxxxxx
        // Load/Store no allocate pair (offset)
        None
    } else if raw & 0x3b80_0000 == 0x2880_0000 {
        // xx10_1_x_0_01_x_xxxxxx_xxxx_xx_xxxxxxxxxx
        spec_parse_load_store_reg_pair_post_indexed(raw)
    } else if raw & 0x3b80_0000 == 0x2900_0000 {
        // xx10_1_x_0_10_x_xxxxxx_xxxx_xx_xxxxxxxxxx
        spec_parse_load_store_reg_pair_offset(raw)
    } else if raw & 0x3b80_0000 == 0x2980_0000 {
        // xx10_1_x_0_11_x_xxxxxx_xxxx_xx_xxxxxxxxxx
        spec_parse_load_store_reg_pair_pre_indexed(raw)
    } else if raw & 0x3b20_0c00 == 0x3800_0000 {
        // xx11_1_x_0_0x_x_0xxxxx_xxxx_00_xxxxxxxxxx
        spec_parse_load_store_reg_unscaled_imm(raw)
    } else if raw & 0x3b20_0c00 == 0x3800_0400 {
        // xx11_1_x_0_0x_x_0xxxxx_xxxx_01_xxxxxxxxxx
        spec_parse_load_store_reg_imm_post_indexed(raw)
    } else if raw & 0x3b20_0c00 == 0x3800_0800 {
        // xx11_1_x_0_0x_x_0xxxxx_xxxx_10_xxxxxxxxxx
        // Load/Store register (unprevilaged)
        None
    } else if raw & 0x3b20_0c00 == 0x3800_0c00 {
        // xx11_1_x_0_0x_x_0xxxxx_xxxx_11_xxxxxxxxxx
        spec_parse_load_store_reg_imm_pre_indexed(raw)
    } else if raw & 0x3b20_0c00 == 0x3820_0000 {
        // xx11_1_x_0_0x_x_1xxxxx_xxxx_00_xxxxxxxxxx
        spec_parse_atomic_memory_operations(raw)
    } else if raw & 0x3b20_0c00 == 0x3820_0800 {
        // xx11_1_x_0_0x_x_1xxxxx_xxxx_10_xxxxxxxxxx
        spec_parse_load_store_reg_reg_offset(raw)
    } else if raw & 0x3b20_0400 == 0x3820_0400 {
        // xx11_1_x_0_0x_x_1xxxxx_xxxx_x1_xxxxxxxxxx
        // Load/Store register (pac)
        None
    } else if raw & 0x3b00_0000 == 0x3900_0000 {
        // xx11_1_x_0_1x_x_xxxxxx_xxxx_xx_xxxxxxxxxx
        spec_parse_load_store_reg_unsigned_imm(raw)
    } else {
        None
    }
}

/// Decodes the loads and stores encoding group.
fn parse_aarch64_load_and_stores(raw: u32) -> (r: Option<AArch64Instr>)
    ensures
        r == spec_parse_aarch64_load_and_stores(raw),
{
    if raw & 0xbfa0_0000 == 0x0820_0000 {
        // 0x00_1_0_0_00_x_1xxxxx_xxxx_xx_xxxxxxxxxx
        // Compare and swap pair
        None
    } else if raw & 0xbfbf_0000 == 0x0c00_0000 {
        // 0x00_1_1_0_00_x_000000_xxxx_xx_xxxxxxxxxx
        parse_adv_simd_ld_st_multi_structures(raw)
    } else if raw & 0xbfa0_0000 == 0x0c80_0000 {
        // 0x00_1_1_0_01_x_0xxxxx_xxxx_xx_xxxxxxxxxx
        parse_adv_simd_ld_st_multi_structures_post_indexed(raw)
    } else if raw & 0xbf9f_0000 == 0x0d00_0000 {
        // 0x00_1_1_0_10_x_x00000_xxxx_xx_xxxxxxxxxx
        parse_adv_simd_ld_st_single_structure(raw)
    } else if raw & 0xbf80_0000 == 0x0d80_0000 {
        // 0x00_1_1_0_11_x_xxxxxx_xxxx_xx_xxxxxxxxxx
        // Advanced SIMD Load/Store single structure(post-indexed)
        None
    } else if raw & 0xff20_0000 == 0xd920_0000 {
        // 1101_1_0_0_1x_x_1xxxxx_xxxx_xx_xxxxxxxxxx
        // Load/store memory tags
        None
    } else if raw & 0xbfa0_0000 == 0x8820_0000 {
        // 1x00_1_0_0_00_x_1xxxxx_xxxx_xx_xxxxxxxxxx
        // Load/store exclusive pair
        None
    } else if raw & 0x3fa0_0000 == 0x0800_0000 {
        // xx00_1_0_0_00_x_0xxxxx_xxxx_xx_xxxxxxxxxx
        parse_load_store_exclusive_register(raw)
    } else if raw & 0x3fa0_0000 == 0x0880_0000 {
        // xx00_1_0_0_01_x_0xxxxx_xxxx_xx_xxxxxxxxxx
        parse_load_store_ordered(raw)
    } else if raw & 0x3fa0_0000 == 0x08a0_0000 {
        // xx00_1_0_0_01_x_1xxxxx_xxxx_xx_xxxxxxxxxx
        parse_compare_and_swap(raw)
    } else if raw & 0x3f20_0c00 == 0x1900_0000 {
        // xx01_1_0_0_1x_x_0xxxxx_xxxx_00_xxxxxxxxxx
        // LDAPR/STLR(unscaled immediate)
        None
    } else if raw & 0x3b00_0000 == 0x1800_0000 {
        // xx01_1_x_0_0x_x_xxxxxx_xxxx_xx_xxxxxxxxxx
        parse_load_register_literal(raw)
    } else if raw & 0x3b20_0c00 == 0x1900_0400 {
        // xx01_1_x_0_1x_x_0xxxxx_xxxx_01_xxxxxxxxxx
        // Memory Copy and Memory Set
        None
    } else if raw & 0x3b80_0000 == 0x2800_0000 {
        // xx10_1_x_0_00_x_xxxxxx_xxxx_xx_xxxxxxxxxx
        // Load/Store no allocate pair (offset)
        None
    } else if raw & 0x3b80_0000 == 0x2880_0000 {
        // xx10_1_x_0_01_x_xxxxxx_xxxx_xx_xxxxxxxxxx
        parse_load_store_reg_pair_post_indexed(raw)
    } else if raw & 0x3b80_0000 == 0x2900_0000 {
        // xx10_1_x_0_10_x_xxxxxx_xxxx_xx_xxxxxxxxxx
        parse_load_store_reg_pair_offset(raw)
    } else if raw & 0x3b80_0000 == 0x2980_0000 {
        // xx10_1_x_0_11_x_xxxxxx_xxxx_xx_xxxxxxxxxx
        parse_load_store_reg_pair_pre_indexed(raw)
    } else if raw & 0x3b20_0c00 == 0x3800_0000 {
        // xx11_1_x_0_0x_x_0xxxxx_xxxx_00_xxxxxxxxxx
        parse_load_store_reg_unscaled_imm(raw)
    } else if raw & 0x3b20_0c00 == 0x3800_0400 {
        // xx11_1_x_0_0x_x_0xxxxx_xxxx_01_xxxxxxxxxx
        parse_load_store_reg_imm_post_indexed(raw)
    } else if raw & 0x3b20_0c00 == 0x3800_0800 {
        // xx11_1_x_0_0x_x_0xxxxx_xxxx_10_xxxxxxxxxx
        // Load/Store register (unprevilaged)
        None
    } else if raw & 0x3b20_0c00 == 0x3800_0c00 {
        // xx11_1_x_0_0x_x_0xxxxx_xxxx_11_xxxxxxxxxx
        parse_load_store_reg_imm_pre_indexed(raw)
    } else if raw & 0x3b20_0c00 == 0x3820_0000 {
        // xx11_1_x_0_0x_x_1xxxxx_xxxx_00_xxxxxxxxxx
        parse_atomic_memory_operations(raw)
    } else if raw & 0x3b20_0c00 == 0x3820_0800 {
        // xx11_1_x_0_0x_x_1xxxxx_xxxx_10_xxxxxxxxxx
        parse_load_store_reg_reg_offset(raw)
    } else if raw & 0x3b20_0400 == 0x3820_0400 {
        // xx11_1_x_0_0x_x_1xxxxx_xxxx_x1_xxxxxxxxxx
        // Load/Store register (pac)
        None
    } else if raw & 0x3b00_0000 == 0x3900_0000 {
        // xx11_1_x_0_1x_x_xxxxxx_xxxx_xx_xxxxxxxxxx
        parse_load_store_reg_unsigned_imm(raw)
    } else {
        None
    }
}

/// What the branches, exception generating and system instructions encoding group decodes to.
pub open spec fn spec_parse_aarch64_branches_exception_gen_and_sys_instr(raw: u32) -> Option<AArch64Instr> {
    if raw & 0xfe00_0000 == 0x5400_0000 {
        // 010_101_0xxxxxxxxxxxxx_xxxxxxx_xxxxx
        spec_parse_cond_branch_imm(raw)
    } else if raw & 0xff00_0000 == 0xd400_0000 {
        // 110_101_00xxxxxxxxxxxx_xxxxxxx_xxxxx
        spec_parse_exception_gen(raw)
    } else if raw & 0xffff_f000 == 0xd503_1000 {
        // 110_101_01000000110001_xxxxxxx_xxxxx
        spec_parse_sys_instr_with_reg_arg(raw)
    } else if raw & 0xffff_f01f == 0xd503_201f {
        // 110_101_01000000110010_xxxxxxx_11111
        spec_parse_hints(raw)
    } else if raw & 0xffff_f000 == 0xd503_3000 {
        // 110_101_01000000110011_xxxxxxx_xxxxx
        spec_parse_barriers(raw)
    } else if raw & 0xfff8_f000 == 0xd500_4000 {
        // 110_101_0100000xxx0100_xxxxxxx_xxxxx
        spec_parse_pstate(raw)
    } else if raw & 0xfff8_0000 == 0xd520_0000 {
        // 110_101_0100100xxxxxxx_xxxxxxx_xxxxx
        spec_parse_sys_with_result(raw)
    } else if raw & 0xffd8_0000 == 0xd508_0000 {
        // 110_101_0100x01xxxxxxx_xxxxxxx_xxxxx
        spec_parse_sys_instr(raw)
    } else if raw & 0xffd0_0000 == 0xd510_0000 {
        // 110_101_0100x1xxxxxxxx_xxxxxxx_xxxxx
        spec_parse_sys_reg_mov(raw)
    } else if raw & 0xfe00_0000 == 0xd600_0000 {
        // 110_101_1xxxxxxxxxxxxx_xxxxxxx_xxxxx
        spec_parse_uncond_branch_reg(raw)
    } else if raw & 0x7c00_0000 == 0x1400_0000 {
        // x00_101_xxxxxxxxxxxxxx_xxxxxxx_xxxxx
        spec_parse_uncond_branch_imm(raw)
    } else if raw & 0x7e00_0000 == 0x3400_0000 {
        // x01_101_0xxxxxxxxxxxxx_xxxxxxx_xxxxx
        spec_parse_compare_and_branch_imm(raw)
    } else if raw & 0x7e00_0000 == 0x3600_0000 {
        // x01_101_1xxxxxxxxxxxxx_xxxxxxx_xxxxx
        spec_parse_test_and_branch_imm(raw)
    } else {
        None
    }
}

/// Decodes the branches, exception generating and system instructions encoding group.
fn parse_aarch64_branches_exception_gen_and_sys_instr(raw: u32) -> (r: Option<AArch64Instr>)
    ensures
        r == spec_parse_aarch64_branches_exception_gen_and_sys_instr(raw),
{
    if raw & 0xfe00_0000 == 0x5400_0000 {
        // 010_101_0xxxxxxxxxxxxx_xxxxxxx_xxxxx
        parse_cond_branch_imm(raw)
    } else if raw & 0xff00_0000 == 0xd400_0000 {
        // 110_101_00xxxxxxxxxxxx_xxxxxxx_xxxxx
        parse_exception_gen(raw)
    } else if raw & 0xffff_f000 == 0xd503_1000 {
        // 110_101_01000000110001_xxxxxxx_xxxxx
        parse_sys_instr_with_reg_arg(raw)
    } else if raw & 0xffff_f01f == 0xd503_201f {
        // 110_101_01000000110010_xxxxxxx_11111
        parse_hints(raw)
    } else if raw & 0xffff_f000 == 0xd503_3000 {
        // 110_101_01000000110011_xxxxxxx_xxxxx
        parse_barriers(raw)
    } else if raw & 0xfff8_f000 == 0xd500_4000 {
        // 110_101_0100000xxx0100_xxxxxxx_xxxxx
        parse_pstate(raw)
    } else if raw & 0xfff8_0000 == 0xd520_0000 {
        // 110_101_0100100xxxxxxx_xxxxxxx_xxxxx
        parse_sys_with_result(raw)
    } else if raw & 0xffd8_0000 == 0xd508_0000 {
        // 110_101_0100x01xxxxxxx_xxxxxxx_xxxxx
        parse_sys_instr(raw)
    } else if raw & 0xffd0_0000 == 0xd510_0000 {
        // 110_101_0100x1xxxxxxxx_xxxxxxx_xxxxx
        parse_sys_reg_mov(raw)
    } else if raw & 0xfe00_0000 == 0xd600_0000 {
        // 110_101_1xxxxxxxxxxxxx_xxxxxxx_xxxxx
        parse_uncond_branch_reg(raw)
    } else if raw & 0x7c00_0000 == 0x1400_0000 {
        // x00_101_xxxxxxxxxxxxxx_xxxxxxx_xxxxx
        parse_uncond_branch_imm(raw)
    } else if raw & 0x7e00_0000 == 0x3400_0000 {
        // x01_101_0xxxxxxxxxxxxx_xxxxxxx_xxxxx
        parse_compare_and_branch_imm(raw)
    } else if raw & 0x7e00_0000 == 0x3600_0000 {
        // x01_101_1xxxxxxxxxxxxx_xxxxxxx_xxxxx
        parse_test_and_branch_imm(raw)
    } else {
        None
    }
}

/// What the add sub shifted reg encoding class decodes to.
pub open spec fn spec_parse_add_sub_shifted_reg(raw: u32) -> Option<AArch64Instr> {
    if raw & 0x1f20_0000 != 0x0b00_0000 {
        None
    } else {
        let sf_op_s = field_u8(raw, 29, 32);
        let shift = field_u8(raw, 22, 24);
        let rm = field_u8(raw, 16, 21);
        let imm6 = field_u8(raw, 10, 16);
        let rn = field_u8(raw, 5, 10);
        let rd = field_u8(raw, 0, 5);
        let data = ShiftRmImm6RnRd {
            shift,
            rm,
            rn,
            rd,
            imm6,
        };

        match (sf_op_s, shift, imm6) {
            (0b000, _, _) => Some(AArch64Instr::AddShiftedReg32(data)),
            (0b001, _, _) => Some(AArch64Instr::AddsShiftedReg32(data)),
            (0b010, _, _) => Some(AArch64Instr::SubShiftedReg32(data)),
            (0b011, _, _) => Some(AArch64Instr::SubsShiftedReg32(data)),
            (0b100, _, _) => Some(AArch64Instr::AddShiftedReg64(data)),
            (0b101, _, _) => Some(AArch64Instr::AddsShiftedReg64(data)),
            (0b110, _, _) => Some(AArch64Instr::SubShiftedReg64(data)),
            (0b111, _, _) => Some(AArch64Instr::SubsShiftedReg64(data)),

            _ => None,
        }
    }
}

/// Decodes the add sub shifted reg encoding class.
fn parse_add_sub_shifted_reg(raw: u32) -> (r: Option<AArch64Instr>)
    ensures
        r == spec_parse_add_sub_shifted_reg(raw),
{
    // xxx_01011_xx_0_xxxxxxxxxxxxxxxxxxxxx
    if raw & 0x1f20_0000 != 0x0b00_0000 {
        return None;
    }
    let sf_op_s = extract_u8(29..32, raw);
    let shift = extract_u8(22..24, raw);
    let rm = extract_u8(16..21, raw);
    let imm6 = extract_u8(10..16, raw);
    let rn = extract_u8(5..10, raw);
    let rd = extract_u8(0..5, raw);
    let data = ShiftRmImm6RnRd {
        shift,
        rm,
        rn,
        rd,
        imm6,
    };

    match (sf_op_s, shift, imm6) {
        (0b000, _, _) => Some(AArch64Instr::AddShiftedReg32(data)),
        (0b001, _, _) => Some(AArch64Instr::AddsShiftedReg32(data)),
        (0b010, _, _) => Some(AArch64Instr::SubShiftedReg32(data)),
        (0b011, _, _) => Some(AArch64Instr::SubsShiftedReg32(data)),
        (0b100, _, _) => Some(AArch64Instr::AddShiftedReg64(data)),
        (0b101, _, _) => Some(AArch64Instr::AddsShiftedReg64(data)),
        (0b110, _, _) => Some(AArch64Instr::SubShiftedReg64(data)),
        (0b111, _, _) => Some(AArch64Instr::SubsShiftedReg64(data)),

        _ => None,
    }
}

/// What the add sub immediate encoding class decodes to.
pub open spec fn spec_parse_add_sub_immediate(raw: u32) -> Option<AArch64Instr> {
    if raw & 0x1f80_0000 != 0x1100_0000 {
        None
    } else {
        let sf_op_s = field_u8(raw, 29, 32);
        let sh = field_u8(raw, 22, 23);
        let imm12 = field_u16(raw, 10, 22);
        let rn = field_u8(raw, 5, 10);
        let rd = field_u8(raw, 0, 5);
        let data = ShImm12RnRd {
            sh,
            imm12,
            rn,
            rd,
        };

        match sf_op_s {
            0b000 => Some(AArch64Instr::AddImm32(data)),
            0b001 => Some(AArch64Instr::AddsImm32(data)),
            0b010 => Some(AArch64Instr::SubImm32(data)),
            0b011 => Some(AArch64Instr::SubsImm32(data)),
            0b100 => Some(AArch64Instr::AddImm64(data)),
            0b101 => Some(AArch64Instr::AddsImm64(data)),
            0b110 => Some(AArch64Instr::SubImm64(data)),
            0b111 => Some(AArch64Instr::SubsImm64(data)),
            _ => None,
        }
    }
}

/// Decodes the add sub immediate encoding class.
fn parse_add_sub_immediate(raw: u32) -> (r: Option<AArch64Instr>)
    ensures
        r == spec_parse_add_sub_immediate(raw),
{
    // x_x_x_100010_x_xxxxxxxxxxxx_xxxxx_xxxxx
    if raw & 0x1f80_0000 != 0x1100_0000 {
        return None;
    }
    let sf_op_s = extract_u8(29..32, raw);
    let sh = extract_u8(22..23, raw);
    let imm12 = extract_u16(10..22, raw);
    let rn = extract_u8(5..10, raw);
    let rd = extract_u8(0..5, raw);
    let data = ShImm12RnRd {
        sh,
        imm12,
        rn,
        rd,
    };

    match sf_op_s {
        0b000 => Some(AArch64Instr::AddImm32(data)),
        0b001 => Some(AArch64Instr::AddsImm32(data)),
        0b010 => Some(AArch64Instr::SubImm32(data)),
        0b011 => Some(AArch64Instr::SubsImm32(data)),
        0b100 => Some(AArch64Instr::AddImm64(data)),
        0b101 => Some(AArch64Instr::AddsImm64(data)),
        0b110 => Some(AArch64Instr::SubImm64(data)),
        0b111 => Some(AArch64Instr::SubsImm64(data)),
        _ => None,
    }
}

/// What the fp data processing 3src encoding class decodes to.
pub open spec fn spec_parse_fp_data_processing_3src(raw: u32) -> Option<AArch64Instr> {
    if raw & 0x5f00_0000 != 0x1f00_0000 {
        None
    } else {
        let m = field_u8(raw, 31, 32);
        let s = field_u8(raw, 29, 30);
        let ptype = field_u8(raw, 22, 24);
        let o1 = field_u8(raw, 21, 22);
        let rm = field_u8(raw, 16, 21);
        let o0 = field_u8(raw, 15, 16);
        let ra = field_u8(raw, 10, 15);
        let rn = field_u8(raw, 5, 10);
        let rd = field_u8(raw, 0, 5);
        let data = RmRaRnRd {
            rm,
            ra,
            rn,
            rd,
        };

        match (m, s, ptype, o1, o0) {
            (0b0, 0b0, 0b00, 0b0, 0b0) => Some(AArch64Instr::FmAddSinglePrecision(data)),
            (0b0, 0b0, 0b00, 0b0, 0b1) => Some(AArch64Instr::FmSubSinglePrecision(data)),
            (0b0, 0b0, 0b00, 0b1, 0b0) => Some(AArch64Instr::FnmAddSinglePrecision(data)),
            (0b0, 0b0, 0b00, 0b1, 0b1) => Some(AArch64Instr::FnmSubSinglePrecision(data)),
            (0b0, 0b0, 0b01, 0b0, 0b0) => Some(AArch64Instr::FmAddDoublePrecision(data)),
            (0b0, 0b0, 0b01, 0b0, 0b1) => Some(AArch64Instr::FmSubDoublePrecision(data)),
            (0b0, 0b0, 0b01, 0b1, 0b0) => Some(AArch64Instr::FnmAddDoublePrecision(data)),
            (0b0, 0b0, 0b01, 0b1, 0b1) => Some(AArch64Instr::FnmSubDoublePrecision(data)),
            (0b0, 0b0, 0b11, 0b0, 0b0) => Some(AArch64Instr::FmAddHalfPrecision(data)),
            (0b0, 0b0, 0b11, 0b0, 0b1) => Some(AArch64Instr::FmSubHalfPrecision(data)),
            (0b0, 0b0, 0b11, 0b1, 0b0) => Some(AArch64Instr::FnmAddHalfPrecision(data)),
            (0b0, 0b0, 0b11, 0b1, 0b1) => Some(AArch64Instr::FnmSubHalfPrecision(data)),
            _ => None,
        }
    }
}

/// Decodes the fp data processing 3src encoding class.
fn parse_fp_data_processing_3src(raw: u32) -> (r: Option<AArch64Instr>)
    ensures
        r == spec_parse_fp_data_processing_3src(raw),
{
    // x_0_x_11111_xx_x_xxxxx_x_xxxxx_xxxxx_xxxxx
    if raw & 0x5f00_0000 != 0x1f00_0000 {
        return None;
    }
    let m = extract_u8(31..32, raw);
    let s = extract_u8(29..30, raw);
    let ptype = extract_u8(22..24, raw);
    let o1 = extract_u8(21..22, raw);
    let rm = extract_u8(16..21, raw);
    let o0 = extract_u8(15..16, raw);
    let ra = extract_u8(10..15, raw);
    let rn = extract_u8(5..10, raw);
    let rd = extract_u8(0..5, raw);
    let data = RmRaRnRd {
        rm,
        ra,
        rn,
        rd,
    };

    match (m, s, ptype, o1, o0) {
        (0b0, 0b0, 0b00, 0b0, 0b0) => Some(AArch64Instr::FmAddSinglePrecision(data)),
        (0b0, 0b0, 0b00, 0b0, 0b1) => Some(AArch64Instr::FmSubSinglePrecision(data)),
        (0b0, 0b0, 0b00, 0b1, 0b0) => Some(AArch64Instr::FnmAddSinglePrecision(data)),
        (0b0, 0b0, 0b00, 0b1, 0b1) => Some(AArch64Instr::FnmSubSinglePrecision(data)),
        (0b0, 0b0, 0b01, 0b0, 0b0) => Some(AArch64Instr::FmAddDoublePrecision(data)),
        (0b0, 0b0, 0b01, 0b0, 0b1) => Some(AArch64Instr::FmSubDoublePrecision(data)),
        (0b0, 0b0, 0b01, 0b1, 0b0) => Some(AArch64Instr::FnmAddDoublePrecision(data)),
        (0b0, 0b0, 0b01, 0b1, 0b1) => Some(AArch64Instr::FnmSubDoublePrecision(data)),
        (0b0, 0b0, 0b11, 0b0, 0b0) => Some(AArch64Instr::FmAddHalfPrecision(data)),
        (0b0, 0b0, 0b11, 0b0, 0b1) => Some(AArch64Instr::FmSubHalfPrecision(data)),
        (0b0, 0b0, 0b11, 0b1, 0b0) => Some(AArch64Instr::FnmAddHalfPrecision(data)),
        (0b0, 0b0, 0b11, 0b1, 0b1) => Some(AArch64Instr::FnmSubHalfPrecision(data)),
        _ => None,
    }
}

/// What the load store reg unsigned imm encoding class decodes to.
pub open spec fn spec_parse_load_store_reg_unsigned_imm(raw: u32) -> Option<AArch64Instr> {
    if raw & 0x3b00_0000 != 0x3900_0000 {
        None
    } else {
        let size = field_u8(raw, 30, 32);
        let v = field_u8(raw, 26, 27);
        let idxt = field_u8(raw, 24, 26);
        let opc = field_u8(raw, 22, 24);
        let imm12 = field_u16(raw, 10, 22);
        let rm = field_u8(raw, 5, 10);
        let rt = field_u8(raw, 0, 5);
        let data = SizeImm12RnRt {
            idxt,
            size,
            imm12,
            rn: rm,
            rt,
        };

        match (size, v, opc) {
            (0b00, 0b0, 0b00) => Some(AArch64Instr::StrbImm(data)),
            (0b00, 0b0, 0b01) => Some(AArch64Instr::LdrbImm(data)),
            (0b00, 0b0, 0b10) => Some(AArch64Instr::LdrsbImm64(data)),
            (0b00, 0b0, 0b11) => Some(AArch64Instr::LdrsbImm32(data)),
            (0b00, 0b1, 0b00) => Some(AArch64Instr::StrImmSimdFP8(data)),
            (0b00, 0b1, 0b01) => Some(AArch64Instr::LdrImmSimdFP8(data)),
            (0b00, 0b1, 0b10) => Some(AArch64Instr::StrImmSimdFP128(data)),
            (0b00, 0b1, 0b11) => Some(AArch64Instr::LdrImmSimdFP128(data)),
            (0b01, 0b0, 0b00) => Some(AArch64Instr::StrhImm(data)),
            (0b01, 0b0, 0b01) => Some(AArch64Instr::LdrhImm(data)),
            (0b01, 0b0, 0b10) => Some(AArch64Instr::LdrshImm64(data)),
            (0b01, 0b0, 0b11) => Some(AArch64Instr::LdrshImm32(data)),
            (0b01, 0b1, 0b00) => Some(AArch64Instr::StrImmSimdFP16(data)),
            (0b01, 0b1, 0b01) => Some(AArch64Instr::LdrImmSimdFP16(data)),
            (0b10, 0b0, 0b00) => Some(AArch64Instr::StrImm32(data)),
            (0b10, 0b0, 0b01) => Some(AArch64Instr::LdrImm32(data)),
            (0b10, 0b0, 0b10) => Some(AArch64Instr::LdrswImm(data)),
            (0b10, 0b1, 0b00) => Some(AArch64Instr::StrImmSimdFP32(data)),
            (0b10, 0b1, 0b01) => Some(AArch64Instr::LdrImmSimdFP32(data)),
            (0b11, 0b0, 0b00) => Some(AArch64Instr::StrImm64(data)),
            (0b11, 0b0, 0b01) => Some(AArch64Instr::LdrImm64(data)),
            (0b11, 0b0, 0b10) => Some(AArch64Instr::PrfmImm(data)),
            (0b11, 0b1, 0b00) => Some(AArch64Instr::StrImmSimdFP64(data)),
            (0b11, 0b1, 0b01) => Some(AArch64Instr::LdrImmSimdFP64(data)),
            _ => None,
        }
    }
}

/// Decodes the load store reg unsigned imm encoding class.
fn parse_load_store_reg_unsigned_imm(raw: u32) -> (r: Option<AArch64Instr>)
    ensures
        r == spec_parse_load_store_reg_unsigned_imm(raw),
{
    // xx_111_x_01_xx_xxxxxxxxxxxx_xxxxx_xxxxx
    if raw & 0x3b00_0000 != 0x3900_0000 {
        return None;
    }
    let size = extract_u8(30..32, raw);
    let v = extract_u8(26..27, raw);
    let idxt = extract_u8(24..26, raw);
    let opc = extract_u8(22..24, raw);
    let imm12 = extract_u16(10..22, raw);
    let rm = extract_u8(5..10, raw);
    let rt = extract_u8(0..5, raw);
    let data = SizeImm12RnRt {
        idxt,
        size,
        imm12,
        rn: rm,
        rt,
    };

    match (size, v, opc) {
        (0b00, 0b0, 0b00) => Some(AArch64Instr::StrbImm(data)),
        (0b00, 0b0, 0b01) => Some(AArch64Instr::LdrbImm(data)),
        (0b00, 0b0, 0b10) => Some(AArch64Instr::LdrsbImm64(data)),
        (0b00, 0b0, 0b11) => Some(AArch64Instr::LdrsbImm32(data)),
        (0b00, 0b1, 0b00) => Some(AArch64Instr::StrImmSimdFP8(data)),
        (0b00, 0b1, 0b01) => Some(AArch64Instr::LdrImmSimdFP8(data)),
        (0b00, 0b1, 0b10) => Some(AArch64Instr::StrImmSimdFP128(data)),
        (0b00, 0b1, 0b11) => Some(AArch64Instr::LdrImmSimdFP128(data)),
        (0b01, 0b0, 0b00) => Some(AArch64Instr::StrhImm(data)),
        (0b01, 0b0, 0b01) => Some(AArch64Instr::LdrhImm(data)),
        (0b01, 0b0, 0b10) => Some(AArch64Instr::LdrshImm64(data)),
        (0b01, 0b0, 0b11) => Some(AArch64Instr::LdrshImm32(data)),
        (0b01, 0b1, 0b00) => Some(AArch64Instr::StrImmSimdFP16(data)),
        (0b01, 0b1, 0b01) => Some(AArch64Instr::LdrImmSimdFP16(data)),
        (0b10, 0b0, 0b00) => Some(AArch64Instr::StrImm32(data)),
        (0b10, 0b0, 0b01) => Some(AArch64Instr::LdrImm32(data)),
        (0b10, 0b0, 0b10) => Some(AArch64Instr::LdrswImm(data)),
        (0b10, 0b1, 0b00) => Some(AArch64Instr::StrImmSimdFP32(data)),
        (0b10, 0b1, 0b01) => Some(AArch64Instr::LdrImmSimdFP32(data)),
        (0b11, 0b0, 0b00) => Some(AArch64Instr::StrImm64(data)),
        (0b11, 0b0, 0b01) => Some(AArch64Instr::LdrImm64(data)),
        (0b11, 0b0, 0b10) => Some(AArch64Instr::PrfmImm(data)),
        (0b11, 0b1, 0b00) => Some(AArch64Instr::StrImmSimdFP64(data)),
        (0b11, 0b1, 0b01) => Some(AArch64Instr::LdrImmSimdFP64(data)),
        _ => None,
    }
}

/// What the move wide imm encoding class decodes to.
pub open spec fn spec_parse_move_wide_imm(raw: u32) -> Option<AArch64Instr> {
    if raw & 0x1f80_0000 != 0x1280_0000 {
        None
    } else {
        let sf_opc = field_u8(raw, 29, 32);
        let hw = field_u8(raw, 21, 23);
        let imm16 = field_u16(raw, 5, 21);
        let rd = field_u8(raw, 0, 5);
        let data = HwImm16Rd {
            hw,
            imm16,
            rd,
        };

        match (sf_opc, hw) {
            (0b000, 0b00 | 0b01) => Some(AArch64Instr::MovnVar32(data)),
            (0b010, 0b00 | 0b01) => Some(AArch64Instr::MovzVar32(data)),
            (0b011, 0b00 | 0b01) => Some(AArch64Instr::MovkVar32(data)),
            (0b100, _) => Some(AArch64Instr::MovnVar64(data)),
            (0b110, _) => Some(AArch64Instr::MovzVar64(data)),
            (0b111, _) => Some(AArch64Instr::MovkVar64(data)),
            _ => None,
        }
    }
}

/// Decodes the move wide imm encoding class.
fn parse_move_wide_imm(raw: u32) -> (r: Option<AArch64Instr>)
    ensures
        r == spec_parse_move_wide_imm(raw),
{
    // x_xx_100101_xx_xxxxxxxxxxxxxxxx_xxxxx
    if raw & 0x1f80_0000 != 0x1280_0000 {
        return None;
    }
    let sf_opc = extract_u8(29..32, raw);
    let hw = extract_u8(21..23, raw);
    let imm16 = extract_u16(5..21, raw);
    let rd = extract_u8(0..5, raw);
    let data = HwImm16Rd {
        hw,
        imm16,
        rd,
    };

    match (sf_opc, hw) {
        (0b000, 0b00 | 0b01) => Some(AArch64Instr::MovnVar32(data)),
        (0b010, 0b00 | 0b01) => Some(AArch64Instr::MovzVar32(data)),
        (0b011, 0b00 | 0b01) => Some(AArch64Instr::MovkVar32(data)),
        (0b100, _) => Some(AArch64Instr::MovnVar64(data)),
        (0b110, _) => Some(AArch64Instr::MovzVar64(data)),
        (0b111, _) => Some(AArch64Instr::MovkVar64(data)),
        _ => None,
    }
}

/// What the uncond branch reg encoding class decodes to.
pub open spec fn spec_parse_uncond_branch_reg(raw: u32) -> Option<AArch64Instr> {
    if raw & 0xfe00_0000 != 0xd600_0000 {
        None
    } else {
        let opc = field_u8(raw, 21, 25);
        let op2 = field_u8(raw, 16, 21);
        let op3 = field_u8(raw, 10, 16);
        let rn = field_u8(raw, 5, 10);
        let op4 = field_u8(raw, 0, 5);
        let z = bit_field32(raw, 24, 25);
        let op = bit_field32(raw, 21, 23);
        let a = bit_field32(raw, 11, 12);
        let rn = rn;
        let rm = op4;

        let data = UncondBranchReg {
            z: z as u8,
            op: op as u8,
            a: a as u8,
            rn,
            rm,
        };

        match (opc, op2, op3, rn, rm) {
            (0b0000, 0b11111, 0b000000, _, 0b00000) => Some(AArch64Instr::Br(data)),
            (0b0000, 0b11111, 0b000010, _, 0b11111) => None, // BRAA, BRAAZ, BRAB, BRABZ. Key A, zero modifier 
            (0b0000, 0b11111, 0b000011, _, 0b11111) => None, // BRAA, BRAAZ, BRAB, BRABZ. Key B, zero modifier 
            (0b0001, 0b11111, 0b000000, _, 0b00000) => Some(AArch64Instr::Blr(data)),
            (0b0001, 0b11111, 0b000010, _, 0b11111) => None, // BLRAA, BLRAAZ, BLRAB, BLRABZ. Key A, zero modifier 
            (0b0001, 0b11111, 0b000011, _, 0b11111) => None, // BLRAA, BLRAAZ, BLRAB, BLRABZ. Key B, zero modifier 
            (0b0010, 0b11111, 0b000000, _, 0b00000) => Some(AArch64Instr::Ret(data)),
            (0b0010, 0b11111, 0b000010, 0b11111, 0b11111) => None, // RETAA, RETAB - RETAA variant 
            (0b0010, 0b11111, 0b000011, 0b11111, 0b11111) => None, // RETAA, RETAB - RETAB variant 
            (0b0100, 0b11111, 0b000000, 0b11111, 0b00000) => Some(AArch64Instr::ERet(data)),
            (0b0100, 0b11111, 0b000010, 0b11111, 0b11111) => None, // ERETAA, ERETAB - ERETAA variant 
            (0b0100, 0b11111, 0b000011, 0b11111, 0b11111) => None, // ERETAA, ERETAB - ERETAB variant 
            (0b0101, 0b11111, 0b000000, 0b11111, 0b00000) => Some(AArch64Instr::Drps(data)),
            (0b1000, 0b11111, 0b000010, _, _) => None, // BRAA, BRAAZ, BRAB, BRABZ - Key A, register modifier 
            (0b1000, 0b11111, 0b000011, _, _) => None, // BRAA, BRAAZ, BRAB, BRABZ - Key B, register modifier 
            (0b1001, 0b11111, 0b000010, _, _) => None, // BLRAA, BLRAAZ, BLRAB, BLRABZ - Key A, register modifier 
            (0b1001, 0b11111, 0b000011, _, _) => None, // BLRAA, BLRAAZ, BLRAB, BLRABZ - Key B, register modifier 
            _ => None,
        }
    }
}

/// Decodes the uncond branch reg encoding class.
fn parse_uncond_branch_reg(raw: u32) -> (r: Option<AArch64Instr>)
    ensures
        r == spec_parse_uncond_branch_reg(raw),
{
    // 1101011_xxxx_xxxxx_xxxxxx_xxxxx_xxxxx
    if raw & 0xfe00_0000 != 0xd600_0000 {
        return None;
    }
    let opc = extract_u8(21..25, raw);
    let op2 = extract_u8(16..21, raw);
    let op3 = extract_u8(10..16, raw);
    let rn = extract_u8(5..10, raw);
    let op4 = extract_u8(0..5, raw);
    let z = extract_bits32(24..25, raw);
    let op = extract_bits32(21..23, raw);
    let a = extract_bits32(11..12, raw);
    let rn = rn;
    let rm = op4;

    let data = UncondBranchReg {
        z: z as u8,
        op: op as u8,
        a: a as u8,
        rn,
        rm,
    };

    match (opc, op2, op3, rn, rm) {
        (0b0000, 0b11111, 0b000000, _, 0b00000) => Some(AArch64Instr::Br(data)),
        (0b0000, 0b11111, 0b000010, _, 0b11111) => None, // BRAA, BRAAZ, BRAB, BRABZ. Key A, zero modifier 
        (0b0000, 0b11111, 0b000011, _, 0b11111) => None, // BRAA, BRAAZ, BRAB, BRABZ. Key B, zero modifier 
        (0b0001, 0b11111, 0b000000, _, 0b00000) => Some(AArch64Instr::Blr(data)),
        (0b0001, 0b11111, 0b000010, _, 0b11111) => None, // BLRAA, BLRAAZ, BLRAB, BLRABZ. Key A, zero modifier 
        (0b0001, 0b11111, 0b000011, _, 0b11111) => None, // BLRAA, BLRAAZ, BLRAB, BLRABZ. Key B, zero modifier 
        (0b0010, 0b11111, 0b000000, _, 0b00000) => Some(AArch64Instr::Ret(data)),
        (0b0010, 0b11111, 0b000010, 0b11111, 0b11111) => None, // RETAA, RETAB - RETAA variant 
        (0b0010, 0b11111, 0b000011, 0b11111, 0b11111) => None, // RETAA, RETAB - RETAB variant 
        (0b0100, 0b11111, 0b000000, 0b11111, 0b00000) => Some(AArch64Instr::ERet(data)),
        (0b0100, 0b11111, 0b000010, 0b11111, 0b11111) => None, // ERETAA, ERETAB - ERETAA variant 
        (0b0100, 0b11111, 0b000011, 0b11111, 0b11111) => None, // ERETAA, ERETAB - ERETAB variant 
        (0b0101, 0b11111, 0b000000, 0b11111, 0b00000) => Some(AArch64Instr::Drps(data)),
        (0b1000, 0b11111, 0b000010, _, _) => None, // BRAA, BRAAZ, BRAB, BRABZ - Key A, register modifier 
        (0b1000, 0b11111, 0b000011, _, _) => None, // BRAA, BRAAZ, BRAB, BRABZ - Key B, register modifier 
        (0b1001, 0b11111, 0b000010, _, _) => None, // BLRAA, BLRAAZ, BLRAB, BLRABZ - Key A, register modifier 
        (0b1001, 0b11111, 0b000011, _, _) => None, // BLRAA, BLRAAZ, BLRAB, BLRABZ - Key B, register modifier 
        _ => None,
    }
}

/// What the uncond branch imm encoding class decodes to.
pub open spec fn spec_parse_uncond_branch_imm(raw: u32) -> Option<AArch64Instr> {
    if raw & 0x7c00_0000 != 0x1400_0000 {
        None
    } else {
        let op = field_u8(raw, 31, 32);
        let imm26 = bit_field32(raw, 0, 26);
        let data = Imm26 { imm26: imm26 };

        match op {
            0b0 => Some(AArch64Instr::BImm(data)),
            0b1 => Some(AArch64Instr::BlImm(data)),
            _ => None,
        }
    }
}

/// Decodes the uncond branch imm encoding class.
fn parse_uncond_branch_imm(raw: u32) -> (r: Option<AArch64Instr>)
    ensures
        r == spec_parse_uncond_branch_imm(raw),
{
    // x_00101_xxxxxxxxxxxxxxxxxxxxxxxxxx
    if raw & 0x7c00_0000 != 0x1400_0000 {
        return None;
    }
    let op = extract_u8(31..32, raw);
    let imm26 = extract_bits32(0..26, raw);
    let data = Imm26 { imm26: imm26 };

    match op {
        0b0 => Some(AArch64Instr::BImm(data)),
        0b1 => Some(AArch64Instr::BlImm(data)),
        _ => None,
    }
}

/// What the cond branch imm encoding class decodes to.
pub open spec fn spec_parse_cond_branch_imm(raw: u32) -> Option<AArch64Instr> {
    if raw & 0xfe00_0000 != 0x5400_0000 {
        None
    } else {
        let o1 = field_u8(raw, 24, 25);
        let imm19 = bit_field32(raw, 5, 24);
        let o0 = field_u8(raw, 4, 5);
        let cond = field_u8(raw, 0, 4);
        let data = Imm19Cond {
            imm19,
            cond,
        };

        match (o1, o0) {
            (0b0, 0b0) => Some(AArch64Instr::BCond(data)),
            (0b0, 0b1) => Some(AArch64Instr::BcCond(data)),
            _ => None,
        }
    }
}

/// Decodes the cond branch imm encoding class.
fn parse_cond_branch_imm(raw: u32) -> (r: Option<AArch64Instr>)
    ensures
        r == spec_parse_cond_branch_imm(raw),
{
    // 0101010_x_xxxxxxxxxxxxxxxxxxx_x_xxxx
    if raw & 0xfe00_0000 != 0x5400_0000 {
        return None;
    }
    let o1 = extract_u8(24..25, raw);
    let imm19 = extract_bits32(5..24, raw);
    let o0 = extract_u8(4..5, raw);
    let cond = extract_u8(0..4, raw);
    let data = Imm19Cond {
        imm19,
        cond,
    };

    match (o1, o0) {
        (0b0, 0b0) => Some(AArch64Instr::BCond(data)),
        (0b0, 0b1) => Some(AArch64Instr::BcCond(data)),
        _ => None,
    }
}

/// What the cond sel encoding class decodes to.
pub open spec fn spec_parse_cond_sel(raw: u32) -> Option<AArch64Instr> {
    if raw & 0x1fe0_0000 != 0x1a80_0000 {
        None
    } else {
        let sf_op_s = field_u8(raw, 29, 32);
        let rm = field_u8(raw, 16, 21);
        let cond = field_u8(raw, 12, 16);
        let op2 = field_u8(raw, 10, 12);
        let rn = field_u8(raw, 5, 10);
        let rd = field_u8(raw, 0, 5);
        let data = RmCondRnRd {
            rm,
            cond,
            rn,
            rd,
        };

        match (sf_op_s, op2) {
            (0b000, 0b00) => Some(AArch64Instr::Csel32(data)),
            (0b000, 0b01) => Some(AArch64Instr::Csel32(data)),
            (0b010, 0b00) => Some(AArch64Instr::Csel32(data)),
            (0b010, 0b01) => Some(AArch64Instr::Csel32(data)),
            (0b100, 0b00) => Some(AArch64Instr::Csel32(data)),
            (0b100, 0b01) => Some(AArch64Instr::Csel32(data)),
            (0b110, 0b00) => Some(AArch64Instr::Csel32(data)),
            (0b110, 0b01) => Some(AArch64Instr::Csel32(data)),
            _ => None,
        }
    }
}

/// Decodes the cond sel encoding class.
fn parse_cond_sel(raw: u32) -> (r: Option<AArch64Instr>)
    ensures
        r == spec_parse_cond_sel(raw),
{
    // x_x_x_11010100_xxxxx_xxxx_xx_xxxxx_xxxxx
    if raw & 0x1fe0_0000 != 0x1a80_0000 {
        return None;
    }
    let sf_op_s = extract_u8(29..32, raw);
    let rm = extract_u8(16..21, raw);
    let cond = extract_u8(12..16, raw);
    let op2 = extract_u8(10..12, raw);
    let rn = extract_u8(5..10, raw);
    let rd = extract_u8(0..5, raw);
    let data = RmCondRnRd {
        rm,
        cond,
        rn,
        rd,
    };

    match (sf_op_s, op2) {
        (0b000, 0b00) => Some(AArch64Instr::Csel32(data)),
        (0b000, 0b01) => Some(AArch64Instr::Csel32(data)),
        (0b010, 0b00) => Some(AArch64Instr::Csel32(data)),
        (0b010, 0b01) => Some(AArch64Instr::Csel32(data)),
        (0b100, 0b00) => Some(AArch64Instr::Csel32(data)),
        (0b100, 0b01) => Some(AArch64Instr::Csel32(data)),
        (0b110, 0b00) => Some(AArch64Instr::Csel32(data)),
        (0b110, 0b01) => Some(AArch64Instr::Csel32(data)),
        _ => None,
    }
}

/// What the test and branch imm encoding class decodes to.
pub open spec fn spec_parse_test_and_branch_imm(raw: u32) -> Option<AArch64Instr> {
    if raw & 0x7e00_0000 != 0x3600_0000 {
        None
    } else {
        let b5 = field_u8(raw, 31, 32);
        let op = field_u8(raw, 24, 25);
        let b40 = field_u8(raw, 19, 24);
        let imm14 = field_u16(raw, 5, 19);
        let rt = field_u8(raw, 0, 5);
        let data = B5B40Imm14Rt {
            b5,
            b40,
            imm14,
            rt,
        };

        match op {
            0b0 => Some(AArch64Instr::Tbz(data)),
            0b1 => Some(AArch64Instr::Tbnz(data)),
            _ => None,
        }
    }
}

/// Decodes the test and branch imm encoding class.
fn parse_test_and_branch_imm(raw: u32) -> (r: Option<AArch64Instr>)
    ensures
        r == spec_parse_test_and_branch_imm(raw),
{
    // x_011011_x_xxxxx_xxxxxxxxxxxxxx_xxxxx
    if raw & 0x7e00_0000 != 0x3600_0000 {
        return None;
    }
    let b5 = extract_u8(31..32, raw);
    let op = extract_u8(24..25, raw);
    let b40 = extract_u8(19..24, raw);
    let imm14 = extract_u16(5..19, raw);
    let rt = extract_u8(0..5, raw);
    let data = B5B40Imm14Rt {
        b5,
        b40,
        imm14,
        rt,
    };

    match op {
        0b0 => Some(AArch64Instr::Tbz(data)),
        0b1 => Some(AArch64Instr::Tbnz(data)),
        _ => None,
    }
}

/// What the logical shifted register encoding class decodes to.
pub open spec fn spec_parse_logical_shifted_register(raw: u32) -> Option<AArch64Instr> {
    if raw & 0x1f00_0000 != 0x0a00_0000 {
        None
    } else {
        let sf = field_u8(raw, 31, 32);
        let opc = field_u8(raw, 29, 31);
        let shift = field_u8(raw, 22, 24);
        let n = field_u8(raw, 21, 22);
        let rm = field_u8(raw, 16, 21);
        let imm6 = field_u8(raw, 10, 16);
        let rn = field_u8(raw, 5, 10);
        let rd = field_u8(raw, 0, 5);
        let data = ShiftRmImm6RnRd {
            shift,
            rm,
            imm6,
            rn,
            rd,
        };

        match (sf, opc, n) {
            (0b0, _, _) if imm6 & 0b100000 == 0b100000 => None,
            (0b0, 0b00, 0b0) => Some(AArch64Instr::AndShiftedReg32(data)),
            (0b0, 0b00, 0b1) => Some(AArch64Instr::BicShiftedReg32(data)),
            (0b0, 0b01, 0b0) => Some(AArch64Instr::OrrShiftedReg32(data)),
            (0b0, 0b01, 0b1) => Some(AArch64Instr::OrnShiftedReg32(data)),
            (0b0, 0b10, 0b0) => Some(AArch64Instr::EorShiftedReg32(data)),
            (0b0, 0b10, 0b1) => Some(AArch64Instr::EonShiftedReg32(data)),
            (0b0, 0b11, 0b0) => Some(AArch64Instr::AndsShiftedReg32(data)),
            (0b0, 0b11, 0b1) => Some(AArch64Instr::BicsShiftedReg32(data)),
            (0b1, 0b00, 0b0) => Some(AArch64Instr::AndShiftedReg64(data)),
            (0b1, 0b00, 0b1) => Some(AArch64Instr::BicShiftedReg64(data)),
            (0b1, 0b01, 0b0) => Some(AArch64Instr::OrrShiftedReg64(data)),
            (0b1, 0b01, 0b1) => Some(AArch64Instr::OrnShiftedReg64(data)),
            (0b1, 0b10, 0b0) => Some(AArch64Instr::EorShiftedReg64(data)),
            (0b1, 0b10, 0b1) => Some(AArch64Instr::EonShiftedReg64(data)),
            (0b1, 0b11, 0b0) => Some(AArch64Instr::AndsShiftedReg64(data)),
            (0b1, 0b11, 0b1) => Some(AArch64Instr::BicsShiftedReg64(data)),
            _ => None,
        }
    }
}

/// Decodes the logical shifted register encoding class.
fn parse_logical_shifted_register(raw: u32) -> (r: Option<AArch64Instr>)
    ensures
        r == spec_parse_logical_shifted_register(raw),
{
    // x_xx_01010_xx_x_xxxxx_xxxxxx_xxxxx_xxxxx
    if raw & 0x1f00_0000 != 0x0a00_0000 {
        return None;
    }
    let sf = extract_u8(31..32, raw);
    let opc = extract_u8(29..31, raw);
    let shift = extract_u8(22..24, raw);
    let n = extract_u8(21..22, raw);
    let rm = extract_u8(16..21, raw);
    let imm6 = extract_u8(10..16, raw);
    let rn = extract_u8(5..10, raw);
    let rd = extract_u8(0..5, raw);
    let data = ShiftRmImm6RnRd {
        shift,
        rm,
        imm6,
        rn,
        rd,
    };

    match (sf, opc, n) {
        (0b0, _, _) if imm6 & 0b100000 == 0b100000 => None,
        (0b0, 0b00, 0b0) => Some(AArch64Instr::AndShiftedReg32(data)),
        (0b0, 0b00, 0b1) => Some(AArch64Instr::BicShiftedReg32(data)),
        (0b0, 0b01, 0b0) => Some(AArch64Instr::OrrShiftedReg32(data)),
        (0b0, 0b01, 0b1) => Some(AArch64Instr::OrnShiftedReg32(data)),
        (0b0, 0b10, 0b0) => Some(AArch64Instr::EorShiftedReg32(data)),
        (0b0, 0b10, 0b1) => Some(AArch64Instr::EonShiftedReg32(data)),
        (0b0, 0b11, 0b0) => Some(AArch64Instr::AndsShiftedReg32(data)),
        (0b0, 0b11, 0b1) => Some(AArch64Instr::BicsShiftedReg32(data)),
        (0b1, 0b00, 0b0) => Some(AArch64Instr::AndShiftedReg64(data)),
        (0b1, 0b00, 0b1) => Some(AArch64Instr::BicShiftedReg64(data)),
        (0b1, 0b01, 0b0) => Some(AArch64Instr::OrrShiftedReg64(data)),
        (0b1, 0b01, 0b1) => Some(AArch64Instr::OrnShiftedReg64(data)),
        (0b1, 0b10, 0b0) => Some(AArch64Instr::EorShiftedReg64(data)),
        (0b1, 0b10, 0b1) => Some(AArch64Instr::EonShiftedReg64(data)),
        (0b1, 0b11, 0b0) => Some(AArch64Instr::AndsShiftedReg64(data)),
        (0b1, 0b11, 0b1) => Some(AArch64Instr::BicsShiftedReg64(data)),
        _ => None,
    }
}

/// What the hints encoding class decodes to.
pub open spec fn spec_parse_hints(raw: u32) -> Option<AArch64Instr> {
    if raw & 0xffff_f01f != 0xd503_201f {
        None
    } else {
        let crm = field_u8(raw, 8, 12);
        let op2 = field_u8(raw, 5, 8);
        match (crm, op2) {
            (0b0000, 0b000) => Some(AArch64Instr::Nop),
            (0b0000, 0b001) => Some(AArch64Instr::Yield),
            (0b0000, 0b010) => Some(AArch64Instr::Wfe),
            (0b0000, 0b011) => Some(AArch64Instr::Wfi),
            (0b0000, 0b100) => Some(AArch64Instr::Sev),
            (0b0000, 0b101) => Some(AArch64Instr::Sevl),

            (0b0000, 0b111) => Some(AArch64Instr::Xpaclri),
            (0b0001, 0b000) => Some(AArch64Instr::Pacia1716Var),
            (0b0001, 0b010) => Some(AArch64Instr::Pacib1716Var),
            (0b0001, 0b100) => Some(AArch64Instr::Autia1716Var),
            (0b0001, 0b110) => Some(AArch64Instr::Autib1716Var),

            (0b0011, 0b000) => Some(AArch64Instr::PaciazVar),
            (0b0011, 0b001) => Some(AArch64Instr::PaciaspVar),
            (0b0011, 0b010) => Some(AArch64Instr::PacibzVar),
            (0b0011, 0b011) => Some(AArch64Instr::PacibspVar),
            (0b0011, 0b100) => Some(AArch64Instr::AutiazVar),
            (0b0011, 0b101) => Some(AArch64Instr::AutiaspVar),
            (0b0011, 0b110) => Some(AArch64Instr::AutibzVar),
            (0b0011, 0b111) => Some(AArch64Instr::AutibspVar),
            _ => None,
        }
    }
}

/// Decodes the hints encoding class.
fn parse_hints(raw: u32) -> (r: Option<AArch64Instr>)
    ensures
        r == spec_parse_hints(raw),
{
    // 11010101000000110010_xxxx_xxx_11111
    if raw & 0xffff_f01f != 0xd503_201f {
        return None;
    }
    let crm = extract_u8(8..12, raw);
    let op2 = extract_u8(5..8, raw);
    match (crm, op2) {
        (0b0000, 0b000) => Some(AArch64Instr::Nop),
        (0b0000, 0b001) => Some(AArch64Instr::Yield),
        (0b0000, 0b010) => Some(AArch64Instr::Wfe),
        (0b0000, 0b011) => Some(AArch64Instr::Wfi),
        (0b0000, 0b100) => Some(AArch64Instr::Sev),
        (0b0000, 0b101) => Some(AArch64Instr::Sevl),

        (0b0000, 0b111) => Some(AArch64Instr::Xpaclri),
        (0b0001, 0b000) => Some(AArch64Instr::Pacia1716Var),
        (0b0001, 0b010) => Some(AArch64Instr::Pacib1716Var),
        (0b0001, 0b100) => Some(AArch64Instr::Autia1716Var),
        (0b0001, 0b110) => Some(AArch64Instr::Autib1716Var),

        (0b0011, 0b000) => Some(AArch64Instr::PaciazVar),
        (0b0011, 0b001) => Some(AArch64Instr::PaciaspVar),
        (0b0011, 0b010) => Some(AArch64Instr::PacibzVar),
        (0b0011, 0b011) => Some(AArch64Instr::PacibspVar),
        (0b0011, 0b100) => Some(AArch64Instr::AutiazVar),
        (0b0011, 0b101) => Some(AArch64Instr::AutiaspVar),
        (0b0011, 0b110) => Some(AArch64Instr::AutibzVar),
        (0b0011, 0b111) => Some(AArch64Instr::AutibspVar),
        _ => None,
    }
}

/// What the pc rel addressing encoding class decodes to.
pub open spec fn spec_parse_pc_rel_addressing(raw: u32) -> Option<AArch64Instr> {
    if raw & 0x1f00_0000 != 0x1000_0000 {
        None
    } else {
        let op = field_u8(raw, 31, 32);
        let immlo = field_u8(raw, 29, 31);
        let immhi = bit_field32(raw, 5, 24);
        let rd = field_u8(raw, 0, 5);
        let data = PcRelAddressing {
            immlo,
            immhi,
            rd,
        };

        match op {
            0b0 => Some(AArch64Instr::Adr(data)),
            0b1 => Some(AArch64Instr::Adrp(data)),
            _ => None,
        }
    }
}

/// Decodes the pc rel addressing encoding class.
fn parse_pc_rel_addressing(raw: u32) -> (r: Option<AArch64Instr>)
    ensures
        r == spec_parse_pc_rel_addressing(raw),
{
    // x_xx_10000_xxxxxxxxxxxxxxxxxxx_xxxxx
    if raw & 0x1f00_0000 != 0x1000_0000 {
        return None;
    }
    let op = extract_u8(31..32, raw);
    let immlo = extract_u8(29..31, raw);
    let immhi = extract_bits32(5..24, raw);
    let rd = extract_u8(0..5, raw);
    let data = PcRelAddressing {
        immlo,
        immhi,
        rd,
    };

    match op {
        0b0 => Some(AArch64Instr::Adr(data)),
        0b1 => Some(AArch64Instr::Adrp(data)),
        _ => None,
    }
}

/// What the exception gen encoding class decodes to.
pub open spec fn spec_parse_exception_gen(raw: u32) -> Option<AArch64Instr> {
    if raw & 0xff00_0000 != 0xd400_0000 {
        None
    } else {
        let opc = field_u8(raw, 21, 24);
        let imm16 = field_u16(raw, 5, 21);
        let op2 = field_u8(raw, 2, 5);
        let ll = field_u8(raw, 0, 2);
        let data = ExceptionGen {
            opc,
            imm16,
            op2,
            ll,
        };

        match (opc, op2, ll) {
            (0b000, 0b000, 0b01) => Some(AArch64Instr::Svc(data)),
            (0b000, 0b000, 0b10) => Some(AArch64Instr::Hvc(data)),
            (0b000, 0b000, 0b11) => Some(AArch64Instr::Smc(data)),
            (0b001, 0b000, 0b00) => Some(AArch64Instr::Brk(data)),
            (0b010, 0b000, 0b00) => Some(AArch64Instr::Hlt(data)),
            (0b011, 0b000, 0b00) => Some(AArch64Instr::TCancle(data)),
            (0b101, 0b000, 0b01) => Some(AArch64Instr::DcpS1(data)),
            (0b101, 0b000, 0b10) => Some(AArch64Instr::DcpS2(data)),
            (0b101, 0b000, 0b11) => Some(AArch64Instr::DcpS3(data)),
            _ => None,
        }
    }
}

/// Decodes the exception gen encoding class.
fn parse_exception_gen(raw: u32) -> (r: Option<AArch64Instr>)
    ensures
        r == spec_parse_exception_gen(raw),
{
    // 11010100_xxx_xxxxxxxxxxxxxxxx_xxx_xx
    if raw & 0xff00_0000 != 0xd400_0000 {
        return None;
    }
    let opc = extract_u8(21..24, raw);
    let imm16 = extract_u16(5..21, raw);
    let op2 = extract_u8(2..5, raw);
    let ll = extract_u8(0..2, raw);
    let data = ExceptionGen {
        opc,
        imm16,
        op2,
        ll,
    };

    match (opc, op2, ll) {
        (0b000, 0b000, 0b01) => Some(AArch64Instr::Svc(data)),
        (0b000, 0b000, 0b10) => Some(AArch64Instr::Hvc(data)),
        (0b000, 0b000, 0b11) => Some(AArch64Instr::Smc(data)),
        (0b001, 0b000, 0b00) => Some(AArch64Instr::Brk(data)),
        (0b010, 0b000, 0b00) => Some(AArch64Instr::Hlt(data)),
        (0b011, 0b000, 0b00) => Some(AArch64Instr::TCancle(data)),
        (0b101, 0b000, 0b01) => Some(AArch64Instr::DcpS1(data)),
        (0b101, 0b000, 0b10) => Some(AArch64Instr::DcpS2(data)),
        (0b101, 0b000, 0b11) => Some(AArch64Instr::DcpS3(data)),
        _ => None,
    }
}

/// What the load store reg reg offset encoding class decodes to.
pub open spec fn spec_parse_load_store_reg_reg_offset(raw: u32) -> Option<AArch64Instr> {
    if raw & 0x3b20_0c00 != 0x3820_0800 {
        None
    } else {
        let size = field_u8(raw, 30, 32);
        let v = field_u8(raw, 26, 27);
        let opc = field_u8(raw, 22, 24);
        let rm = field_u8(raw, 16, 21);
        let option = field_u8(raw, 13, 16);
        let s = field_u8(raw, 12, 13);
        let rn = field_u8(raw, 5, 10);
        let rt = field_u8(raw, 0, 5);
        let data = LoadStoreRegRegOffset {
            size,
            v,
            opc,
            rm,
            option,
            s,
            rn,
            rt,
        };

        match (size, v, opc, option) {
            (0b00, 0b0, 0b00, _) if option != 0b011 => {
                Some(AArch64Instr::StrbRegExtReg(data))
            }
            (0b00, 0b0, 0b00, 0b011) => Some(AArch64Instr::StrbRegShiftedReg(data)),
            (0b00, 0b0, 0b01, _) if option != 0b011 => {
                Some(AArch64Instr::LdrbRegExtReg(data))
            }
            (0b00, 0b0, 0b01, 0b011) => Some(AArch64Instr::LdrbRegShiftedReg(data)),
            (0b00, 0b0, 0b10, _) if option != 0b011 => {
                Some(AArch64Instr::LdrsbRegExtReg64(data))
            }
            (0b00, 0b0, 0b10, 0b011) => Some(AArch64Instr::LdrsbRegShiftedReg64(data)),
            (0b00, 0b0, 0b11, _) if option != 0b011 => {
                Some(AArch64Instr::LdrsbRegExtReg32(data))
            }
            (0b00, 0b0, 0b11, 0b011) => Some(AArch64Instr::LdrsbRegShiftedReg32(data)),
            (_, 0b1, 0b00, _) | (0b00, 0b1, 0b10, _) => Some(AArch64Instr::StrRegSimdFP(data)),
            (_, 0b1, 0b01, _) | (0b00, 0b1, 0b11, _) => Some(AArch64Instr::LdrRegSimdFP(data)),
            (0b01, 0b0, 0b00, _) => Some(AArch64Instr::StrhReg(data)),
            (0b01, 0b0, 0b01, _) => Some(AArch64Instr::LdrhReg(data)),
            (0b01, 0b0, 0b10, _) => Some(AArch64Instr::LdrshReg64(data)),
            (0b01, 0b0, 0b11, _) => Some(AArch64Instr::LdrshReg32(data)),
            (0b10, 0b0, 0b00, _) => Some(AArch64Instr::StrReg32(data)),
            (0b10, 0b0, 0b01, _) => Some(AArch64Instr::LdrReg32(data)),
            (0b10, 0b0, 0b10, _) => Some(AArch64Instr::LdrswReg(data)),
            (0b11, 0b0, 0b00, _) => Some(AArch64Instr::StrReg64(data)),
            (0b11, 0b0, 0b01, _) => Some(AArch64Instr::LdrReg64(data)),
            (0b11, 0b0, 0b10, _) => Some(AArch64Instr::PrfmReg(data)),
            _ => None,
        }
    }
}

/// Decodes the load store reg reg offset encoding class.
fn parse_load_store_reg_reg_offset(raw: u32) -> (r: Option<AArch64Instr>)
    ensures
        r == spec_parse_load_store_reg_reg_offset(raw),
{
    // xx_111_x_00_xx_1_xxxxx_xxx_x_10_xxxxx_xxxxx
    if raw & 0x3b20_0c00 != 0x3820_0800 {
        return None;
    }
    let size = extract_u8(30..32, raw);
    let v = extract_u8(26..27, raw);
    let opc = extract_u8(22..24, raw);
    let rm = extract_u8(16..21, raw);
    let option = extract_u8(13..16, raw);
    let s = extract_u8(12..13, raw);
    let rn = extract_u8(5..10, raw);
    let rt = extract_u8(0..5, raw);
    let data = LoadStoreRegRegOffset {
        size,
        v,
        opc,
        rm,
        option,
        s,
        rn,
        rt,
    };

    match (size, v, opc, option) {
        (0b00, 0b0, 0b00, _) if option != 0b011 => {
            Some(AArch64Instr::StrbRegExtReg(data))
        }
        (0b00, 0b0, 0b00, 0b011) => Some(AArch64Instr::StrbRegShiftedReg(data)),
        (0b00, 0b0, 0b01, _) if option != 0b011 => {
            Some(AArch64Instr::LdrbRegExtReg(data))
        }
        (0b00, 0b0, 0b01, 0b011) => Some(AArch64Instr::LdrbRegShiftedReg(data)),
        (0b00, 0b0, 0b10, _) if option != 0b011 => {
            Some(AArch64Instr::LdrsbRegExtReg64(data))
        }
        (0b00, 0b0, 0b10, 0b011) => Some(AArch64Instr::LdrsbRegShiftedReg64(data)),
        (0b00, 0b0, 0b11, _) if option != 0b011 => {
            Some(AArch64Instr::LdrsbRegExtReg32(data))
        }
        (0b00, 0b0, 0b11, 0b011) => Some(AArch64Instr::LdrsbRegShiftedReg32(data)),
        (_, 0b1, 0b00, _) | (0b00, 0b1, 0b10, _) => Some(AArch64Instr::StrRegSimdFP(data)),
        (_, 0b1, 0b01, _) | (0b00, 0b1, 0b11, _) => Some(AArch64Instr::LdrRegSimdFP(data)),
        (0b01, 0b0, 0b00, _) => Some(AArch64Instr::StrhReg(data)),
        (0b01, 0b0, 0b01, _) => Some(AArch64Instr::LdrhReg(data)),
        (0b01, 0b0, 0b10, _) => Some(AArch64Instr::LdrshReg64(data)),
        (0b01, 0b0, 0b11, _) => Some(AArch64Instr::LdrshReg32(data)),
        (0b10, 0b0, 0b00, _) => Some(AArch64Instr::StrReg32(data)),
        (0b10, 0b0, 0b01, _) => Some(AArch64Instr::LdrReg32(data)),
        (0b10, 0b0, 0b10, _) => Some(AArch64Instr::LdrswReg(data)),
        (0b11, 0b0, 0b00, _) => Some(AArch64Instr::StrReg64(data)),
        (0b11, 0b0, 0b01, _) => Some(AArch64Instr::LdrReg64(data)),
        (0b11, 0b0, 0b10, _) => Some(AArch64Instr::PrfmReg(data)),
        _ => None,
    }
}

/// What the add sub ext reg encoding class decodes to.
pub open spec fn spec_parse_add_sub_ext_reg(raw: u32) -> Option<AArch64Instr> {
    if raw & 0x1f20_0000 != 0x0b20_0000 {
        None
    } else {
        let sf_op_s = field_u8(raw, 29, 32);
        let opt = field_u8(raw, 22, 24);
        let rm = field_u8(raw, 16, 21);
        let option = field_u8(raw, 13, 16);
        let imm3 = field_u8(raw, 10, 13);
        let rn = field_u8(raw, 5, 10);
        let rd = field_u8(raw, 0, 5);
        let data = AddSubtractExtReg {
            rm,
            option,
            imm3,
            rn,
            rd,
        };

        match (sf_op_s, opt) {
            (0b000, 0b00) => Some(AArch64Instr::AddExtReg32(data)),
            (0b001, 0b00) => Some(AArch64Instr::AddsExtReg32(data)),
            (0b010, 0b00) => Some(AArch64Instr::SubExtReg32(data)),
            (0b011, 0b00) => Some(AArch64Instr::SubsExtReg32(data)),
            (0b100, 0b00) => Some(AArch64Instr::AddExtReg64(data)),
            (0b101, 0b00) => Some(AArch64Instr::AddsExtReg64(data)),
            (0b110, 0b00) => Some(AArch64Instr::SubExtReg64(data)),
            (0b111, 0b00) => Some(AArch64Instr::SubsExtReg64(data)),
            _ => None,
        }
    }
}

/// Decodes the add sub ext reg encoding class.
fn parse_add_sub_ext_reg(raw: u32) -> (r: Option<AArch64Instr>)
    ensures
        r == spec_parse_add_sub_ext_reg(raw),
{
    // x_x_x_01011_xx_1_xxxxx_xxx_xxx_xxxxx_xxxxx
    if raw & 0x1f20_0000 != 0x0b20_0000 {
        return None;
    }
    let sf_op_s = extract_u8(29..32, raw);
    let opt = extract_u8(22..24, raw);
    let rm = extract_u8(16..21, raw);
    let option = extract_u8(13..16, raw);
    let imm3 = extract_u8(10..13, raw);
    let rn = extract_u8(5..10, raw);
    let rd = extract_u8(0..5, raw);
    let data = AddSubtractExtReg {
        rm,
        option,
        imm3,
        rn,
        rd,
    };

    match (sf_op_s, opt) {
        (0b000, 0b00) => Some(AArch64Instr::AddExtReg32(data)),
        (0b001, 0b00) => Some(AArch64Instr::AddsExtReg32(data)),
        (0b010, 0b00) => Some(AArch64Instr::SubExtReg32(data)),
        (0b011, 0b00) => Some(AArch64Instr::SubsExtReg32(data)),
        (0b100, 0b00) => Some(AArch64Instr::AddExtReg64(data)),
        (0b101, 0b00) => Some(AArch64Instr::AddsExtReg64(data)),
        (0b110, 0b00) => Some(AArch64Instr::SubExtReg64(data)),
        (0b111, 0b00) => Some(AArch64Instr::SubsExtReg64(data)),
        _ => None,
    }
}

/// What the bitfield encoding class decodes to.
pub open spec fn spec_parse_bitfield(raw: u32) -> Option<AArch64Instr> {
    if raw & 0x1f80_0000 != 0x1300_0000 {
        None
    } else {
        let sf = field_u8(raw, 31, 32);
        let opc = field_u8(raw, 29, 31);
        let n = field_u8(raw, 22, 23);
        let immr = field_u8(raw, 16, 22);
        let imms = field_u8(raw, 10, 16);
        let rn = field_u8(raw, 5, 10);
        let rd = field_u8(raw, 0, 5);
        let data = Bitfield {
            n,
            immr,
            imms,
            rn,
            rd,
        };

        match (sf, opc, n) {
            (0b0, 0b00, 0b0) => Some(AArch64Instr::Sbfm32(data)),
            (0b0, 0b01, 0b0) => Some(AArch64Instr::Bfm32(data)),
            (0b0, 0b10, 0b0) => Some(AArch64Instr::Ubfm32(data)),
            (0b1, 0b00, 0b1) => Some(AArch64Instr::Sbfm64(data)),
            (0b1, 0b01, 0b1) => Some(AArch64Instr::Bfm64(data)),
            (0b1, 0b10, 0b1) => Some(AArch64Instr::Ubfm64(data)),

            _ => None,
        }
    }
}

/// Decodes the bitfield encoding class.
fn parse_bitfield(raw: u32) -> (r: Option<AArch64Instr>)
    ensures
        r == spec_parse_bitfield(raw),
{
    // x_xx_100110_x_xxxxxx_xxxxxx_xxxxx_xxxxx
    if raw & 0x1f80_0000 != 0x1300_0000 {
        return None;
    }
    let sf = extract_u8(31..32, raw);
    let opc = extract_u8(29..31, raw);
    let n = extract_u8(22..23, raw);
    let immr = extract_u8(16..22, raw);
    let imms = extract_u8(10..16, raw);
    let rn = extract_u8(5..10, raw);
    let rd = extract_u8(0..5, raw);
    let data = Bitfield {
        n,
        immr,
        imms,
        rn,
        rd,
    };

    match (sf, opc, n) {
        (0b0, 0b00, 0b0) => Some(AArch64Instr::Sbfm32(data)),
        (0b0, 0b01, 0b0) => Some(AArch64Instr::Bfm32(data)),
        (0b0, 0b10, 0b0) => Some(AArch64Instr::Ubfm32(data)),
        (0b1, 0b00, 0b1) => Some(AArch64Instr::Sbfm64(data)),
        (0b1, 0b01, 0b1) => Some(AArch64Instr::Bfm64(data)),
        (0b1, 0b10, 0b1) => Some(AArch64Instr::Ubfm64(data)),

        _ => None,
    }
}

/// What the logical imm encoding class decodes to.
pub open spec fn spec_parse_logical_imm(raw: u32) -> Option<AArch64Instr> {
    if raw & 0x1f80_0000 != 0x1200_0000 {
        None
    } else {
        let sf = field_u8(raw, 31, 32);
        let opc = field_u8(raw, 29, 31);
        let n = field_u8(raw, 22, 23);
        let immr = field_u8(raw, 16, 22);
        let imms = field_u8(raw, 10, 16);
        let rn = field_u8(raw, 5, 10);
        let rd = field_u8(raw, 0, 5);
        let data = LogicalImm {
            n,
            immr,
            imms,
            rn,
            rd,
        };

        match (sf, opc, n) {
            (0b0, 0b00, 0b0) => Some(AArch64Instr::AndImm32(data)),
            (0b0, 0b01, 0b0) => Some(AArch64Instr::OrrImm32(data)),
            (0b0, 0b10, 0b0) => Some(AArch64Instr::EorImm32(data)),
            (0b0, 0b11, 0b0) => Some(AArch64Instr::AndsImm32(data)),
            (0b1, 0b00, _) => Some(AArch64Instr::AndImm64(data)),
            (0b1, 0b01, _) => Some(AArch64Instr::OrrImm64(data)),
            (0b1, 0b10, _) => Some(AArch64Instr::EorImm64(data)),
            (0b1, 0b11, _) => Some(AArch64Instr::AndsImm64(data)),

            _ => None,
        }
    }
}

/// Decodes the logical imm encoding class.
fn parse_logical_imm(raw: u32) -> (r: Option<AArch64Instr>)
    ensures
        r == spec_parse_logical_imm(raw),
{
    // x_xx_100100_x_xxxxxx_xxxxxx_xxxxx_xxxxx
    if raw & 0x1f80_0000 != 0x1200_0000 {
        return None;
    }
    let sf = extract_u8(31..32, raw);
    let opc = extract_u8(29..31, raw);
    let n = extract_u8(22..23, raw);
    let immr = extract_u8(16..22, raw);
    let imms = extract_u8(10..16, raw);
    let rn = extract_u8(5..10, raw);
    let rd = extract_u8(0..5, raw);
    let data = LogicalImm {
        n,
        immr,
        imms,
        rn,
        rd,
    };

    match (sf, opc, n) {
        (0b0, 0b00, 0b0) => Some(AArch64Instr::AndImm32(data)),
        (0b0, 0b01, 0b0) => Some(AArch64Instr::OrrImm32(data)),
        (0b0, 0b10, 0b0) => Some(AArch64Instr::EorImm32(data)),
        (0b0, 0b11, 0b0) => Some(AArch64Instr::AndsImm32(data)),
        (0b1, 0b00, _) => Some(AArch64Instr::AndImm64(data)),
        (0b1, 0b01, _) => Some(AArch64Instr::OrrImm64(data)),
        (0b1, 0b10, _) => Some(AArch64Instr::EorImm64(data)),
        (0b1, 0b11, _) => Some(AArch64Instr::AndsImm64(data)),

        _ => None,
    }
}

/// What the load store reg pair offset encoding class decodes to.
pub open spec fn spec_parse_load_store_reg_pair_offset(raw: u32) -> Option<AArch64Instr> {
    if raw & 0x3b80_0000 != 0x2900_0000 {
        None
    } else {
        let opc = field_u8(raw, 30, 32);
        let v = field_u8(raw, 26, 27);
        let l = field_u8(raw, 22, 23);
        let imm7 = field_u8(raw, 15, 22);
        let rt2 = field_u8(raw, 10, 15);
        let rn = field_u8(raw, 5, 10);
        let rt = field_u8(raw, 0, 5);
        let data = LoadStoreRegPair {
            imm7,
            o: 0b010,
            rt2,
            rn,
            rt,
        };

        match (opc, v, l) {
            (0b00, 0b0, 0b0) => Some(AArch64Instr::StpVar32(data)),
            (0b00, 0b0, 0b1) => Some(AArch64Instr::LdpVar32(data)),
            (0b00, 0b1, 0b0) => Some(AArch64Instr::StpSimdFPVar32(data)),
            (0b00, 0b1, 0b1) => Some(AArch64Instr::LdpSimdFPVar32(data)),
            (0b01, 0b0, 0b0) => Some(AArch64Instr::Stgp(data)),
            (0b01, 0b0, 0b1) => Some(AArch64Instr::Ldpsw(data)),
            (0b01, 0b1, 0b0) => Some(AArch64Instr::StpSimdFPVar64(data)),
            (0b01, 0b1, 0b1) => Some(AArch64Instr::LdpSimdFPVar64(data)),
            (0b10, 0b0, 0b0) => Some(AArch64Instr::StpVar64(data)),
            (0b10, 0b0, 0b1) => Some(AArch64Instr::LdpVar64(data)),
            (0b10, 0b1, 0b0) => Some(AArch64Instr::StpSimdFpVar128(data)),
            (0b10, 0b1, 0b1) => Some(AArch64Instr::LdpSimdFpVar128(data)),
            _ => None,
        }
    }
}

/// Decodes the load store reg pair offset encoding class.
fn parse_load_store_reg_pair_offset(raw: u32) -> (r: Option<AArch64Instr>)
    ensures
        r == spec_parse_load_store_reg_pair_offset(raw),
{
    // xx_101_x_010_x_xxxxxxx_xxxxx_xxxxx_xxxxx
    if raw & 0x3b80_0000 != 0x2900_0000 {
        return None;
    }
    let opc = extract_u8(30..32, raw);
    let v = extract_u8(26..27, raw);
    let l = extract_u8(22..23, raw);
    let imm7 = extract_u8(15..22, raw);
    let rt2 = extract_u8(10..15, raw);
    let rn = extract_u8(5..10, raw);
    let rt = extract_u8(0..5, raw);
    let data = LoadStoreRegPair {
        imm7,
        o: 0b010,
        rt2,
        rn,
        rt,
    };

    match (opc, v, l) {
        (0b00, 0b0, 0b0) => Some(AArch64Instr::StpVar32(data)),
        (0b00, 0b0, 0b1) => Some(AArch64Instr::LdpVar32(data)),
        (0b00, 0b1, 0b0) => Some(AArch64Instr::StpSimdFPVar32(data)),
        (0b00, 0b1, 0b1) => Some(AArch64Instr::LdpSimdFPVar32(data)),
        (0b01, 0b0, 0b0) => Some(AArch64Instr::Stgp(data)),
        (0b01, 0b0, 0b1) => Some(AArch64Instr::Ldpsw(data)),
        (0b01, 0b1, 0b0) => Some(AArch64Instr::StpSimdFPVar64(data)),
        (0b01, 0b1, 0b1) => Some(AArch64Instr::LdpSimdFPVar64(data)),
        (0b10, 0b0, 0b0) => Some(AArch64Instr::StpVar64(data)),
        (0b10, 0b0, 0b1) => Some(AArch64Instr::LdpVar64(data)),
        (0b10, 0b1, 0b0) => Some(AArch64Instr::StpSimdFpVar128(data)),
        (0b10, 0b1, 0b1) => Some(AArch64Instr::LdpSimdFpVar128(data)),
        _ => None,
    }
}

/// What the add sub imm with tags encoding class decodes to.
pub open spec fn spec_parse_add_sub_imm_with_tags(raw: u32) -> Option<AArch64Instr> {
    if raw & 0x1f80_0000 != 0x1180_0000 {
        None
    } else {
        let sf_op_s = field_u8(raw, 29, 32);
        let o2 = field_u8(raw, 22, 23);
        let uimm6 = field_u8(raw, 16, 22);
        let op3 = field_u8(raw, 14, 16);
        let uimm4 = field_u8(raw, 10, 14);
        let rn = field_u8(raw, 5, 10);
        let rd = field_u8(raw, 0, 5);
        let data = AddSubImmWithTags {
            o2,
            uimm6,
            op3,
            uimm4,
            rn,
            rd,
        };

        match (sf_op_s, o2) {
            (0b100, 0b0) => Some(AArch64Instr::Addg(data)),
            (0b110, 0b0) => Some(AArch64Instr::Subg(data)),
            _ => None,
        }
    }
}

/// Decodes the add sub imm with tags encoding class.
fn parse_add_sub_imm_with_tags(raw: u32) -> (r: Option<AArch64Instr>)
    ensures
        r == spec_parse_add_sub_imm_with_tags(raw),
{
    // x_x_x_100011_x_xxxxxx_xx_xxxx_xxxxx_xxxxx
    if raw & 0x1f80_0000 != 0x1180_0000 {
        return None;
    }
    let sf_op_s = extract_u8(29..32, raw);
    let o2 = extract_u8(22..23, raw);
    let uimm6 = extract_u8(16..22, raw);
    let op3 = extract_u8(14..16, raw);
    let uimm4 = extract_u8(10..14, raw);
    let rn = extract_u8(5..10, raw);
    let rd = extract_u8(0..5, raw);
    let data = AddSubImmWithTags {
        o2,
        uimm6,
        op3,
        uimm4,
        rn,
        rd,
    };

    match (sf_op_s, o2) {
        (0b100, 0b0) => Some(AArch64Instr::Addg(data)),
        (0b110, 0b0) => Some(AArch64Instr::Subg(data)),
        _ => None,
    }
}

/// What the extract encoding class decodes to.
pub open spec fn spec_parse_extract(raw: u32) -> Option<AArch64Instr> {
    if raw & 0x1f80_0000 != 0x1380_0000 {
        None
    } else {
        let sf_op21 = field_u8(raw, 29, 32);
        let n = field_u8(raw, 22, 23);
        let o0 = field_u8(raw, 21, 22);
        let rm = field_u8(raw, 16, 21);
        let imms = field_u8(raw, 10, 16);
        let rn = field_u8(raw, 5, 10);
        let rd = field_u8(raw, 0, 5);
        let data = ExtractImm {
            rm,
            imms,
            rn,
            rd,
        };

        match (sf_op21, n, o0, imms) {
            (0b000, 0b0, 0b0, imms) if (imms & 0b100000) == 0b000000 => {
                Some(AArch64Instr::Extr32(data))
            }
            (0b100, 1, 0, _) => Some(AArch64Instr::Extr64(data)),
            _ => None,
        }
    }
}

/// Decodes the extract encoding class.
fn parse_extract(raw: u32) -> (r: Option<AArch64Instr>)
    ensures
        r == spec_parse_extract(raw),
{
    // x_xx_100111_x_x_xxxxx_xxxxxx_xxxxx_xxxxx
    if raw & 0x1f80_0000 != 0x1380_0000 {
        return None;
    }
    let sf_op21 = extract_u8(29..32, raw);
    let n = extract_u8(22..23, raw);
    let o0 = extract_u8(21..22, raw);
    let rm = extract_u8(16..21, raw);
    let imms = extract_u8(10..16, raw);
    let rn = extract_u8(5..10, raw);
    let rd = extract_u8(0..5, raw);
    let data = ExtractImm {
        rm,
        imms,
        rn,
        rd,
    };

    match (sf_op21, n, o0, imms) {
        (0b000, 0b0, 0b0, imms) if (imms & 0b100000) == 0b000000 => {
            Some(AArch64Instr::Extr32(data))
        }
        (0b100, 1, 0, _) => Some(AArch64Instr::Extr64(data)),
        _ => None,
    }
}

/// What the data proc 1src encoding class decodes to.
pub open spec fn spec_parse_data_proc_1src(raw: u32) -> Option<AArch64Instr> {
    if raw & 0x5fe0_0000 != 0x5ac0_0000 {
        None
    } else {
        let sf = field_u8(raw, 31, 32);
        let s = field_u8(raw, 29, 30);
        let opcode2 = field_u8(raw, 16, 21);
        let opcode = field_u8(raw, 10, 16);
        let rn = field_u8(raw, 5, 10);
        let rd = field_u8(raw, 0, 5);
        let data = RnRd {
            rn,
            rd,
        };

        match (sf, s, opcode2, opcode) {
            (0b0, 0b0, 0b00000, 0b000000) => Some(AArch64Instr::RbitVar32(data)),
            (0b0, 0b0, 0b00000, 0b000001) => Some(AArch64Instr::Rev16Var32(data)),
            (0b0, 0b0, 0b00000, 0b000010) => Some(AArch64Instr::RevVar32(data)),
            (0b0, 0b0, 0b00000, 0b000100) => Some(AArch64Instr::ClzVar32(data)),
            (0b0, 0b0, 0b00000, 0b000101) => Some(AArch64Instr::ClsVar32(data)),
            (0b1, 0b0, 0b00000, 0b000000) => Some(AArch64Instr::RbitVar64(data)),
            (0b1, 0b0, 0b00000, 0b000001) => Some(AArch64Instr::Rev16Var64(data)),
            (0b1, 0b0, 0b00000, 0b000010) => Some(AArch64Instr::Rev32(data)),
            (0b1, 0b0, 0b00000, 0b000011) => Some(AArch64Instr::RevVar64(data)),
            (0b1, 0b0, 0b00000, 0b000100) => Some(AArch64Instr::ClzVar64(data)),
            (0b1, 0b0, 0b00000, 0b000101) => Some(AArch64Instr::ClsVar64(data)),
            _ => None,
        }
    }
}

/// Decodes the data proc 1src encoding class.
fn parse_data_proc_1src(raw: u32) -> (r: Option<AArch64Instr>)
    ensures
        r == spec_parse_data_proc_1src(raw),
{
    // x_1_x_11010110_xxxxx_xxxxxx_xxxxx_xxxxx
    if raw & 0x5fe0_0000 != 0x5ac0_0000 {
        return None;
    }
    let sf = extract_u8(31..32, raw);
    let s = extract_u8(29..30, raw);
    let opcode2 = extract_u8(16..21, raw);
    let opcode = extract_u8(10..16, raw);
    let rn = extract_u8(5..10, raw);
    let rd = extract_u8(0..5, raw);
    let data = RnRd {
        rn,
        rd,
    };

    match (sf, s, opcode2, opcode) {
        (0b0, 0b0, 0b00000, 0b000000) => Some(AArch64Instr::RbitVar32(data)),
        (0b0, 0b0, 0b00000, 0b000001) => Some(AArch64Instr::Rev16Var32(data)),
        (0b0, 0b0, 0b00000, 0b000010) => Some(AArch64Instr::RevVar32(data)),
        (0b0, 0b0, 0b00000, 0b000100) => Some(AArch64Instr::ClzVar32(data)),
        (0b0, 0b0, 0b00000, 0b000101) => Some(AArch64Instr::ClsVar32(data)),
        (0b1, 0b0, 0b00000, 0b000000) => Some(AArch64Instr::RbitVar64(data)),
        (0b1, 0b0, 0b00000, 0b000001) => Some(AArch64Instr::Rev16Var64(data)),
        (0b1, 0b0, 0b00000, 0b000010) => Some(AArch64Instr::Rev32(data)),
        (0b1, 0b0, 0b00000, 0b000011) => Some(AArch64Instr::RevVar64(data)),
        (0b1, 0b0, 0b00000, 0b000100) => Some(AArch64Instr::ClzVar64(data)),
        (0b1, 0b0, 0b00000, 0b000101) => Some(AArch64Instr::ClsVar64(data)),
        _ => None,
    }
}

/// What the compare and branch imm encoding class decodes to.
pub open spec fn spec_parse_compare_and_branch_imm(raw: u32) -> Option<AArch64Instr> {
    if raw & 0x7e00_0000 != 0x3400_0000 {
        None
    } else {
        let sf = field_u8(raw, 31, 32);
        let op = field_u8(raw, 24, 25);
        let imm19 = bit_field32(raw, 5, 24);
        let rt = field_u8(raw, 0, 5);
        let data = Imm19Rt {
            imm19,
            rt,
        };

        match (sf, op) {
            (0b0, 0b0) => Some(AArch64Instr::Cbz32(data)),
            (0b0, 0b1) => Some(AArch64Instr::Cbnz32(data)),
            (0b1, 0b0) => Some(AArch64Instr::Cbz64(data)),
            (0b1, 0b1) => Some(AArch64Instr::Cbnz64(data)),
            _ => None,
        }
    }
}

/// Decodes the compare and branch imm encoding class.
fn parse_compare_and_branch_imm(raw: u32) -> (r: Option<AArch64Instr>)
    ensures
        r == spec_parse_compare_and_branch_imm(raw),
{
    // x_011010_x_xxxxxxxxxxxxxxxxxxx_xxxxx
    if raw & 0x7e00_0000 != 0x3400_0000 {
        return None;
    }
    let sf = extract_u8(31..32, raw);
    let op = extract_u8(24..25, raw);
    let imm19 = extract_bits32(5..24, raw);
    let rt = extract_u8(0..5, raw);
    let data = Imm19Rt {
        imm19,
        rt,
    };

    match (sf, op) {
        (0b0, 0b0) => Some(AArch64Instr::Cbz32(data)),
        (0b0, 0b1) => Some(AArch64Instr::Cbnz32(data)),
        (0b1, 0b0) => Some(AArch64Instr::Cbz64(data)),
        (0b1, 0b1) => Some(AArch64Instr::Cbnz64(data)),
        _ => None,
    }
}

/// What the data proccessing 3src encoding class decodes to.
pub open spec fn spec_parse_data_proccessing_3src(raw: u32) -> Option<AArch64Instr> {
    if raw & 0x1f00_0000 != 0x1b00_0000 {
        None
    } else {
        let sf = field_u8(raw, 31, 32);
        let op54 = field_u8(raw, 29, 31);
        let op31 = field_u8(raw, 21, 24);
        let rm = field_u8(raw, 16, 21);
        let o0 = field_u8(raw, 15, 16);
        let ra = field_u8(raw, 10, 15);
        let rn = field_u8(raw, 5, 10);
        let rd = field_u8(raw, 0, 5);
        let data = DataProc3Src {
            rm,
            ra,
            rn,
            rd,
        };

        match (sf, op54, op31, o0) {
            (0b0, 0b00, 0b000, 0b0) => Some(AArch64Instr::Madd32(data)),
            (0b0, 0b00, 0b000, 0b1) => Some(AArch64Instr::Msub32(data)),
            (0b1, 0b00, 0b000, 0b0) => Some(AArch64Instr::Madd64(data)),
            (0b1, 0b00, 0b000, 0b1) => Some(AArch64Instr::Msub64(data)),
            (0b1, 0b00, 0b001, 0b0) => Some(AArch64Instr::Smaddl(data)),
            (0b1, 0b00, 0b001, 0b1) => Some(AArch64Instr::Smsubl(data)),
            (0b1, 0b00, 0b010, 0b0) => Some(AArch64Instr::Smulh(data)),
            (0b1, 0b00, 0b101, 0b0) => Some(AArch64Instr::Umaddl(data)),
            (0b1, 0b00, 0b101, 0b1) => Some(AArch64Instr::Umsubl(data)),
            (0b1, 0b00, 0b110, 0b0) => Some(AArch64Instr::Umulh(data)),
            _ => None,
        }
    }
}

/// Decodes the data proccessing 3src encoding class.
fn parse_data_proccessing_3src(raw: u32) -> (r: Option<AArch64Instr>)
    ensures
        r == spec_parse_data_proccessing_3src(raw),
{
    // x_xx_11011_xxx_xxxxx_x_xxxxx_xxxxx_xxxxx
    if raw & 0x1f00_0000 != 0x1b00_0000 {
        return None;
    }
    let sf = extract_u8(31..32, raw);
    let op54 = extract_u8(29..31, raw);
    let op31 = extract_u8(21..24, raw);
    let rm = extract_u8(16..21, raw);
    let o0 = extract_u8(15..16, raw);
    let ra = extract_u8(10..15, raw);
    let rn = extract_u8(5..10, raw);
    let rd = extract_u8(0..5, raw);
    let data = DataProc3Src {
        rm,
        ra,
        rn,
        rd,
    };

    match (sf, op54, op31, o0) {
        (0b0, 0b00, 0b000, 0b0) => Some(AArch64Instr::Madd32(data)),
        (0b0, 0b00, 0b000, 0b1) => Some(AArch64Instr::Msub32(data)),
        (0b1, 0b00, 0b000, 0b0) => Some(AArch64Instr::Madd64(data)),
        (0b1, 0b00, 0b000, 0b1) => Some(AArch64Instr::Msub64(data)),
        (0b1, 0b00, 0b001, 0b0) => Some(AArch64Instr::Smaddl(data)),
        (0b1, 0b00, 0b001, 0b1) => Some(AArch64Instr::Smsubl(data)),
        (0b1, 0b00, 0b010, 0b0) => Some(AArch64Instr::Smulh(data)),
        (0b1, 0b00, 0b101, 0b0) => Some(AArch64Instr::Umaddl(data)),
        (0b1, 0b00, 0b101, 0b1) => Some(AArch64Instr::Umsubl(data)),
        (0b1, 0b00, 0b110, 0b0) => Some(AArch64Instr::Umulh(data)),
        _ => None,
    }
}

/// What the load store reg unscaled imm encoding class decodes to.
pub open spec fn spec_parse_load_store_reg_unscaled_imm(raw: u32) -> Option<AArch64Instr> {
    if raw & 0x3b20_0c00 != 0x3800_0000 {
        None
    } else {
        let size = field_u8(raw, 30, 32);
        let v = field_u8(raw, 26, 27);
        let idxt = field_u8(raw, 24, 26);
        let opc = field_u8(raw, 22, 24);
        let imm9 = field_u16(raw, 12, 21);
        let rn = field_u8(raw, 5, 10);
        let rt = field_u8(raw, 0, 5);
        let data = SizeImm12RnRt {
            idxt,
            size,
            imm12: imm9,
            rn,
            rt,
        };

        match (size, v, opc) {
            (0b00, 0b0, 0b00) => Some(AArch64Instr::Sturb(data)),
            (0b00, 0b0, 0b01) => Some(AArch64Instr::Ldurb(data)),
            (0b00, 0b0, 0b10) => Some(AArch64Instr::Ldursb64(data)),
            (0b00, 0b0, 0b11) => Some(AArch64Instr::Ldursb32(data)),
            (0b00, 0b1, 0b00) => Some(AArch64Instr::SturSimdFP8(data)),
            (0b00, 0b1, 0b01) => Some(AArch64Instr::LdurSimdFP8(data)),
            (0b00, 0b1, 0b10) => Some(AArch64Instr::SturSimdFP128(data)),
            (0b00, 0b1, 0b11) => Some(AArch64Instr::LdurSimdFP128(data)),
            (0b01, 0b0, 0b00) => Some(AArch64Instr::Sturh(data)),
            (0b01, 0b0, 0b01) => Some(AArch64Instr::Ldurh(data)),
            (0b01, 0b0, 0b10) => Some(AArch64Instr::Ldursh64(data)),
            (0b01, 0b0, 0b11) => Some(AArch64Instr::Ldursh32(data)),
            (0b01, 0b1, 0b00) => Some(AArch64Instr::SturSimdFP16(data)),
            (0b01, 0b1, 0b01) => Some(AArch64Instr::LdurSimdFP16(data)),
            (0b10, 0b0, 0b00) => Some(AArch64Instr::Stur32(data)),
            (0b10, 0b0, 0b01) => Some(AArch64Instr::Ldur32(data)),
            (0b10, 0b0, 0b10) => Some(AArch64Instr::Ldursw(data)),
            (0b10, 0b1, 0b00) => Some(AArch64Instr::SturSimdFP32(data)),
            (0b10, 0b1, 0b01) => Some(AArch64Instr::LdurSimdFP32(data)),
            (0b11, 0b0, 0b00) => Some(AArch64Instr::Stur64(data)),
            (0b11, 0b0, 0b01) => Some(AArch64Instr::Ldur64(data)),
            (0b11, 0b0, 0b10) => Some(AArch64Instr::Prefum(data)),
            (0b11, 0b1, 0b00) => Some(AArch64Instr::SturSimdFP64(data)),
            (0b11, 0b1, 0b01) => Some(AArch64Instr::LdurSimdFP64(data)),

            _ => None,
        }
    }
}

/// Decodes the load store reg unscaled imm encoding class.
fn parse_load_store_reg_unscaled_imm(raw: u32) -> (r: Option<AArch64Instr>)
    ensures
        r == spec_parse_load_store_reg_unscaled_imm(raw),
{
    // xx_111_x_00_xx_0_xxxxxxxxx_00_xxxxx_xxxxx
    if raw & 0x3b20_0c00 != 0x3800_0000 {
        return None;
    }
    let size = extract_u8(30..32, raw);
    let v = extract_u8(26..27, raw);
    let idxt = extract_u8(24..26, raw);
    let opc = extract_u8(22..24, raw);
    let imm9 = extract_u16(12..21, raw);
    let rn = extract_u8(5..10, raw);
    let rt = extract_u8(0..5, raw);
    let data = SizeImm12RnRt {
        idxt,
        size,
        imm12: imm9,
        rn,
        rt,
    };

    match (size, v, opc) {
        (0b00, 0b0, 0b00) => Some(AArch64Instr::Sturb(data)),
        (0b00, 0b0, 0b01) => Some(AArch64Instr::Ldurb(data)),
        (0b00, 0b0, 0b10) => Some(AArch64Instr::Ldursb64(data)),
        (0b00, 0b0, 0b11) => Some(AArch64Instr::Ldursb32(data)),
        (0b00, 0b1, 0b00) => Some(AArch64Instr::SturSimdFP8(data)),
        (0b00, 0b1, 0b01) => Some(AArch64Instr::LdurSimdFP8(data)),
        (0b00, 0b1, 0b10) => Some(AArch64Instr::SturSimdFP128(data)),
        (0b00, 0b1, 0b11) => Some(AArch64Instr::LdurSimdFP128(data)),
        (0b01, 0b0, 0b00) => Some(AArch64Instr::Sturh(data)),
        (0b01, 0b0, 0b01) => Some(AArch64Instr::Ldurh(data)),
        (0b01, 0b0, 0b10) => Some(AArch64Instr::Ldursh64(data)),
        (0b01, 0b0, 0b11) => Some(AArch64Instr::Ldursh32(data)),
        (0b01, 0b1, 0b00) => Some(AArch64Instr::SturSimdFP16(data)),
        (0b01, 0b1, 0b01) => Some(AArch64Instr::LdurSimdFP16(data)),
        (0b10, 0b0, 0b00) => Some(AArch64Instr::Stur32(data)),
        (0b10, 0b0, 0b01) => Some(AArch64Instr::Ldur32(data)),
        (0b10, 0b0, 0b10) => Some(AArch64Instr::Ldursw(data)),
        (0b10, 0b1, 0b00) => Some(AArch64Instr::SturSimdFP32(data)),
        (0b10, 0b1, 0b01) => Some(AArch64Instr::LdurSimdFP32(data)),
        (0b11, 0b0, 0b00) => Some(AArch64Instr::Stur64(data)),
        (0b11, 0b0, 0b01) => Some(AArch64Instr::Ldur64(data)),
        (0b11, 0b0, 0b10) => Some(AArch64Instr::Prefum(data)),
        (0b11, 0b1, 0b00) => Some(AArch64Instr::SturSimdFP64(data)),
        (0b11, 0b1, 0b01) => Some(AArch64Instr::LdurSimdFP64(data)),

        _ => None,
    }
}

/// What the sys reg mov encoding class decodes to.
pub open spec fn spec_parse_sys_reg_mov(raw: u32) -> Option<AArch64Instr> {
    if raw & 0xffd0_0000 != 0xd510_0000 {
        None
    } else {
        let l = field_u8(raw, 21, 22);
        let o0 = field_u8(raw, 19, 20);
        let op1 = field_u8(raw, 16, 19);
        let crn = field_u8(raw, 12, 16);
        let crm = field_u8(raw, 8, 12);
        let op2 = field_u8(raw, 5, 8);
        let rt = field_u8(raw, 0, 5);
        let data = SysRegMov {
            o0,
            op1,
            crn,
            crm,
            op2,
            rt,
        };

        match l {
            0 => Some(AArch64Instr::MsrReg(data)),
            1 => Some(AArch64Instr::Mrs(data)),
            _ => None,
        }
    }
}

/// Decodes the sys reg mov encoding class.
fn parse_sys_reg_mov(raw: u32) -> (r: Option<AArch64Instr>)
    ensures
        r == spec_parse_sys_reg_mov(raw),
{
    // 1101010100_x_1_x_xxx_xxxx_xxxx_xxx_xxxxx
    if raw & 0xffd0_0000 != 0xd510_0000 {
        return None;
    }
    let l = extract_u8(21..22, raw);
    let o0 = extract_u8(19..20, raw);
    let op1 = extract_u8(16..19, raw);
    let crn = extract_u8(12..16, raw);
    let crm = extract_u8(8..12, raw);
    let op2 = extract_u8(5..8, raw);
    let rt = extract_u8(0..5, raw);
    let data = SysRegMov {
        o0,
        op1,
        crn,
        crm,
        op2,
        rt,
    };

    match l {
        0 => Some(AArch64Instr::MsrReg(data)),
        1 => Some(AArch64Instr::Mrs(data)),
        _ => None,
    }
}

/// What the load store reg pair pre indexed encoding class decodes to.
pub open spec fn spec_parse_load_store_reg_pair_pre_indexed(raw: u32) -> Option<AArch64Instr> {
    if raw & 0x3b80_0000 != 0x2980_0000 {
        None
    } else {
        let opc = field_u8(raw, 30, 32);
        let v = field_u8(raw, 26, 27);
        let l = field_u8(raw, 22, 23);
        let imm7 = field_u8(raw, 15, 22);
        let rt2 = field_u8(raw, 10, 15);
        let rn = field_u8(raw, 5, 10);
        let rt = field_u8(raw, 0, 5);
        let data = LoadStoreRegPair {
            o: 0b011,
            imm7,
            rt2,
            rn,
            rt,
        };

        match (opc, v, l) {
            (0b00, 0b0, 0b0) => Some(AArch64Instr::StpVar32(data)),
            (0b00, 0b0, 0b1) => Some(AArch64Instr::LdpVar32(data)),
            (0b00, 0b1, 0b0) => Some(AArch64Instr::StpSimdFPVar32(data)),
            (0b00, 0b1, 0b1) => Some(AArch64Instr::LdpSimdFPVar32(data)),
            (0b01, 0b0, 0b0) => Some(AArch64Instr::Stgp(data)),
            (0b01, 0b0, 0b1) => Some(AArch64Instr::Ldpsw(data)),
            (0b01, 0b1, 0b0) => Some(AArch64Instr::StpSimdFPVar64(data)),
            (0b01, 0b1, 0b1) => Some(AArch64Instr::LdpSimdFPVar64(data)),
            (0b10, 0b0, 0b0) => Some(AArch64Instr::StpVar64(data)),
            (0b10, 0b0, 0b1) => Some(AArch64Instr::LdpVar64(data)),
            (0b10, 0b1, 0b0) => Some(AArch64Instr::StpSimdFpVar128(data)),
            (0b10, 0b1, 0b1) => Some(AArch64Instr::LdpSimdFpVar128(data)),
            _ => None,
        }
    }
}

/// Decodes the load store reg pair pre indexed encoding class.
fn parse_load_store_reg_pair_pre_indexed(raw: u32) -> (r: Option<AArch64Instr>)
    ensures
        r == spec_parse_load_store_reg_pair_pre_indexed(raw),
{
    // xx_101_x_011_x_xxxxxxx_xxxxx_xxxxx_xxxxx
    if raw & 0x3b80_0000 != 0x2980_0000 {
        return None;
    }
    let opc = extract_u8(30..32, raw);
    let v = extract_u8(26..27, raw);
    let l = extract_u8(22..23, raw);
    let imm7 = extract_u8(15..22, raw);
    let rt2 = extract_u8(10..15, raw);
    let rn = extract_u8(5..10, raw);
    let rt = extract_u8(0..5, raw);
    let data = LoadStoreRegPair {
        o: 0b011,
        imm7,
        rt2,
        rn,
        rt,
    };

    match (opc, v, l) {
        (0b00, 0b0, 0b0) => Some(AArch64Instr::StpVar32(data)),
        (0b00, 0b0, 0b1) => Some(AArch64Instr::LdpVar32(data)),
        (0b00, 0b1, 0b0) => Some(AArch64Instr::StpSimdFPVar32(data)),
        (0b00, 0b1, 0b1) => Some(AArch64Instr::LdpSimdFPVar32(data)),
        (0b01, 0b0, 0b0) => Some(AArch64Instr::Stgp(data)),
        (0b01, 0b0, 0b1) => Some(AArch64Instr::Ldpsw(data)),
        (0b01, 0b1, 0b0) => Some(AArch64Instr::StpSimdFPVar64(data)),
        (0b01, 0b1, 0b1) => Some(AArch64Instr::LdpSimdFPVar64(data)),
        (0b10, 0b0, 0b0) => Some(AArch64Instr::StpVar64(data)),
        (0b10, 0b0, 0b1) => Some(AArch64Instr::LdpVar64(data)),
        (0b10, 0b1, 0b0) => Some(AArch64Instr::StpSimdFpVar128(data)),
        (0b10, 0b1, 0b1) => Some(AArch64Instr::LdpSimdFpVar128(data)),
        _ => None,
    }
}

/// What the load store reg pair post indexed encoding class decodes to.
pub open spec fn spec_parse_load_store_reg_pair_post_indexed(raw: u32) -> Option<AArch64Instr> {
    if raw & 0x3b80_0000 != 0x2880_0000 {
        None
    } else {
        let opc = field_u8(raw, 30, 32);
        let v = field_u8(raw, 26, 27);
        let l = field_u8(raw, 22, 23);
        let imm7 = field_u8(raw, 15, 22);
        let rt2 = field_u8(raw, 10, 15);
        let rn = field_u8(raw, 5, 10);
        let rt = field_u8(raw, 0, 5);
        let data = LoadStoreRegPair {
            o: 0b001,
            imm7,
            rt2,
            rn,
            rt,
        };

        match (opc, v, l) {
            (0b00, 0b0, 0b0) => Some(AArch64Instr::StpVar32(data)),
            (0b00, 0b0, 0b1) => Some(AArch64Instr::LdpVar32(data)),
            (0b00, 0b1, 0b0) => Some(AArch64Instr::StpSimdFPVar32(data)),
            (0b00, 0b1, 0b1) => Some(AArch64Instr::LdpSimdFPVar32(data)),
            (0b01, 0b0, 0b0) => Some(AArch64Instr::Stgp(data)),
            (0b01, 0b0, 0b1) => Some(AArch64Instr::Ldpsw(data)),
            (0b01, 0b1, 0b0) => Some(AArch64Instr::StpSimdFPVar64(data)),
            (0b01, 0b1, 0b1) => Some(AArch64Instr::LdpSimdFPVar64(data)),
            (0b10, 0b0, 0b0) => Some(AArch64Instr::StpVar64(data)),
            (0b10, 0b0, 0b1) => Some(AArch64Instr::LdpVar64(data)),
            (0b10, 0b1, 0b0) => Some(AArch64Instr::StpSimdFpVar128(data)),
            (0b10, 0b1, 0b1) => Some(AArch64Instr::LdpSimdFpVar128(data)),
            _ => None,
        }
    }
}

/// Decodes the load store reg pair post indexed encoding class.
fn parse_load_store_reg_pair_post_indexed(raw: u32) -> (r: Option<AArch64Instr>)
    ensures
        r == spec_parse_load_store_reg_pair_post_indexed(raw),
{
    // xx_101_x_001_x_xxxxxxx_xxxxx_xxxxx_xxxxx
    if raw & 0x3b80_0000 != 0x2880_0000 {
        return None;
    }
    let opc = extract_u8(30..32, raw);
    let v = extract_u8(26..27, raw);
    let l = extract_u8(22..23, raw);
    let imm7 = extract_u8(15..22, raw);
    let rt2 = extract_u8(10..15, raw);
    let rn = extract_u8(5..10, raw);
    let rt = extract_u8(0..5, raw);
    let data = LoadStoreRegPair {
        o: 0b001,
        imm7,
        rt2,
        rn,
        rt,
    };

    match (opc, v, l) {
        (0b00, 0b0, 0b0) => Some(AArch64Instr::StpVar32(data)),
        (0b00, 0b0, 0b1) => Some(AArch64Instr::LdpVar32(data)),
        (0b00, 0b1, 0b0) => Some(AArch64Instr::StpSimdFPVar32(data)),
        (0b00, 0b1, 0b1) => Some(AArch64Instr::LdpSimdFPVar32(data)),
        (0b01, 0b0, 0b0) => Some(AArch64Instr::Stgp(data)),
        (0b01, 0b0, 0b1) => Some(AArch64Instr::Ldpsw(data)),
        (0b01, 0b1, 0b0) => Some(AArch64Instr::StpSimdFPVar64(data)),
        (0b01, 0b1, 0b1) => Some(AArch64Instr::LdpSimdFPVar64(data)),
        (0b10, 0b0, 0b0) => Some(AArch64Instr::StpVar64(data)),
        (0b10, 0b0, 0b1) => Some(AArch64Instr::LdpVar64(data)),
        (0b10, 0b1, 0b0) => Some(AArch64Instr::StpSimdFpVar128(data)),
        (0b10, 0b1, 0b1) => Some(AArch64Instr::LdpSimdFpVar128(data)),
        _ => None,
    }
}

/// What the data proc 2src encoding class decodes to.
pub open spec fn spec_parse_data_proc_2src(raw: u32) -> Option<AArch64Instr> {
    if raw & 0x5fe0_0000 != 0x1ac0_0000 {
        None
    } else {
        let sf = field_u8(raw, 31, 32);
        let s = field_u8(raw, 29, 30);
        let rm = field_u8(raw, 16, 21);
        let opcode = field_u8(raw, 10, 16);
        let rn = field_u8(raw, 5, 10);
        let rd = field_u8(raw, 0, 5);
        let data = DataProc2Src {
            rm,
            rn,
            rd,
        };

        match (sf, s, opcode) {
            (0b0, 0b0, 0b000010) => Some(AArch64Instr::UdivVar32(data)),
            (0b0, 0b0, 0b000011) => Some(AArch64Instr::SdivVar32(data)),
            (0b0, 0b0, 0b001000) => Some(AArch64Instr::LslvVar32(data)),
            (0b0, 0b0, 0b001001) => Some(AArch64Instr::LsrvVar32(data)),
            (0b0, 0b0, 0b001010) => Some(AArch64Instr::AsrvVar32(data)),
            (0b0, 0b0, 0b001011) => Some(AArch64Instr::RorvVar32(data)),
            (0b1, 0b0, 0b000010) => Some(AArch64Instr::UdivVar64(data)),
            (0b1, 0b0, 0b000011) => Some(AArch64Instr::SdivVar64(data)),
            (0b1, 0b0, 0b001000) => Some(AArch64Instr::LslvVar64(data)),
            (0b1, 0b0, 0b001001) => Some(AArch64Instr::LsrvVar64(data)),
            (0b1, 0b0, 0b001010) => Some(AArch64Instr::AsrvVar64(data)),
            (0b1, 0b0, 0b001011) => Some(AArch64Instr::RorvVar64(data)),

            (0b1, 0b0, 0b001100) => Some(AArch64Instr::Pacga(data)),
            _ => None,
        }
    }
}

/// Decodes the data proc 2src encoding class.
fn parse_data_proc_2src(raw: u32) -> (r: Option<AArch64Instr>)
    ensures
        r == spec_parse_data_proc_2src(raw),
{
    // x_0_x_11010110_xxxxx_xxxxxx_xxxxx_xxxxx
    if raw & 0x5fe0_0000 != 0x1ac0_0000 {
        return None;
    }
    let sf = extract_u8(31..32, raw);
    let s = extract_u8(29..30, raw);
    let rm = extract_u8(16..21, raw);
    let opcode = extract_u8(10..16, raw);
    let rn = extract_u8(5..10, raw);
    let rd = extract_u8(0..5, raw);
    let data = DataProc2Src {
        rm,
        rn,
        rd,
    };

    match (sf, s, opcode) {
        (0b0, 0b0, 0b000010) => Some(AArch64Instr::UdivVar32(data)),
        (0b0, 0b0, 0b000011) => Some(AArch64Instr::SdivVar32(data)),
        (0b0, 0b0, 0b001000) => Some(AArch64Instr::LslvVar32(data)),
        (0b0, 0b0, 0b001001) => Some(AArch64Instr::LsrvVar32(data)),
        (0b0, 0b0, 0b001010) => Some(AArch64Instr::AsrvVar32(data)),
        (0b0, 0b0, 0b001011) => Some(AArch64Instr::RorvVar32(data)),
        (0b1, 0b0, 0b000010) => Some(AArch64Instr::UdivVar64(data)),
        (0b1, 0b0, 0b000011) => Some(AArch64Instr::SdivVar64(data)),
        (0b1, 0b0, 0b001000) => Some(AArch64Instr::LslvVar64(data)),
        (0b1, 0b0, 0b001001) => Some(AArch64Instr::LsrvVar64(data)),
        (0b1, 0b0, 0b001010) => Some(AArch64Instr::AsrvVar64(data)),
        (0b1, 0b0, 0b001011) => Some(AArch64Instr::RorvVar64(data)),

        (0b1, 0b0, 0b001100) => Some(AArch64Instr::Pacga(data)),
        _ => None,
    }
}

/// What the load store reg imm pre indexed encoding class decodes to.
pub open spec fn spec_parse_load_store_reg_imm_pre_indexed(raw: u32) -> Option<AArch64Instr> {
    if raw & 0x3b20_0c00 != 0x3800_0c00 {
        None
    } else {
        let size = field_u8(raw, 30, 32);
        let v = field_u8(raw, 26, 27);
        let idxt = field_u8(raw, 24, 26);
        let opc = field_u8(raw, 22, 24);
        let imm9 = field_u16(raw, 12, 21);
        let rn = field_u8(raw, 5, 10);
        let rt = field_u8(raw, 0, 5);
        let data = SizeImm12RnRt {
            idxt,
            size,
            imm12: imm9,
            rn,
            rt,
        };

        match (size, v, opc) {
            (0b00, 0b0, 0b00) => Some(AArch64Instr::StrbImm(data)),
            (0b00, 0b0, 0b01) => Some(AArch64Instr::LdrbImm(data)),
            (0b00, 0b0, 0b10) => Some(AArch64Instr::LdrsbImm64(data)),
            (0b00, 0b0, 0b11) => Some(AArch64Instr::LdrsbImm32(data)),
            (0b00, 0b1, 0b00) => Some(AArch64Instr::StrImmSimdFP8(data)),
            (0b00, 0b1, 0b01) => Some(AArch64Instr::LdrImmSimdFP8(data)),
            (0b00, 0b1, 0b10) => Some(AArch64Instr::StrImmSimdFP128(data)),
            (0b00, 0b1, 0b11) => Some(AArch64Instr::LdrImmSimdFP128(data)),
            (0b01, 0b0, 0b00) => Some(AArch64Instr::StrhImm(data)),
            (0b01, 0b0, 0b01) => Some(AArch64Instr::LdrhImm(data)),
            (0b01, 0b0, 0b10) => Some(AArch64Instr::LdrshImm64(data)),
            (0b01, 0b0, 0b11) => Some(AArch64Instr::LdrshImm32(data)),
            (0b01, 0b1, 0b00) => Some(AArch64Instr::StrImmSimdFP16(data)),
            (0b01, 0b1, 0b01) => Some(AArch64Instr::LdrImmSimdFP16(data)),

            (0b10, 0b0, 0b00) => Some(AArch64Instr::StrImm32(data)),
            (0b10, 0b0, 0b01) => Some(AArch64Instr::LdrImm32(data)),
            (0b10, 0b0, 0b10) => Some(AArch64Instr::LdrswImm(data)),
            (0b10, 0b1, 0b00) => Some(AArch64Instr::StrImmSimdFP32(data)),
            (0b10, 0b1, 0b01) => Some(AArch64Instr::LdrImmSimdFP32(data)),
            (0b11, 0b0, 0b00) => Some(AArch64Instr::StrImm64(data)),
            (0b11, 0b0, 0b01) => Some(AArch64Instr::LdrImm64(data)),
            (0b11, 0b1, 0b00) => Some(AArch64Instr::StrImmSimdFP64(data)),
            (0b11, 0b1, 0b01) => Some(AArch64Instr::LdrImmSimdFP64(data)),

            _ => None,
        }
    }
}

/// Decodes the load store reg imm pre indexed encoding class.
fn parse_load_store_reg_imm_pre_indexed(raw: u32) -> (r: Option<AArch64Instr>)
    ensures
        r == spec_parse_load_store_reg_imm_pre_indexed(raw),
{
    // xx_111_x_00_xx_0_xxxxxxxxx_11_xxxxx_xxxxx
    if raw & 0x3b20_0c00 != 0x3800_0c00 {
        return None;
    }
    let size = extract_u8(30..32, raw);
    let v = extract_u8(26..27, raw);
    let idxt = extract_u8(24..26, raw);
    let opc = extract_u8(22..24, raw);
    let imm9 = extract_u16(12..21, raw);
    let rn = extract_u8(5..10, raw);
    let rt = extract_u8(0..5, raw);
    let data = SizeImm12RnRt {
        idxt,
        size,
        imm12: imm9,
        rn,
        rt,
    };

    match (size, v, opc) {
        (0b00, 0b0, 0b00) => Some(AArch64Instr::StrbImm(data)),
        (0b00, 0b0, 0b01) => Some(AArch64Instr::LdrbImm(data)),
        (0b00, 0b0, 0b10) => Some(AArch64Instr::LdrsbImm64(data)),
        (0b00, 0b0, 0b11) => Some(AArch64Instr::LdrsbImm32(data)),
        (0b00, 0b1, 0b00) => Some(AArch64Instr::StrImmSimdFP8(data)),
        (0b00, 0b1, 0b01) => Some(AArch64Instr::LdrImmSimdFP8(data)),
        (0b00, 0b1, 0b10) => Some(AArch64Instr::StrImmSimdFP128(data)),
        (0b00, 0b1, 0b11) => Some(AArch64Instr::LdrImmSimdFP128(data)),
        (0b01, 0b0, 0b00) => Some(AArch64Instr::StrhImm(data)),
        (0b01, 0b0, 0b01) => Some(AArch64Instr::LdrhImm(data)),
        (0b01, 0b0, 0b10) => Some(AArch64Instr::LdrshImm64(data)),
        (0b01, 0b0, 0b11) => Some(AArch64Instr::LdrshImm32(data)),
        (0b01, 0b1, 0b00) => Some(AArch64Instr::StrImmSimdFP16(data)),
        (0b01, 0b1, 0b01) => Some(AArch64Instr::LdrImmSimdFP16(data)),

        (0b10, 0b0, 0b00) => Some(AArch64Instr::StrImm32(data)),
        (0b10, 0b0, 0b01) => Some(AArch64Instr::LdrImm32(data)),
        (0b10, 0b0, 0b10) => Some(AArch64Instr::LdrswImm(data)),
        (0b10, 0b1, 0b00) => Some(AArch64Instr::StrImmSimdFP32(data)),
        (0b10, 0b1, 0b01) => Some(AArch64Instr::LdrImmSimdFP32(data)),
        (0b11, 0b0, 0b00) => Some(AArch64Instr::StrImm64(data)),
        (0b11, 0b0, 0b01) => Some(AArch64Instr::LdrImm64(data)),
        (0b11, 0b1, 0b00) => Some(AArch64Instr::StrImmSimdFP64(data)),
        (0b11, 0b1, 0b01) => Some(AArch64Instr::LdrImmSimdFP64(data)),

        _ => None,
    }
}

/// What the load store reg imm post indexed encoding class decodes to.
pub open spec fn spec_parse_load_store_reg_imm_post_indexed(raw: u32) -> Option<AArch64Instr> {
    if raw & 0x3b20_0c00 != 0x3800_0400 {
        None
    } else {
        let size = field_u8(raw, 30, 32);
        let v = field_u8(raw, 26, 27);
        let idxt = field_u8(raw, 24, 26);
        let opc = field_u8(raw, 22, 24);
        let imm9 = field_u16(raw, 12, 21);
        let rn = field_u8(raw, 5, 10);
        let rt = field_u8(raw, 0, 5);
        let data = SizeImm12RnRt {
            idxt,
            size,
            imm12: imm9,
            rn,
            rt,
        };

        match (size, v, opc) {
            (0b00, 0b0, 0b00) => Some(AArch64Instr::StrbImm(data)),
            (0b00, 0b0, 0b01) => Some(AArch64Instr::LdrbImm(data)),
            (0b00, 0b0, 0b10) => Some(AArch64Instr::LdrsbImm64(data)),
            (0b00, 0b0, 0b11) => Some(AArch64Instr::LdrsbImm32(data)),
            (0b00, 0b1, 0b00) => Some(AArch64Instr::StrImmSimdFP8(data)),
            (0b00, 0b1, 0b01) => Some(AArch64Instr::LdrImmSimdFP8(data)),
            (0b00, 0b1, 0b10) => Some(AArch64Instr::StrImmSimdFP128(data)),
            (0b00, 0b1, 0b11) => Some(AArch64Instr::LdrImmSimdFP128(data)),
            (0b01, 0b0, 0b00) => Some(AArch64Instr::StrhImm(data)),
            (0b01, 0b0, 0b01) => Some(AArch64Instr::LdrhImm(data)),
            (0b01, 0b0, 0b10) => Some(AArch64Instr::LdrshImm64(data)),
            (0b01, 0b0, 0b11) => Some(AArch64Instr::LdrshImm32(data)),
            (0b01, 0b1, 0b00) => Some(AArch64Instr::StrImmSimdFP16(data)),
            (0b01, 0b1, 0b01) => Some(AArch64Instr::LdrImmSimdFP16(data)),

            (0b10, 0b0, 0b00) => Some(AArch64Instr::StrImm32(data)),
            (0b10, 0b0, 0b01) => Some(AArch64Instr::LdrImm32(data)),
            (0b10, 0b0, 0b10) => Some(AArch64Instr::LdrswImm(data)),
            (0b10, 0b1, 0b00) => Some(AArch64Instr::StrImmSimdFP32(data)),
            (0b10, 0b1, 0b01) => Some(AArch64Instr::LdrImmSimdFP32(data)),
            (0b11, 0b0, 0b00) => Some(AArch64Instr::StrImm64(data)),
            (0b11, 0b0, 0b01) => Some(AArch64Instr::LdrImm64(data)),
            (0b11, 0b1, 0b00) => Some(AArch64Instr::StrImmSimdFP64(data)),
            (0b11, 0b1, 0b01) => Some(AArch64Instr::LdrImmSimdFP64(data)),

            _ => None,
        }
    }
}

/// Decodes the load store reg imm post indexed encoding class.
fn parse_load_store_reg_imm_post_indexed(raw: u32) -> (r: Option<AArch64Instr>)
    ensures
        r == spec_parse_load_store_reg_imm_post_indexed(raw),
{
    // xx_111_x_00_xx_0_xxxxxxxxx_01_xxxxx_xxxxx
    if raw & 0x3b20_0c00 != 0x3800_0400 {
        return None;
    }
    let size = extract_u8(30..32, raw);
    let v = extract_u8(26..27, raw);
    let idxt = extract_u8(24..26, raw);
    let opc = extract_u8(22..24, raw);
    let imm9 = extract_u16(12..21, raw);
    let rn = extract_u8(5..10, raw);
    let rt = extract_u8(0..5, raw);
    let data = SizeImm12RnRt {
        idxt,
        size,
        imm12: imm9,
        rn,
        rt,
    };

    match (size, v, opc) {
        (0b00, 0b0, 0b00) => Some(AArch64Instr::StrbImm(data)),
        (0b00, 0b0, 0b01) => Some(AArch64Instr::LdrbImm(data)),
        (0b00, 0b0, 0b10) => Some(AArch64Instr::LdrsbImm64(data)),
        (0b00, 0b0, 0b11) => Some(AArch64Instr::LdrsbImm32(data)),
        (0b00, 0b1, 0b00) => Some(AArch64Instr::StrImmSimdFP8(data)),
        (0b00, 0b1, 0b01) => Some(AArch64Instr::LdrImmSimdFP8(data)),
        (0b00, 0b1, 0b10) => Some(AArch64Instr::StrImmSimdFP128(data)),
        (0b00, 0b1, 0b11) => Some(AArch64Instr::LdrImmSimdFP128(data)),
        (0b01, 0b0, 0b00) => Some(AArch64Instr::StrhImm(data)),
        (0b01, 0b0, 0b01) => Some(AArch64Instr::LdrhImm(data)),
        (0b01, 0b0, 0b10) => Some(AArch64Instr::LdrshImm64(data)),
        (0b01, 0b0, 0b11) => Some(AArch64Instr::LdrshImm32(data)),
        (0b01, 0b1, 0b00) => Some(AArch64Instr::StrImmSimdFP16(data)),
        (0b01, 0b1, 0b01) => Some(AArch64Instr::LdrImmSimdFP16(data)),

        (0b10, 0b0, 0b00) => Some(AArch64Instr::StrImm32(data)),
        (0b10, 0b0, 0b01) => Some(AArch64Instr::LdrImm32(data)),
        (0b10, 0b0, 0b10) => Some(AArch64Instr::LdrswImm(data)),
        (0b10, 0b1, 0b00) => Some(AArch64Instr::StrImmSimdFP32(data)),
        (0b10, 0b1, 0b01) => Some(AArch64Instr::LdrImmSimdFP32(data)),
        (0b11, 0b0, 0b00) => Some(AArch64Instr::StrImm64(data)),
        (0b11, 0b0, 0b01) => Some(AArch64Instr::LdrImm64(data)),
        (0b11, 0b1, 0b00) => Some(AArch64Instr::StrImmSimdFP64(data)),
        (0b11, 0b1, 0b01) => Some(AArch64Instr::LdrImmSimdFP64(data)),

        _ => None,
    }
}

/// What the barriers encoding class decodes to.
pub open spec fn spec_parse_barriers(raw: u32) -> Option<AArch64Instr> {
    if raw & 0xffff_f000 != 0xd503_3000 {
        None
    } else {
        let crm = field_u8(raw, 8, 12);
        let op2 = field_u8(raw, 5, 8);
        let rt = field_u8(raw, 0, 5);
        let data = Barriers { crm: crm };

        match (crm, op2, rt) {
            (_, 0b010, 0b11111) => Some(AArch64Instr::Clrex(data)),
            (_, 0b100, 0b11111) => Some(AArch64Instr::DsbEncoding(data)),
            (_, 0b101, 0b11111) => Some(AArch64Instr::Dmb(data)),
            (_, 0b110, 0b11111) => Some(AArch64Instr::Isb(data)),

            _ => None,
        }
    }
}

/// Decodes the barriers encoding class.
fn parse_barriers(raw: u32) -> (r: Option<AArch64Instr>)
    ensures
        r == spec_parse_barriers(raw),
{
    // 11010101000000110011_xxxx_xxx_xxxxx
    if raw & 0xffff_f000 != 0xd503_3000 {
        return None;
    }
    let crm = extract_u8(8..12, raw);
    let op2 = extract_u8(5..8, raw);
    let rt = extract_u8(0..5, raw);
    let data = Barriers { crm: crm };

    match (crm, op2, rt) {
        (_, 0b010, 0b11111) => Some(AArch64Instr::Clrex(data)),
        (_, 0b100, 0b11111) => Some(AArch64Instr::DsbEncoding(data)),
        (_, 0b101, 0b11111) => Some(AArch64Instr::Dmb(data)),
        (_, 0b110, 0b11111) => Some(AArch64Instr::Isb(data)),

        _ => None,
    }
}

/// What the advanced simd copy encoding class decodes to.
pub open spec fn spec_parse_advanced_simd_copy(raw: u32) -> Option<AArch64Instr> {
    if raw & 0x9fe0_8400 != 0x0e00_0400 {
        None
    } else {
        let q = field_u8(raw, 30, 31);
        let op = field_u8(raw, 29, 30);
        let imm5 = field_u8(raw, 16, 21);
        let imm4 = field_u8(raw, 11, 15);
        let rn = field_u8(raw, 5, 10);
        let rd = field_u8(raw, 0, 5);
        let data = AdvancedSimdCopy {
            imm5,
            imm4,
            rn,
            rd,
        };

        match (q, op, imm5, imm4) {
            (_, 0b0, _, 0b0000) => Some(AArch64Instr::DupElement(data)),
            (_, 0b0, _, 0b0001) => Some(AArch64Instr::DupGeneral(data)),
            (0b0 | 0b1, 0b0, _, 0b0101) => Some(AArch64Instr::Smov(data)),
            (0b0, 0b0, _, 0b0111) => Some(AArch64Instr::Umov(data)),
            (0b1, 0b0, 0b01000 | 0b11000, 0b0111) => Some(AArch64Instr::Umov(data)),
            (0b1, 0b0, _, 0b0011) => Some(AArch64Instr::InsGeneral(data)),
            (0b1, 0b1, _, _) => Some(AArch64Instr::InsElement(data)),

            _ => None,
        }
    }
}

/// Decodes the advanced simd copy encoding class.
fn parse_advanced_simd_copy(raw: u32) -> (r: Option<AArch64Instr>)
    ensures
        r == spec_parse_advanced_simd_copy(raw),
{
    // 0_x_x_01110000_xxxxx_0_xxxx_1_xxxxx_xxxxx
    if raw & 0x9fe0_8400 != 0x0e00_0400 {
        return None;
    }
    let q = extract_u8(30..31, raw);
    let op = extract_u8(29..30, raw);
    let imm5 = extract_u8(16..21, raw);
    let imm4 = extract_u8(11..15, raw);
    let rn = extract_u8(5..10, raw);
    let rd = extract_u8(0..5, raw);
    let data = AdvancedSimdCopy {
        imm5,
        imm4,
        rn,
        rd,
    };

    match (q, op, imm5, imm4) {
        (_, 0b0, _, 0b0000) => Some(AArch64Instr::DupElement(data)),
        (_, 0b0, _, 0b0001) => Some(AArch64Instr::DupGeneral(data)),
        (0b0 | 0b1, 0b0, _, 0b0101) => Some(AArch64Instr::Smov(data)),
        (0b0, 0b0, _, 0b0111) => Some(AArch64Instr::Umov(data)),
        (0b1, 0b0, 0b01000 | 0b11000, 0b0111) => Some(AArch64Instr::Umov(data)),
        (0b1, 0b0, _, 0b0011) => Some(AArch64Instr::InsGeneral(data)),
        (0b1, 0b1, _, _) => Some(AArch64Instr::InsElement(data)),

        _ => None,
    }
}

/// What the cond compare reg encoding class decodes to.
pub open spec fn spec_parse_cond_compare_reg(raw: u32) -> Option<AArch64Instr> {
    if raw & 0x1fe0_0800 != 0x1a40_0000 {
        None
    } else {
        let sf_op_s = field_u8(raw, 29, 32);
        let rm = field_u8(raw, 16, 21);
        let cond = field_u8(raw, 12, 16);
        let o2 = field_u8(raw, 10, 11);
        let rn = field_u8(raw, 5, 10);
        let o3 = field_u8(raw, 4, 5);
        let nzcv = field_u8(raw, 0, 4);
        let data = CondCmpReg {
            rm,
            cond,
            rn,
            nzcv,
        };

        match (sf_op_s, o2, o3) {
            (0b001, 0b0, 0b0) => Some(AArch64Instr::CcmnRegVar32(data)),
            (0b011, 0b0, 0b0) => Some(AArch64Instr::CcmpRegVar32(data)),
            (0b101, 0b0, 0b0) => Some(AArch64Instr::CcmnRegVar64(data)),
            (0b111, 0b0, 0b0) => Some(AArch64Instr::CcmpRegVar64(data)),

            _ => None,
        }
    }
}

/// Decodes the cond compare reg encoding class.
fn parse_cond_compare_reg(raw: u32) -> (r: Option<AArch64Instr>)
    ensures
        r == spec_parse_cond_compare_reg(raw),
{
    // x_x_x_11010010_xxxxx_xxxx_0_x_xxxxx_x_xxxx
    if raw & 0x1fe0_0800 != 0x1a40_0000 {
        return None;
    }
    let sf_op_s = extract_u8(29..32, raw);
    let rm = extract_u8(16..21, raw);
    let cond = extract_u8(12..16, raw);
    let o2 = extract_u8(10..11, raw);
    let rn = extract_u8(5..10, raw);
    let o3 = extract_u8(4..5, raw);
    let nzcv = extract_u8(0..4, raw);
    let data = CondCmpReg {
        rm,
        cond,
        rn,
        nzcv,
    };

    match (sf_op_s, o2, o3) {
        (0b001, 0b0, 0b0) => Some(AArch64Instr::CcmnRegVar32(data)),
        (0b011, 0b0, 0b0) => Some(AArch64Instr::CcmpRegVar32(data)),
        (0b101, 0b0, 0b0) => Some(AArch64Instr::CcmnRegVar64(data)),
        (0b111, 0b0, 0b0) => Some(AArch64Instr::CcmpRegVar64(data)),

        _ => None,
    }
}

/// What the adv simd ld st multi structures encoding class decodes to.
pub open spec fn spec_parse_adv_simd_ld_st_multi_structures(raw: u32) -> Option<AArch64Instr> {
    if raw & 0xbfbf_0000 != 0x0c00_0000 {
        None
    } else {
        let q = field_u8(raw, 30, 31);
        let l = field_u8(raw, 22, 23);
        let opcode = field_u8(raw, 12, 16);
        let size = field_u8(raw, 10, 12);
        let rn = field_u8(raw, 5, 10);
        let rt = field_u8(raw, 0, 5);
        let data = AdvSimdLdStMultiStructures {
            q,
            size,
            rn,
            rt,
        };

        match (l, opcode) {
            (0b0, 0b0000) => Some(AArch64Instr::St4MulStructures(data)),
            (0b0, 0b0010) => Some(AArch64Instr::St1MulStructures4RegsVar(data)),
            (0b0, 0b0100) => Some(AArch64Instr::St3MulStructures(data)),
            (0b0, 0b0110) => Some(AArch64Instr::St1MulStructures3RegsVar(data)),
            (0b0, 0b0111) => Some(AArch64Instr::St1MulStructures1RegsVar(data)),
            (0b0, 0b1000) => Some(AArch64Instr::St2MulStructures(data)),
            (0b0, 0b1010) => Some(AArch64Instr::St1MulStructures2RegsVar(data)),

            (0b1, 0b0000) => Some(AArch64Instr::Ld4MulStructures(data)),
            (0b1, 0b0010) => Some(AArch64Instr::Ld1MulStructures4RegsVar(data)),
            (0b1, 0b0100) => Some(AArch64Instr::Ld3MulStructures(data)),
            (0b1, 0b0110) => Some(AArch64Instr::Ld1MulStructures3RegsVar(data)),
            (0b1, 0b0111) => Some(AArch64Instr::Ld1MulStructures1RegsVar(data)),
            (0b1, 0b1000) => Some(AArch64Instr::Ld2MulStructures(data)),
            (0b1, 0b1010) => Some(AArch64Instr::Ld1MulStructures2RegsVar(data)),

            _ => None,
        }
    }
}

/// Decodes the adv simd ld st multi structures encoding class.
fn parse_adv_simd_ld_st_multi_structures(raw: u32) -> (r: Option<AArch64Instr>)
    ensures
        r == spec_parse_adv_simd_ld_st_multi_structures(raw),
{
    // 0_x_0011000_x_000000_xxxx_xx_xxxxx_xxxxx
    if raw & 0xbfbf_0000 != 0x0c00_0000 {
        return None;
    }
    let q = extract_u8(30..31, raw);
    let l = extract_u8(22..23, raw);
    let opcode = extract_u8(12..16, raw);
    let size = extract_u8(10..12, raw);
    let rn = extract_u8(5..10, raw);
    let rt = extract_u8(0..5, raw);
    let data = AdvSimdLdStMultiStructures {
        q,
        size,
        rn,
        rt,
    };

    match (l, opcode) {
        (0b0, 0b0000) => Some(AArch64Instr::St4MulStructures(data)),
        (0b0, 0b0010) => Some(AArch64Instr::St1MulStructures4RegsVar(data)),
        (0b0, 0b0100) => Some(AArch64Instr::St3MulStructures(data)),
        (0b0, 0b0110) => Some(AArch64Instr::St1MulStructures3RegsVar(data)),
        (0b0, 0b0111) => Some(AArch64Instr::St1MulStructures1RegsVar(data)),
        (0b0, 0b1000) => Some(AArch64Instr::St2MulStructures(data)),
        (0b0, 0b1010) => Some(AArch64Instr::St1MulStructures2RegsVar(data)),

        (0b1, 0b0000) => Some(AArch64Instr::Ld4MulStructures(data)),
        (0b1, 0b0010) => Some(AArch64Instr::Ld1MulStructures4RegsVar(data)),
        (0b1, 0b0100) => Some(AArch64Instr::Ld3MulStructures(data)),
        (0b1, 0b0110) => Some(AArch64Instr::Ld1MulStructures3RegsVar(data)),
        (0b1, 0b0111) => Some(AArch64Instr::Ld1MulStructures1RegsVar(data)),
        (0b1, 0b1000) => Some(AArch64Instr::Ld2MulStructures(data)),
        (0b1, 0b1010) => Some(AArch64Instr::Ld1MulStructures2RegsVar(data)),

        _ => None,
    }
}

/// What the advanced simd extract encoding class decodes to.
pub open spec fn spec_parse_advanced_simd_extract(raw: u32) -> Option<AArch64Instr> {
    if raw & 0xbf20_8400 != 0x2e00_0000 {
        None
    } else {
        let q = field_u8(raw, 30, 31);
        let op2 = field_u8(raw, 22, 24);
        let rm = field_u8(raw, 16, 21);
        let imm4 = field_u8(raw, 11, 15);
        let rn = field_u8(raw, 5, 10);
        let rd = field_u8(raw, 0, 5);
        let data = AdvancedSimdExtract {
            q,
            rm,
            imm4,
            rn,
            rd,
        };

        match op2 {
            0b00 => Some(AArch64Instr::Ext(data)),
            _ => None,
        }
    }
}

/// Decodes the advanced simd extract encoding class.
fn parse_advanced_simd_extract(raw: u32) -> (r: Option<AArch64Instr>)
    ensures
        r == spec_parse_advanced_simd_extract(raw),
{
    // 0_x_101110_xx_0_xxxxx_0_xxxx_0_xxxxx_xxxxx
    if raw & 0xbf20_8400 != 0x2e00_0000 {
        return None;
    }
    let q = extract_u8(30..31, raw);
    let op2 = extract_u8(22..24, raw);
    let rm = extract_u8(16..21, raw);
    let imm4 = extract_u8(11..15, raw);
    let rn = extract_u8(5..10, raw);
    let rd = extract_u8(0..5, raw);
    let data = AdvancedSimdExtract {
        q,
        rm,
        imm4,
        rn,
        rd,
    };

    match op2 {
        0b00 => Some(AArch64Instr::Ext(data)),
        _ => None,
    }
}

/// What the adv simd ld st multi structures post indexed encoding class decodes to.
pub open spec fn spec_parse_adv_simd_ld_st_multi_structures_post_indexed(raw: u32) -> Option<AArch64Instr> {
    if raw & 0xbfa0_0000 != 0x0c80_0000 {
        None
    } else {
        let q = field_u8(raw, 30, 31);
        let l = field_u8(raw, 22, 23);
        let rm = field_u8(raw, 16, 21);
        let opcode = field_u8(raw, 12, 16);
        let size = field_u8(raw, 10, 12);
        let rn = field_u8(raw, 5, 10);
        let rt = field_u8(raw, 0, 5);
        let data = AdvSimdLdStMultiStructuresPostIndexed {
            q,
            rm,
            size,
            rn,
            rt,
        };

        match (l, rm, opcode) {
            (0b0, rm, 0b0000) if rm != 0b11111 => {
                Some(AArch64Instr::St4MulStructuresRegOffsetVar(data))
            }
            (0b0, rm, 0b0010) if rm != 0b11111 => {
                Some(AArch64Instr::St1MulStructures4RegRegOffsetVar(data))
            }
            (0b0, rm, 0b0100) if rm != 0b11111 => {
                Some(AArch64Instr::St3MulStructuresRegOffsetVar(data))
            }
            (0b0, rm, 0b0110) if rm != 0b11111 => {
                Some(AArch64Instr::St1MulStructures3RegRegOffsetVar(data))
            }
            (0b0, rm, 0b0111) if rm != 0b11111 => {
                Some(AArch64Instr::St1MulStructures1RegRegOffsetVar(data))
            }
            (0b0, rm, 0b1000) if rm != 0b11111 => {
                Some(AArch64Instr::St2MulStructuresRegOffsetVar(data))
            }
            (0b0, rm, 0b1010) if rm != 0b11111 => {
                Some(AArch64Instr::St1MulStructures2RegRegOffsetVar(data))
            }

            (0b0, 0b11111, 0b0000) => Some(AArch64Instr::St4MulStructuresImmOffsetVar(data)),
            (0b0, 0b11111, 0b0010) => Some(AArch64Instr::St1MulStructures4RegImmOffsetVar(data)),
            (0b0, 0b11111, 0b0100) => Some(AArch64Instr::St3MulStructuresImmOffsetVar(data)),
            (0b0, 0b11111, 0b0110) => Some(AArch64Instr::St1MulStructures3RegImmOffsetVar(data)),
            (0b0, 0b11111, 0b0111) => Some(AArch64Instr::St1MulStructures1RegImmOffsetVar(data)),
            (0b0, 0b11111, 0b1000) => Some(AArch64Instr::St2MulStructuresImmOffsetVar(data)),
            (0b0, 0b11111, 0b1010) => Some(AArch64Instr::St1MulStructures2RegImmOffsetVar(data)),

            (0b1, rm, 0b0000) if rm != 0b11111 => {
                Some(AArch64Instr::Ld4MulStructuresRegOffsetVar(data))
            }
            (0b1, rm, 0b0010) if rm != 0b11111 => {
                Some(AArch64Instr::Ld1MulStructures4RegRegOffsetVar(data))
            }
            (0b1, rm, 0b0100) if rm != 0b11111 => {
                Some(AArch64Instr::Ld3MulStructuresRegOffsetVar(data))
            }
            (0b1, rm, 0b0110) if rm != 0b11111 => {
                Some(AArch64Instr::Ld1MulStructures3RegRegOffsetVar(data))
            }
            (0b1, rm, 0b0111) if rm != 0b11111 => {
                Some(AArch64Instr::Ld1MulStructures1RegRegOffsetVar(data))
            }
            (0b1, rm, 0b1000) if rm != 0b11111 => {
                Some(AArch64Instr::Ld2MulStructuresRegOffsetVar(data))
            }
            (0b1, rm, 0b1010) if rm != 0b11111 => {
                Some(AArch64Instr::Ld1MulStructures2RegRegOffsetVar(data))
            }

            (0b1, 0b11111, 0b0000) => Some(AArch64Instr::Ld4MulStructuresImmOffsetVar(data)),
            (0b1, 0b11111, 0b0010) => Some(AArch64Instr::Ld1MulStructures4RegImmOffsetVar(data)),
            (0b1, 0b11111, 0b0100) => Some(AArch64Instr::Ld3MulStructuresImmOffsetVar(data)),
            (0b1, 0b11111, 0b0110) => Some(AArch64Instr::Ld1MulStructures3RegImmOffsetVar(data)),
            (0b1, 0b11111, 0b0111) => Some(AArch64Instr::Ld1MulStructures1RegImmOffsetVar(data)),
            (0b1, 0b11111, 0b1000) => Some(AArch64Instr::Ld2MulStructuresImmOffsetVar(data)),
            (0b1, 0b11111, 0b1010) => Some(AArch64Instr::Ld1MulStructures2RegImmOffsetVar(data)),
            _ => None,
        }
    }
}

/// Decodes the adv simd ld st multi structures post indexed encoding class.
fn parse_adv_simd_ld_st_multi_structures_post_indexed(raw: u32) -> (r: Option<AArch64Instr>)
    ensures
        r == spec_parse_adv_simd_ld_st_multi_structures_post_indexed(raw),
{
    // 0_x_0011001_x_0_xxxxx_xxxx_xx_xxxxx_xxxxx
    if raw & 0xbfa0_0000 != 0x0c80_0000 {
        return None;
    }
    let q = extract_u8(30..31, raw);
    let l = extract_u8(22..23, raw);
    let rm = extract_u8(16..21, raw);
    let opcode = extract_u8(12..16, raw);
    let size = extract_u8(10..12, raw);
    let rn = extract_u8(5..10, raw);
    let rt = extract_u8(0..5, raw);
    let data = AdvSimdLdStMultiStructuresPostIndexed {
        q,
        rm,
        size,
        rn,
        rt,
    };

    match (l, rm, opcode) {
        (0b0, rm, 0b0000) if rm != 0b11111 => {
            Some(AArch64Instr::St4MulStructuresRegOffsetVar(data))
        }
        (0b0, rm, 0b0010) if rm != 0b11111 => {
            Some(AArch64Instr::St1MulStructures4RegRegOffsetVar(data))
        }
        (0b0, rm, 0b0100) if rm != 0b11111 => {
            Some(AArch64Instr::St3MulStructuresRegOffsetVar(data))
        }
        (0b0, rm, 0b0110) if rm != 0b11111 => {
            Some(AArch64Instr::St1MulStructures3RegRegOffsetVar(data))
        }
        (0b0, rm, 0b0111) if rm != 0b11111 => {
            Some(AArch64Instr::St1MulStructures1RegRegOffsetVar(data))
        }
        (0b0, rm, 0b1000) if rm != 0b11111 => {
            Some(AArch64Instr::St2MulStructuresRegOffsetVar(data))
        }
        (0b0, rm, 0b1010) if rm != 0b11111 => {
            Some(AArch64Instr::St1MulStructures2RegRegOffsetVar(data))
        }

        (0b0, 0b11111, 0b0000) => Some(AArch64Instr::St4MulStructuresImmOffsetVar(data)),
        (0b0, 0b11111, 0b0010) => Some(AArch64Instr::St1MulStructures4RegImmOffsetVar(data)),
        (0b0, 0b11111, 0b0100) => Some(AArch64Instr::St3MulStructuresImmOffsetVar(data)),
        (0b0, 0b11111, 0b0110) => Some(AArch64Instr::St1MulStructures3RegImmOffsetVar(data)),
        (0b0, 0b11111, 0b0111) => Some(AArch64Instr::St1MulStructures1RegImmOffsetVar(data)),
        (0b0, 0b11111, 0b1000) => Some(AArch64Instr::St2MulStructuresImmOffsetVar(data)),
        (0b0, 0b11111, 0b1010) => Some(AArch64Instr::St1MulStructures2RegImmOffsetVar(data)),

        (0b1, rm, 0b0000) if rm != 0b11111 => {
            Some(AArch64Instr::Ld4MulStructuresRegOffsetVar(data))
        }
        (0b1, rm, 0b0010) if rm != 0b11111 => {
            Some(AArch64Instr::Ld1MulStructures4RegRegOffsetVar(data))
        }
        (0b1, rm, 0b0100) if rm != 0b11111 => {
            Some(AArch64Instr::Ld3MulStructuresRegOffsetVar(data))
        }
        (0b1, rm, 0b0110) if rm != 0b11111 => {
            Some(AArch64Instr::Ld1MulStructures3RegRegOffsetVar(data))
        }
        (0b1, rm, 0b0111) if rm != 0b11111 => {
            Some(AArch64Instr::Ld1MulStructures1RegRegOffsetVar(data))
        }
        (0b1, rm, 0b1000) if rm != 0b11111 => {
            Some(AArch64Instr::Ld2MulStructuresRegOffsetVar(data))
        }
        (0b1, rm, 0b1010) if rm != 0b11111 => {
            Some(AArch64Instr::Ld1MulStructures2RegRegOffsetVar(data))
        }

        (0b1, 0b11111, 0b0000) => Some(AArch64Instr::Ld4MulStructuresImmOffsetVar(data)),
        (0b1, 0b11111, 0b0010) => Some(AArch64Instr::Ld1MulStructures4RegImmOffsetVar(data)),
        (0b1, 0b11111, 0b0100) => Some(AArch64Instr::Ld3MulStructuresImmOffsetVar(data)),
        (0b1, 0b11111, 0b0110) => Some(AArch64Instr::Ld1MulStructures3RegImmOffsetVar(data)),
        (0b1, 0b11111, 0b0111) => Some(AArch64Instr::Ld1MulStructures1RegImmOffsetVar(data)),
        (0b1, 0b11111, 0b1000) => Some(AArch64Instr::Ld2MulStructuresImmOffsetVar(data)),
        (0b1, 0b11111, 0b1010) => Some(AArch64Instr::Ld1MulStructures2RegImmOffsetVar(data)),
        _ => None,
    }
}

/// What the conv between float and int encoding class decodes to.
pub open spec fn spec_parse_conv_between_float_and_int(raw: u32) -> Option<AArch64Instr> {
    if raw & 0x5f20_fc00 != 0x1e20_0000 {
        None
    } else {
        let sf = field_u8(raw, 31, 32);
        let s = field_u8(raw, 29, 30);
        let ptype = field_u8(raw, 22, 24);
        let rmode = field_u8(raw, 19, 21);
        let opcode = field_u8(raw, 16, 19);
        let rn = field_u8(raw, 5, 10);
        let rd = field_u8(raw, 0, 5);
        let data = RnRd {
            rn,
            rd,
        };

        match (sf, s, ptype, rmode, opcode) {
            (0b0, 0b0, 0b00, 0b00, 0b000) => {
                Some(AArch64Instr::FcvtnsScalarSinglePrecisionTo32(data))
            }
            (0b0, 0b0, 0b00, 0b00, 0b001) => {
                Some(AArch64Instr::FcvtnuScalarSinglePrecisionTo32(data))
            }
            (0b0, 0b0, 0b00, 0b00, 0b010) => {
                Some(AArch64Instr::ScvtfScalarInt32ToSinglePrecision(data))
            }
            (0b0, 0b0, 0b00, 0b00, 0b011) => {
                Some(AArch64Instr::UcvtfScalarInt32ToSinglePrecision(data))
            }
            (0b0, 0b0, 0b00, 0b00, 0b100) => {
                Some(AArch64Instr::FcvtasScalarSinglePrecisionTo32(data))
            }
            (0b0, 0b0, 0b00, 0b00, 0b101) => {
                Some(AArch64Instr::FcvtauScalarSinglePrecisionTo32(data))
            }

            (0b0, 0b0, 0b00, 0b00, 0b110) => {
                Some(AArch64Instr::FmovGeneralSinglePrecisionTo32(data))
            }
            (0b0, 0b0, 0b00, 0b00, 0b111) => {
                Some(AArch64Instr::FmovGeneral32ToSinglePrecision(data))
            }

            (0b0, 0b0, 0b00, 0b01, 0b000) => {
                Some(AArch64Instr::FcvtpsScalarSinglePrecisionTo32(data))
            }
            (0b0, 0b0, 0b00, 0b01, 0b001) => {
                Some(AArch64Instr::FcvtpuScalarSinglePrecisionTo32(data))
            }
            (0b0, 0b0, 0b00, 0b10, 0b000) => {
                Some(AArch64Instr::FcvtmsScalarSinglePrecisionTo32(data))
            }
            (0b0, 0b0, 0b00, 0b10, 0b001) => {
                Some(AArch64Instr::FcvtmuScalarSinglePrecisionTo32(data))
            }
            (0b0, 0b0, 0b00, 0b11, 0b000) => {
                Some(AArch64Instr::FcvtzsScalarIntSinglePrecisionTo32(data))
            }
            (0b0, 0b0, 0b00, 0b11, 0b001) => {
                Some(AArch64Instr::FcvtzuScalarIntSinglePrecisionTo32(data))
            }
            (0b0, 0b0, 0b01, 0b00, 0b000) => {
                Some(AArch64Instr::FcvtnsScalarDoublePrecisionTo32(data))
            }
            (0b0, 0b0, 0b01, 0b00, 0b001) => {
                Some(AArch64Instr::FcvtnuScalarDoublePrecisionTo32(data))
            }
            (0b0, 0b0, 0b01, 0b00, 0b010) => {
                Some(AArch64Instr::ScvtfScalarInt32ToDoublePrecision(data))
            }
            (0b0, 0b0, 0b01, 0b00, 0b011) => {
                Some(AArch64Instr::UcvtfScalarInt32ToDoublePrecision(data))
            }
            (0b0, 0b0, 0b01, 0b00, 0b100) => {
                Some(AArch64Instr::FcvtasScalarDoublePrecisionTo32(data))
            }
            (0b0, 0b0, 0b01, 0b00, 0b101) => {
                Some(AArch64Instr::FcvtauScalarDoublePrecisionTo32(data))
            }
            (0b0, 0b0, 0b01, 0b01, 0b000) => {
                Some(AArch64Instr::FcvtpsScalarDoublePrecisionTo32(data))
            }
            (0b0, 0b0, 0b01, 0b01, 0b001) => {
                Some(AArch64Instr::FcvtpuScalarDoublePrecisionTo32(data))
            }
            (0b0, 0b0, 0b01, 0b10, 0b000) => {
                Some(AArch64Instr::FcvtmsScalarDoublePrecisionTo32(data))
            }
            (0b0, 0b0, 0b01, 0b10, 0b001) => {
                Some(AArch64Instr::FcvtmuScalarDoublePrecisionTo32(data))
            }
            (0b0, 0b0, 0b01, 0b11, 0b000) => {
                Some(AArch64Instr::FcvtzsScalarIntDoublePrecisionTo32(data))
            }
            (0b0, 0b0, 0b01, 0b11, 0b001) => {
                Some(AArch64Instr::FcvtzsScalarIntDoublePrecisionTo32(data))
            }
            (0b0, 0b0, 0b01, 0b11, 0b110) => Some(AArch64Instr::Fjcvtzs(data)),

            (0b1, 0b0, 0b00, 0b00, 0b000) => {
                Some(AArch64Instr::FcvtnsScalarSinglePrecisionTo64(data))
            }
            (0b1, 0b0, 0b00, 0b00, 0b001) => {
                Some(AArch64Instr::FcvtnuScalarSinglePrecisionTo64(data))
            }
            (0b1, 0b0, 0b00, 0b00, 0b010) => {
                Some(AArch64Instr::ScvtfScalarInt64ToSinglePrecision(data))
            }
            (0b1, 0b0, 0b00, 0b00, 0b011) => {
                Some(AArch64Instr::UcvtfScalarInt64ToSinglePrecision(data))
            }
            (0b1, 0b0, 0b00, 0b00, 0b100) => {
                Some(AArch64Instr::FcvtasScalarSinglePrecisionTo64(data))
            }
            (0b1, 0b0, 0b00, 0b00, 0b101) => {
                Some(AArch64Instr::FcvtauScalarSinglePrecisionTo64(data))
            }

            (0b1, 0b0, 0b01, 0b00, 0b110) => {
                Some(AArch64Instr::FmovGeneralDoublePrecisionTo64(data))
            }
            (0b1, 0b0, 0b01, 0b00, 0b111) => {
                Some(AArch64Instr::FmovGeneral64ToDoublePrecision(data))
            }

            (0b1, 0b0, 0b00, 0b01, 0b000) => {
                Some(AArch64Instr::FcvtpsScalarSinglePrecisionTo64(data))
            }
            (0b1, 0b0, 0b00, 0b01, 0b001) => {
                Some(AArch64Instr::FcvtpuScalarSinglePrecisionTo64(data))
            }
            (0b1, 0b0, 0b00, 0b10, 0b000) => {
                Some(AArch64Instr::FcvtmsScalarSinglePrecisionTo64(data))
            }
            (0b1, 0b0, 0b00, 0b10, 0b001) => {
                Some(AArch64Instr::FcvtmuScalarSinglePrecisionTo64(data))
            }
            (0b1, 0b0, 0b00, 0b11, 0b000) => {
                Some(AArch64Instr::FcvtzsScalarIntSinglePrecisionTo64(data))
            }
            (0b1, 0b0, 0b00, 0b11, 0b001) => {
                Some(AArch64Instr::FcvtzuScalarIntSinglePrecisionTo64(data))
            }
            (0b1, 0b0, 0b01, 0b00, 0b000) => {
                Some(AArch64Instr::FcvtnsScalarDoublePrecisionTo64(data))
            }
            (0b1, 0b0, 0b01, 0b00, 0b001) => {
                Some(AArch64Instr::FcvtnuScalarDoublePrecisionTo64(data))
            }
            (0b1, 0b0, 0b01, 0b00, 0b010) => {
                Some(AArch64Instr::ScvtfScalarInt64ToDoublePrecision(data))
            }
            (0b1, 0b0, 0b01, 0b00, 0b011) => {
                Some(AArch64Instr::UcvtfScalarInt64ToDoublePrecision(data))
            }
            (0b1, 0b0, 0b01, 0b00, 0b100) => {
                Some(AArch64Instr::FcvtasScalarDoublePrecisionTo64(data))
            }
            (0b1, 0b0, 0b01, 0b00, 0b101) => {
                Some(AArch64Instr::FcvtauScalarDoublePrecisionTo64(data))
            }
            (0b1, 0b0, 0b01, 0b01, 0b000) => {
                Some(AArch64Instr::FcvtpsScalarDoublePrecisionTo64(data))
            }
            (0b1, 0b0, 0b01, 0b01, 0b001) => {
                Some(AArch64Instr::FcvtpuScalarDoublePrecisionTo64(data))
            }
            (0b1, 0b0, 0b01, 0b10, 0b000) => {
                Some(AArch64Instr::FcvtmsScalarDoublePrecisionTo64(data))
            }
            (0b1, 0b0, 0b01, 0b10, 0b001) => {
                Some(AArch64Instr::FcvtmuScalarDoublePrecisionTo64(data))
            }
            (0b1, 0b0, 0b01, 0b11, 0b000) => {
                Some(AArch64Instr::FcvtzsScalarIntDoublePrecisionTo64(data))
            }
            (0b1, 0b0, 0b01, 0b11, 0b001) => {
                Some(AArch64Instr::FcvtzsScalarIntDoublePrecisionTo64(data))
            }

            (0b1, 0b0, 0b10, 0b01, 0b110) => {
                Some(AArch64Instr::FmovGeneralTopHalfOf128To64(data))
            }
            (0b1, 0b0, 0b10, 0b01, 0b111) => {
                Some(AArch64Instr::FmovGeneral64toTopHalfOf128(data))
            }

            _ => None,
        }
    }
}

/// Decodes the conv between float and int encoding class.
fn parse_conv_between_float_and_int(raw: u32) -> (r: Option<AArch64Instr>)
    ensures
        r == spec_parse_conv_between_float_and_int(raw),
{
    // x_0_x_11110_xx_1_xx_xxx_000000_xxxxx_xxxxx
    if raw & 0x5f20_fc00 != 0x1e20_0000 {
        return None;
    }
    let sf = extract_u8(31..32, raw);
    let s = extract_u8(29..30, raw);
    let ptype = extract_u8(22..24, raw);
    let rmode = extract_u8(19..21, raw);
    let opcode = extract_u8(16..19, raw);
    let rn = extract_u8(5..10, raw);
    let rd = extract_u8(0..5, raw);
    let data = RnRd {
        rn,
        rd,
    };

    match (sf, s, ptype, rmode, opcode) {
        (0b0, 0b0, 0b00, 0b00, 0b000) => {
            Some(AArch64Instr::FcvtnsScalarSinglePrecisionTo32(data))
        }
        (0b0, 0b0, 0b00, 0b00, 0b001) => {
            Some(AArch64Instr::FcvtnuScalarSinglePrecisionTo32(data))
        }
        (0b0, 0b0, 0b00, 0b00, 0b010) => {
            Some(AArch64Instr::ScvtfScalarInt32ToSinglePrecision(data))
        }
        (0b0, 0b0, 0b00, 0b00, 0b011) => {
            Some(AArch64Instr::UcvtfScalarInt32ToSinglePrecision(data))
        }
        (0b0, 0b0, 0b00, 0b00, 0b100) => {
            Some(AArch64Instr::FcvtasScalarSinglePrecisionTo32(data))
        }
        (0b0, 0b0, 0b00, 0b00, 0b101) => {
            Some(AArch64Instr::FcvtauScalarSinglePrecisionTo32(data))
        }

        (0b0, 0b0, 0b00, 0b00, 0b110) => {
            Some(AArch64Instr::FmovGeneralSinglePrecisionTo32(data))
        }
        (0b0, 0b0, 0b00, 0b00, 0b111) => {
            Some(AArch64Instr::FmovGeneral32ToSinglePrecision(data))
        }

        (0b0, 0b0, 0b00, 0b01, 0b000) => {
            Some(AArch64Instr::FcvtpsScalarSinglePrecisionTo32(data))
        }
        (0b0, 0b0, 0b00, 0b01, 0b001) => {
            Some(AArch64Instr::FcvtpuScalarSinglePrecisionTo32(data))
        }
        (0b0, 0b0, 0b00, 0b10, 0b000) => {
            Some(AArch64Instr::FcvtmsScalarSinglePrecisionTo32(data))
        }
        (0b0, 0b0, 0b00, 0b10, 0b001) => {
            Some(AArch64Instr::FcvtmuScalarSinglePrecisionTo32(data))
        }
        (0b0, 0b0, 0b00, 0b11, 0b000) => {
            Some(AArch64Instr::FcvtzsScalarIntSinglePrecisionTo32(data))
        }
        (0b0, 0b0, 0b00, 0b11, 0b001) => {
            Some(AArch64Instr::FcvtzuScalarIntSinglePrecisionTo32(data))
        }
        (0b0, 0b0, 0b01, 0b00, 0b000) => {
            Some(AArch64Instr::FcvtnsScalarDoublePrecisionTo32(data))
        }
        (0b0, 0b0, 0b01, 0b00, 0b001) => {
            Some(AArch64Instr::FcvtnuScalarDoublePrecisionTo32(data))
        }
        (0b0, 0b0, 0b01, 0b00, 0b010) => {
            Some(AArch64Instr::ScvtfScalarInt32ToDoublePrecision(data))
        }
        (0b0, 0b0, 0b01, 0b00, 0b011) => {
            Some(AArch64Instr::UcvtfScalarInt32ToDoublePrecision(data))
        }
        (0b0, 0b0, 0b01, 0b00, 0b100) => {
            Some(AArch64Instr::FcvtasScalarDoublePrecisionTo32(data))
        }
        (0b0, 0b0, 0b01, 0b00, 0b101) => {
            Some(AArch64Instr::FcvtauScalarDoublePrecisionTo32(data))
        }
        (0b0, 0b0, 0b01, 0b01, 0b000) => {
            Some(AArch64Instr::FcvtpsScalarDoublePrecisionTo32(data))
        }
        (0b0, 0b0, 0b01, 0b01, 0b001) => {
            Some(AArch64Instr::FcvtpuScalarDoublePrecisionTo32(data))
        }
        (0b0, 0b0, 0b01, 0b10, 0b000) => {
            Some(AArch64Instr::FcvtmsScalarDoublePrecisionTo32(data))
        }
        (0b0, 0b0, 0b01, 0b10, 0b001) => {
            Some(AArch64Instr::FcvtmuScalarDoublePrecisionTo32(data))
        }
        (0b0, 0b0, 0b01, 0b11, 0b000) => {
            Some(AArch64Instr::FcvtzsScalarIntDoublePrecisionTo32(data))
        }
        (0b0, 0b0, 0b01, 0b11, 0b001) => {
            Some(AArch64Instr::FcvtzsScalarIntDoublePrecisionTo32(data))
        }
        (0b0, 0b0, 0b01, 0b11, 0b110) => Some(AArch64Instr::Fjcvtzs(data)),

        (0b1, 0b0, 0b00, 0b00, 0b000) => {
            Some(AArch64Instr::FcvtnsScalarSinglePrecisionTo64(data))
        }
        (0b1, 0b0, 0b00, 0b00, 0b001) => {
            Some(AArch64Instr::FcvtnuScalarSinglePrecisionTo64(data))
        }
        (0b1, 0b0, 0b00, 0b00, 0b010) => {
            Some(AArch64Instr::ScvtfScalarInt64ToSinglePrecision(data))
        }
        (0b1, 0b0, 0b00, 0b00, 0b011) => {
            Some(AArch64Instr::UcvtfScalarInt64ToSinglePrecision(data))
        }
        (0b1, 0b0, 0b00, 0b00, 0b100) => {
            Some(AArch64Instr::FcvtasScalarSinglePrecisionTo64(data))
        }
        (0b1, 0b0, 0b00, 0b00, 0b101) => {
            Some(AArch64Instr::FcvtauScalarSinglePrecisionTo64(data))
        }

        (0b1, 0b0, 0b01, 0b00, 0b110) => {
            Some(AArch64Instr::FmovGeneralDoublePrecisionTo64(data))
        }
        (0b1, 0b0, 0b01, 0b00, 0b111) => {
            Some(AArch64Instr::FmovGeneral64ToDoublePrecision(data))
        }

        (0b1, 0b0, 0b00, 0b01, 0b000) => {
            Some(AArch64Instr::FcvtpsScalarSinglePrecisionTo64(data))
        }
        (0b1, 0b0, 0b00, 0b01, 0b001) => {
            Some(AArch64Instr::FcvtpuScalarSinglePrecisionTo64(data))
        }
        (0b1, 0b0, 0b00, 0b10, 0b000) => {
            Some(AArch64Instr::FcvtmsScalarSinglePrecisionTo64(data))
        }
        (0b1, 0b0, 0b00, 0b10, 0b001) => {
            Some(AArch64Instr::FcvtmuScalarSinglePrecisionTo64(data))
        }
        (0b1, 0b0, 0b00, 0b11, 0b000) => {
            Some(AArch64Instr::FcvtzsScalarIntSinglePrecisionTo64(data))
        }
        (0b1, 0b0, 0b00, 0b11, 0b001) => {
            Some(AArch64Instr::FcvtzuScalarIntSinglePrecisionTo64(data))
        }
        (0b1, 0b0, 0b01, 0b00, 0b000) => {
            Some(AArch64Instr::FcvtnsScalarDoublePrecisionTo64(data))
        }
        (0b1, 0b0, 0b01, 0b00, 0b001) => {
            Some(AArch64Instr::FcvtnuScalarDoublePrecisionTo64(data))
        }
        (0b1, 0b0, 0b01, 0b00, 0b010) => {
            Some(AArch64Instr::ScvtfScalarInt64ToDoublePrecision(data))
        }
        (0b1, 0b0, 0b01, 0b00, 0b011) => {
            Some(AArch64Instr::UcvtfScalarInt64ToDoublePrecision(data))
        }
        (0b1, 0b0, 0b01, 0b00, 0b100) => {
            Some(AArch64Instr::FcvtasScalarDoublePrecisionTo64(data))
        }
        (0b1, 0b0, 0b01, 0b00, 0b101) => {
            Some(AArch64Instr::FcvtauScalarDoublePrecisionTo64(data))
        }
        (0b1, 0b0, 0b01, 0b01, 0b000) => {
            Some(AArch64Instr::FcvtpsScalarDoublePrecisionTo64(data))
        }
        (0b1, 0b0, 0b01, 0b01, 0b001) => {
            Some(AArch64Instr::FcvtpuScalarDoublePrecisionTo64(data))
        }
        (0b1, 0b0, 0b01, 0b10, 0b000) => {
            Some(AArch64Instr::FcvtmsScalarDoublePrecisionTo64(data))
        }
        (0b1, 0b0, 0b01, 0b10, 0b001) => {
            Some(AArch64Instr::FcvtmuScalarDoublePrecisionTo64(data))
        }
        (0b1, 0b0, 0b01, 0b11, 0b000) => {
            Some(AArch64Instr::FcvtzsScalarIntDoublePrecisionTo64(data))
        }
        (0b1, 0b0, 0b01, 0b11, 0b001) => {
            Some(AArch64Instr::FcvtzsScalarIntDoublePrecisionTo64(data))
        }

        (0b1, 0b0, 0b10, 0b01, 0b110) => {
            Some(AArch64Instr::FmovGeneralTopHalfOf128To64(data))
        }
        (0b1, 0b0, 0b10, 0b01, 0b111) => {
            Some(AArch64Instr::FmovGeneral64toTopHalfOf128(data))
        }

        _ => None,
    }
}

/// What the adv simd modified imm encoding class decodes to.
pub open spec fn spec_parse_adv_simd_modified_imm(raw: u32) -> Option<AArch64Instr> {
    if raw & 0x9ff8_0400 != 0x0f00_0400 {
        None
    } else {
        let q = field_u8(raw, 30, 31);
        let op = field_u8(raw, 29, 30);
        let a = field_u8(raw, 18, 19);
        let b = field_u8(raw, 17, 18);
        let c = field_u8(raw, 16, 17);
        let cmode = field_u8(raw, 12, 16);
        let o2 = field_u8(raw, 11, 12);
        let d = field_u8(raw, 9, 10);
        let e = field_u8(raw, 8, 9);
        let f = field_u8(raw, 7, 8);
        let g = field_u8(raw, 6, 7);
        let h = field_u8(raw, 5, 6);
        let rd = field_u8(raw, 0, 5);
        let data = AdvSimdModifiedImm {
            q,
            a,
            b,
            c,
            cmode,
            d,
            e,
            f,
            g,
            h,
            rd,
        };
        let cmode = cmode as u32;
        let cmode0 = bit_field32(cmode, 3, 4);
        let cmode1 = bit_field32(cmode, 2, 3);
        let cmode2 = bit_field32(cmode, 1, 2);
        let cmode3 = bit_field32(cmode, 0, 1);

        match (q, op, cmode0, cmode1, cmode2, cmode3, o2) {
            (_, 0b0, 0, _, _, 0, 0b0) => Some(AArch64Instr::MoviShiftedImmVar32(data)),
            (_, 0b0, 0, _, _, 1, 0b0) => Some(AArch64Instr::OrrVecImmVar32(data)),
            (_, 0b0, 1, 0, _, 0, 0b0) => Some(AArch64Instr::MoviShiftedImmVar16(data)),
            (_, 0b0, 1, 0, _, 1, 0b0) => Some(AArch64Instr::OrrVecImmVar16(data)),
            (_, 0b0, 1, 1, 0, _, 0b0) => Some(AArch64Instr::MoviShiftingOnesVar32(data)),
            (_, 0b0, 1, 1, 1, 0, 0b0) => Some(AArch64Instr::MoviVar8(data)),
            (_, 0b0, 1, 1, 1, 1, 0b0) => Some(AArch64Instr::FmovVecImmSinglePrecisionVar(data)),

            (_, 0b1, 0, _, _, 0, 0b0) => Some(AArch64Instr::MvniShiftedImmVar32(data)),
            (_, 0b1, 0, _, _, 1, 0b0) => Some(AArch64Instr::BicVecImmVar32(data)),
            (_, 0b1, 1, 0, _, 0, 0b0) => Some(AArch64Instr::MvniShiftedImmVar16(data)),
            (_, 0b1, 1, 0, _, 1, 0b0) => Some(AArch64Instr::BicVecImmVar16(data)),

            (_, 0b1, 1, 1, 0, _, 0b0) => Some(AArch64Instr::MvniShiftingOnesVar32(data)),
            (0b0, 0b1, 1, 1, 1, 0, 0b0) => Some(AArch64Instr::MoviScalarVar64(data)),

            (0b1, 0b1, 1, 1, 1, 0, 0b0) => Some(AArch64Instr::MoviVectorVar64(data)),
            (0b1, 0b1, 1, 1, 1, 1, 0b0) => Some(AArch64Instr::FmovVecImmDoublePrecisionVar(data)),

            _ => None,
        }
    }
}

/// Decodes the adv simd modified imm encoding class.
fn parse_adv_simd_modified_imm(raw: u32) -> (r: Option<AArch64Instr>)
    ensures
        r == spec_parse_adv_simd_modified_imm(raw),
{
    // 0_x_x_01111_00000_x_x_x_xxxx_x_1_x_x_x_x_x_xxxxx
    if raw & 0x9ff8_0400 != 0x0f00_0400 {
        return None;
    }
    let q = extract_u8(30..31, raw);
    let op = extract_u8(29..30, raw);
    let a = extract_u8(18..19, raw);
    let b = extract_u8(17..18, raw);
    let c = extract_u8(16..17, raw);
    let cmode = extract_u8(12..16, raw);
    let o2 = extract_u8(11..12, raw);
    let d = extract_u8(9..10, raw);
    let e = extract_u8(8..9, raw);
    let f = extract_u8(7..8, raw);
    let g = extract_u8(6..7, raw);
    let h = extract_u8(5..6, raw);
    let rd = extract_u8(0..5, raw);
    let data = AdvSimdModifiedImm {
        q,
        a,
        b,
        c,
        cmode,
        d,
        e,
        f,
        g,
        h,
        rd,
    };
    let cmode = cmode as u32;
    let cmode0 = extract_bits32(3..4, cmode);
    let cmode1 = extract_bits32(2..3, cmode);
    let cmode2 = extract_bits32(1..2, cmode);
    let cmode3 = extract_bits32(0..1, cmode);

    match (q, op, cmode0, cmode1, cmode2, cmode3, o2) {
        (_, 0b0, 0, _, _, 0, 0b0) => Some(AArch64Instr::MoviShiftedImmVar32(data)),
        (_, 0b0, 0, _, _, 1, 0b0) => Some(AArch64Instr::OrrVecImmVar32(data)),
        (_, 0b0, 1, 0, _, 0, 0b0) => Some(AArch64Instr::MoviShiftedImmVar16(data)),
        (_, 0b0, 1, 0, _, 1, 0b0) => Some(AArch64Instr::OrrVecImmVar16(data)),
        (_, 0b0, 1, 1, 0, _, 0b0) => Some(AArch64Instr::MoviShiftingOnesVar32(data)),
        (_, 0b0, 1, 1, 1, 0, 0b0) => Some(AArch64Instr::MoviVar8(data)),
        (_, 0b0, 1, 1, 1, 1, 0b0) => Some(AArch64Instr::FmovVecImmSinglePrecisionVar(data)),

        (_, 0b1, 0, _, _, 0, 0b0) => Some(AArch64Instr::MvniShiftedImmVar32(data)),
        (_, 0b1, 0, _, _, 1, 0b0) => Some(AArch64Instr::BicVecImmVar32(data)),
        (_, 0b1, 1, 0, _, 0, 0b0) => Some(AArch64Instr::MvniShiftedImmVar16(data)),
        (_, 0b1, 1, 0, _, 1, 0b0) => Some(AArch64Instr::BicVecImmVar16(data)),

        (_, 0b1, 1, 1, 0, _, 0b0) => Some(AArch64Instr::MvniShiftingOnesVar32(data)),
        (0b0, 0b1, 1, 1, 1, 0, 0b0) => Some(AArch64Instr::MoviScalarVar64(data)),

        (0b1, 0b1, 1, 1, 1, 0, 0b0) => Some(AArch64Instr::MoviVectorVar64(data)),
        (0b1, 0b1, 1, 1, 1, 1, 0b0) => Some(AArch64Instr::FmovVecImmDoublePrecisionVar(data)),

        _ => None,
    }
}

/// What the cond compare imm encoding class decodes to.
pub open spec fn spec_parse_cond_compare_imm(raw: u32) -> Option<AArch64Instr> {
    if raw & 0x1fe0_0800 != 0x1a40_0800 {
        None
    } else {
        let sf_op_s = field_u8(raw, 29, 32);
        let imm5 = field_u8(raw, 16, 21);
        let cond = field_u8(raw, 12, 16);
        let o2 = field_u8(raw, 10, 11);
        let rn = field_u8(raw, 5, 10);
        let o3 = field_u8(raw, 4, 5);
        let nzcv = field_u8(raw, 0, 4);
        let data = CondCmpImm {
            imm5,
            cond,
            rn,
            nzcv,
        };

        match (sf_op_s, o2, o3) {
            (0b001, 0b0, 0b0) => Some(AArch64Instr::CcmnImmVar32(data)),
            (0b011, 0b0, 0b0) => Some(AArch64Instr::CcmpImmVar32(data)),
            (0b101, 0b0, 0b0) => Some(AArch64Instr::CcmnImmVar64(data)),
            (0b111, 0b0, 0b0) => Some(AArch64Instr::CcmpImmVar64(data)),

            _ => None,
        }
    }
}

/// Decodes the cond compare imm encoding class.
fn parse_cond_compare_imm(raw: u32) -> (r: Option<AArch64Instr>)
    ensures
        r == spec_parse_cond_compare_imm(raw),
{
    // x_x_x_11010010_xxxxx_xxxx_1_x_xxxxx_x_xxxx
    if raw & 0x1fe0_0800 != 0x1a40_0800 {
        return None;
    }
    let sf_op_s = extract_u8(29..32, raw);
    let imm5 = extract_u8(16..21, raw);
    let cond = extract_u8(12..16, raw);
    let o2 = extract_u8(10..11, raw);
    let rn = extract_u8(5..10, raw);
    let o3 = extract_u8(4..5, raw);
    let nzcv = extract_u8(0..4, raw);
    let data = CondCmpImm {
        imm5,
        cond,
        rn,
        nzcv,
    };

    match (sf_op_s, o2, o3) {
        (0b001, 0b0, 0b0) => Some(AArch64Instr::CcmnImmVar32(data)),
        (0b011, 0b0, 0b0) => Some(AArch64Instr::CcmpImmVar32(data)),
        (0b101, 0b0, 0b0) => Some(AArch64Instr::CcmnImmVar64(data)),
        (0b111, 0b0, 0b0) => Some(AArch64Instr::CcmpImmVar64(data)),

        _ => None,
    }
}

/// What the load store exclusive register encoding class decodes to.
pub open spec fn spec_parse_load_store_exclusive_register(raw: u32) -> Option<AArch64Instr> {
    if raw & 0x3fa0_0000 != 0x0800_0000 {
        None
    } else {
        let size = field_u8(raw, 30, 32);
        let l = field_u8(raw, 22, 23);
        let rs = field_u8(raw, 16, 21);
        let o0 = field_u8(raw, 15, 16);
        let rt2 = field_u8(raw, 10, 15);
        let rn = field_u8(raw, 5, 10);
        let rt = field_u8(raw, 0, 5);
        let data = LoadStoreRegExclusive {
            rs,
            rt2,
            rn,
            rt,
        };

        match (size, l, o0) {
            (0b00, 0b0, 0b0) => Some(AArch64Instr::Stxrb(data)),
            (0b00, 0b1, 0b0) => Some(AArch64Instr::Ldxrb(data)),
            (0b01, 0b0, 0b0) => Some(AArch64Instr::Stxrh(data)),
            (0b01, 0b1, 0b0) => Some(AArch64Instr::Ldxrh(data)),
            (0b10, 0b0, 0b0) => Some(AArch64Instr::StxrVar32(data)),
            (0b10, 0b1, 0b0) => Some(AArch64Instr::LdxrVar32(data)),
            (0b11, 0b0, 0b0) => Some(AArch64Instr::StxrVar64(data)),
            (0b11, 0b1, 0b0) => Some(AArch64Instr::LdxrVar64(data)),

            (0b00, 0b0, 0b1) => Some(AArch64Instr::Stlxrb(data)),
            (0b00, 0b1, 0b1) => Some(AArch64Instr::Ldaxrb(data)),
            (0b01, 0b0, 0b1) => Some(AArch64Instr::Stlxrh(data)),
            (0b01, 0b1, 0b1) => Some(AArch64Instr::Ldaxrh(data)),
            (0b10, 0b0, 0b1) => Some(AArch64Instr::StlxrVar32(data)),
            (0b10, 0b1, 0b1) => Some(AArch64Instr::LdaxrVar32(data)),
            (0b11, 0b0, 0b1) => Some(AArch64Instr::StlxrVar64(data)),
            (0b11, 0b1, 0b1) => Some(AArch64Instr::LdaxrVar64(data)),

            _ => None,
        }
    }
}

/// Decodes the load store exclusive register encoding class.
fn parse_load_store_exclusive_register(raw: u32) -> (r: Option<AArch64Instr>)
    ensures
        r == spec_parse_load_store_exclusive_register(raw),
{
    // xx_0010000_x_0_xxxxx_x_xxxxx_xxxxx_xxxxx
    if raw & 0x3fa0_0000 != 0x0800_0000 {
        return None;
    }
    let size = extract_u8(30..32, raw);
    let l = extract_u8(22..23, raw);
    let rs = extract_u8(16..21, raw);
    let o0 = extract_u8(15..16, raw);
    let rt2 = extract_u8(10..15, raw);
    let rn = extract_u8(5..10, raw);
    let rt = extract_u8(0..5, raw);
    let data = LoadStoreRegExclusive {
        rs,
        rt2,
        rn,
        rt,
    };

    match (size, l, o0) {
        (0b00, 0b0, 0b0) => Some(AArch64Instr::Stxrb(data)),
        (0b00, 0b1, 0b0) => Some(AArch64Instr::Ldxrb(data)),
        (0b01, 0b0, 0b0) => Some(AArch64Instr::Stxrh(data)),
        (0b01, 0b1, 0b0) => Some(AArch64Instr::Ldxrh(data)),
        (0b10, 0b0, 0b0) => Some(AArch64Instr::StxrVar32(data)),
        (0b10, 0b1, 0b0) => Some(AArch64Instr::LdxrVar32(data)),
        (0b11, 0b0, 0b0) => Some(AArch64Instr::StxrVar64(data)),
        (0b11, 0b1, 0b0) => Some(AArch64Instr::LdxrVar64(data)),

        (0b00, 0b0, 0b1) => Some(AArch64Instr::Stlxrb(data)),
        (0b00, 0b1, 0b1) => Some(AArch64Instr::Ldaxrb(data)),
        (0b01, 0b0, 0b1) => Some(AArch64Instr::Stlxrh(data)),
        (0b01, 0b1, 0b1) => Some(AArch64Instr::Ldaxrh(data)),
        (0b10, 0b0, 0b1) => Some(AArch64Instr::StlxrVar32(data)),
        (0b10, 0b1, 0b1) => Some(AArch64Instr::LdaxrVar32(data)),
        (0b11, 0b0, 0b1) => Some(AArch64Instr::StlxrVar64(data)),
        (0b11, 0b1, 0b1) => Some(AArch64Instr::LdaxrVar64(data)),

        _ => None,
    }
}

/// What the load store ordered encoding class decodes to.
pub open spec fn spec_parse_load_store_ordered(raw: u32) -> Option<AArch64Instr> {
    if raw & 0x3fa0_0000 != 0x0880_0000 {
        None
    } else {
        let size = field_u8(raw, 30, 32);
        let l = field_u8(raw, 22, 23);
        let rs = field_u8(raw, 16, 21);
        let o0 = field_u8(raw, 15, 16);
        let rt2 = field_u8(raw, 10, 15);
        let rn = field_u8(raw, 5, 10);
        let rt = field_u8(raw, 0, 5);
        let data = LoadStoreOrdered {
            rs,
            rt2,
            rn,
            rt,
        };

        match (size, l, o0) {
            (0b00, 0b0, 0b1) => Some(AArch64Instr::Stlrb(data)),
            (0b00, 0b1, 0b1) => Some(AArch64Instr::Ldarb(data)),
            (0b01, 0b0, 0b1) => Some(AArch64Instr::Stlrh(data)),
            (0b01, 0b1, 0b1) => Some(AArch64Instr::Ldarh(data)),
            (0b10, 0b0, 0b1) => Some(AArch64Instr::StlrVar32(data)),
            (0b10, 0b1, 0b1) => Some(AArch64Instr::LdarVar32(data)),
            (0b11, 0b0, 0b1) => Some(AArch64Instr::StlrVar64(data)),
            (0b11, 0b1, 0b1) => Some(AArch64Instr::LdarVar64(data)),

            _ => None,
        }
    }
}

/// Decodes the load store ordered encoding class.
fn parse_load_store_ordered(raw: u32) -> (r: Option<AArch64Instr>)
    ensures
        r == spec_parse_load_store_ordered(raw),
{
    // xx_0010001_x_0_xxxxx_x_xxxxx_xxxxx_xxxxx
    if raw & 0x3fa0_0000 != 0x0880_0000 {
        return None;
    }
    let size = extract_u8(30..32, raw);
    let l = extract_u8(22..23, raw);
    let rs = extract_u8(16..21, raw);
    let o0 = extract_u8(15..16, raw);
    let rt2 = extract_u8(10..15, raw);
    let rn = extract_u8(5..10, raw);
    let rt = extract_u8(0..5, raw);
    let data = LoadStoreOrdered {
        rs,
        rt2,
        rn,
        rt,
    };

    match (size, l, o0) {
        (0b00, 0b0, 0b1) => Some(AArch64Instr::Stlrb(data)),
        (0b00, 0b1, 0b1) => Some(AArch64Instr::Ldarb(data)),
        (0b01, 0b0, 0b1) => Some(AArch64Instr::Stlrh(data)),
        (0b01, 0b1, 0b1) => Some(AArch64Instr::Ldarh(data)),
        (0b10, 0b0, 0b1) => Some(AArch64Instr::StlrVar32(data)),
        (0b10, 0b1, 0b1) => Some(AArch64Instr::LdarVar32(data)),
        (0b11, 0b0, 0b1) => Some(AArch64Instr::StlrVar64(data)),
        (0b11, 0b1, 0b1) => Some(AArch64Instr::LdarVar64(data)),

        _ => None,
    }
}

/// What the advanced simd three same encoding class decodes to.
pub open spec fn spec_parse_advanced_simd_three_same(raw: u32) -> Option<AArch64Instr> {
    if raw & 0x9f20_0400 != 0x0e20_0400 {
        None
    } else {
        let q = field_u8(raw, 30, 31);
        let u = field_u8(raw, 29, 30);
        let size = field_u8(raw, 22, 24);
        let rm = field_u8(raw, 16, 21);
        let opcode = field_u8(raw, 11, 16);
        let rn = field_u8(raw, 5, 10);
        let rd = field_u8(raw, 0, 5);
        let data = QSizeRmRnRd {
            q,
            size,
            rm,
            rn,
            rd,
        };

        match (u, size, opcode) {
            (0b0, _, 0b00000) => Some(AArch64Instr::Shadd(data)),
            (0b0, _, 0b00001) => Some(AArch64Instr::Sqadd(data)),
            (0b0, _, 0b00010) => Some(AArch64Instr::Srhadd(data)),
            (0b0, _, 0b00100) => Some(AArch64Instr::Shsub(data)),
            (0b0, _, 0b00101) => Some(AArch64Instr::Sqsub(data)),
            (0b0, _, 0b00110) => Some(AArch64Instr::CmgtReg(data)),
            (0b0, _, 0b00111) => Some(AArch64Instr::CmgeReg(data)),
            (0b0, _, 0b01000) => Some(AArch64Instr::Sshl(data)),
            (0b0, _, 0b01001) => Some(AArch64Instr::SqshlReg(data)),
            (0b0, _, 0b01010) => Some(AArch64Instr::Srshl(data)),
            (0b0, _, 0b01011) => Some(AArch64Instr::Sqrshl(data)),
            (0b0, _, 0b01100) => Some(AArch64Instr::Smax(data)),
            (0b0, _, 0b01101) => Some(AArch64Instr::Smin(data)),
            (0b0, _, 0b01110) => Some(AArch64Instr::Sabd(data)),
            (0b0, _, 0b01111) => Some(AArch64Instr::Saba(data)),
            (0b0, _, 0b10000) => Some(AArch64Instr::AddVec(data)),
            (0b0, _, 0b10001) => Some(AArch64Instr::Cmtst(data)),
            (0b0, _, 0b10010) => Some(AArch64Instr::MlaVec(data)),
            (0b0, _, 0b10011) => Some(AArch64Instr::MulVec(data)),
            (0b0, _, 0b10100) => Some(AArch64Instr::Smaxp(data)),
            (0b0, _, 0b10101) => Some(AArch64Instr::Sminp(data)),
            (0b0, _, 0b10110) => Some(AArch64Instr::SqdmulhVec(data)),
            (0b0, _, 0b10111) => Some(AArch64Instr::AddpVec(data)),

            (0b0, 0b00 | 0b01, 0b11000) => Some(AArch64Instr::FmaxnmVec(data)),
            (0b0, 0b00 | 0b01, 0b11001) => Some(AArch64Instr::FmlaVec(data)),
            (0b0, 0b00 | 0b01, 0b11010) => Some(AArch64Instr::FaddVec(data)),
            (0b0, 0b00 | 0b01, 0b11011) => Some(AArch64Instr::Fmulx(data)),
            (0b0, 0b00 | 0b01, 0b11100) => Some(AArch64Instr::FcmeqReg(data)),
            (0b0, 0b00 | 0b01, 0b11110) => Some(AArch64Instr::FmaxVec(data)),
            (0b0, 0b00 | 0b01, 0b11111) => Some(AArch64Instr::Frecps(data)),

            (0b0, 0b00, 0b00011) => Some(AArch64Instr::AndVec(data)),
            (0b0, 0b01, 0b00011) => Some(AArch64Instr::AndVec(data)),

            (0b0, 0b10 | 0b11, 0b11000) => Some(AArch64Instr::FminnmVec(data)),
            (0b0, 0b10 | 0b11, 0b11001) => Some(AArch64Instr::FmlsVec(data)),
            (0b0, 0b10 | 0b11, 0b11010) => Some(AArch64Instr::FsubVec(data)),
            (0b0, 0b10 | 0b11, 0b11110) => Some(AArch64Instr::FminVec(data)),
            (0b0, 0b10 | 0b11, 0b11111) => Some(AArch64Instr::Frsqrts(data)),

            (0b0, 0b10, 0b00011) => Some(AArch64Instr::OrrVecReg(data)),
            (0b0, 0b11, 0b00011) => Some(AArch64Instr::OrnVec(data)),

            (0b1, _, 0b00000) => Some(AArch64Instr::Uhadd(data)),
            (0b1, _, 0b00001) => Some(AArch64Instr::Uqadd(data)),
            (0b1, _, 0b00010) => Some(AArch64Instr::Urhadd(data)),
            (0b1, _, 0b00100) => Some(AArch64Instr::Uhsub(data)),
            (0b1, _, 0b00101) => Some(AArch64Instr::Uqsub(data)),
            (0b1, _, 0b00110) => Some(AArch64Instr::CmhiReg(data)),
            (0b1, _, 0b00111) => Some(AArch64Instr::CmhsReg(data)),
            (0b1, _, 0b01000) => Some(AArch64Instr::Ushl(data)),
            (0b1, _, 0b01001) => Some(AArch64Instr::UqshlReg(data)),
            (0b1, _, 0b01010) => Some(AArch64Instr::Urshl(data)),
            (0b1, _, 0b01011) => Some(AArch64Instr::Uqrshl(data)),
            (0b1, _, 0b01100) => Some(AArch64Instr::Umax(data)),
            (0b1, _, 0b01101) => Some(AArch64Instr::Umin(data)),
            (0b1, _, 0b01110) => Some(AArch64Instr::Uabd(data)),
            (0b1, _, 0b01111) => Some(AArch64Instr::Uaba(data)),

            (0b1, _, 0b10000) => Some(AArch64Instr::SubVec(data)),
            (0b1, _, 0b10001) => Some(AArch64Instr::CmeqReg(data)),
            (0b1, _, 0b10010) => Some(AArch64Instr::MlsVec(data)),
            (0b1, _, 0b10011) => Some(AArch64Instr::Pmul(data)),
            (0b1, _, 0b10100) => Some(AArch64Instr::Umaxp(data)),
            (0b1, _, 0b10101) => Some(AArch64Instr::Uminp(data)),
            (0b1, _, 0b10110) => Some(AArch64Instr::SqrdmulhVec(data)),

            (0b1, 0b00 | 0b01, 0b11000) => Some(AArch64Instr::FmaxnmpVec(data)),
            (0b1, 0b00 | 0b01, 0b11010) => Some(AArch64Instr::FaddpVec(data)),
            (0b1, 0b00 | 0b01, 0b11011) => Some(AArch64Instr::FmulVec(data)),
            (0b1, 0b00 | 0b01, 0b11100) => Some(AArch64Instr::FcmgeReg(data)),
            (0b1, 0b00 | 0b01, 0b11101) => Some(AArch64Instr::Facge(data)),
            (0b1, 0b00 | 0b01, 0b11110) => Some(AArch64Instr::FmaxpVec(data)),
            (0b1, 0b00 | 0b01, 0b11111) => Some(AArch64Instr::FdivVec(data)),

            (0b1, 0b00, 0b00011) => Some(AArch64Instr::EorVec(data)),
            (0b1, 0b01, 0b00011) => Some(AArch64Instr::Bsl(data)),

            (0b1, 0b10 | 0b11, 0b11000) => Some(AArch64Instr::FminnmpVec(data)),
            (0b1, 0b10 | 0b11, 0b11010) => Some(AArch64Instr::Fabd(data)),
            (0b1, 0b10 | 0b11, 0b11100) => Some(AArch64Instr::FcmgtReg(data)),
            (0b1, 0b10 | 0b11, 0b11101) => Some(AArch64Instr::Facgt(data)),
            (0b1, 0b10 | 0b11, 0b11110) => Some(AArch64Instr::FminpVec(data)),

            (0b1, 0b10, 0b00011) => Some(AArch64Instr::Bit(data)),
            (0b1, 0b11, 0b00011) => Some(AArch64Instr::Bif(data)),

            _ => None,
        }
    }
}

/// Decodes the advanced simd three same encoding class.
fn parse_advanced_simd_three_same(raw: u32) -> (r: Option<AArch64Instr>)
    ensures
        r == spec_parse_advanced_simd_three_same(raw),
{
    // 0_x_x_01110_xx_1_xxxxx_xxxxx_1_xxxxx_xxxxx
    if raw & 0x9f20_0400 != 0x0e20_0400 {
        return None;
    }
    let q = extract_u8(30..31, raw);
    let u = extract_u8(29..30, raw);
    let size = extract_u8(22..24, raw);
    let rm = extract_u8(16..21, raw);
    let opcode = extract_u8(11..16, raw);
    let rn = extract_u8(5..10, raw);
    let rd = extract_u8(0..5, raw);
    let data = QSizeRmRnRd {
        q,
        size,
        rm,
        rn,
        rd,
    };

    match (u, size, opcode) {
        (0b0, _, 0b00000) => Some(AArch64Instr::Shadd(data)),
        (0b0, _, 0b00001) => Some(AArch64Instr::Sqadd(data)),
        (0b0, _, 0b00010) => Some(AArch64Instr::Srhadd(data)),
        (0b0, _, 0b00100) => Some(AArch64Instr::Shsub(data)),
        (0b0, _, 0b00101) => Some(AArch64Instr::Sqsub(data)),
        (0b0, _, 0b00110) => Some(AArch64Instr::CmgtReg(data)),
        (0b0, _, 0b00111) => Some(AArch64Instr::CmgeReg(data)),
        (0b0, _, 0b01000) => Some(AArch64Instr::Sshl(data)),
        (0b0, _, 0b01001) => Some(AArch64Instr::SqshlReg(data)),
        (0b0, _, 0b01010) => Some(AArch64Instr::Srshl(data)),
        (0b0, _, 0b01011) => Some(AArch64Instr::Sqrshl(data)),
        (0b0, _, 0b01100) => Some(AArch64Instr::Smax(data)),
        (0b0, _, 0b01101) => Some(AArch64Instr::Smin(data)),
        (0b0, _, 0b01110) => Some(AArch64Instr::Sabd(data)),
        (0b0, _, 0b01111) => Some(AArch64Instr::Saba(data)),
        (0b0, _, 0b10000) => Some(AArch64Instr::AddVec(data)),
        (0b0, _, 0b10001) => Some(AArch64Instr::Cmtst(data)),
        (0b0, _, 0b10010) => Some(AArch64Instr::MlaVec(data)),
        (0b0, _, 0b10011) => Some(AArch64Instr::MulVec(data)),
        (0b0, _, 0b10100) => Some(AArch64Instr::Smaxp(data)),
        (0b0, _, 0b10101) => Some(AArch64Instr::Sminp(data)),
        (0b0, _, 0b10110) => Some(AArch64Instr::SqdmulhVec(data)),
        (0b0, _, 0b10111) => Some(AArch64Instr::AddpVec(data)),

        (0b0, 0b00 | 0b01, 0b11000) => Some(AArch64Instr::FmaxnmVec(data)),
        (0b0, 0b00 | 0b01, 0b11001) => Some(AArch64Instr::FmlaVec(data)),
        (0b0, 0b00 | 0b01, 0b11010) => Some(AArch64Instr::FaddVec(data)),
        (0b0, 0b00 | 0b01, 0b11011) => Some(AArch64Instr::Fmulx(data)),
        (0b0, 0b00 | 0b01, 0b11100) => Some(AArch64Instr::FcmeqReg(data)),
        (0b0, 0b00 | 0b01, 0b11110) => Some(AArch64Instr::FmaxVec(data)),
        (0b0, 0b00 | 0b01, 0b11111) => Some(AArch64Instr::Frecps(data)),

        (0b0, 0b00, 0b00011) => Some(AArch64Instr::AndVec(data)),
        (0b0, 0b01, 0b00011) => Some(AArch64Instr::AndVec(data)),

        (0b0, 0b10 | 0b11, 0b11000) => Some(AArch64Instr::FminnmVec(data)),
        (0b0, 0b10 | 0b11, 0b11001) => Some(AArch64Instr::FmlsVec(data)),
        (0b0, 0b10 | 0b11, 0b11010) => Some(AArch64Instr::FsubVec(data)),
        (0b0, 0b10 | 0b11, 0b11110) => Some(AArch64Instr::FminVec(data)),
        (0b0, 0b10 | 0b11, 0b11111) => Some(AArch64Instr::Frsqrts(data)),

        (0b0, 0b10, 0b00011) => Some(AArch64Instr::OrrVecReg(data)),
        (0b0, 0b11, 0b00011) => Some(AArch64Instr::OrnVec(data)),

        (0b1, _, 0b00000) => Some(AArch64Instr::Uhadd(data)),
        (0b1, _, 0b00001) => Some(AArch64Instr::Uqadd(data)),
        (0b1, _, 0b00010) => Some(AArch64Instr::Urhadd(data)),
        (0b1, _, 0b00100) => Some(AArch64Instr::Uhsub(data)),
        (0b1, _, 0b00101) => Some(AArch64Instr::Uqsub(data)),
        (0b1, _, 0b00110) => Some(AArch64Instr::CmhiReg(data)),
        (0b1, _, 0b00111) => Some(AArch64Instr::CmhsReg(data)),
        (0b1, _, 0b01000) => Some(AArch64Instr::Ushl(data)),
        (0b1, _, 0b01001) => Some(AArch64Instr::UqshlReg(data)),
        (0b1, _, 0b01010) => Some(AArch64Instr::Urshl(data)),
        (0b1, _, 0b01011) => Some(AArch64Instr::Uqrshl(data)),
        (0b1, _, 0b01100) => Some(AArch64Instr::Umax(data)),
        (0b1, _, 0b01101) => Some(AArch64Instr::Umin(data)),
        (0b1, _, 0b01110) => Some(AArch64Instr::Uabd(data)),
        (0b1, _, 0b01111) => Some(AArch64Instr::Uaba(data)),

        (0b1, _, 0b10000) => Some(AArch64Instr::SubVec(data)),
        (0b1, _, 0b10001) => Some(AArch64Instr::CmeqReg(data)),
        (0b1, _, 0b10010) => Some(AArch64Instr::MlsVec(data)),
        (0b1, _, 0b10011) => Some(AArch64Instr::Pmul(data)),
        (0b1, _, 0b10100) => Some(AArch64Instr::Umaxp(data)),
        (0b1, _, 0b10101) => Some(AArch64Instr::Uminp(data)),
        (0b1, _, 0b10110) => Some(AArch64Instr::SqrdmulhVec(data)),

        (0b1, 0b00 | 0b01, 0b11000) => Some(AArch64Instr::FmaxnmpVec(data)),
        (0b1, 0b00 | 0b01, 0b11010) => Some(AArch64Instr::FaddpVec(data)),
        (0b1, 0b00 | 0b01, 0b11011) => Some(AArch64Instr::FmulVec(data)),
        (0b1, 0b00 | 0b01, 0b11100) => Some(AArch64Instr::FcmgeReg(data)),
        (0b1, 0b00 | 0b01, 0b11101) => Some(AArch64Instr::Facge(data)),
        (0b1, 0b00 | 0b01, 0b11110) => Some(AArch64Instr::FmaxpVec(data)),
        (0b1, 0b00 | 0b01, 0b11111) => Some(AArch64Instr::FdivVec(data)),

        (0b1, 0b00, 0b00011) => Some(AArch64Instr::EorVec(data)),
        (0b1, 0b01, 0b00011) => Some(AArch64Instr::Bsl(data)),

        (0b1, 0b10 | 0b11, 0b11000) => Some(AArch64Instr::FminnmpVec(data)),
        (0b1, 0b10 | 0b11, 0b11010) => Some(AArch64Instr::Fabd(data)),
        (0b1, 0b10 | 0b11, 0b11100) => Some(AArch64Instr::FcmgtReg(data)),
        (0b1, 0b10 | 0b11, 0b11101) => Some(AArch64Instr::Facgt(data)),
        (0b1, 0b10 | 0b11, 0b11110) => Some(AArch64Instr::FminpVec(data)),

        (0b1, 0b10, 0b00011) => Some(AArch64Instr::Bit(data)),
        (0b1, 0b11, 0b00011) => Some(AArch64Instr::Bif(data)),

        _ => None,
    }
}

/// What the adv simd shift by imm encoding class decodes to.
pub open spec fn spec_parse_adv_simd_shift_by_imm(raw: u32) -> Option<AArch64Instr> {
    if raw & 0x9f80_0400 != 0x0f00_0400 {
        None
    } else {
        let q = field_u8(raw, 30, 31);
        let u = field_u8(raw, 29, 30);
        let immb = field_u8(raw, 16, 19);
        let opcode = field_u8(raw, 11, 16);
        let rn = field_u8(raw, 5, 10);
        let rd = field_u8(raw, 0, 5);
        let data = AdvSimdShiftByImm {
            q,
            immb,
            rn,
            rd,
        };

        match (u, opcode) {
            (0b0, 0b00000) => Some(AArch64Instr::Sshr(data)),
            (0b0, 0b00010) => Some(AArch64Instr::Ssra(data)),
            (0b0, 0b00100) => Some(AArch64Instr::Srshr(data)),
            (0b0, 0b00110) => Some(AArch64Instr::Srsra(data)),
            (0b0, 0b01010) => Some(AArch64Instr::Shl(data)),
            (0b0, 0b01110) => Some(AArch64Instr::SqshlImm(data)),
            (0b0, 0b10000) => Some(AArch64Instr::Shrn(data)),
            (0b0, 0b10001) => Some(AArch64Instr::Rshrn(data)),
            (0b0, 0b10010) => Some(AArch64Instr::Sqshrn(data)),
            (0b0, 0b10011) => Some(AArch64Instr::Sqrshrn(data)),
            (0b0, 0b10100) => Some(AArch64Instr::Sshll(data)),
            (0b0, 0b11100) => Some(AArch64Instr::ScvtfVecFixedPt(data)),
            (0b0, 0b11111) => Some(AArch64Instr::FcvtzsVecFixedPt(data)),

            (0b1, 0b00000) => Some(AArch64Instr::Ushr(data)),
            (0b1, 0b00010) => Some(AArch64Instr::Usra(data)),
            (0b1, 0b00100) => Some(AArch64Instr::Urshr(data)),
            (0b1, 0b00110) => Some(AArch64Instr::Ursra(data)),

            (0b1, 0b01000) => Some(AArch64Instr::Sri(data)),
            (0b1, 0b01010) => Some(AArch64Instr::Sli(data)),

            (0b1, 0b01100) => Some(AArch64Instr::Sqshlu(data)),
            (0b1, 0b01110) => Some(AArch64Instr::UqshlImm(data)),

            (0b1, 0b10000) => Some(AArch64Instr::Sqshrun(data)),
            (0b1, 0b10001) => Some(AArch64Instr::Sqrshrun(data)),
            (0b1, 0b10010) => Some(AArch64Instr::Uqshrn(data)),
            (0b1, 0b10011) => Some(AArch64Instr::Uqrshrn(data)),
            (0b1, 0b10100) => Some(AArch64Instr::Ushll(data)),
            (0b1, 0b11100) => Some(AArch64Instr::UcvtfVecFixedPt(data)),
            (0b1, 0b11111) => Some(AArch64Instr::FcvtzuVecFixedPt(data)),

            _ => None,
        }
    }
}

/// Decodes the adv simd shift by imm encoding class.
fn parse_adv_simd_shift_by_imm(raw: u32) -> (r: Option<AArch64Instr>)
    ensures
        r == spec_parse_adv_simd_shift_by_imm(raw),
{
    // 0_x_x_011110_xxxx_xxx_xxxxx_1_xxxxx_xxxxx
    if raw & 0x9f80_0400 != 0x0f00_0400 {
        return None;
    }
    let q = extract_u8(30..31, raw);
    let u = extract_u8(29..30, raw);
    let immb = extract_u8(16..19, raw);
    let opcode = extract_u8(11..16, raw);
    let rn = extract_u8(5..10, raw);
    let rd = extract_u8(0..5, raw);
    let data = AdvSimdShiftByImm {
        q,
        immb,
        rn,
        rd,
    };

    match (u, opcode) {
        (0b0, 0b00000) => Some(AArch64Instr::Sshr(data)),
        (0b0, 0b00010) => Some(AArch64Instr::Ssra(data)),
        (0b0, 0b00100) => Some(AArch64Instr::Srshr(data)),
        (0b0, 0b00110) => Some(AArch64Instr::Srsra(data)),
        (0b0, 0b01010) => Some(AArch64Instr::Shl(data)),
        (0b0, 0b01110) => Some(AArch64Instr::SqshlImm(data)),
        (0b0, 0b10000) => Some(AArch64Instr::Shrn(data)),
        (0b0, 0b10001) => Some(AArch64Instr::Rshrn(data)),
        (0b0, 0b10010) => Some(AArch64Instr::Sqshrn(data)),
        (0b0, 0b10011) => Some(AArch64Instr::Sqrshrn(data)),
        (0b0, 0b10100) => Some(AArch64Instr::Sshll(data)),
        (0b0, 0b11100) => Some(AArch64Instr::ScvtfVecFixedPt(data)),
        (0b0, 0b11111) => Some(AArch64Instr::FcvtzsVecFixedPt(data)),

        (0b1, 0b00000) => Some(AArch64Instr::Ushr(data)),
        (0b1, 0b00010) => Some(AArch64Instr::Usra(data)),
        (0b1, 0b00100) => Some(AArch64Instr::Urshr(data)),
        (0b1, 0b00110) => Some(AArch64Instr::Ursra(data)),

        (0b1, 0b01000) => Some(AArch64Instr::Sri(data)),
        (0b1, 0b01010) => Some(AArch64Instr::Sli(data)),

        (0b1, 0b01100) => Some(AArch64Instr::Sqshlu(data)),
        (0b1, 0b01110) => Some(AArch64Instr::UqshlImm(data)),

        (0b1, 0b10000) => Some(AArch64Instr::Sqshrun(data)),
        (0b1, 0b10001) => Some(AArch64Instr::Sqrshrun(data)),
        (0b1, 0b10010) => Some(AArch64Instr::Uqshrn(data)),
        (0b1, 0b10011) => Some(AArch64Instr::Uqrshrn(data)),
        (0b1, 0b10100) => Some(AArch64Instr::Ushll(data)),
        (0b1, 0b11100) => Some(AArch64Instr::UcvtfVecFixedPt(data)),
        (0b1, 0b11111) => Some(AArch64Instr::FcvtzuVecFixedPt(data)),

        _ => None,
    }
}

/// What the float data proc 1src encoding class decodes to.
pub open spec fn spec_parse_float_data_proc_1src(raw: u32) -> Option<AArch64Instr> {
    if raw & 0x5f20_7c00 != 0x1e20_4000 {
        None
    } else {
        let m = field_u8(raw, 31, 32);
        let s = field_u8(raw, 29, 30);
        let ptype = field_u8(raw, 22, 24);
        let opcode = field_u8(raw, 15, 21);
        let rn = field_u8(raw, 5, 10);
        let rd = field_u8(raw, 0, 5);
        let data = RnRd {
            rn,
            rd,
        };

        match (m, s, ptype, opcode) {
            (0b0, 0b0, 0b00, 0b000000) => Some(AArch64Instr::FmovRegSinglePrecisionVar(data)),
            (0b0, 0b0, 0b00, 0b000001) => Some(AArch64Instr::FabsScalarSinglePrecisionVar(data)),
            (0b0, 0b0, 0b00, 0b000010) => Some(AArch64Instr::FnegScalarSinglePrecisionVar(data)),
            (0b0, 0b0, 0b00, 0b000011) => Some(AArch64Instr::FsqrtScalarSinglePrecisionVar(data)),

            (0b0, 0b0, 0b00, 0b000101) => {
                Some(AArch64Instr::FcvtSingleToDoublePrecisionVar(data))
            }
            (0b0, 0b0, 0b00, 0b000111) => Some(AArch64Instr::FcvtSingleToHalfPrecisionVar(data)),

            (0b0, 0b0, 0b00, 0b001000) => {
                Some(AArch64Instr::FrintnScalarSinglePrecisionVar(data))
            }
            (0b0, 0b0, 0b00, 0b001001) => {
                Some(AArch64Instr::FrintpScalarSinglePrecisionVar(data))
            }
            (0b0, 0b0, 0b00, 0b001010) => {
                Some(AArch64Instr::FrintmScalarSinglePrecisionVar(data))
            }
            (0b0, 0b0, 0b00, 0b001011) => {
                Some(AArch64Instr::FrintzScalarSinglePrecisionVar(data))
            }
            (0b0, 0b0, 0b00, 0b001100) => {
                Some(AArch64Instr::FrintaScalarSinglePrecisionVar(data))
            }
            (0b0, 0b0, 0b00, 0b001110) => {
                Some(AArch64Instr::FrintxScalarSinglePrecisionVar(data))
            }
            (0b0, 0b0, 0b00, 0b001111) => {
                Some(AArch64Instr::FrintiScalarSinglePrecisionVar(data))
            }

            (0b0, 0b0, 0b01, 0b000000) => Some(AArch64Instr::FmovRegDoublePrecisionVar(data)),
            (0b0, 0b0, 0b01, 0b000001) => Some(AArch64Instr::FabsScalarDoublePrecisionVar(data)),
            (0b0, 0b0, 0b01, 0b000010) => Some(AArch64Instr::FnegScalarDoublePrecisionVar(data)),
            (0b0, 0b0, 0b01, 0b000011) => Some(AArch64Instr::FsqrtScalarDoublePrecisionVar(data)),

            (0b0, 0b0, 0b01, 0b000100) => {
                Some(AArch64Instr::FcvtDoubleToSinglePrecisionVar(data))
            }
            (0b0, 0b0, 0b01, 0b000111) => Some(AArch64Instr::FcvtDoubleToHalfPrecisionVar(data)),

            (0b0, 0b0, 0b01, 0b001000) => {
                Some(AArch64Instr::FrintnScalarDoublePrecisionVar(data))
            }
            (0b0, 0b0, 0b01, 0b001001) => {
                Some(AArch64Instr::FrintpScalarDoublePrecisionVar(data))
            }
            (0b0, 0b0, 0b01, 0b001010) => {
                Some(AArch64Instr::FrintmScalarDoublePrecisionVar(data))
            }
            (0b0, 0b0, 0b01, 0b001011) => {
                Some(AArch64Instr::FrintzScalarDoublePrecisionVar(data))
            }
            (0b0, 0b0, 0b01, 0b001100) => {
                Some(AArch64Instr::FrintaScalarDoublePrecisionVar(data))
            }
            (0b0, 0b0, 0b01, 0b001110) => {
                Some(AArch64Instr::FrintxScalarDoublePrecisionVar(data))
            }
            (0b0, 0b0, 0b01, 0b001111) => {
                Some(AArch64Instr::FrintiScalarDoublePrecisionVar(data))
            }

            _ => None,
        }
    }
}

/// Decodes the float data proc 1src encoding class.
fn parse_float_data_proc_1src(raw: u32) -> (r: Option<AArch64Instr>)
    ensures
        r == spec_parse_float_data_proc_1src(raw),
{
    // x_0_x_11110_xx_1_xxxxxx_10000_xxxxx_xxxxx
    if raw & 0x5f20_7c00 != 0x1e20_4000 {
        return None;
    }
    let m = extract_u8(31..32, raw);
    let s = extract_u8(29..30, raw);
    let ptype = extract_u8(22..24, raw);
    let opcode = extract_u8(15..21, raw);
    let rn = extract_u8(5..10, raw);
    let rd = extract_u8(0..5, raw);
    let data = RnRd {
        rn,
        rd,
    };

    match (m, s, ptype, opcode) {
        (0b0, 0b0, 0b00, 0b000000) => Some(AArch64Instr::FmovRegSinglePrecisionVar(data)),
        (0b0, 0b0, 0b00, 0b000001) => Some(AArch64Instr::FabsScalarSinglePrecisionVar(data)),
        (0b0, 0b0, 0b00, 0b000010) => Some(AArch64Instr::FnegScalarSinglePrecisionVar(data)),
        (0b0, 0b0, 0b00, 0b000011) => Some(AArch64Instr::FsqrtScalarSinglePrecisionVar(data)),

        (0b0, 0b0, 0b00, 0b000101) => {
            Some(AArch64Instr::FcvtSingleToDoublePrecisionVar(data))
        }
        (0b0, 0b0, 0b00, 0b000111) => Some(AArch64Instr::FcvtSingleToHalfPrecisionVar(data)),

        (0b0, 0b0, 0b00, 0b001000) => {
            Some(AArch64Instr::FrintnScalarSinglePrecisionVar(data))
        }
        (0b0, 0b0, 0b00, 0b001001) => {
            Some(AArch64Instr::FrintpScalarSinglePrecisionVar(data))
        }
        (0b0, 0b0, 0b00, 0b001010) => {
            Some(AArch64Instr::FrintmScalarSinglePrecisionVar(data))
        }
        (0b0, 0b0, 0b00, 0b001011) => {
            Some(AArch64Instr::FrintzScalarSinglePrecisionVar(data))
        }
        (0b0, 0b0, 0b00, 0b001100) => {
            Some(AArch64Instr::FrintaScalarSinglePrecisionVar(data))
        }
        (0b0, 0b0, 0b00, 0b001110) => {
            Some(AArch64Instr::FrintxScalarSinglePrecisionVar(data))
        }
        (0b0, 0b0, 0b00, 0b001111) => {
            Some(AArch64Instr::FrintiScalarSinglePrecisionVar(data))
        }

        (0b0, 0b0, 0b01, 0b000000) => Some(AArch64Instr::FmovRegDoublePrecisionVar(data)),
        (0b0, 0b0, 0b01, 0b000001) => Some(AArch64Instr::FabsScalarDoublePrecisionVar(data)),
        (0b0, 0b0, 0b01, 0b000010) => Some(AArch64Instr::FnegScalarDoublePrecisionVar(data)),
        (0b0, 0b0, 0b01, 0b000011) => Some(AArch64Instr::FsqrtScalarDoublePrecisionVar(data)),

        (0b0, 0b0, 0b01, 0b000100) => {
            Some(AArch64Instr::FcvtDoubleToSinglePrecisionVar(data))
        }
        (0b0, 0b0, 0b01, 0b000111) => Some(AArch64Instr::FcvtDoubleToHalfPrecisionVar(data)),

        (0b0, 0b0, 0b01, 0b001000) => {
            Some(AArch64Instr::FrintnScalarDoublePrecisionVar(data))
        }
        (0b0, 0b0, 0b01, 0b001001) => {
            Some(AArch64Instr::FrintpScalarDoublePrecisionVar(data))
        }
        (0b0, 0b0, 0b01, 0b001010) => {
            Some(AArch64Instr::FrintmScalarDoublePrecisionVar(data))
        }
        (0b0, 0b0, 0b01, 0b001011) => {
            Some(AArch64Instr::FrintzScalarDoublePrecisionVar(data))
        }
        (0b0, 0b0, 0b01, 0b001100) => {
            Some(AArch64Instr::FrintaScalarDoublePrecisionVar(data))
        }
        (0b0, 0b0, 0b01, 0b001110) => {
            Some(AArch64Instr::FrintxScalarDoublePrecisionVar(data))
        }
        (0b0, 0b0, 0b01, 0b001111) => {
            Some(AArch64Instr::FrintiScalarDoublePrecisionVar(data))
        }

        _ => None,
    }
}

/// What the adv simd scalar pairwise encoding class decodes to.
pub open spec fn spec_parse_adv_simd_scalar_pairwise(raw: u32) -> Option<AArch64Instr> {
    if raw & 0xdf3e_0c00 != 0x5e30_0800 {
        None
    } else {
        let u = field_u8(raw, 29, 30);
        let size = field_u8(raw, 22, 24);
        let opcode = field_u8(raw, 12, 17);
        let rn = field_u8(raw, 5, 10);
        let rd = field_u8(raw, 0, 5);
        let data = AdvSimdScalarPairwise {
            size,
            rn,
            rd,
        };

        match (u, size, opcode) {
            (0b0, _, 0b11011) => Some(AArch64Instr::AddpScalar(data)),
            (0b0, 0b00 | 0b01, 0b01100) => Some(AArch64Instr::FmaxnmpScalarEncoding(data)),
            (0b0, 0b00 | 0b01, 0b01101) => Some(AArch64Instr::FaddpScalarEncoding(data)),
            (0b0, 0b00 | 0b01, 0b01111) => Some(AArch64Instr::FmaxpScalarEncoding(data)),
            (0b0, 0b10 | 0b11, 0b01100) => Some(AArch64Instr::FminnmpScalarEncoding(data)),
            (0b0, 0b10 | 0b11, 11) => Some(AArch64Instr::FminpScalarEncoding(data)),

            _ => None,
        }
    }
}

/// Decodes the adv simd scalar pairwise encoding class.
fn parse_adv_simd_scalar_pairwise(raw: u32) -> (r: Option<AArch64Instr>)
    ensures
        r == spec_parse_adv_simd_scalar_pairwise(raw),
{
    // 01_x_11110_xx_11000_xxxxx_10_xxxxx_xxxxx
    if raw & 0xdf3e_0c00 != 0x5e30_0800 {
        return None;
    }
    let u = extract_u8(29..30, raw);
    let size = extract_u8(22..24, raw);
    let opcode = extract_u8(12..17, raw);
    let rn = extract_u8(5..10, raw);
    let rd = extract_u8(0..5, raw);
    let data = AdvSimdScalarPairwise {
        size,
        rn,
        rd,
    };

    match (u, size, opcode) {
        (0b0, _, 0b11011) => Some(AArch64Instr::AddpScalar(data)),
        (0b0, 0b00 | 0b01, 0b01100) => Some(AArch64Instr::FmaxnmpScalarEncoding(data)),
        (0b0, 0b00 | 0b01, 0b01101) => Some(AArch64Instr::FaddpScalarEncoding(data)),
        (0b0, 0b00 | 0b01, 0b01111) => Some(AArch64Instr::FmaxpScalarEncoding(data)),
        (0b0, 0b10 | 0b11, 0b01100) => Some(AArch64Instr::FminnmpScalarEncoding(data)),
        (0b0, 0b10 | 0b11, 11) => Some(AArch64Instr::FminpScalarEncoding(data)),

        _ => None,
    }
}

/// What the adv simd ld st single structure encoding class decodes to.
pub open spec fn spec_parse_adv_simd_ld_st_single_structure(raw: u32) -> Option<AArch64Instr> {
    if raw & 0xbf9f_0000 != 0x0d00_0000 {
        None
    } else {
        let q = field_u8(raw, 30, 31);
        let l = field_u8(raw, 22, 23);
        let r = field_u8(raw, 21, 22);
        let opcode = field_u8(raw, 13, 16);
        let s = field_u8(raw, 12, 13);
        let size = field_u8(raw, 10, 12);
        let rn = field_u8(raw, 5, 10);
        let rt = field_u8(raw, 0, 5);
        let data = AdvSimdLdStSingleStructure {
            q,
            s,
            size,
            rn,
            rt,
        };

        match (l, r, opcode, s, size) {
            (0b0, 0b0, 0b000, _, _) => Some(AArch64Instr::St1SingleStructureVar8(data)),
            (0b0, 0b0, 0b001, _, _) => Some(AArch64Instr::St3SingleStructureVar8(data)),
            (0b0, 0b0, 0b010, _, 0b00 | 0b10) => {
                Some(AArch64Instr::St1SingleStructureVar16(data))
            }
            (0b0, 0b0, 0b011, _, 0b00 | 0b10) => {
                Some(AArch64Instr::St3SingleStructureVar16(data))
            }

            (0b0, 0b0, 0b100, _, 0b00) => Some(AArch64Instr::St1SingleStructureVar32(data)),
            (0b0, 0b0, 0b100, 0b0, 0b01) => Some(AArch64Instr::St1SingleStructureVar64(data)),
            (0b0, 0b0, 0b101, _, 0b00) => Some(AArch64Instr::St3SingleStructureVar32(data)),
            (0b0, 0b0, 0b101, 0b0, 0b01) => Some(AArch64Instr::St3SingleStructureVar64(data)),

            (0b0, 0b1, 0b000, _, _) => Some(AArch64Instr::St2SingleStructureVar8(data)),
            (0b0, 0b1, 0b001, _, _) => Some(AArch64Instr::St4SingleStructureVar8(data)),
            (0b0, 0b1, 0b010, _, 0b00 | 0b10) => {
                Some(AArch64Instr::St2SingleStructureVar16(data))
            }

            (0b0, 0b1, 0b011, _, 0b00 | 0b10) => {
                Some(AArch64Instr::St4SingleStructureVar16(data))
            }

            (0b0, 0b1, 0b100, _, 0b00) => Some(AArch64Instr::St2SingleStructureVar32(data)),
            (0b0, 0b1, 0b100, 0b0, 0b01) => Some(AArch64Instr::St2SingleStructureVar64(data)),
            (0b0, 0b1, 0b101, _, 0b00) => Some(AArch64Instr::St4SingleStructureVar32(data)),
            (0b0, 0b1, 0b101, 0b0, 0b01) => Some(AArch64Instr::St4SingleStructureVar64(data)),

            (0b1, 0b0, 0b000, _, _) => Some(AArch64Instr::Ld1SingleStructureVar8(data)),
            (0b1, 0b0, 0b001, _, _) => Some(AArch64Instr::Ld3SingleStructureVar8(data)),
            (0b1, 0b0, 0b010, _, 0b00 | 0b10) => {
                Some(AArch64Instr::Ld1SingleStructureVar16(data))
            }

            (0b1, 0b0, 0b011, _, 0b00 | 0b10) => {
                Some(AArch64Instr::Ld3SingleStructureVar16(data))
            }

            (0b1, 0b0, 0b100, _, 0b00) => Some(AArch64Instr::Ld1SingleStructureVar32(data)),
            (0b1, 0b0, 0b100, 0b0, 0b01) => Some(AArch64Instr::Ld1SingleStructureVar64(data)),
            (0b1, 0b0, 0b101, _, 0b00) => Some(AArch64Instr::Ld3SingleStructureVar32(data)),
            (0b1, 0b0, 0b101, 0b0, 0b01) => Some(AArch64Instr::Ld3SingleStructureVar64(data)),

            (0b1, 0b0, 0b110, 0b0, _) => Some(AArch64Instr::Ld1r(data)),
            (0b1, 0b0, 0b111, 0b0, _) => Some(AArch64Instr::Ld3r(data)),

            (0b1, 0b1, 0b000, _, _) => Some(AArch64Instr::Ld2SingleStructureVar8(data)),
            (0b1, 0b1, 0b001, _, _) => Some(AArch64Instr::Ld4SingleStructureVar8(data)),
            (0b1, 0b1, 0b010, _, 0b00 | 0b10) => {
                Some(AArch64Instr::Ld2SingleStructureVar16(data))
            }

            (0b1, 0b1, 0b011, _, 0b00 | 0b10) => {
                Some(AArch64Instr::Ld4SingleStructureVar16(data))
            }

            (0b1, 0b1, 0b100, _, 0b00) => Some(AArch64Instr::Ld2SingleStructureVar32(data)),
            (0b1, 0b1, 0b100, 0b0, 0b01) => Some(AArch64Instr::Ld2SingleStructureVar64(data)),
            (0b1, 0b1, 0b101, _, 0b00) => Some(AArch64Instr::Ld4SingleStructureVar32(data)),
            (0b1, 0b1, 0b101, 0b0, 0b01) => Some(AArch64Instr::Ld4SingleStructureVar64(data)),

            (0b1, 0b1, 0b110, 0b0, _) => Some(AArch64Instr::Ld2r(data)),
            (0b1, 0b1, 0b111, 0b0, _) => Some(AArch64Instr::Ld2r(data)),

            _ => None,
        }
    }
}

/// Decodes the adv simd ld st single structure encoding class.
fn parse_adv_simd_ld_st_single_structure(raw: u32) -> (r: Option<AArch64Instr>)
    ensures
        r == spec_parse_adv_simd_ld_st_single_structure(raw),
{
    // 0_x_0011010_x_x_00000_xxx_x_xx_xxxxx_xxxxx
    if raw & 0xbf9f_0000 != 0x0d00_0000 {
        return None;
    }
    let q = extract_u8(30..31, raw);
    let l = extract_u8(22..23, raw);
    let r = extract_u8(21..22, raw);
    let opcode = extract_u8(13..16, raw);
    let s = extract_u8(12..13, raw);
    let size = extract_u8(10..12, raw);
    let rn = extract_u8(5..10, raw);
    let rt = extract_u8(0..5, raw);
    let data = AdvSimdLdStSingleStructure {
        q,
        s,
        size,
        rn,
        rt,
    };

    match (l, r, opcode, s, size) {
        (0b0, 0b0, 0b000, _, _) => Some(AArch64Instr::St1SingleStructureVar8(data)),
        (0b0, 0b0, 0b001, _, _) => Some(AArch64Instr::St3SingleStructureVar8(data)),
        (0b0, 0b0, 0b010, _, 0b00 | 0b10) => {
            Some(AArch64Instr::St1SingleStructureVar16(data))
        }
        (0b0, 0b0, 0b011, _, 0b00 | 0b10) => {
            Some(AArch64Instr::St3SingleStructureVar16(data))
        }

        (0b0, 0b0, 0b100, _, 0b00) => Some(AArch64Instr::St1SingleStructureVar32(data)),
        (0b0, 0b0, 0b100, 0b0, 0b01) => Some(AArch64Instr::St1SingleStructureVar64(data)),
        (0b0, 0b0, 0b101, _, 0b00) => Some(AArch64Instr::St3SingleStructureVar32(data)),
        (0b0, 0b0, 0b101, 0b0, 0b01) => Some(AArch64Instr::St3SingleStructureVar64(data)),

        (0b0, 0b1, 0b000, _, _) => Some(AArch64Instr::St2SingleStructureVar8(data)),
        (0b0, 0b1, 0b001, _, _) => Some(AArch64Instr::St4SingleStructureVar8(data)),
        (0b0, 0b1, 0b010, _, 0b00 | 0b10) => {
            Some(AArch64Instr::St2SingleStructureVar16(data))
        }

        (0b0, 0b1, 0b011, _, 0b00 | 0b10) => {
            Some(AArch64Instr::St4SingleStructureVar16(data))
        }

        (0b0, 0b1, 0b100, _, 0b00) => Some(AArch64Instr::St2SingleStructureVar32(data)),
        (0b0, 0b1, 0b100, 0b0, 0b01) => Some(AArch64Instr::St2SingleStructureVar64(data)),
        (0b0, 0b1, 0b101, _, 0b00) => Some(AArch64Instr::St4SingleStructureVar32(data)),
        (0b0, 0b1, 0b101, 0b0, 0b01) => Some(AArch64Instr::St4SingleStructureVar64(data)),

        (0b1, 0b0, 0b000, _, _) => Some(AArch64Instr::Ld1SingleStructureVar8(data)),
        (0b1, 0b0, 0b001, _, _) => Some(AArch64Instr::Ld3SingleStructureVar8(data)),
        (0b1, 0b0, 0b010, _, 0b00 | 0b10) => {
            Some(AArch64Instr::Ld1SingleStructureVar16(data))
        }

        (0b1, 0b0, 0b011, _, 0b00 | 0b10) => {
            Some(AArch64Instr::Ld3SingleStructureVar16(data))
        }

        (0b1, 0b0, 0b100, _, 0b00) => Some(AArch64Instr::Ld1SingleStructureVar32(data)),
        (0b1, 0b0, 0b100, 0b0, 0b01) => Some(AArch64Instr::Ld1SingleStructureVar64(data)),
        (0b1, 0b0, 0b101, _, 0b00) => Some(AArch64Instr::Ld3SingleStructureVar32(data)),
        (0b1, 0b0, 0b101, 0b0, 0b01) => Some(AArch64Instr::Ld3SingleStructureVar64(data)),

        (0b1, 0b0, 0b110, 0b0, _) => Some(AArch64Instr::Ld1r(data)),
        (0b1, 0b0, 0b111, 0b0, _) => Some(AArch64Instr::Ld3r(data)),

        (0b1, 0b1, 0b000, _, _) => Some(AArch64Instr::Ld2SingleStructureVar8(data)),
        (0b1, 0b1, 0b001, _, _) => Some(AArch64Instr::Ld4SingleStructureVar8(data)),
        (0b1, 0b1, 0b010, _, 0b00 | 0b10) => {
            Some(AArch64Instr::Ld2SingleStructureVar16(data))
        }

        (0b1, 0b1, 0b011, _, 0b00 | 0b10) => {
            Some(AArch64Instr::Ld4SingleStructureVar16(data))
        }

        (0b1, 0b1, 0b100, _, 0b00) => Some(AArch64Instr::Ld2SingleStructureVar32(data)),
        (0b1, 0b1, 0b100, 0b0, 0b01) => Some(AArch64Instr::Ld2SingleStructureVar64(data)),
        (0b1, 0b1, 0b101, _, 0b00) => Some(AArch64Instr::Ld4SingleStructureVar32(data)),
        (0b1, 0b1, 0b101, 0b0, 0b01) => Some(AArch64Instr::Ld4SingleStructureVar64(data)),

        (0b1, 0b1, 0b110, 0b0, _) => Some(AArch64Instr::Ld2r(data)),
        (0b1, 0b1, 0b111, 0b0, _) => Some(AArch64Instr::Ld2r(data)),

        _ => None,
    }
}

/// What the adv simd 2reg miscellaneous encoding class decodes to.
pub open spec fn spec_parse_adv_simd_2reg_miscellaneous(raw: u32) -> Option<AArch64Instr> {
    if raw & 0x9f3e_0c00 != 0x0e20_0800 {
        None
    } else {
        let q = field_u8(raw, 30, 31);
        let u = field_u8(raw, 29, 30);
        let size = field_u8(raw, 22, 24);
        let opcode = field_u8(raw, 12, 17);
        let rn = field_u8(raw, 5, 10);
        let rd = field_u8(raw, 0, 5);
        let data = QSizeRnRd {
            q,
            size,
            rn,
            rd,
        };

        match (u, size, opcode) {
            (0b0, _, 0b00000) => Some(AArch64Instr::Rev64(data)),
            (0b0, _, 0b00001) => Some(AArch64Instr::Rev16Vec(data)),
            (0b0, _, 0b00010) => Some(AArch64Instr::Saddlp(data)),
            (0b0, _, 0b00011) => Some(AArch64Instr::Suqadd(data)),
            (0b0, _, 0b00100) => Some(AArch64Instr::ClsVec(data)),
            (0b0, _, 0b00101) => Some(AArch64Instr::Cnt(data)),
            (0b0, _, 0b00110) => Some(AArch64Instr::Sadalp(data)),
            (0b0, _, 0b00111) => Some(AArch64Instr::Sqabs(data)),
            (0b0, _, 0b01000) => Some(AArch64Instr::CmgtZero(data)),
            (0b0, _, 0b01001) => Some(AArch64Instr::CmeqZero(data)),
            (0b0, _, 0b01010) => Some(AArch64Instr::CmltZero(data)),
            (0b0, _, 0b01011) => Some(AArch64Instr::Abs(data)),
            (0b0, _, 0b10010) => Some(AArch64Instr::XtnXtn2(data)),
            (0b0, _, 0b10100) => Some(AArch64Instr::Sqxtn(data)),

            (0b0, 0b00 | 0b01, 0b10110) => Some(AArch64Instr::Fcvtn(data)),
            (0b0, 0b00 | 0b01, 0b10111) => Some(AArch64Instr::Fcvtl(data)),
            (0b0, 0b00 | 0b01, 0b11000) => Some(AArch64Instr::FrintnVec(data)),
            (0b0, 0b00 | 0b01, 0b11001) => Some(AArch64Instr::FrintmVec(data)),
            (0b0, 0b00 | 0b01, 0b11010) => Some(AArch64Instr::FcvtnsVec(data)),
            (0b0, 0b00 | 0b01, 0b11011) => Some(AArch64Instr::FcvtmsVec(data)),
            (0b0, 0b00 | 0b01, 0b11100) => Some(AArch64Instr::FcvtasVec(data)),
            (0b0, 0b00 | 0b01, 0b11101) => Some(AArch64Instr::ScvtfVecInt(data)),

            (0b0, 0b10 | 0b11, 0b01100) => Some(AArch64Instr::FcmgtZero(data)),
            (0b0, 0b10 | 0b11, 0b01101) => Some(AArch64Instr::FcmeqZero(data)),
            (0b0, 0b10 | 0b11, 0b01110) => Some(AArch64Instr::FcmltZero(data)),
            (0b0, 0b10 | 0b11, 0b01111) => Some(AArch64Instr::FabsVec(data)),
            (0b0, 0b10 | 0b11, 0b11000) => Some(AArch64Instr::FrintpVec(data)),
            (0b0, 0b10 | 0b11, 0b11001) => Some(AArch64Instr::FrintzVec(data)),
            (0b0, 0b10 | 0b11, 0b11010) => Some(AArch64Instr::FcvtpsVec(data)),
            (0b0, 0b10 | 0b11, 0b11011) => Some(AArch64Instr::FcvtzsVecInt(data)),
            (0b0, 0b10 | 0b11, 0b11100) => Some(AArch64Instr::Urecpe(data)),
            (0b0, 0b10 | 0b11, 0b11101) => Some(AArch64Instr::Frecpe(data)),

            (0b1, _, 0b00000) => Some(AArch64Instr::Rev32Vec(data)),
            (0b1, _, 0b00010) => Some(AArch64Instr::Uaddlp(data)),
            (0b1, _, 0b00011) => Some(AArch64Instr::Usqadd(data)),
            (0b1, _, 0b00100) => Some(AArch64Instr::ClzVec(data)),
            (0b1, _, 0b00110) => Some(AArch64Instr::Uadalp(data)),
            (0b1, _, 0b00111) => Some(AArch64Instr::Sqneg(data)),
            (0b1, _, 0b01000) => Some(AArch64Instr::CmgeZero(data)),
            (0b1, _, 0b01001) => Some(AArch64Instr::CmleZero(data)),
            (0b1, _, 0b01011) => Some(AArch64Instr::NegVec(data)),
            (0b1, _, 0b10010) => Some(AArch64Instr::Sqxtun(data)),
            (0b1, _, 0b10011) => Some(AArch64Instr::Shll(data)),
            (0b1, _, 0b10100) => Some(AArch64Instr::Uqxtn(data)),

            (0b1, 0b00 | 0b01, 0b10110) => Some(AArch64Instr::Fcvtxn(data)),
            (0b1, 0b00 | 0b01, 0b11000) => Some(AArch64Instr::FrintaVec(data)),
            (0b1, 0b00 | 0b01, 0b11001) => Some(AArch64Instr::FrintxVec(data)),
            (0b1, 0b00 | 0b01, 0b11010) => Some(AArch64Instr::FcvtnuVec(data)),
            (0b1, 0b00 | 0b01, 0b11011) => Some(AArch64Instr::FcvtmuVec(data)),
            (0b1, 0b00 | 0b01, 0b11100) => Some(AArch64Instr::FcvtauVec(data)),
            (0b1, 0b00 | 0b01, 0b11101) => Some(AArch64Instr::UcvtfVecInt(data)),

            (0b1, 0b00, 0b00101) => Some(AArch64Instr::Not(data)),
            (0b1, 0b01, 0b00101) => Some(AArch64Instr::RbitVec(data)),

            (0b1, 0b10 | 0b11, 0b01100) => Some(AArch64Instr::FcmgeZero(data)),
            (0b1, 0b10 | 0b11, 0b01101) => Some(AArch64Instr::FcmleZero(data)),
            (0b1, 0b10 | 0b11, 0b01111) => Some(AArch64Instr::FnegVec(data)),
            (0b1, 0b10 | 0b11, 0b11001) => Some(AArch64Instr::FrintiVec(data)),
            (0b1, 0b10 | 0b11, 0b11010) => Some(AArch64Instr::FcvtpuVec(data)),
            (0b1, 0b10 | 0b11, 0b11011) => Some(AArch64Instr::FcvtzuVecInt(data)),
            (0b1, 0b10 | 0b11, 0b11100) => Some(AArch64Instr::Ursqrte(data)),
            (0b1, 0b10 | 0b11, 0b11101) => Some(AArch64Instr::Frsqrte(data)),
            (0b1, 0b10 | 0b11, 0b11111) => Some(AArch64Instr::FsqrtVec(data)),

            _ => None,
        }
    }
}

/// Decodes the adv simd 2reg miscellaneous encoding class.
fn parse_adv_simd_2reg_miscellaneous(raw: u32) -> (r: Option<AArch64Instr>)
    ensures
        r == spec_parse_adv_simd_2reg_miscellaneous(raw),
{
    // 0_x_x_01110_xx_10000_xxxxx_10_xxxxx_xxxxx
    if raw & 0x9f3e_0c00 != 0x0e20_0800 {
        return None;
    }
    let q = extract_u8(30..31, raw);
    let u = extract_u8(29..30, raw);
    let size = extract_u8(22..24, raw);
    let opcode = extract_u8(12..17, raw);
    let rn = extract_u8(5..10, raw);
    let rd = extract_u8(0..5, raw);
    let data = QSizeRnRd {
        q,
        size,
        rn,
        rd,
    };

    match (u, size, opcode) {
        (0b0, _, 0b00000) => Some(AArch64Instr::Rev64(data)),
        (0b0, _, 0b00001) => Some(AArch64Instr::Rev16Vec(data)),
        (0b0, _, 0b00010) => Some(AArch64Instr::Saddlp(data)),
        (0b0, _, 0b00011) => Some(AArch64Instr::Suqadd(data)),
        (0b0, _, 0b00100) => Some(AArch64Instr::ClsVec(data)),
        (0b0, _, 0b00101) => Some(AArch64Instr::Cnt(data)),
        (0b0, _, 0b00110) => Some(AArch64Instr::Sadalp(data)),
        (0b0, _, 0b00111) => Some(AArch64Instr::Sqabs(data)),
        (0b0, _, 0b01000) => Some(AArch64Instr::CmgtZero(data)),
        (0b0, _, 0b01001) => Some(AArch64Instr::CmeqZero(data)),
        (0b0, _, 0b01010) => Some(AArch64Instr::CmltZero(data)),
        (0b0, _, 0b01011) => Some(AArch64Instr::Abs(data)),
        (0b0, _, 0b10010) => Some(AArch64Instr::XtnXtn2(data)),
        (0b0, _, 0b10100) => Some(AArch64Instr::Sqxtn(data)),

        (0b0, 0b00 | 0b01, 0b10110) => Some(AArch64Instr::Fcvtn(data)),
        (0b0, 0b00 | 0b01, 0b10111) => Some(AArch64Instr::Fcvtl(data)),
        (0b0, 0b00 | 0b01, 0b11000) => Some(AArch64Instr::FrintnVec(data)),
        (0b0, 0b00 | 0b01, 0b11001) => Some(AArch64Instr::FrintmVec(data)),
        (0b0, 0b00 | 0b01, 0b11010) => Some(AArch64Instr::FcvtnsVec(data)),
        (0b0, 0b00 | 0b01, 0b11011) => Some(AArch64Instr::FcvtmsVec(data)),
        (0b0, 0b00 | 0b01, 0b11100) => Some(AArch64Instr::FcvtasVec(data)),
        (0b0, 0b00 | 0b01, 0b11101) => Some(AArch64Instr::ScvtfVecInt(data)),

        (0b0, 0b10 | 0b11, 0b01100) => Some(AArch64Instr::FcmgtZero(data)),
        (0b0, 0b10 | 0b11, 0b01101) => Some(AArch64Instr::FcmeqZero(data)),
        (0b0, 0b10 | 0b11, 0b01110) => Some(AArch64Instr::FcmltZero(data)),
        (0b0, 0b10 | 0b11, 0b01111) => Some(AArch64Instr::FabsVec(data)),
        (0b0, 0b10 | 0b11, 0b11000) => Some(AArch64Instr::FrintpVec(data)),
        (0b0, 0b10 | 0b11, 0b11001) => Some(AArch64Instr::FrintzVec(data)),
        (0b0, 0b10 | 0b11, 0b11010) => Some(AArch64Instr::FcvtpsVec(data)),
        (0b0, 0b10 | 0b11, 0b11011) => Some(AArch64Instr::FcvtzsVecInt(data)),
        (0b0, 0b10 | 0b11, 0b11100) => Some(AArch64Instr::Urecpe(data)),
        (0b0, 0b10 | 0b11, 0b11101) => Some(AArch64Instr::Frecpe(data)),

        (0b1, _, 0b00000) => Some(AArch64Instr::Rev32Vec(data)),
        (0b1, _, 0b00010) => Some(AArch64Instr::Uaddlp(data)),
        (0b1, _, 0b00011) => Some(AArch64Instr::Usqadd(data)),
        (0b1, _, 0b00100) => Some(AArch64Instr::ClzVec(data)),
        (0b1, _, 0b00110) => Some(AArch64Instr::Uadalp(data)),
        (0b1, _, 0b00111) => Some(AArch64Instr::Sqneg(data)),
        (0b1, _, 0b01000) => Some(AArch64Instr::CmgeZero(data)),
        (0b1, _, 0b01001) => Some(AArch64Instr::CmleZero(data)),
        (0b1, _, 0b01011) => Some(AArch64Instr::NegVec(data)),
        (0b1, _, 0b10010) => Some(AArch64Instr::Sqxtun(data)),
        (0b1, _, 0b10011) => Some(AArch64Instr::Shll(data)),
        (0b1, _, 0b10100) => Some(AArch64Instr::Uqxtn(data)),

        (0b1, 0b00 | 0b01, 0b10110) => Some(AArch64Instr::Fcvtxn(data)),
        (0b1, 0b00 | 0b01, 0b11000) => Some(AArch64Instr::FrintaVec(data)),
        (0b1, 0b00 | 0b01, 0b11001) => Some(AArch64Instr::FrintxVec(data)),
        (0b1, 0b00 | 0b01, 0b11010) => Some(AArch64Instr::FcvtnuVec(data)),
        (0b1, 0b00 | 0b01, 0b11011) => Some(AArch64Instr::FcvtmuVec(data)),
        (0b1, 0b00 | 0b01, 0b11100) => Some(AArch64Instr::FcvtauVec(data)),
        (0b1, 0b00 | 0b01, 0b11101) => Some(AArch64Instr::UcvtfVecInt(data)),

        (0b1, 0b00, 0b00101) => Some(AArch64Instr::Not(data)),
        (0b1, 0b01, 0b00101) => Some(AArch64Instr::RbitVec(data)),

        (0b1, 0b10 | 0b11, 0b01100) => Some(AArch64Instr::FcmgeZero(data)),
        (0b1, 0b10 | 0b11, 0b01101) => Some(AArch64Instr::FcmleZero(data)),
        (0b1, 0b10 | 0b11, 0b01111) => Some(AArch64Instr::FnegVec(data)),
        (0b1, 0b10 | 0b11, 0b11001) => Some(AArch64Instr::FrintiVec(data)),
        (0b1, 0b10 | 0b11, 0b11010) => Some(AArch64Instr::FcvtpuVec(data)),
        (0b1, 0b10 | 0b11, 0b11011) => Some(AArch64Instr::FcvtzuVecInt(data)),
        (0b1, 0b10 | 0b11, 0b11100) => Some(AArch64Instr::Ursqrte(data)),
        (0b1, 0b10 | 0b11, 0b11101) => Some(AArch64Instr::Frsqrte(data)),
        (0b1, 0b10 | 0b11, 0b11111) => Some(AArch64Instr::FsqrtVec(data)),

        _ => None,
    }
}

/// What the adv simd across lanes encoding class decodes to.
pub open spec fn spec_parse_adv_simd_across_lanes(raw: u32) -> Option<AArch64Instr> {
    if raw & 0x9f3e_0c00 != 0x0e30_0800 {
        None
    } else {
        let q = field_u8(raw, 30, 31);
        let u = field_u8(raw, 29, 30);
        let size = field_u8(raw, 22, 24);
        let opcode = field_u8(raw, 12, 17);
        let rn = field_u8(raw, 5, 10);
        let rd = field_u8(raw, 0, 5);
        let data = QSizeRnRd {
            q,
            size,
            rn,
            rd,
        };

        match (u, size, opcode) {
            (0b0, _, 0b00011) => Some(AArch64Instr::Saddlv(data)),
            (0b0, _, 0b01010) => Some(AArch64Instr::Smaxv(data)),
            (0b0, _, 0b11010) => Some(AArch64Instr::Sminv(data)),
            (0b0, _, 0b11011) => Some(AArch64Instr::Addv(data)),

            (0b1, _, 0b00011) => Some(AArch64Instr::Uaddlv(data)),
            (0b1, _, 0b01010) => Some(AArch64Instr::Uaddlv(data)),
            (0b1, _, 0b11010) => Some(AArch64Instr::Uminv(data)),

            (0b1, 0b00 | 0b01, 0b01100) => Some(AArch64Instr::FmaxnvmEncoding(data)),
            (0b1, 0b00 | 0b01, 0b01111) => Some(AArch64Instr::FmaxvEncoding(data)),

            (0b1, 0b10 | 0b11, 0b01100) => Some(AArch64Instr::FminnmvEncoding(data)),
            (0b1, 0b10 | 0b11, 0b01111) => Some(AArch64Instr::FminvEncoding(data)),

            _ => None,
        }
    }
}

/// Decodes the adv simd across lanes encoding class.
fn parse_adv_simd_across_lanes(raw: u32) -> (r: Option<AArch64Instr>)
    ensures
        r == spec_parse_adv_simd_across_lanes(raw),
{
    // 0_x_x_01110_xx_11000_xxxxx_10_xxxxx_xxxxx
    if raw & 0x9f3e_0c00 != 0x0e30_0800 {
        return None;
    }
    let q = extract_u8(30..31, raw);
    let u = extract_u8(29..30, raw);
    let size = extract_u8(22..24, raw);
    let opcode = extract_u8(12..17, raw);
    let rn = extract_u8(5..10, raw);
    let rd = extract_u8(0..5, raw);
    let data = QSizeRnRd {
        q,
        size,
        rn,
        rd,
    };

    match (u, size, opcode) {
        (0b0, _, 0b00011) => Some(AArch64Instr::Saddlv(data)),
        (0b0, _, 0b01010) => Some(AArch64Instr::Smaxv(data)),
        (0b0, _, 0b11010) => Some(AArch64Instr::Sminv(data)),
        (0b0, _, 0b11011) => Some(AArch64Instr::Addv(data)),

        (0b1, _, 0b00011) => Some(AArch64Instr::Uaddlv(data)),
        (0b1, _, 0b01010) => Some(AArch64Instr::Uaddlv(data)),
        (0b1, _, 0b11010) => Some(AArch64Instr::Uminv(data)),

        (0b1, 0b00 | 0b01, 0b01100) => Some(AArch64Instr::FmaxnvmEncoding(data)),
        (0b1, 0b00 | 0b01, 0b01111) => Some(AArch64Instr::FmaxvEncoding(data)),

        (0b1, 0b10 | 0b11, 0b01100) => Some(AArch64Instr::FminnmvEncoding(data)),
        (0b1, 0b10 | 0b11, 0b01111) => Some(AArch64Instr::FminvEncoding(data)),

        _ => None,
    }
}

/// What the compare and swap encoding class decodes to.
pub open spec fn spec_parse_compare_and_swap(raw: u32) -> Option<AArch64Instr> {
    if raw & 0x3fa0_0000 != 0x08a0_0000 {
        None
    } else {
        let size = field_u8(raw, 30, 32);
        let l = field_u8(raw, 22, 23);
        let rs = field_u8(raw, 16, 21);
        let o0 = field_u8(raw, 15, 16);
        let rt2 = field_u8(raw, 10, 15);
        let rn = field_u8(raw, 5, 10);
        let rt = field_u8(raw, 0, 5);
        let data = RsRnRt {
            rs,
            rn,
            rt,
        };

        match (size, l, o0, rt2) {
            (0b00, 0b0, 0b0, 0b11111) => Some(AArch64Instr::Casb(data)),
            (0b00, 0b0, 0b1, 0b11111) => Some(AArch64Instr::Caslb(data)),
            (0b00, 0b1, 0b0, 0b11111) => Some(AArch64Instr::Casab(data)),
            (0b00, 0b1, 0b1, 0b11111) => Some(AArch64Instr::Casalb(data)),

            (0b01, 0b0, 0b0, 0b11111) => Some(AArch64Instr::Cash(data)),
            (0b01, 0b0, 0b1, 0b11111) => Some(AArch64Instr::Caslh(data)),
            (0b01, 0b1, 0b0, 0b11111) => Some(AArch64Instr::Casah(data)),
            (0b01, 0b1, 0b1, 0b11111) => Some(AArch64Instr::Casalh(data)),

            (0b10, 0b0, 0b0, 0b11111) => Some(AArch64Instr::CasVar32(data)),
            (0b10, 0b0, 0b1, 0b11111) => Some(AArch64Instr::CaslVar32(data)),
            (0b10, 0b1, 0b0, 0b11111) => Some(AArch64Instr::CasaVar32(data)),
            (0b10, 0b1, 0b1, 0b11111) => Some(AArch64Instr::CasalVar32(data)),

            (0b11, 0b0, 0b0, 0b11111) => Some(AArch64Instr::CasVar64(data)),
            (0b11, 0b0, 0b1, 0b11111) => Some(AArch64Instr::CaslVar64(data)),
            (0b11, 0b1, 0b0, 0b11111) => Some(AArch64Instr::CasaVar64(data)),
            (0b11, 0b1, 0b1, 0b11111) => Some(AArch64Instr::CasalVar64(data)),

            _ => None,
        }
    }
}

/// Decodes the compare and swap encoding class.
fn parse_compare_and_swap(raw: u32) -> (r: Option<AArch64Instr>)
    ensures
        r == spec_parse_compare_and_swap(raw),
{
    // xx_0010001_x_1_xxxxx_x_xxxxx_xxxxx_xxxxx
    if raw & 0x3fa0_0000 != 0x08a0_0000 {
        return None;
    }
    let size = extract_u8(30..32, raw);
    let l = extract_u8(22..23, raw);
    let rs = extract_u8(16..21, raw);
    let o0 = extract_u8(15..16, raw);
    let rt2 = extract_u8(10..15, raw);
    let rn = extract_u8(5..10, raw);
    let rt = extract_u8(0..5, raw);
    let data = RsRnRt {
        rs,
        rn,
        rt,
    };

    match (size, l, o0, rt2) {
        (0b00, 0b0, 0b0, 0b11111) => Some(AArch64Instr::Casb(data)),
        (0b00, 0b0, 0b1, 0b11111) => Some(AArch64Instr::Caslb(data)),
        (0b00, 0b1, 0b0, 0b11111) => Some(AArch64Instr::Casab(data)),
        (0b00, 0b1, 0b1, 0b11111) => Some(AArch64Instr::Casalb(data)),

        (0b01, 0b0, 0b0, 0b11111) => Some(AArch64Instr::Cash(data)),
        (0b01, 0b0, 0b1, 0b11111) => Some(AArch64Instr::Caslh(data)),
        (0b01, 0b1, 0b0, 0b11111) => Some(AArch64Instr::Casah(data)),
        (0b01, 0b1, 0b1, 0b11111) => Some(AArch64Instr::Casalh(data)),

        (0b10, 0b0, 0b0, 0b11111) => Some(AArch64Instr::CasVar32(data)),
        (0b10, 0b0, 0b1, 0b11111) => Some(AArch64Instr::CaslVar32(data)),
        (0b10, 0b1, 0b0, 0b11111) => Some(AArch64Instr::CasaVar32(data)),
        (0b10, 0b1, 0b1, 0b11111) => Some(AArch64Instr::CasalVar32(data)),

        (0b11, 0b0, 0b0, 0b11111) => Some(AArch64Instr::CasVar64(data)),
        (0b11, 0b0, 0b1, 0b11111) => Some(AArch64Instr::CaslVar64(data)),
        (0b11, 0b1, 0b0, 0b11111) => Some(AArch64Instr::CasaVar64(data)),
        (0b11, 0b1, 0b1, 0b11111) => Some(AArch64Instr::CasalVar64(data)),

        _ => None,
    }
}

/// What the atomic memory operations encoding class decodes to.
pub open spec fn spec_parse_atomic_memory_operations(raw: u32) -> Option<AArch64Instr> {
    if raw & 0x3b20_0c00 != 0x3820_0000 {
        None
    } else {
        let size = field_u8(raw, 30, 32);
        let v = field_u8(raw, 26, 27);
        let a = field_u8(raw, 23, 24);
        let r = field_u8(raw, 22, 23);
        let rs = field_u8(raw, 16, 21);
        let o3 = field_u8(raw, 15, 16);
        let opc = field_u8(raw, 12, 15);
        let rn = field_u8(raw, 5, 10);
        let rt = field_u8(raw, 0, 5);
        let data = RsRnRt {
            rs,
            rn,
            rt,
        };

        match (
            size, v, a, r, rs, o3, opc,
        ) {
            (0b00, 0b0, 0b0, 0b0, _, 0b0, 0b000) => Some(AArch64Instr::LdaddbVar(data)),
            (0b00, 0b0, 0b0, 0b0, _, 0b0, 0b001) => Some(AArch64Instr::LdclrbVar(data)),
            (0b00, 0b0, 0b0, 0b0, _, 0b0, 0b010) => Some(AArch64Instr::LdeorbVar(data)),
            (0b00, 0b0, 0b0, 0b0, _, 0b0, 0b011) => Some(AArch64Instr::LdsetbVar(data)),
            (0b00, 0b0, 0b0, 0b0, _, 0b0, 0b100) => Some(AArch64Instr::LdsmaxbVar(data)),
            (0b00, 0b0, 0b0, 0b0, _, 0b0, 0b101) => Some(AArch64Instr::LdsminbVar(data)),
            (0b00, 0b0, 0b0, 0b0, _, 0b0, 0b110) => Some(AArch64Instr::LdumaxbVar(data)),
            (0b00, 0b0, 0b0, 0b0, _, 0b0, 0b111) => Some(AArch64Instr::LduminbVar(data)),
            (0b00, 0b0, 0b0, 0b0, _, 0b1, 0b000) => Some(AArch64Instr::SwpbVar(data)),

            (0b00, 0b0, 0b0, 0b1, _, 0b0, 0b000) => Some(AArch64Instr::LdaddlbVar(data)),
            (0b00, 0b0, 0b0, 0b1, _, 0b0, 0b001) => Some(AArch64Instr::LdclrlbVar(data)),
            (0b00, 0b0, 0b0, 0b1, _, 0b0, 0b010) => Some(AArch64Instr::LdeorlbVar(data)),
            (0b00, 0b0, 0b0, 0b1, _, 0b0, 0b011) => Some(AArch64Instr::LdsetlbVar(data)),
            (0b00, 0b0, 0b0, 0b1, _, 0b0, 0b100) => Some(AArch64Instr::LdsmaxlbVar(data)),
            (0b00, 0b0, 0b0, 0b1, _, 0b0, 0b101) => Some(AArch64Instr::LdsminlbVar(data)),
            (0b00, 0b0, 0b0, 0b1, _, 0b0, 0b110) => Some(AArch64Instr::LdumaxlbVar(data)),
            (0b00, 0b0, 0b0, 0b1, _, 0b0, 0b111) => Some(AArch64Instr::LduminlbVar(data)),
            (0b00, 0b0, 0b0, 0b1, _, 0b1, 0b000) => Some(AArch64Instr::SwplbVar(data)),

            (0b00, 0b0, 0b1, 0b0, _, 0b0, 0b000) => Some(AArch64Instr::LdaddabVar(data)),
            (0b00, 0b0, 0b1, 0b0, _, 0b0, 0b001) => Some(AArch64Instr::LdclrabVar(data)),
            (0b00, 0b0, 0b1, 0b0, _, 0b0, 0b010) => Some(AArch64Instr::LdeorabVar(data)),
            (0b00, 0b0, 0b1, 0b0, _, 0b0, 0b011) => Some(AArch64Instr::LdsetabVar(data)),
            (0b00, 0b0, 0b1, 0b0, _, 0b0, 0b100) => Some(AArch64Instr::LdsmaxabVar(data)),
            (0b00, 0b0, 0b1, 0b0, _, 0b0, 0b101) => Some(AArch64Instr::LdsminabVar(data)),
            (0b00, 0b0, 0b1, 0b0, _, 0b0, 0b110) => Some(AArch64Instr::LdumaxabVar(data)),
            (0b00, 0b0, 0b1, 0b0, _, 0b0, 0b111) => Some(AArch64Instr::LduminabVar(data)),
            (0b00, 0b0, 0b1, 0b0, _, 0b1, 0b000) => Some(AArch64Instr::SwpabVar(data)),

            (0b00, 0b0, 0b1, 0b0, _, 0b1, 0b100) => Some(AArch64Instr::Ldaprb(data)),

            (0b00, 0b0, 0b1, 0b1, _, 0b0, 0b000) => Some(AArch64Instr::LdaddalbVar(data)),
            (0b00, 0b0, 0b1, 0b1, _, 0b0, 0b001) => Some(AArch64Instr::LdclralbVar(data)),
            (0b00, 0b0, 0b1, 0b1, _, 0b0, 0b010) => Some(AArch64Instr::LdeoralbVar(data)),
            (0b00, 0b0, 0b1, 0b1, _, 0b0, 0b011) => Some(AArch64Instr::LdsetalbVar(data)),
            (0b00, 0b0, 0b1, 0b1, _, 0b0, 0b100) => Some(AArch64Instr::LdsmaxalbVar(data)),
            (0b00, 0b0, 0b1, 0b1, _, 0b0, 0b101) => Some(AArch64Instr::LdsminalbVar(data)),
            (0b00, 0b0, 0b1, 0b1, _, 0b0, 0b110) => Some(AArch64Instr::LdumaxalbVar(data)),
            (0b00, 0b0, 0b1, 0b1, _, 0b0, 0b111) => Some(AArch64Instr::LduminalbVar(data)),
            (0b00, 0b0, 0b1, 0b1, _, 0b1, 0b000) => Some(AArch64Instr::SwpalbVar(data)),

            (0b01, 0b0, 0b0, 0b0, _, 0b0, 0b000) => Some(AArch64Instr::LdaddhVar(data)),
            (0b01, 0b0, 0b0, 0b0, _, 0b0, 0b001) => Some(AArch64Instr::LdclrhVar(data)),
            (0b01, 0b0, 0b0, 0b0, _, 0b0, 0b010) => Some(AArch64Instr::LdeorhVar(data)),
            (0b01, 0b0, 0b0, 0b0, _, 0b0, 0b011) => Some(AArch64Instr::LdsethVar(data)),
            (0b01, 0b0, 0b0, 0b0, _, 0b0, 0b100) => Some(AArch64Instr::LdsmaxhVar(data)),
            (0b01, 0b0, 0b0, 0b0, _, 0b0, 0b101) => Some(AArch64Instr::LdsminhVar(data)),
            (0b01, 0b0, 0b0, 0b0, _, 0b0, 0b110) => Some(AArch64Instr::LdumaxhVar(data)),
            (0b01, 0b0, 0b0, 0b0, _, 0b0, 0b111) => Some(AArch64Instr::LduminhVar(data)),
            (0b01, 0b0, 0b0, 0b0, _, 0b1, 0b000) => Some(AArch64Instr::SwphVar(data)),

            (0b01, 0b0, 0b0, 0b1, _, 0b0, 0b000) => Some(AArch64Instr::LdaddlhVar(data)),
            (0b01, 0b0, 0b0, 0b1, _, 0b0, 0b001) => Some(AArch64Instr::LdclrlhVar(data)),
            (0b01, 0b0, 0b0, 0b1, _, 0b0, 0b010) => Some(AArch64Instr::LdeorlhVar(data)),
            (0b01, 0b0, 0b0, 0b1, _, 0b0, 0b011) => Some(AArch64Instr::LdsetlhVar(data)),
            (0b01, 0b0, 0b0, 0b1, _, 0b0, 0b100) => Some(AArch64Instr::LdsmaxlhVar(data)),
            (0b01, 0b0, 0b0, 0b1, _, 0b0, 0b101) => Some(AArch64Instr::LdsminlhVar(data)),
            (0b01, 0b0, 0b0, 0b1, _, 0b0, 0b110) => Some(AArch64Instr::LdumaxlhVar(data)),
            (0b01, 0b0, 0b0, 0b1, _, 0b0, 0b111) => Some(AArch64Instr::LduminlhVar(data)),
            (0b01, 0b0, 0b0, 0b1, _, 0b1, 0b000) => Some(AArch64Instr::SwplhVar(data)),

            (0b01, 0b0, 0b1, 0b0, _, 0b0, 0b000) => Some(AArch64Instr::LdaddahVar(data)),
            (0b01, 0b0, 0b1, 0b0, _, 0b0, 0b001) => Some(AArch64Instr::LdclrahVar(data)),
            (0b01, 0b0, 0b1, 0b0, _, 0b0, 0b010) => Some(AArch64Instr::LdeorahVar(data)),
            (0b01, 0b0, 0b1, 0b0, _, 0b0, 0b011) => Some(AArch64Instr::LdsetahVar(data)),
            (0b01, 0b0, 0b1, 0b0, _, 0b0, 0b100) => Some(AArch64Instr::LdsmaxahVar(data)),
            (0b01, 0b0, 0b1, 0b0, _, 0b0, 0b101) => Some(AArch64Instr::LdsminahVar(data)),
            (0b01, 0b0, 0b1, 0b0, _, 0b0, 0b110) => Some(AArch64Instr::LdumaxahVar(data)),
            (0b01, 0b0, 0b1, 0b0, _, 0b0, 0b111) => Some(AArch64Instr::LduminahVar(data)),
            (0b01, 0b0, 0b1, 0b0, _, 0b1, 0b000) => Some(AArch64Instr::SwpahVar(data)),

            (0b01, 0b0, 0b1, 0b0, _, 0b1, 0b100) => Some(AArch64Instr::Ldaprh(data)),

            (0b01, 0b0, 0b1, 0b1, _, 0b0, 0b000) => Some(AArch64Instr::LdaddalhVar(data)),
            (0b01, 0b0, 0b1, 0b1, _, 0b0, 0b001) => Some(AArch64Instr::LdclralhVar(data)),
            (0b01, 0b0, 0b1, 0b1, _, 0b0, 0b010) => Some(AArch64Instr::LdeoralhVar(data)),
            (0b01, 0b0, 0b1, 0b1, _, 0b0, 0b011) => Some(AArch64Instr::LdsetalhVar(data)),
            (0b01, 0b0, 0b1, 0b1, _, 0b0, 0b100) => Some(AArch64Instr::LdsmaxalhVar(data)),
            (0b01, 0b0, 0b1, 0b1, _, 0b0, 0b101) => Some(AArch64Instr::LdsminalhVar(data)),
            (0b01, 0b0, 0b1, 0b1, _, 0b0, 0b110) => Some(AArch64Instr::LdumaxalhVar(data)),
            (0b01, 0b0, 0b1, 0b1, _, 0b0, 0b111) => Some(AArch64Instr::LduminalhVar(data)),
            (0b01, 0b0, 0b1, 0b1, _, 0b1, 0b000) => Some(AArch64Instr::SwpalhVar(data)),

            (0b10, 0b0, 0b0, 0b0, _, 0b0, 0b000) => Some(AArch64Instr::LdaddVar32(data)),
            (0b10, 0b0, 0b0, 0b0, _, 0b0, 0b001) => Some(AArch64Instr::LdclrVar32(data)),
            (0b10, 0b0, 0b0, 0b0, _, 0b0, 0b010) => Some(AArch64Instr::LdeorVar32(data)),
            (0b10, 0b0, 0b0, 0b0, _, 0b0, 0b011) => Some(AArch64Instr::LdsetVar32(data)),
            (0b10, 0b0, 0b0, 0b0, _, 0b0, 0b100) => Some(AArch64Instr::LdsmaxVar32(data)),
            (0b10, 0b0, 0b0, 0b0, _, 0b0, 0b101) => Some(AArch64Instr::LdsminVar32(data)),
            (0b10, 0b0, 0b0, 0b0, _, 0b0, 0b110) => Some(AArch64Instr::LdumaxVar32(data)),
            (0b10, 0b0, 0b0, 0b0, _, 0b0, 0b111) => Some(AArch64Instr::LduminVar32(data)),
            (0b10, 0b0, 0b0, 0b0, _, 0b1, 0b000) => Some(AArch64Instr::SwpVar32(data)),

            (0b10, 0b0, 0b0, 0b1, _, 0b0, 0b000) => Some(AArch64Instr::LdaddlVar32(data)),
            (0b10, 0b0, 0b0, 0b1, _, 0b0, 0b001) => Some(AArch64Instr::LdclrlVar32(data)),
            (0b10, 0b0, 0b0, 0b1, _, 0b0, 0b010) => Some(AArch64Instr::LdeorlVar32(data)),
            (0b10, 0b0, 0b0, 0b1, _, 0b0, 0b011) => Some(AArch64Instr::LdsetlVar32(data)),
            (0b10, 0b0, 0b0, 0b1, _, 0b0, 0b100) => Some(AArch64Instr::LdsmaxlVar32(data)),
            (0b10, 0b0, 0b0, 0b1, _, 0b0, 0b101) => Some(AArch64Instr::LdsminlVar32(data)),
            (0b10, 0b0, 0b0, 0b1, _, 0b0, 0b110) => Some(AArch64Instr::LdumaxlVar32(data)),
            (0b10, 0b0, 0b0, 0b1, _, 0b0, 0b111) => Some(AArch64Instr::LduminlVar32(data)),
            (0b10, 0b0, 0b0, 0b1, _, 0b1, 0b000) => Some(AArch64Instr::SwplVar32(data)),

            (0b10, 0b0, 0b1, 0b0, _, 0b0, 0b000) => Some(AArch64Instr::LdaddaVar32(data)),
            (0b10, 0b0, 0b1, 0b0, _, 0b0, 0b001) => Some(AArch64Instr::LdclraVar32(data)),
            (0b10, 0b0, 0b1, 0b0, _, 0b0, 0b010) => Some(AArch64Instr::LdeoraVar32(data)),
            (0b10, 0b0, 0b1, 0b0, _, 0b0, 0b011) => Some(AArch64Instr::LdsetaVar32(data)),
            (0b10, 0b0, 0b1, 0b0, _, 0b0, 0b100) => Some(AArch64Instr::LdsmaxaVar32(data)),
            (0b10, 0b0, 0b1, 0b0, _, 0b0, 0b101) => Some(AArch64Instr::LdsminaVar32(data)),
            (0b10, 0b0, 0b1, 0b0, _, 0b0, 0b110) => Some(AArch64Instr::LdumaxaVar32(data)),
            (0b10, 0b0, 0b1, 0b0, _, 0b0, 0b111) => Some(AArch64Instr::LduminaVar32(data)),
            (0b10, 0b0, 0b1, 0b0, _, 0b1, 0b000) => Some(AArch64Instr::SwpaVar32(data)),
            (0b10, 0b0, 0b1, 0b0, _, 0b1, 0b100) => Some(AArch64Instr::LdaprVar32(data)),

            (0b10, 0b0, 0b1, 0b1, _, 0b0, 0b000) => Some(AArch64Instr::LdaddalVar32(data)),
            (0b10, 0b0, 0b1, 0b1, _, 0b0, 0b001) => Some(AArch64Instr::LdclralVar32(data)),
            (0b10, 0b0, 0b1, 0b1, _, 0b0, 0b010) => Some(AArch64Instr::LdeoralVar32(data)),
            (0b10, 0b0, 0b1, 0b1, _, 0b0, 0b011) => Some(AArch64Instr::LdsetalVar32(data)),
            (0b10, 0b0, 0b1, 0b1, _, 0b0, 0b100) => Some(AArch64Instr::LdsmaxalVar32(data)),
            (0b10, 0b0, 0b1, 0b1, _, 0b0, 0b101) => Some(AArch64Instr::LdsminalVar32(data)),
            (0b10, 0b0, 0b1, 0b1, _, 0b0, 0b110) => Some(AArch64Instr::LdumaxalVar32(data)),
            (0b10, 0b0, 0b1, 0b1, _, 0b0, 0b111) => Some(AArch64Instr::LduminalVar32(data)),
            (0b10, 0b0, 0b1, 0b1, _, 0b1, 0b000) => Some(AArch64Instr::SwpalVar32(data)),

            (0b11, 0b0, 0b0, 0b0, _, 0b0, 0b000) => Some(AArch64Instr::LdaddVar64(data)),
            (0b11, 0b0, 0b0, 0b0, _, 0b0, 0b001) => Some(AArch64Instr::LdclrVar64(data)),
            (0b11, 0b0, 0b0, 0b0, _, 0b0, 0b010) => Some(AArch64Instr::LdeorVar64(data)),
            (0b11, 0b0, 0b0, 0b0, _, 0b0, 0b011) => Some(AArch64Instr::LdsetVar64(data)),
            (0b11, 0b0, 0b0, 0b0, _, 0b0, 0b100) => Some(AArch64Instr::LdsmaxVar64(data)),
            (0b11, 0b0, 0b0, 0b0, _, 0b0, 0b101) => Some(AArch64Instr::LdsminVar64(data)),
            (0b11, 0b0, 0b0, 0b0, _, 0b0, 0b110) => Some(AArch64Instr::LdumaxVar64(data)),
            (0b11, 0b0, 0b0, 0b0, _, 0b0, 0b111) => Some(AArch64Instr::LduminVar64(data)),
            (0b11, 0b0, 0b0, 0b0, _, 0b1, 0b000) => Some(AArch64Instr::SwpVar64(data)),

            (0b11, 0b0, 0b0, 0b0, _, 0b1, 0b010) => Some(AArch64Instr::St64bv0(data)),
            (0b11, 0b0, 0b0, 0b0, _, 0b1, 0b011) => Some(AArch64Instr::St64bv(data)),
            (0b11, 0b0, 0b0, 0b0, 0b11111, 0b1, 0b001) => Some(AArch64Instr::St64b(data)),
            (0b11, 0b0, 0b0, 0b0, 0b11111, 0b1, 0b101) => Some(AArch64Instr::Ld64b(data)),

            (0b11, 0b0, 0b0, 0b1, _, 0b0, 0b000) => Some(AArch64Instr::LdaddlVar64(data)),
            (0b11, 0b0, 0b0, 0b1, _, 0b0, 0b001) => Some(AArch64Instr::LdclrlVar64(data)),
            (0b11, 0b0, 0b0, 0b1, _, 0b0, 0b010) => Some(AArch64Instr::LdeorlVar64(data)),
            (0b11, 0b0, 0b0, 0b1, _, 0b0, 0b011) => Some(AArch64Instr::LdsetlVar64(data)),
            (0b11, 0b0, 0b0, 0b1, _, 0b0, 0b100) => Some(AArch64Instr::LdsmaxlVar64(data)),
            (0b11, 0b0, 0b0, 0b1, _, 0b0, 0b101) => Some(AArch64Instr::LdsminlVar64(data)),
            (0b11, 0b0, 0b0, 0b1, _, 0b0, 0b110) => Some(AArch64Instr::LdumaxlVar64(data)),
            (0b11, 0b0, 0b0, 0b1, _, 0b0, 0b111) => Some(AArch64Instr::LduminlVar64(data)),
            (0b11, 0b0, 0b0, 0b1, _, 0b1, 0b000) => Some(AArch64Instr::SwplVar64(data)),

            (0b11, 0b0, 0b1, 0b0, _, 0b0, 0b000) => Some(AArch64Instr::LdaddaVar64(data)),
            (0b11, 0b0, 0b1, 0b0, _, 0b0, 0b001) => Some(AArch64Instr::LdclraVar64(data)),
            (0b11, 0b0, 0b1, 0b0, _, 0b0, 0b010) => Some(AArch64Instr::LdeoraVar64(data)),
            (0b11, 0b0, 0b1, 0b0, _, 0b0, 0b011) => Some(AArch64Instr::LdsetaVar64(data)),
            (0b11, 0b0, 0b1, 0b0, _, 0b0, 0b100) => Some(AArch64Instr::LdsmaxaVar64(data)),
            (0b11, 0b0, 0b1, 0b0, _, 0b0, 0b101) => Some(AArch64Instr::LdsminaVar64(data)),
            (0b11, 0b0, 0b1, 0b0, _, 0b0, 0b110) => Some(AArch64Instr::LdumaxaVar64(data)),
            (0b11, 0b0, 0b1, 0b0, _, 0b0, 0b111) => Some(AArch64Instr::LduminaVar64(data)),
            (0b11, 0b0, 0b1, 0b0, _, 0b1, 0b000) => Some(AArch64Instr::SwpaVar64(data)),
            (0b11, 0b0, 0b1, 0b0, _, 0b1, 0b100) => Some(AArch64Instr::LdaprVar64(data)),

            (0b11, 0b0, 0b1, 0b1, _, 0b0, 0b000) => Some(AArch64Instr::LdaddalVar64(data)),
            (0b11, 0b0, 0b1, 0b1, _, 0b0, 0b001) => Some(AArch64Instr::LdclralVar64(data)),
            (0b11, 0b0, 0b1, 0b1, _, 0b0, 0b010) => Some(AArch64Instr::LdeoralVar64(data)),
            (0b11, 0b0, 0b1, 0b1, _, 0b0, 0b011) => Some(AArch64Instr::LdsetalVar64(data)),
            (0b11, 0b0, 0b1, 0b1, _, 0b0, 0b100) => Some(AArch64Instr::LdsmaxalVar64(data)),
            (0b11, 0b0, 0b1, 0b1, _, 0b0, 0b101) => Some(AArch64Instr::LdsminalVar64(data)),
            (0b11, 0b0, 0b1, 0b1, _, 0b0, 0b110) => Some(AArch64Instr::LdumaxalVar64(data)),
            (0b11, 0b0, 0b1, 0b1, _, 0b0, 0b111) => Some(AArch64Instr::LduminalVar64(data)),
            (0b11, 0b0, 0b1, 0b1, _, 0b1, 0b000) => Some(AArch64Instr::SwpalVar64(data)),

            _ => None,
        }
    }
}

/// Decodes the atomic memory operations encoding class.
fn parse_atomic_memory_operations(raw: u32) -> (r: Option<AArch64Instr>)
    ensures
        r == spec_parse_atomic_memory_operations(raw),
{
    // xx_111_x_00_x_x_1_xxxxx_x_xxx_00_xxxxx_xxxxx
    if raw & 0x3b20_0c00 != 0x3820_0000 {
        return None;
    }
    let size = extract_u8(30..32, raw);
    let v = extract_u8(26..27, raw);
    let a = extract_u8(23..24, raw);
    let r = extract_u8(22..23, raw);
    let rs = extract_u8(16..21, raw);
    let o3 = extract_u8(15..16, raw);
    let opc = extract_u8(12..15, raw);
    let rn = extract_u8(5..10, raw);
    let rt = extract_u8(0..5, raw);
    let data = RsRnRt {
        rs,
        rn,
        rt,
    };

    match (
        size, v, a, r, rs, o3, opc,
    ) {
        (0b00, 0b0, 0b0, 0b0, _, 0b0, 0b000) => Some(AArch64Instr::LdaddbVar(data)),
        (0b00, 0b0, 0b0, 0b0, _, 0b0, 0b001) => Some(AArch64Instr::LdclrbVar(data)),
        (0b00, 0b0, 0b0, 0b0, _, 0b0, 0b010) => Some(AArch64Instr::LdeorbVar(data)),
        (0b00, 0b0, 0b0, 0b0, _, 0b0, 0b011) => Some(AArch64Instr::LdsetbVar(data)),
        (0b00, 0b0, 0b0, 0b0, _, 0b0, 0b100) => Some(AArch64Instr::LdsmaxbVar(data)),
        (0b00, 0b0, 0b0, 0b0, _, 0b0, 0b101) => Some(AArch64Instr::LdsminbVar(data)),
        (0b00, 0b0, 0b0, 0b0, _, 0b0, 0b110) => Some(AArch64Instr::LdumaxbVar(data)),
        (0b00, 0b0, 0b0, 0b0, _, 0b0, 0b111) => Some(AArch64Instr::LduminbVar(data)),
        (0b00, 0b0, 0b0, 0b0, _, 0b1, 0b000) => Some(AArch64Instr::SwpbVar(data)),

        (0b00, 0b0, 0b0, 0b1, _, 0b0, 0b000) => Some(AArch64Instr::LdaddlbVar(data)),
        (0b00, 0b0, 0b0, 0b1, _, 0b0, 0b001) => Some(AArch64Instr::LdclrlbVar(data)),
        (0b00, 0b0, 0b0, 0b1, _, 0b0, 0b010) => Some(AArch64Instr::LdeorlbVar(data)),
        (0b00, 0b0, 0b0, 0b1, _, 0b0, 0b011) => Some(AArch64Instr::LdsetlbVar(data)),
        (0b00, 0b0, 0b0, 0b1, _, 0b0, 0b100) => Some(AArch64Instr::LdsmaxlbVar(data)),
        (0b00, 0b0, 0b0, 0b1, _, 0b0, 0b101) => Some(AArch64Instr::LdsminlbVar(data)),
        (0b00, 0b0, 0b0, 0b1, _, 0b0, 0b110) => Some(AArch64Instr::LdumaxlbVar(data)),
        (0b00, 0b0, 0b0, 0b1, _, 0b0, 0b111) => Some(AArch64Instr::LduminlbVar(data)),
        (0b00, 0b0, 0b0, 0b1, _, 0b1, 0b000) => Some(AArch64Instr::SwplbVar(data)),

        (0b00, 0b0, 0b1, 0b0, _, 0b0, 0b000) => Some(AArch64Instr::LdaddabVar(data)),
        (0b00, 0b0, 0b1, 0b0, _, 0b0, 0b001) => Some(AArch64Instr::LdclrabVar(data)),
        (0b00, 0b0, 0b1, 0b0, _, 0b0, 0b010) => Some(AArch64Instr::LdeorabVar(data)),
        (0b00, 0b0, 0b1, 0b0, _, 0b0, 0b011) => Some(AArch64Instr::LdsetabVar(data)),
        (0b00, 0b0, 0b1, 0b0, _, 0b0, 0b100) => Some(AArch64Instr::LdsmaxabVar(data)),
        (0b00, 0b0, 0b1, 0b0, _, 0b0, 0b101) => Some(AArch64Instr::LdsminabVar(data)),
        (0b00, 0b0, 0b1, 0b0, _, 0b0, 0b110) => Some(AArch64Instr::LdumaxabVar(data)),
        (0b00, 0b0, 0b1, 0b0, _, 0b0, 0b111) => Some(AArch64Instr::LduminabVar(data)),
        (0b00, 0b0, 0b1, 0b0, _, 0b1, 0b000) => Some(AArch64Instr::SwpabVar(data)),

        (0b00, 0b0, 0b1, 0b0, _, 0b1, 0b100) => Some(AArch64Instr::Ldaprb(data)),

        (0b00, 0b0, 0b1, 0b1, _, 0b0, 0b000) => Some(AArch64Instr::LdaddalbVar(data)),
        (0b00, 0b0, 0b1, 0b1, _, 0b0, 0b001) => Some(AArch64Instr::LdclralbVar(data)),
        (0b00, 0b0, 0b1, 0b1, _, 0b0, 0b010) => Some(AArch64Instr::LdeoralbVar(data)),
        (0b00, 0b0, 0b1, 0b1, _, 0b0, 0b011) => Some(AArch64Instr::LdsetalbVar(data)),
        (0b00, 0b0, 0b1, 0b1, _, 0b0, 0b100) => Some(AArch64Instr::LdsmaxalbVar(data)),
        (0b00, 0b0, 0b1, 0b1, _, 0b0, 0b101) => Some(AArch64Instr::LdsminalbVar(data)),
        (0b00, 0b0, 0b1, 0b1, _, 0b0, 0b110) => Some(AArch64Instr::LdumaxalbVar(data)),
        (0b00, 0b0, 0b1, 0b1, _, 0b0, 0b111) => Some(AArch64Instr::LduminalbVar(data)),
        (0b00, 0b0, 0b1, 0b1, _, 0b1, 0b000) => Some(AArch64Instr::SwpalbVar(data)),

        (0b01, 0b0, 0b0, 0b0, _, 0b0, 0b000) => Some(AArch64Instr::LdaddhVar(data)),
        (0b01, 0b0, 0b0, 0b0, _, 0b0, 0b001) => Some(AArch64Instr::LdclrhVar(data)),
        (0b01, 0b0, 0b0, 0b0, _, 0b0, 0b010) => Some(AArch64Instr::LdeorhVar(data)),
        (0b01, 0b0, 0b0, 0b0, _, 0b0, 0b011) => Some(AArch64Instr::LdsethVar(data)),
        (0b01, 0b0, 0b0, 0b0, _, 0b0, 0b100) => Some(AArch64Instr::LdsmaxhVar(data)),
        (0b01, 0b0, 0b0, 0b0, _, 0b0, 0b101) => Some(AArch64Instr::LdsminhVar(data)),
        (0b01, 0b0, 0b0, 0b0, _, 0b0, 0b110) => Some(AArch64Instr::LdumaxhVar(data)),
        (0b01, 0b0, 0b0, 0b0, _, 0b0, 0b111) => Some(AArch64Instr::LduminhVar(data)),
        (0b01, 0b0, 0b0, 0b0, _, 0b1, 0b000) => Some(AArch64Instr::SwphVar(data)),

        (0b01, 0b0, 0b0, 0b1, _, 0b0, 0b000) => Some(AArch64Instr::LdaddlhVar(data)),
        (0b01, 0b0, 0b0, 0b1, _, 0b0, 0b001) => Some(AArch64Instr::LdclrlhVar(data)),
        (0b01, 0b0, 0b0, 0b1, _, 0b0, 0b010) => Some(AArch64Instr::LdeorlhVar(data)),
        (0b01, 0b0, 0b0, 0b1, _, 0b0, 0b011) => Some(AArch64Instr::LdsetlhVar(data)),
        (0b01, 0b0, 0b0, 0b1, _, 0b0, 0b100) => Some(AArch64Instr::LdsmaxlhVar(data)),
        (0b01, 0b0, 0b0, 0b1, _, 0b0, 0b101) => Some(AArch64Instr::LdsminlhVar(data)),
        (0b01, 0b0, 0b0, 0b1, _, 0b0, 0b110) => Some(AArch64Instr::LdumaxlhVar(data)),
        (0b01, 0b0, 0b0, 0b1, _, 0b0, 0b111) => Some(AArch64Instr::LduminlhVar(data)),
        (0b01, 0b0, 0b0, 0b1, _, 0b1, 0b000) => Some(AArch64Instr::SwplhVar(data)),

        (0b01, 0b0, 0b1, 0b0, _, 0b0, 0b000) => Some(AArch64Instr::LdaddahVar(data)),
        (0b01, 0b0, 0b1, 0b0, _, 0b0, 0b001) => Some(AArch64Instr::LdclrahVar(data)),
        (0b01, 0b0, 0b1, 0b0, _, 0b0, 0b010) => Some(AArch64Instr::LdeorahVar(data)),
        (0b01, 0b0, 0b1, 0b0, _, 0b0, 0b011) => Some(AArch64Instr::LdsetahVar(data)),
        (0b01, 0b0, 0b1, 0b0, _, 0b0, 0b100) => Some(AArch64Instr::LdsmaxahVar(data)),
        (0b01, 0b0, 0b1, 0b0, _, 0b0, 0b101) => Some(AArch64Instr::LdsminahVar(data)),
        (0b01, 0b0, 0b1, 0b0, _, 0b0, 0b110) => Some(AArch64Instr::LdumaxahVar(data)),
        (0b01, 0b0, 0b1, 0b0, _, 0b0, 0b111) => Some(AArch64Instr::LduminahVar(data)),
        (0b01, 0b0, 0b1, 0b0, _, 0b1, 0b000) => Some(AArch64Instr::SwpahVar(data)),

        (0b01, 0b0, 0b1, 0b0, _, 0b1, 0b100) => Some(AArch64Instr::Ldaprh(data)),

        (0b01, 0b0, 0b1, 0b1, _, 0b0, 0b000) => Some(AArch64Instr::LdaddalhVar(data)),
        (0b01, 0b0, 0b1, 0b1, _, 0b0, 0b001) => Some(AArch64Instr::LdclralhVar(data)),
        (0b01, 0b0, 0b1, 0b1, _, 0b0, 0b010) => Some(AArch64Instr::LdeoralhVar(data)),
        (0b01, 0b0, 0b1, 0b1, _, 0b0, 0b011) => Some(AArch64Instr::LdsetalhVar(data)),
        (0b01, 0b0, 0b1, 0b1, _, 0b0, 0b100) => Some(AArch64Instr::LdsmaxalhVar(data)),
        (0b01, 0b0, 0b1, 0b1, _, 0b0, 0b101) => Some(AArch64Instr::LdsminalhVar(data)),
        (0b01, 0b0, 0b1, 0b1, _, 0b0, 0b110) => Some(AArch64Instr::LdumaxalhVar(data)),
        (0b01, 0b0, 0b1, 0b1, _, 0b0, 0b111) => Some(AArch64Instr::LduminalhVar(data)),
        (0b01, 0b0, 0b1, 0b1, _, 0b1, 0b000) => Some(AArch64Instr::SwpalhVar(data)),

        (0b10, 0b0, 0b0, 0b0, _, 0b0, 0b000) => Some(AArch64Instr::LdaddVar32(data)),
        (0b10, 0b0, 0b0, 0b0, _, 0b0, 0b001) => Some(AArch64Instr::LdclrVar32(data)),
        (0b10, 0b0, 0b0, 0b0, _, 0b0, 0b010) => Some(AArch64Instr::LdeorVar32(data)),
        (0b10, 0b0, 0b0, 0b0, _, 0b0, 0b011) => Some(AArch64Instr::LdsetVar32(data)),
        (0b10, 0b0, 0b0, 0b0, _, 0b0, 0b100) => Some(AArch64Instr::LdsmaxVar32(data)),
        (0b10, 0b0, 0b0, 0b0, _, 0b0, 0b101) => Some(AArch64Instr::LdsminVar32(data)),
        (0b10, 0b0, 0b0, 0b0, _, 0b0, 0b110) => Some(AArch64Instr::LdumaxVar32(data)),
        (0b10, 0b0, 0b0, 0b0, _, 0b0, 0b111) => Some(AArch64Instr::LduminVar32(data)),
        (0b10, 0b0, 0b0, 0b0, _, 0b1, 0b000) => Some(AArch64Instr::SwpVar32(data)),

        (0b10, 0b0, 0b0, 0b1, _, 0b0, 0b000) => Some(AArch64Instr::LdaddlVar32(data)),
        (0b10, 0b0, 0b0, 0b1, _, 0b0, 0b001) => Some(AArch64Instr::LdclrlVar32(data)),
        (0b10, 0b0, 0b0, 0b1, _, 0b0, 0b010) => Some(AArch64Instr::LdeorlVar32(data)),
        (0b10, 0b0, 0b0, 0b1, _, 0b0, 0b011) => Some(AArch64Instr::LdsetlVar32(data)),
        (0b10, 0b0, 0b0, 0b1, _, 0b0, 0b100) => Some(AArch64Instr::LdsmaxlVar32(data)),
        (0b10, 0b0, 0b0, 0b1, _, 0b0, 0b101) => Some(AArch64Instr::LdsminlVar32(data)),
        (0b10, 0b0, 0b0, 0b1, _, 0b0, 0b110) => Some(AArch64Instr::LdumaxlVar32(data)),
        (0b10, 0b0, 0b0, 0b1, _, 0b0, 0b111) => Some(AArch64Instr::LduminlVar32(data)),
        (0b10, 0b0, 0b0, 0b1, _, 0b1, 0b000) => Some(AArch64Instr::SwplVar32(data)),

        (0b10, 0b0, 0b1, 0b0, _, 0b0, 0b000) => Some(AArch64Instr::LdaddaVar32(data)),
        (0b10, 0b0, 0b1, 0b0, _, 0b0, 0b001) => Some(AArch64Instr::LdclraVar32(data)),
        (0b10, 0b0, 0b1, 0b0, _, 0b0, 0b010) => Some(AArch64Instr::LdeoraVar32(data)),
        (0b10, 0b0, 0b1, 0b0, _, 0b0, 0b011) => Some(AArch64Instr::LdsetaVar32(data)),
        (0b10, 0b0, 0b1, 0b0, _, 0b0, 0b100) => Some(AArch64Instr::LdsmaxaVar32(data)),
        (0b10, 0b0, 0b1, 0b0, _, 0b0, 0b101) => Some(AArch64Instr::LdsminaVar32(data)),
        (0b10, 0b0, 0b1, 0b0, _, 0b0, 0b110) => Some(AArch64Instr::LdumaxaVar32(data)),
        (0b10, 0b0, 0b1, 0b0, _, 0b0, 0b111) => Some(AArch64Instr::LduminaVar32(data)),
        (0b10, 0b0, 0b1, 0b0, _, 0b1, 0b000) => Some(AArch64Instr::SwpaVar32(data)),
        (0b10, 0b0, 0b1, 0b0, _, 0b1, 0b100) => Some(AArch64Instr::LdaprVar32(data)),

        (0b10, 0b0, 0b1, 0b1, _, 0b0, 0b000) => Some(AArch64Instr::LdaddalVar32(data)),
        (0b10, 0b0, 0b1, 0b1, _, 0b0, 0b001) => Some(AArch64Instr::LdclralVar32(data)),
        (0b10, 0b0, 0b1, 0b1, _, 0b0, 0b010) => Some(AArch64Instr::LdeoralVar32(data)),
        (0b10, 0b0, 0b1, 0b1, _, 0b0, 0b011) => Some(AArch64Instr::LdsetalVar32(data)),
        (0b10, 0b0, 0b1, 0b1, _, 0b0, 0b100) => Some(AArch64Instr::LdsmaxalVar32(data)),
        (0b10, 0b0, 0b1, 0b1, _, 0b0, 0b101) => Some(AArch64Instr::LdsminalVar32(data)),
        (0b10, 0b0, 0b1, 0b1, _, 0b0, 0b110) => Some(AArch64Instr::LdumaxalVar32(data)),
        (0b10, 0b0, 0b1, 0b1, _, 0b0, 0b111) => Some(AArch64Instr::LduminalVar32(data)),
        (0b10, 0b0, 0b1, 0b1, _, 0b1, 0b000) => Some(AArch64Instr::SwpalVar32(data)),

        (0b11, 0b0, 0b0, 0b0, _, 0b0, 0b000) => Some(AArch64Instr::LdaddVar64(data)),
        (0b11, 0b0, 0b0, 0b0, _, 0b0, 0b001) => Some(AArch64Instr::LdclrVar64(data)),
        (0b11, 0b0, 0b0, 0b0, _, 0b0, 0b010) => Some(AArch64Instr::LdeorVar64(data)),
        (0b11, 0b0, 0b0, 0b0, _, 0b0, 0b011) => Some(AArch64Instr::LdsetVar64(data)),
        (0b11, 0b0, 0b0, 0b0, _, 0b0, 0b100) => Some(AArch64Instr::LdsmaxVar64(data)),
        (0b11, 0b0, 0b0, 0b0, _, 0b0, 0b101) => Some(AArch64Instr::LdsminVar64(data)),
        (0b11, 0b0, 0b0, 0b0, _, 0b0, 0b110) => Some(AArch64Instr::LdumaxVar64(data)),
        (0b11, 0b0, 0b0, 0b0, _, 0b0, 0b111) => Some(AArch64Instr::LduminVar64(data)),
        (0b11, 0b0, 0b0, 0b0, _, 0b1, 0b000) => Some(AArch64Instr::SwpVar64(data)),

        (0b11, 0b0, 0b0, 0b0, _, 0b1, 0b010) => Some(AArch64Instr::St64bv0(data)),
        (0b11, 0b0, 0b0, 0b0, _, 0b1, 0b011) => Some(AArch64Instr::St64bv(data)),
        (0b11, 0b0, 0b0, 0b0, 0b11111, 0b1, 0b001) => Some(AArch64Instr::St64b(data)),
        (0b11, 0b0, 0b0, 0b0, 0b11111, 0b1, 0b101) => Some(AArch64Instr::Ld64b(data)),

        (0b11, 0b0, 0b0, 0b1, _, 0b0, 0b000) => Some(AArch64Instr::LdaddlVar64(data)),
        (0b11, 0b0, 0b0, 0b1, _, 0b0, 0b001) => Some(AArch64Instr::LdclrlVar64(data)),
        (0b11, 0b0, 0b0, 0b1, _, 0b0, 0b010) => Some(AArch64Instr::LdeorlVar64(data)),
        (0b11, 0b0, 0b0, 0b1, _, 0b0, 0b011) => Some(AArch64Instr::LdsetlVar64(data)),
        (0b11, 0b0, 0b0, 0b1, _, 0b0, 0b100) => Some(AArch64Instr::LdsmaxlVar64(data)),
        (0b11, 0b0, 0b0, 0b1, _, 0b0, 0b101) => Some(AArch64Instr::LdsminlVar64(data)),
        (0b11, 0b0, 0b0, 0b1, _, 0b0, 0b110) => Some(AArch64Instr::LdumaxlVar64(data)),
        (0b11, 0b0, 0b0, 0b1, _, 0b0, 0b111) => Some(AArch64Instr::LduminlVar64(data)),
        (0b11, 0b0, 0b0, 0b1, _, 0b1, 0b000) => Some(AArch64Instr::SwplVar64(data)),

        (0b11, 0b0, 0b1, 0b0, _, 0b0, 0b000) => Some(AArch64Instr::LdaddaVar64(data)),
        (0b11, 0b0, 0b1, 0b0, _, 0b0, 0b001) => Some(AArch64Instr::LdclraVar64(data)),
        (0b11, 0b0, 0b1, 0b0, _, 0b0, 0b010) => Some(AArch64Instr::LdeoraVar64(data)),
        (0b11, 0b0, 0b1, 0b0, _, 0b0, 0b011) => Some(AArch64Instr::LdsetaVar64(data)),
        (0b11, 0b0, 0b1, 0b0, _, 0b0, 0b100) => Some(AArch64Instr::LdsmaxaVar64(data)),
        (0b11, 0b0, 0b1, 0b0, _, 0b0, 0b101) => Some(AArch64Instr::LdsminaVar64(data)),
        (0b11, 0b0, 0b1, 0b0, _, 0b0, 0b110) => Some(AArch64Instr::LdumaxaVar64(data)),
        (0b11, 0b0, 0b1, 0b0, _, 0b0, 0b111) => Some(AArch64Instr::LduminaVar64(data)),
        (0b11, 0b0, 0b1, 0b0, _, 0b1, 0b000) => Some(AArch64Instr::SwpaVar64(data)),
        (0b11, 0b0, 0b1, 0b0, _, 0b1, 0b100) => Some(AArch64Instr::LdaprVar64(data)),

        (0b11, 0b0, 0b1, 0b1, _, 0b0, 0b000) => Some(AArch64Instr::LdaddalVar64(data)),
        (0b11, 0b0, 0b1, 0b1, _, 0b0, 0b001) => Some(AArch64Instr::LdclralVar64(data)),
        (0b11, 0b0, 0b1, 0b1, _, 0b0, 0b010) => Some(AArch64Instr::LdeoralVar64(data)),
        (0b11, 0b0, 0b1, 0b1, _, 0b0, 0b011) => Some(AArch64Instr::LdsetalVar64(data)),
        (0b11, 0b0, 0b1, 0b1, _, 0b0, 0b100) => Some(AArch64Instr::LdsmaxalVar64(data)),
        (0b11, 0b0, 0b1, 0b1, _, 0b0, 0b101) => Some(AArch64Instr::LdsminalVar64(data)),
        (0b11, 0b0, 0b1, 0b1, _, 0b0, 0b110) => Some(AArch64Instr::LdumaxalVar64(data)),
        (0b11, 0b0, 0b1, 0b1, _, 0b0, 0b111) => Some(AArch64Instr::LduminalVar64(data)),
        (0b11, 0b0, 0b1, 0b1, _, 0b1, 0b000) => Some(AArch64Instr::SwpalVar64(data)),

        _ => None,
    }
}

/// What the add sub with carry encoding class decodes to.
pub open spec fn spec_parse_add_sub_with_carry(raw: u32) -> Option<AArch64Instr> {
    if raw & 0x1fe0_fc00 != 0x1a00_0000 {
        None
    } else {
        let sf_op_s = field_u8(raw, 29, 32);
        let rm = field_u8(raw, 16, 21);
        let rn = field_u8(raw, 5, 10);
        let rd = field_u8(raw, 0, 5);
        let data = RmRnRd {
            rm,
            rn,
            rd,
        };

        match sf_op_s {
            0b000 => Some(AArch64Instr::AdcVar32(data)),
            0b001 => Some(AArch64Instr::AdcsVar32(data)),
            0b010 => Some(AArch64Instr::SbcVar32(data)),
            0b011 => Some(AArch64Instr::SbcsVar32(data)),

            0b100 => Some(AArch64Instr::AdcVar64(data)),
            0b101 => Some(AArch64Instr::AdcsVar64(data)),
            0b110 => Some(AArch64Instr::SbcVar64(data)),
            0b111 => Some(AArch64Instr::SbcsVar64(data)),

            _ => None,
        }
    }
}

/// Decodes the add sub with carry encoding class.
fn parse_add_sub_with_carry(raw: u32) -> (r: Option<AArch64Instr>)
    ensures
        r == spec_parse_add_sub_with_carry(raw),
{
    // x_x_x_11010000_xxxxx_000000_xxxxx_xxxxx
    if raw & 0x1fe0_fc00 != 0x1a00_0000 {
        return None;
    }
    let sf_op_s = extract_u8(29..32, raw);
    let rm = extract_u8(16..21, raw);
    let rn = extract_u8(5..10, raw);
    let rd = extract_u8(0..5, raw);
    let data = RmRnRd {
        rm,
        rn,
        rd,
    };

    match sf_op_s {
        0b000 => Some(AArch64Instr::AdcVar32(data)),
        0b001 => Some(AArch64Instr::AdcsVar32(data)),
        0b010 => Some(AArch64Instr::SbcVar32(data)),
        0b011 => Some(AArch64Instr::SbcsVar32(data)),

        0b100 => Some(AArch64Instr::AdcVar64(data)),
        0b101 => Some(AArch64Instr::AdcsVar64(data)),
        0b110 => Some(AArch64Instr::SbcVar64(data)),
        0b111 => Some(AArch64Instr::SbcsVar64(data)),

        _ => None,
    }
}

/// What the floating point compare encoding class decodes to.
pub open spec fn spec_parse_floating_point_compare(raw: u32) -> Option<AArch64Instr> {
    if raw & 0x5f20_3c00 != 0x1e20_2000 {
        None
    } else {
        let m = field_u8(raw, 31, 32);
        let s = field_u8(raw, 29, 30);
        let ptype = field_u8(raw, 22, 24);
        let rm = field_u8(raw, 16, 21);
        let op = field_u8(raw, 14, 16);
        let rn = field_u8(raw, 5, 10);
        let opcode2 = field_u8(raw, 0, 5);
        let data = FloatingPointCompare {
            ptype,
            rm,
            rn,
            opcode2,
        };

        match (m, s, ptype, op, opcode2) {
            (0b0, 0b0, 0b00, 0b00, 0b00000 | 0b01000)
            | (0b0, 0b0, 0b01, 0b00, 0b00000 | 0b01000)
            | (0b0, 0b0, 0b11, 0b01, 0b00000 | 0b01000) => Some(AArch64Instr::Fcmp(data)),

            (0b0, 0b0, 0b00, 0b00, 0b10000 | 0b11000)
            | (0b0, 0b0, 0b01, 0b00, 0b10000 | 0b11000)
            | (0b0, 0b0, 0b11, 0b01, 0b10000 | 0b11000) => Some(AArch64Instr::Fcmp(data)),

            _ => None,
        }
    }
}

/// Decodes the floating point compare encoding class.
fn parse_floating_point_compare(raw: u32) -> (r: Option<AArch64Instr>)
    ensures
        r == spec_parse_floating_point_compare(raw),
{
    // x_0_x_11110_xx_1_xxxxx_xx_1000_xxxxx_xxxxx
    if raw & 0x5f20_3c00 != 0x1e20_2000 {
        return None;
    }
    let m = extract_u8(31..32, raw);
    let s = extract_u8(29..30, raw);
    let ptype = extract_u8(22..24, raw);
    let rm = extract_u8(16..21, raw);
    let op = extract_u8(14..16, raw);
    let rn = extract_u8(5..10, raw);
    let opcode2 = extract_u8(0..5, raw);
    let data = FloatingPointCompare {
        ptype,
        rm,
        rn,
        opcode2,
    };

    match (m, s, ptype, op, opcode2) {
        (0b0, 0b0, 0b00, 0b00, 0b00000 | 0b01000)
        | (0b0, 0b0, 0b01, 0b00, 0b00000 | 0b01000)
        | (0b0, 0b0, 0b11, 0b01, 0b00000 | 0b01000) => Some(AArch64Instr::Fcmp(data)),

        (0b0, 0b0, 0b00, 0b00, 0b10000 | 0b11000)
        | (0b0, 0b0, 0b01, 0b00, 0b10000 | 0b11000)
        | (0b0, 0b0, 0b11, 0b01, 0b10000 | 0b11000) => Some(AArch64Instr::Fcmp(data)),

        _ => None,
    }
}

/// What the advanced simd permute encoding class decodes to.
pub open spec fn spec_parse_advanced_simd_permute(raw: u32) -> Option<AArch64Instr> {
    if raw & 0xbf20_8c00 != 0x0e00_0800 {
        None
    } else {
        let q = field_u8(raw, 30, 31);
        let size = field_u8(raw, 22, 24);
        let rm = field_u8(raw, 16, 21);
        let opcode = field_u8(raw, 12, 15);
        let rn = field_u8(raw, 5, 10);
        let rd = field_u8(raw, 0, 5);
        let data = QSizeRmRnRd {
            q,
            size,
            rm,
            rn,
            rd,
        };

        match opcode {
            0b001 => Some(AArch64Instr::Uzp1(data)),
            0b010 => Some(AArch64Instr::Trn1(data)),
            0b011 => Some(AArch64Instr::Zip1(data)),

            0b101 => Some(AArch64Instr::Uzp2(data)),
            0b110 => Some(AArch64Instr::Trn2(data)),
            0b111 => Some(AArch64Instr::Zip2(data)),

            _ => None,
        }
    }
}

/// Decodes the advanced simd permute encoding class.
fn parse_advanced_simd_permute(raw: u32) -> (r: Option<AArch64Instr>)
    ensures
        r == spec_parse_advanced_simd_permute(raw),
{
    // 0_x_001110_xx_0_xxxxx_0_xxx_10_xxxxx_xxxxx
    if raw & 0xbf20_8c00 != 0x0e00_0800 {
        return None;
    }
    let q = extract_u8(30..31, raw);
    let size = extract_u8(22..24, raw);
    let rm = extract_u8(16..21, raw);
    let opcode = extract_u8(12..15, raw);
    let rn = extract_u8(5..10, raw);
    let rd = extract_u8(0..5, raw);
    let data = QSizeRmRnRd {
        q,
        size,
        rm,
        rn,
        rd,
    };

    match opcode {
        0b001 => Some(AArch64Instr::Uzp1(data)),
        0b010 => Some(AArch64Instr::Trn1(data)),
        0b011 => Some(AArch64Instr::Zip1(data)),

        0b101 => Some(AArch64Instr::Uzp2(data)),
        0b110 => Some(AArch64Instr::Trn2(data)),
        0b111 => Some(AArch64Instr::Zip2(data)),

        _ => None,
    }
}

/// What the float data proc 2src encoding class decodes to.
pub open spec fn spec_parse_float_data_proc_2src(raw: u32) -> Option<AArch64Instr> {
    if raw & 0x5f20_0c00 != 0x1e20_0800 {
        None
    } else {
        let m = field_u8(raw, 31, 32);
        let s = field_u8(raw, 29, 30);
        let ptype = field_u8(raw, 22, 24);
        let rm = field_u8(raw, 16, 21);
        let opcode = field_u8(raw, 12, 16);
        let rn = field_u8(raw, 5, 10);
        let rd = field_u8(raw, 0, 5);
        let data = RmRnRd {
            rm,
            rn,
            rd,
        };

        match (m, s, ptype, opcode) {
            (0b0, 0b0, 0b00, 0b0000) => Some(AArch64Instr::FmulScalarSinglePrecisionVar(data)),
            (0b0, 0b0, 0b00, 0b0001) => Some(AArch64Instr::FdivScalarSinglePrecisionVar(data)),
            (0b0, 0b0, 0b00, 0b0010) => Some(AArch64Instr::FaddScalarSinglePrecisionVar(data)),
            (0b0, 0b0, 0b00, 0b0011) => Some(AArch64Instr::FsubScalarSinglePrecisionVar(data)),
            (0b0, 0b0, 0b00, 0b0100) => Some(AArch64Instr::FmaxScalarSinglePrecisionVar(data)),
            (0b0, 0b0, 0b00, 0b0101) => Some(AArch64Instr::FminScalarSinglePrecisionVar(data)),
            (0b0, 0b0, 0b00, 0b0110) => Some(AArch64Instr::FmaxnmScalarSinglePrecisionVar(data)),
            (0b0, 0b0, 0b00, 0b0111) => Some(AArch64Instr::FminnmScalarSinglePrecisionVar(data)),
            (0b0, 0b0, 0b00, 0b1000) => Some(AArch64Instr::FnmulScalarSinglePrecisionVar(data)),

            (0b0, 0b0, 0b01, 0b0000) => Some(AArch64Instr::FmulScalarDoublePrecisionVar(data)),
            (0b0, 0b0, 0b01, 0b0001) => Some(AArch64Instr::FdivScalarDoublePrecisionVar(data)),
            (0b0, 0b0, 0b01, 0b0010) => Some(AArch64Instr::FaddScalarDoublePrecisionVar(data)),
            (0b0, 0b0, 0b01, 0b0011) => Some(AArch64Instr::FsubScalarDoublePrecisionVar(data)),
            (0b0, 0b0, 0b01, 0b0100) => Some(AArch64Instr::FmaxScalarDoublePrecisionVar(data)),
            (0b0, 0b0, 0b01, 0b0101) => Some(AArch64Instr::FminScalarDoublePrecisionVar(data)),
            (0b0, 0b0, 0b01, 0b0110) => Some(AArch64Instr::FmaxnmScalarDoublePrecisionVar(data)),
            (0b0, 0b0, 0b01, 0b0111) => Some(AArch64Instr::FminnmScalarDoublePrecisionVar(data)),
            (0b0, 0b0, 0b01, 0b1000) => Some(AArch64Instr::FnmulScalarDoublePrecisionVar(data)),

            _ => None,
        }
    }
}

/// Decodes the float data proc 2src encoding class.
fn parse_float_data_proc_2src(raw: u32) -> (r: Option<AArch64Instr>)
    ensures
        r == spec_parse_float_data_proc_2src(raw),
{
    // x_0_x_11110_xx_1_xxxxx_xxxx_10_xxxxx_xxxxx
    if raw & 0x5f20_0c00 != 0x1e20_0800 {
        return None;
    }
    let m = extract_u8(31..32, raw);
    let s = extract_u8(29..30, raw);
    let ptype = extract_u8(22..24, raw);
    let rm = extract_u8(16..21, raw);
    let opcode = extract_u8(12..16, raw);
    let rn = extract_u8(5..10, raw);
    let rd = extract_u8(0..5, raw);
    let data = RmRnRd {
        rm,
        rn,
        rd,
    };

    match (m, s, ptype, opcode) {
        (0b0, 0b0, 0b00, 0b0000) => Some(AArch64Instr::FmulScalarSinglePrecisionVar(data)),
        (0b0, 0b0, 0b00, 0b0001) => Some(AArch64Instr::FdivScalarSinglePrecisionVar(data)),
        (0b0, 0b0, 0b00, 0b0010) => Some(AArch64Instr::FaddScalarSinglePrecisionVar(data)),
        (0b0, 0b0, 0b00, 0b0011) => Some(AArch64Instr::FsubScalarSinglePrecisionVar(data)),
        (0b0, 0b0, 0b00, 0b0100) => Some(AArch64Instr::FmaxScalarSinglePrecisionVar(data)),
        (0b0, 0b0, 0b00, 0b0101) => Some(AArch64Instr::FminScalarSinglePrecisionVar(data)),
        (0b0, 0b0, 0b00, 0b0110) => Some(AArch64Instr::FmaxnmScalarSinglePrecisionVar(data)),
        (0b0, 0b0, 0b00, 0b0111) => Some(AArch64Instr::FminnmScalarSinglePrecisionVar(data)),
        (0b0, 0b0, 0b00, 0b1000) => Some(AArch64Instr::FnmulScalarSinglePrecisionVar(data)),

        (0b0, 0b0, 0b01, 0b0000) => Some(AArch64Instr::FmulScalarDoublePrecisionVar(data)),
        (0b0, 0b0, 0b01, 0b0001) => Some(AArch64Instr::FdivScalarDoublePrecisionVar(data)),
        (0b0, 0b0, 0b01, 0b0010) => Some(AArch64Instr::FaddScalarDoublePrecisionVar(data)),
        (0b0, 0b0, 0b01, 0b0011) => Some(AArch64Instr::FsubScalarDoublePrecisionVar(data)),
        (0b0, 0b0, 0b01, 0b0100) => Some(AArch64Instr::FmaxScalarDoublePrecisionVar(data)),
        (0b0, 0b0, 0b01, 0b0101) => Some(AArch64Instr::FminScalarDoublePrecisionVar(data)),
        (0b0, 0b0, 0b01, 0b0110) => Some(AArch64Instr::FmaxnmScalarDoublePrecisionVar(data)),
        (0b0, 0b0, 0b01, 0b0111) => Some(AArch64Instr::FminnmScalarDoublePrecisionVar(data)),
        (0b0, 0b0, 0b01, 0b1000) => Some(AArch64Instr::FnmulScalarDoublePrecisionVar(data)),

        _ => None,
    }
}

/// What the floating point immediate encoding class decodes to.
pub open spec fn spec_parse_floating_point_immediate(raw: u32) -> Option<AArch64Instr> {
    if raw & 0x5f20_1c00 != 0x1e20_1000 {
        None
    } else {
        let m = field_u8(raw, 31, 32);
        let s = field_u8(raw, 29, 30);
        let ptype = field_u8(raw, 22, 24);
        let imm8 = field_u8(raw, 13, 21);
        let imm5 = field_u8(raw, 5, 10);
        let rd = field_u8(raw, 0, 5);
        let data = FloatingPointImmediate {
            imm8,
            rd,
        };

        match (m, s, ptype, imm5) {
            (0b0, 0b0, 0b00, 0b00000) => {
                Some(AArch64Instr::FmovScalarImmSinglePrecisionVar(data))
            }
            (0b0, 0b0, 0b01, 0b00000) => {
                Some(AArch64Instr::FmovScalarImmDoublePrecisionVar(data))
            }

            _ => None,
        }
    }
}

/// Decodes the floating point immediate encoding class.
fn parse_floating_point_immediate(raw: u32) -> (r: Option<AArch64Instr>)
    ensures
        r == spec_parse_floating_point_immediate(raw),
{
    // x_0_x_11110_xx_1_xxxxxxxx_100_xxxxx_xxxxx
    if raw & 0x5f20_1c00 != 0x1e20_1000 {
        return None;
    }
    let m = extract_u8(31..32, raw);
    let s = extract_u8(29..30, raw);
    let ptype = extract_u8(22..24, raw);
    let imm8 = extract_u8(13..21, raw);
    let imm5 = extract_u8(5..10, raw);
    let rd = extract_u8(0..5, raw);
    let data = FloatingPointImmediate {
        imm8,
        rd,
    };

    match (m, s, ptype, imm5) {
        (0b0, 0b0, 0b00, 0b00000) => {
            Some(AArch64Instr::FmovScalarImmSinglePrecisionVar(data))
        }
        (0b0, 0b0, 0b01, 0b00000) => {
            Some(AArch64Instr::FmovScalarImmDoublePrecisionVar(data))
        }

        _ => None,
    }
}

/// What the conv between float and fixed point encoding class decodes to.
pub open spec fn spec_parse_conv_between_float_and_fixed_point(raw: u32) -> Option<AArch64Instr> {
    if raw & 0x5f20_0000 != 0x1e00_0000 {
        None
    } else {
        let sf = field_u8(raw, 31, 32);
        let s = field_u8(raw, 29, 30);
        let ptype = field_u8(raw, 22, 24);
        let rmode = field_u8(raw, 19, 21);
        let opcode = field_u8(raw, 16, 19);
        let scale = field_u8(raw, 10, 16);
        let rn = field_u8(raw, 5, 10);
        let rd = field_u8(raw, 0, 5);
        let data = ConvBetweenFloatAndFixedPoint {
            scale,
            rn,
            rd,
        };

        match (
            sf,
            s,
            ptype,
            rmode,
            opcode,
            scale,
        ) {
            (0b0, 0b0, 0b00, 0b00, 0b010, _) => {
                Some(AArch64Instr::ScvtfScalarFixedPt32ToSinglePrecision(data))
            }
            (0b0, 0b0, 0b00, 0b00, 0b011, _) => {
                Some(AArch64Instr::UcvtfScalarFixedPt32ToSinglePrecision(data))
            }
            (0b0, 0b0, 0b00, 0b11, 0b000, _) => {
                Some(AArch64Instr::FcvtzsScalarFixedPtSinglePrecisionTo32(data))
            }
            (0b0, 0b0, 0b00, 0b11, 0b001, _) => {
                Some(AArch64Instr::FcvtzuScalarFixedPtSinglePrecisionTo32(data))
            }

            (0b0, 0b0, 0b01, 0b00, 0b010, _) => {
                Some(AArch64Instr::ScvtfScalarFixedPt32ToDoublePrecision(data))
            }
            (0b0, 0b0, 0b01, 0b00, 0b011, _) => {
                Some(AArch64Instr::UcvtfScalarFixedPt32ToDoublePrecision(data))
            }
            (0b0, 0b0, 0b01, 0b11, 0b000, _) => {
                Some(AArch64Instr::FcvtzsScalarFixedPtDoublePrecisionTo32(data))
            }
            (0b0, 0b0, 0b01, 0b11, 0b001, _) => {
                Some(AArch64Instr::FcvtzuScalarFixedPtDoublePrecisionTo32(data))
            }

            (0b1, 0b0, 0b00, 0b00, 0b010, _) => {
                Some(AArch64Instr::ScvtfScalarFixedPt64ToSinglePrecision(data))
            }
            (0b1, 0b0, 0b00, 0b00, 0b011, _) => {
                Some(AArch64Instr::UcvtfScalarFixedPt64ToSinglePrecision(data))
            }
            (0b1, 0b0, 0b00, 0b11, 0b000, _) => {
                Some(AArch64Instr::FcvtzsScalarFixedPtSinglePrecisionTo64(data))
            }
            (0b1, 0b0, 0b00, 0b11, 0b001, _) => {
                Some(AArch64Instr::FcvtzuScalarFixedPtSinglePrecisionTo64(data))
            }

            (0b1, 0b0, 0b01, 0b00, 0b010, _) => {
                Some(AArch64Instr::ScvtfScalarFixedPt64ToDoublePrecision(data))
            }
            (0b1, 0b0, 0b01, 0b00, 0b011, _) => {
                Some(AArch64Instr::UcvtfScalarFixedPt64ToDoublePrecision(data))
            }
            (0b1, 0b0, 0b01, 0b11, 0b000, _) => {
                Some(AArch64Instr::FcvtzsScalarFixedPtDoublePrecisionTo64(data))
            }
            (0b1, 0b0, 0b01, 0b11, 0b001, _) => {
                Some(AArch64Instr::FcvtzuScalarFixedPtDoublePrecisionTo64(data))
            }

            _ => None,
        }
    }
}

/// Decodes the conv between float and fixed point encoding class.
fn parse_conv_between_float_and_fixed_point(raw: u32) -> (r: Option<AArch64Instr>)
    ensures
        r == spec_parse_conv_between_float_and_fixed_point(raw),
{
    // x_0_x_11110_xx_0_xx_xxx_xxxxxx_xxxxx_xxxxx
    if raw & 0x5f20_0000 != 0x1e00_0000 {
        return None;
    }
    let sf = extract_u8(31..32, raw);
    let s = extract_u8(29..30, raw);
    let ptype = extract_u8(22..24, raw);
    let rmode = extract_u8(19..21, raw);
    let opcode = extract_u8(16..19, raw);
    let scale = extract_u8(10..16, raw);
    let rn = extract_u8(5..10, raw);
    let rd = extract_u8(0..5, raw);
    let data = ConvBetweenFloatAndFixedPoint {
        scale,
        rn,
        rd,
    };

    match (
        sf,
        s,
        ptype,
        rmode,
        opcode,
        scale,
    ) {
        (0b0, 0b0, 0b00, 0b00, 0b010, _) => {
            Some(AArch64Instr::ScvtfScalarFixedPt32ToSinglePrecision(data))
        }
        (0b0, 0b0, 0b00, 0b00, 0b011, _) => {
            Some(AArch64Instr::UcvtfScalarFixedPt32ToSinglePrecision(data))
        }
        (0b0, 0b0, 0b00, 0b11, 0b000, _) => {
            Some(AArch64Instr::FcvtzsScalarFixedPtSinglePrecisionTo32(data))
        }
        (0b0, 0b0, 0b00, 0b11, 0b001, _) => {
            Some(AArch64Instr::FcvtzuScalarFixedPtSinglePrecisionTo32(data))
        }

        (0b0, 0b0, 0b01, 0b00, 0b010, _) => {
            Some(AArch64Instr::ScvtfScalarFixedPt32ToDoublePrecision(data))
        }
        (0b0, 0b0, 0b01, 0b00, 0b011, _) => {
            Some(AArch64Instr::UcvtfScalarFixedPt32ToDoublePrecision(data))
        }
        (0b0, 0b0, 0b01, 0b11, 0b000, _) => {
            Some(AArch64Instr::FcvtzsScalarFixedPtDoublePrecisionTo32(data))
        }
        (0b0, 0b0, 0b01, 0b11, 0b001, _) => {
            Some(AArch64Instr::FcvtzuScalarFixedPtDoublePrecisionTo32(data))
        }

        (0b1, 0b0, 0b00, 0b00, 0b010, _) => {
            Some(AArch64Instr::ScvtfScalarFixedPt64ToSinglePrecision(data))
        }
        (0b1, 0b0, 0b00, 0b00, 0b011, _) => {
            Some(AArch64Instr::UcvtfScalarFixedPt64ToSinglePrecision(data))
        }
        (0b1, 0b0, 0b00, 0b11, 0b000, _) => {
            Some(AArch64Instr::FcvtzsScalarFixedPtSinglePrecisionTo64(data))
        }
        (0b1, 0b0, 0b00, 0b11, 0b001, _) => {
            Some(AArch64Instr::FcvtzuScalarFixedPtSinglePrecisionTo64(data))
        }

        (0b1, 0b0, 0b01, 0b00, 0b010, _) => {
            Some(AArch64Instr::ScvtfScalarFixedPt64ToDoublePrecision(data))
        }
        (0b1, 0b0, 0b01, 0b00, 0b011, _) => {
            Some(AArch64Instr::UcvtfScalarFixedPt64ToDoublePrecision(data))
        }
        (0b1, 0b0, 0b01, 0b11, 0b000, _) => {
            Some(AArch64Instr::FcvtzsScalarFixedPtDoublePrecisionTo64(data))
        }
        (0b1, 0b0, 0b01, 0b11, 0b001, _) => {
            Some(AArch64Instr::FcvtzuScalarFixedPtDoublePrecisionTo64(data))
        }

        _ => None,
    }
}

/// What the floating point conditional select encoding class decodes to.
pub open spec fn spec_parse_floating_point_conditional_select(raw: u32) -> Option<AArch64Instr> {
    if raw & 0x5f20_0c00 != 0x1e20_0c00 {
        None
    } else {
        let m = field_u8(raw, 31, 32);
        let s = field_u8(raw, 29, 30);
        let ptype = field_u8(raw, 22, 24);
        let rm = field_u8(raw, 16, 21);
        let cond = field_u8(raw, 12, 16);
        let rn = field_u8(raw, 5, 10);
        let rd = field_u8(raw, 0, 5);
        let data = RmCondRnRd {
            rm,
            cond,
            rn,
            rd,
        };

        match (m, s, ptype) {
            (0b0, 0b0, 0b00) => Some(AArch64Instr::FcselSinglePrecisionVar(data)),
            (0b0, 0b0, 0b01) => Some(AArch64Instr::FcselDoublePrecisionVar(data)),

            _ => None,
        }
    }
}

/// Decodes the floating point conditional select encoding class.
fn parse_floating_point_conditional_select(raw: u32) -> (r: Option<AArch64Instr>)
    ensures
        r == spec_parse_floating_point_conditional_select(raw),
{
    // x_0_x_11110_xx_1_xxxxx_xxxx_11_xxxxx_xxxxx
    if raw & 0x5f20_0c00 != 0x1e20_0c00 {
        return None;
    }
    let m = extract_u8(31..32, raw);
    let s = extract_u8(29..30, raw);
    let ptype = extract_u8(22..24, raw);
    let rm = extract_u8(16..21, raw);
    let cond = extract_u8(12..16, raw);
    let rn = extract_u8(5..10, raw);
    let rd = extract_u8(0..5, raw);
    let data = RmCondRnRd {
        rm,
        cond,
        rn,
        rd,
    };

    match (m, s, ptype) {
        (0b0, 0b0, 0b00) => Some(AArch64Instr::FcselSinglePrecisionVar(data)),
        (0b0, 0b0, 0b01) => Some(AArch64Instr::FcselDoublePrecisionVar(data)),

        _ => None,
    }
}

/// What the adv simd vec x indexed elem encoding class decodes to.
pub open spec fn spec_parse_adv_simd_vec_x_indexed_elem(raw: u32) -> Option<AArch64Instr> {
    if raw & 0x9f00_0400 != 0x0f00_0000 {
        None
    } else {
        let q = field_u8(raw, 31, 32);
        let u = field_u8(raw, 29, 30);
        let size = field_u8(raw, 22, 24);
        let l = field_u8(raw, 21, 22);
        let m = field_u8(raw, 20, 21);
        let rm = field_u8(raw, 16, 20);
        let opcode = field_u8(raw, 12, 16);
        let h = field_u8(raw, 11, 12);
        let rn = field_u8(raw, 5, 10);
        let rd = field_u8(raw, 0, 5);
        let data = AdvSimdXIndexedElem {
            q,
            size,
            l,
            m,
            rm,
            h,
            rn,
            rd,
        };

        match (u, size, opcode) {
            (0b0, _, 0b0010) => Some(AArch64Instr::SmlalByElem(data)),
            (0b0, _, 0b0011) => Some(AArch64Instr::SqdmlalByElem(data)),
            (0b0, _, 0b0110) => Some(AArch64Instr::SmlslByElem(data)),
            (0b0, _, 0b0111) => Some(AArch64Instr::SqdmlslByElem(data)),
            (0b0, _, 0b1000) => Some(AArch64Instr::MulByElem(data)),
            (0b0, _, 0b1010) => Some(AArch64Instr::SmullByElem(data)),
            (0b0, _, 0b1011) => Some(AArch64Instr::SqdmullByElem(data)),
            (0b0, _, 0b1100) => Some(AArch64Instr::SqdmulhByElem(data)),
            (0b0, _, 0b1101) => Some(AArch64Instr::SqrdmulhByElem(data)),

            (0b0, 0b10 | 0b11, 0b0001) => Some(AArch64Instr::FmlaByElemEncoding(data)),
            (0b0, 0b10 | 0b11, 0b0101) => Some(AArch64Instr::FmlsByElemEncoding(data)),
            (0b0, 0b10 | 0b11, 0b1001) => Some(AArch64Instr::FmulByElemEncoding(data)),

            (0b1, _, 0b0000) => Some(AArch64Instr::MlaByElem(data)),
            (0b1, _, 0b0010) => Some(AArch64Instr::UmlalByElem(data)),
            (0b1, _, 0b0100) => Some(AArch64Instr::MlsByElem(data)),
            (0b1, _, 0b0110) => Some(AArch64Instr::UmlslByElem(data)),
            (0b1, _, 0b1010) => Some(AArch64Instr::UmullByElem(data)),

            (0b1, 0b10 | 0b11, 0b1001) => Some(AArch64Instr::FmulxByElemEncoding(data)),

            _ => None,
        }
    }
}

/// Decodes the adv simd vec x indexed elem encoding class.
fn parse_adv_simd_vec_x_indexed_elem(raw: u32) -> (r: Option<AArch64Instr>)
    ensures
        r == spec_parse_adv_simd_vec_x_indexed_elem(raw),
{
    // 0_x_x_01111_xx_x_x_xxxx_xxxx_x_0_xxxxx_xxxxx
    if raw & 0x9f00_0400 != 0x0f00_0000 {
        return None;
    }
    let q = extract_u8(31..32, raw);
    let u = extract_u8(29..30, raw);
    let size = extract_u8(22..24, raw);
    let l = extract_u8(21..22, raw);
    let m = extract_u8(20..21, raw);
    let rm = extract_u8(16..20, raw);
    let opcode = extract_u8(12..16, raw);
    let h = extract_u8(11..12, raw);
    let rn = extract_u8(5..10, raw);
    let rd = extract_u8(0..5, raw);
    let data = AdvSimdXIndexedElem {
        q,
        size,
        l,
        m,
        rm,
        h,
        rn,
        rd,
    };

    match (u, size, opcode) {
        (0b0, _, 0b0010) => Some(AArch64Instr::SmlalByElem(data)),
        (0b0, _, 0b0011) => Some(AArch64Instr::SqdmlalByElem(data)),
        (0b0, _, 0b0110) => Some(AArch64Instr::SmlslByElem(data)),
        (0b0, _, 0b0111) => Some(AArch64Instr::SqdmlslByElem(data)),
        (0b0, _, 0b1000) => Some(AArch64Instr::MulByElem(data)),
        (0b0, _, 0b1010) => Some(AArch64Instr::SmullByElem(data)),
        (0b0, _, 0b1011) => Some(AArch64Instr::SqdmullByElem(data)),
        (0b0, _, 0b1100) => Some(AArch64Instr::SqdmulhByElem(data)),
        (0b0, _, 0b1101) => Some(AArch64Instr::SqrdmulhByElem(data)),

        (0b0, 0b10 | 0b11, 0b0001) => Some(AArch64Instr::FmlaByElemEncoding(data)),
        (0b0, 0b10 | 0b11, 0b0101) => Some(AArch64Instr::FmlsByElemEncoding(data)),
        (0b0, 0b10 | 0b11, 0b1001) => Some(AArch64Instr::FmulByElemEncoding(data)),

        (0b1, _, 0b0000) => Some(AArch64Instr::MlaByElem(data)),
        (0b1, _, 0b0010) => Some(AArch64Instr::UmlalByElem(data)),
        (0b1, _, 0b0100) => Some(AArch64Instr::MlsByElem(data)),
        (0b1, _, 0b0110) => Some(AArch64Instr::UmlslByElem(data)),
        (0b1, _, 0b1010) => Some(AArch64Instr::UmullByElem(data)),

        (0b1, 0b10 | 0b11, 0b1001) => Some(AArch64Instr::FmulxByElemEncoding(data)),

        _ => None,
    }
}

/// What the adv simd scalar x indexed elem encoding class decodes to.
pub open spec fn spec_parse_adv_simd_scalar_x_indexed_elem(raw: u32) -> Option<AArch64Instr> {
    if raw & 0xdf00_0400 != 0x5f00_0000 {
        None
    } else {
        let u = field_u8(raw, 29, 30);
        let size = field_u8(raw, 22, 24);
        let l = field_u8(raw, 21, 22);
        let m = field_u8(raw, 20, 21);
        let rm = field_u8(raw, 16, 20);
        let opcode = field_u8(raw, 12, 16);
        let h = field_u8(raw, 11, 12);
        let rn = field_u8(raw, 5, 10);
        let rd = field_u8(raw, 0, 5);
        let data = AdvSimdXIndexedElem {
            q: 0b1,
            size,
            l,
            m,
            rm,
            h,
            rn,
            rd,
        };

        match (u, size, opcode) {
            (0b0, _, 0b0011) => Some(AArch64Instr::SqdmlalByElem(data)),
            (0b0, _, 0b0111) => Some(AArch64Instr::SqdmlslByElem(data)),
            (0b0, _, 0b1011) => Some(AArch64Instr::SqdmullByElem(data)),
            (0b0, _, 0b1100) => Some(AArch64Instr::SqdmulhByElem(data)),
            (0b0, _, 0b1101) => Some(AArch64Instr::SqrdmulhByElem(data)),

            (0b0, 0b10 | 0b11, 0b0001) => Some(AArch64Instr::FmlaByElemEncoding(data)),
            (0b0, 0b10 | 0b11, 0b0101) => Some(AArch64Instr::FmlsByElemEncoding(data)),
            (0b0, 0b10 | 0b11, 0b1001) => Some(AArch64Instr::FmulByElemEncoding(data)),

            (0b1, 0b10 | 0b11, 0b1001) => Some(AArch64Instr::FmulxByElemEncoding(data)),

            _ => None,
        }
    }
}

/// Decodes the adv simd scalar x indexed elem encoding class.
fn parse_adv_simd_scalar_x_indexed_elem(raw: u32) -> (r: Option<AArch64Instr>)
    ensures
        r == spec_parse_adv_simd_scalar_x_indexed_elem(raw),
{
    // 01_x_11111_xx_x_x_xxxx_xxxx_x_0_xxxxx_xxxxx
    if raw & 0xdf00_0400 != 0x5f00_0000 {
        return None;
    }
    let u = extract_u8(29..30, raw);
    let size = extract_u8(22..24, raw);
    let l = extract_u8(21..22, raw);
    let m = extract_u8(20..21, raw);
    let rm = extract_u8(16..20, raw);
    let opcode = extract_u8(12..16, raw);
    let h = extract_u8(11..12, raw);
    let rn = extract_u8(5..10, raw);
    let rd = extract_u8(0..5, raw);
    let data = AdvSimdXIndexedElem {
        q: 0b1,
        size,
        l,
        m,
        rm,
        h,
        rn,
        rd,
    };

    match (u, size, opcode) {
        (0b0, _, 0b0011) => Some(AArch64Instr::SqdmlalByElem(data)),
        (0b0, _, 0b0111) => Some(AArch64Instr::SqdmlslByElem(data)),
        (0b0, _, 0b1011) => Some(AArch64Instr::SqdmullByElem(data)),
        (0b0, _, 0b1100) => Some(AArch64Instr::SqdmulhByElem(data)),
        (0b0, _, 0b1101) => Some(AArch64Instr::SqrdmulhByElem(data)),

        (0b0, 0b10 | 0b11, 0b0001) => Some(AArch64Instr::FmlaByElemEncoding(data)),
        (0b0, 0b10 | 0b11, 0b0101) => Some(AArch64Instr::FmlsByElemEncoding(data)),
        (0b0, 0b10 | 0b11, 0b1001) => Some(AArch64Instr::FmulByElemEncoding(data)),

        (0b1, 0b10 | 0b11, 0b1001) => Some(AArch64Instr::FmulxByElemEncoding(data)),

        _ => None,
    }
}

/// What the sys instr with reg arg encoding class decodes to.
pub open spec fn spec_parse_sys_instr_with_reg_arg(raw: u32) -> Option<AArch64Instr> {
    if raw & 0xffff_f000 != 0xd503_1000 {
        None
    } else {
        let crm = field_u8(raw, 8, 12);
        let op2 = field_u8(raw, 5, 8);
        let rt = field_u8(raw, 0, 5);
        let data = Rt { rt: rt };

        match (crm, op2) {
            (0b0000, 0b000) => Some(AArch64Instr::Wfet(data)),
            (0b0000, 0b001) => Some(AArch64Instr::Wfit(data)),

            _ => None,
        }
    }
}

/// Decodes the sys instr with reg arg encoding class.
fn parse_sys_instr_with_reg_arg(raw: u32) -> (r: Option<AArch64Instr>)
    ensures
        r == spec_parse_sys_instr_with_reg_arg(raw),
{
    // 11010101000000110001_xxxx_xxx_xxxxx
    if raw & 0xffff_f000 != 0xd503_1000 {
        return None;
    }
    let crm = extract_u8(8..12, raw);
    let op2 = extract_u8(5..8, raw);
    let rt = extract_u8(0..5, raw);
    let data = Rt { rt: rt };

    match (crm, op2) {
        (0b0000, 0b000) => Some(AArch64Instr::Wfet(data)),
        (0b0000, 0b001) => Some(AArch64Instr::Wfit(data)),

        _ => None,
    }
}

/// What the pstate encoding class decodes to.
pub open spec fn spec_parse_pstate(raw: u32) -> Option<AArch64Instr> {
    if raw & 0xfff8_f000 != 0xd500_4000 {
        None
    } else {
        let op1 = field_u8(raw, 16, 19);
        let crm = field_u8(raw, 8, 12);
        let op2 = field_u8(raw, 5, 8);
        let rt = field_u8(raw, 0, 5);
        let data = Pstate {
            op1,
            crm,
            op2,
        };

        match (op1, op2, rt) {
            (0b000, 0b000, 0b11111) => Some(AArch64Instr::Cfinv(data)),
            (0b000, 0b001, 0b11111) => Some(AArch64Instr::Xaflag(data)),
            (0b000, 0b010, 0b11111) => Some(AArch64Instr::Axflag(data)),
            (_, _, 0b11111) => Some(AArch64Instr::MsrImm(data)),

            _ => None,
        }
    }
}

/// Decodes the pstate encoding class.
fn parse_pstate(raw: u32) -> (r: Option<AArch64Instr>)
    ensures
        r == spec_parse_pstate(raw),
{
    // 1101010100000_xxx_0100_xxxx_xxx_xxxxx
    if raw & 0xfff8_f000 != 0xd500_4000 {
        return None;
    }
    let op1 = extract_u8(16..19, raw);
    let crm = extract_u8(8..12, raw);
    let op2 = extract_u8(5..8, raw);
    let rt = extract_u8(0..5, raw);
    let data = Pstate {
        op1,
        crm,
        op2,
    };

    match (op1, op2, rt) {
        (0b000, 0b000, 0b11111) => Some(AArch64Instr::Cfinv(data)),
        (0b000, 0b001, 0b11111) => Some(AArch64Instr::Xaflag(data)),
        (0b000, 0b010, 0b11111) => Some(AArch64Instr::Axflag(data)),
        (_, _, 0b11111) => Some(AArch64Instr::MsrImm(data)),

        _ => None,
    }
}

/// What the sys with result encoding class decodes to.
pub open spec fn spec_parse_sys_with_result(raw: u32) -> Option<AArch64Instr> {
    if raw & 0xfff8_f000 != 0xd500_4000 {
        None
    } else {
        let op1 = field_u8(raw, 16, 19);
        let crn = field_u8(raw, 12, 16);
        let crm = field_u8(raw, 8, 12);
        let op2 = field_u8(raw, 5, 8);
        let rt = field_u8(raw, 0, 5);
        let data = Rt { rt: rt };

        match (op1, crn, crm, op2) {
            (0b011, 0b0011, 0b0000, 0b011) => Some(AArch64Instr::Tstart(data)),
            (0b011, 0b0011, 0b0001, 0b011) => Some(AArch64Instr::Ttest(data)),

            _ => None,
        }
    }
}

/// Decodes the sys with result encoding class.
fn parse_sys_with_result(raw: u32) -> (r: Option<AArch64Instr>)
    ensures
        r == spec_parse_sys_with_result(raw),
{
    // 1101010100000_xxx_0100_xxxx_xxx_xxxxx
    if raw & 0xfff8_f000 != 0xd500_4000 {
        return None;
    }
    let op1 = extract_u8(16..19, raw);
    let crn = extract_u8(12..16, raw);
    let crm = extract_u8(8..12, raw);
    let op2 = extract_u8(5..8, raw);
    let rt = extract_u8(0..5, raw);
    let data = Rt { rt: rt };

    match (op1, crn, crm, op2) {
        (0b011, 0b0011, 0b0000, 0b011) => Some(AArch64Instr::Tstart(data)),
        (0b011, 0b0011, 0b0001, 0b011) => Some(AArch64Instr::Ttest(data)),

        _ => None,
    }
}

/// What the sys instr encoding class decodes to.
pub open spec fn spec_parse_sys_instr(raw: u32) -> Option<AArch64Instr> {
    if raw & 0xfff8_f000 != 0xd500_4000 {
        None
    } else {
        let l = field_u8(raw, 21, 22);
        let op1 = field_u8(raw, 16, 19);
        let crn = field_u8(raw, 12, 16);
        let crm = field_u8(raw, 8, 12);
        let op2 = field_u8(raw, 5, 8);
        let rt = field_u8(raw, 0, 5);
        let data = SystemInstructions {
            op1,
            crn,
            crm,
            op2,
            rt,
        };

        match l {
            0b0 => Some(AArch64Instr::Sys(data)),
            0b1 => Some(AArch64Instr::Sysl(data)),

            _ => None,
        }
    }
}

/// Decodes the sys instr encoding class.
fn parse_sys_instr(raw: u32) -> (r: Option<AArch64Instr>)
    ensures
        r == spec_parse_sys_instr(raw),
{
    // 1101010100000_xxx_0100_xxxx_xxx_xxxxx
    if raw & 0xfff8_f000 != 0xd500_4000 {
        return None;
    }
    let l = extract_u8(21..22, raw);
    let op1 = extract_u8(16..19, raw);
    let crn = extract_u8(12..16, raw);
    let crm = extract_u8(8..12, raw);
    let op2 = extract_u8(5..8, raw);
    let rt = extract_u8(0..5, raw);
    let data = SystemInstructions {
        op1,
        crn,
        crm,
        op2,
        rt,
    };

    match l {
        0b0 => Some(AArch64Instr::Sys(data)),
        0b1 => Some(AArch64Instr::Sysl(data)),

        _ => None,
    }
}

/// What the rot right into flags encoding class decodes to.
pub open spec fn spec_parse_rot_right_into_flags(raw: u32) -> Option<AArch64Instr> {
    if raw & 0x1fe0_7c00 != 0x1a00_0400 {
        None
    } else {
        let sf_op_s = field_u8(raw, 29, 32);
        let imm6 = field_u8(raw, 15, 21);
        let rn = field_u8(raw, 5, 10);
        let o2 = field_u8(raw, 4, 5);
        let mask = field_u8(raw, 0, 4);
        let data = RotateRightIntoFlags {
            imm6,
            rn,
            mask,
        };

        match (sf_op_s, o2) {
            (0b101, 0b0) => Some(AArch64Instr::Rmif(data)),

            _ => None,
        }
    }
}

/// Decodes the rot right into flags encoding class.
fn parse_rot_right_into_flags(raw: u32) -> (r: Option<AArch64Instr>)
    ensures
        r == spec_parse_rot_right_into_flags(raw),
{
    // x_x_x_11010000_xxxxxx_00001_xxxxx_x_xxxx
    if raw & 0x1fe0_7c00 != 0x1a00_0400 {
        return None;
    }
    let sf_op_s = extract_u8(29..32, raw);
    let imm6 = extract_u8(15..21, raw);
    let rn = extract_u8(5..10, raw);
    let o2 = extract_u8(4..5, raw);
    let mask = extract_u8(0..4, raw);
    let data = RotateRightIntoFlags {
        imm6,
        rn,
        mask,
    };

    match (sf_op_s, o2) {
        (0b101, 0b0) => Some(AArch64Instr::Rmif(data)),

        _ => None,
    }
}

/// What the eval into flags encoding class decodes to.
pub open spec fn spec_parse_eval_into_flags(raw: u32) -> Option<AArch64Instr> {
    if raw & 0x1fe0_3c00 != 0x1a00_0800 {
        None
    } else {
        let sf_op_s = field_u8(raw, 29, 32);
        let opcode2 = field_u8(raw, 15, 21);
        let sz = field_u8(raw, 14, 15);
        let rn = field_u8(raw, 5, 10);
        let o3 = field_u8(raw, 4, 5);
        let mask = field_u8(raw, 0, 4);
        let data = Rn { rn: rn };

        match (sf_op_s, opcode2, sz, o3, mask) {
            (0b001, 0b000000, 0b0, 0b0, 0b1101) => Some(AArch64Instr::SetfVar8(data)),
            (0b001, 0b000000, 0b1, 0b0, 0b1101) => Some(AArch64Instr::SetfVar16(data)),

            _ => None,
        }
    }
}

/// Decodes the eval into flags encoding class.
fn parse_eval_into_flags(raw: u32) -> (r: Option<AArch64Instr>)
    ensures
        r == spec_parse_eval_into_flags(raw),
{
    // x_x_x_11010000_xxxxxx_x_0010_xxxxx_x_xxxx
    if raw & 0x1fe0_3c00 != 0x1a00_0800 {
        return None;
    }
    let sf_op_s = extract_u8(29..32, raw);
    let opcode2 = extract_u8(15..21, raw);
    let sz = extract_u8(14..15, raw);
    let rn = extract_u8(5..10, raw);
    let o3 = extract_u8(4..5, raw);
    let mask = extract_u8(0..4, raw);
    let data = Rn { rn: rn };

    match (sf_op_s, opcode2, sz, o3, mask) {
        (0b001, 0b000000, 0b0, 0b0, 0b1101) => Some(AArch64Instr::SetfVar8(data)),
        (0b001, 0b000000, 0b1, 0b0, 0b1101) => Some(AArch64Instr::SetfVar16(data)),

        _ => None,
    }
}

/// What the load register literal encoding class decodes to.
pub open spec fn spec_parse_load_register_literal(raw: u32) -> Option<AArch64Instr> {
    if raw & 0x3b00_0000 != 0x1800_0000 {
        None
    } else {
        let opc = field_u8(raw, 30, 32);
        let v = field_u8(raw, 26, 27);
        let imm19 = bit_field32(raw, 5, 24);
        let rt = field_u8(raw, 0, 5);
        let data = Imm19Rt {
            imm19,
            rt,
        };

        match (opc, v) {
            (0b00, 0b0) => Some(AArch64Instr::LdrLitVar32(data)),
            (0b00, 0b1) => Some(AArch64Instr::LdrLitSimdFPVar32(data)),
            (0b01, 0b0) => Some(AArch64Instr::LdrLitVar64(data)),
            (0b01, 0b1) => Some(AArch64Instr::LdrLitSimdFPVar64(data)),
            (0b10, 0b0) => Some(AArch64Instr::LdrswLit(data)),
            (0b10, 0b1) => Some(AArch64Instr::LdrLitSimdFPVar128(data)),
            (0b11, 0b0) => Some(AArch64Instr::PrfmLit(data)),

            _ => None,
        }
    }
}

/// Decodes the load register literal encoding class.
fn parse_load_register_literal(raw: u32) -> (r: Option<AArch64Instr>)
    ensures
        r == spec_parse_load_register_literal(raw),
{
    // xx_011_x_00_xxxxxxxxxxxxxxxxxxx_xxxxx
    if raw & 0x3b00_0000 != 0x1800_0000 {
        return None;
    }
    let opc = extract_u8(30..32, raw);
    let v = extract_u8(26..27, raw);
    let imm19 = extract_bits32(5..24, raw);
    let rt = extract_u8(0..5, raw);
    let data = Imm19Rt {
        imm19,
        rt,
    };

    match (opc, v) {
        (0b00, 0b0) => Some(AArch64Instr::LdrLitVar32(data)),
        (0b00, 0b1) => Some(AArch64Instr::LdrLitSimdFPVar32(data)),
        (0b01, 0b0) => Some(AArch64Instr::LdrLitVar64(data)),
        (0b01, 0b1) => Some(AArch64Instr::LdrLitSimdFPVar64(data)),
        (0b10, 0b0) => Some(AArch64Instr::LdrswLit(data)),
        (0b10, 0b1) => Some(AArch64Instr::LdrLitSimdFPVar128(data)),
        (0b11, 0b0) => Some(AArch64Instr::PrfmLit(data)),

        _ => None,
    }
}
/// The AArch64 instruction parser: every instruction is one little-endian
/// 32-bit word.
#[derive(Clone, Copy, Debug)]
pub struct AArch64InstrParserRule;

impl AArch64InstrParserRule {
    /// Whether the next instruction of `bytes` can be parsed: either the end of
    /// the stream is reached, or the next word has a supported encoding.
    pub open spec fn can_parse(bytes: Seq<u8>) -> bool {
        bytes.len() < 4 || spec_decode_instr(le_u32(bytes)) is Some
    }

    /// The instruction parsed from the front of `bytes`, and the bytes left.
    pub open spec fn parse_result(bytes: Seq<u8>) -> (Option<NativeInstr<AArch64Instr>>, Seq<u8>) {
        if bytes.len() >= 4 {
            (
                Some(NativeInstr { op: spec_decode_instr(le_u32(bytes))->Some_0, size: 4u8 }),
                bytes.skip(4),
            )
        } else {
            (None, Seq::empty())
        }
    }
}

impl MachineInstrParserRule for AArch64InstrParserRule {
    type MachineInstr = AArch64Instr;

    open spec fn parsable(bytes: Seq<u8>) -> bool {
        Self::can_parse(bytes)
    }

    open spec fn parsed(bytes: Seq<u8>) -> (Option<NativeInstr<AArch64Instr>>, Seq<u8>) {
        Self::parse_result(bytes)
    }

    /// Parses the next instruction of `buf`; `None` at the end of the stream.
    fn parse(&mut self, buf: &mut BitReader) -> (r: Option<NativeInstr<AArch64Instr>>) {
        let r = match parse_aarch64_instr(buf) {
            Some(op) => Some(NativeInstr { op, size: 4 }),
            None => None,
        };
        proof {
            if old(buf)@.len() < 4 {
                assert(buf@ =~= Seq::<u8>::empty());
            }
        }
        r
    }
}

/// Reads one instruction word from `reader` and decodes it.
fn parse_aarch64_instr(reader: &mut BitReader) -> (r: Option<AArch64Instr>)
    requires
        AArch64InstrParserRule::can_parse(old(reader)@),
    ensures
        old(reader)@.len() >= 4 ==> r == spec_decode_instr(le_u32(old(reader)@)) && r is Some
            && final(reader)@ == old(reader)@.skip(4),
        old(reader)@.len() < 4 ==> r is None && final(reader)@.len() == 0,
{
    match reader.read32() {
        Some(raw) => decode_instr(raw),
        None => None,
    }
}


/// Compare and branch (immediate): a word whose bits 30..25 are `011010`
/// decodes to CBZ when bit 24 is 0 and to CBNZ when it is 1, on a 64-bit
/// register when bit 31 is set and on a 32-bit one otherwise, with the
/// 19-bit offset from bits 23..5 and the register from bits 4..0.
pub proof fn lemma_decode_compare_and_branch(raw: u32)
    requires
        (raw >> 25u32) & 0x3f == 0x1a,
    ensures
        ({
            let data = Imm19Rt { imm19: (raw >> 5u32) & 0x7ffff, rt: (raw & 0x1f) as u8 };
            let is_cbz = (raw >> 24u32) & 1 == 0;
            spec_decode_instr(raw) == Some(
                if raw >> 31u32 == 1 {
                    if is_cbz { AArch64Instr::Cbz64(data) } else { AArch64Instr::Cbnz64(data) }
                } else {
                    if is_cbz { AArch64Instr::Cbz32(data) } else { AArch64Instr::Cbnz32(data) }
                },
            )
        }),
{
    assert({
        &&& raw & 0x9e00_0000 != 0x0000_0000
        &&& raw & 0x9e00_0000 != 0x8000_0000
        &&& raw & 0x1e00_0000 != 0x0400_0000
        &&& raw & 0x1c00_0000 != 0x1000_0000
        &&& raw & 0x1c00_0000 == 0x1400_0000
        &&& raw & 0xfe00_0000 != 0x5400_0000
        &&& raw & 0xff00_0000 != 0xd400_0000
        &&& raw & 0xffff_f000 != 0xd503_1000
        &&& raw & 0xffff_f01f != 0xd503_201f
        &&& raw & 0xffff_f000 != 0xd503_3000
        &&& raw & 0xfff8_f000 != 0xd500_4000
        &&& raw & 0xfff8_0000 != 0xd520_0000
        &&& raw & 0xffd8_0000 != 0xd508_0000
        &&& raw & 0xffd0_0000 != 0xd510_0000
        &&& raw & 0xfe00_0000 != 0xd600_0000
        &&& raw & 0x7c00_0000 != 0x1400_0000
        &&& raw & 0x7e00_0000 == 0x3400_0000
    }) by (bit_vector)
        requires
            (raw >> 25u32) & 0x3f == 0x1a,
    ;
    assert({
        &&& ((raw >> 31u32) & !(0xffff_ffffu32 << 1u32)) == raw >> 31u32
        &&& raw >> 31u32 <= 1
        &&& ((raw >> 24u32) & !(0xffff_ffffu32 << 1u32)) == (raw >> 24u32) & 1
        &&& (raw >> 24u32) & 1 <= 1
        &&& ((raw >> 5u32) & !(0xffff_ffffu32 << 19u32)) == (raw >> 5u32) & 0x7ffff
        &&& ((raw >> 0u32) & !(0xffff_ffffu32 << 5u32)) == raw & 0x1f
    }) by (bit_vector);
    let sf = field_u8(raw, 31, 32);
    let op = field_u8(raw, 24, 25);
    assert(sf == (raw >> 31u32) as u8);
    assert(op == ((raw >> 24u32) & 1) as u8);
    assert(bit_field32(raw, 5, 24) == (raw >> 5u32) & 0x7ffff);
    assert(field_u8(raw, 0, 5) == (raw & 0x1f) as u8);
    assert(raw >> 31u32 == 1 ==> sf == 1);
    assert(raw >> 31u32 != 1 ==> sf == 0);
    assert((raw >> 24u32) & 1 == 0 ==> op == 0);
    assert((raw >> 24u32) & 1 != 0 ==> op == 1);
    assert(spec_parse_aarch64_branches_exception_gen_and_sys_instr(raw)
        == spec_parse_compare_and_branch_imm(raw));
}

} // verus!
