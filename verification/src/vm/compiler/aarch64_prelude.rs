//! Decoding helpers of the AArch64 compiler: processor state fields, bit
//! masks, register extensions and SIMD immediates.
use vstd::prelude::*;
use vstd::wrapping::u64_specs::wrapping_shl;
use vstd::wrapping::u8_specs;

use crate::utility::pattern::{pattern_of, pattern_test};
use crate::utility::{bit_field16, extract_bits16, parse_pattern};

pub use crate::vm::aarch64::bits::{
    decode_shift, highest_set_bit, highest_set_bit_spec, sign_extend, sign_extend_spec, ShiftType,
};

verus! {

/// The fields of the AArch64 processor state, and the NZCV flags as one.
#[derive(Clone, Copy, Debug, PartialEq, Eq, Structural)]
pub enum Pstate {
    N,
    Z,
    C,
    V,
    D,
    A,
    I,
    F,
    SS,
    IL,
    EL,
    NRW,
    SP,
    ALLINT,
    PAN,
    UAO,
    TCO,
    BTYPE,
    DIT,
    SSBS,
    ZA,
    SM,
    NZCV,
}

/// The bits `(start, end)` that a processor state field occupies.
pub open spec fn pstate_bits(p: Pstate) -> (u64, u64) {
    match p {
        Pstate::N => (63, 64),
        Pstate::Z => (62, 63),
        Pstate::C => (61, 62),
        Pstate::V => (60, 61),
        Pstate::D => (59, 60),
        Pstate::A => (58, 59),
        Pstate::I => (57, 58),
        Pstate::F => (56, 57),
        Pstate::SS => (55, 56),
        Pstate::IL => (54, 55),
        Pstate::EL => (52, 54),
        Pstate::NRW => (51, 52),
        Pstate::SP => (50, 51),
        Pstate::ALLINT => (49, 50),
        Pstate::PAN => (48, 49),
        Pstate::UAO => (47, 48),
        Pstate::DIT => (46, 47),
        Pstate::TCO => (45, 46),
        Pstate::ZA => (44, 45),
        Pstate::SM => (43, 44),
        Pstate::SSBS => (42, 43),
        Pstate::BTYPE => (40, 42),
        Pstate::NZCV => (60, 64),
    }
}

/// `x` shifted left by `size` and or-ed with itself, `n` times over, the
/// shift amount taken modulo 64.
pub open spec fn replicate_spec(x: u64, n: nat, size: u64) -> u64
    decreases n,
{
    if n == 0 {
        0
    } else {
        wrapping_shl(replicate_spec(x, (n - 1) as nat, size) | x, size as u32)
    }
}

/// Repeats `x` `n` times, `size` bits apart, in the manner of
/// `replicate_spec`.
pub fn replicate(x: u64, n: u64, size: u64) -> (r: u64)
    ensures
        r == replicate_spec(x, n as nat, size),
{
    let mut result: u64 = 0b0;
    let mut i = n;
    while i > 0
        invariant
            i <= n,
            result == replicate_spec(x, (n - i) as nat, size),
        decreases i,
    {
        result = result | x;
        result = result.wrapping_shl(size as u32);
        i = i - 1;
    }
    result
}

/// `ones(n)`, computed as `replicate(1, n, 1)`.
pub open spec fn ones_spec(n: u64) -> u64 {
    replicate_spec(1, n as nat, 1)
}

/// `replicate(1, n, 1)`.
pub fn ones(n: u64) -> (r: u64)
    ensures
        r == ones_spec(n),
{
    replicate(1, n, 1)
}

/// `x` shifted right by `shift % size`, or-ed with `x` shifted left by the
/// rest of `size` (modulo 64) and masked with `ones(shift)`.
pub open spec fn ror_spec(x: u64, shift: u64, size: u64) -> u64 {
    let m = shift % size;
    (x >> m) | (wrapping_shl(x, (size - m) as u32) & ones_spec(shift))
}

/// Rotates `x` right within `size` bits, in the manner of `ror_spec`.
pub fn ror(x: u64, shift: u64, size: u64) -> (r: u64)
    requires
        size > 0,
        shift % size < 64,
    ensures
        r == ror_spec(x, shift, size),
{
    let m = shift % size;
    (x >> m) | ((x.wrapping_shl((size - m) as u32)) & ones(shift))
}

impl Pstate {
    /// The bits the field occupies.
    pub fn range(&self) -> (r: std::ops::Range<u64>)
        ensures
            (r.start, r.end) == pstate_bits(*self),
        decreases (if *self is NZCV {
            1int
        } else {
            0int
        }),
    {
        match self {
            Pstate::N => 63..64,
            Pstate::Z => 62..63,
            Pstate::C => 61..62,
            Pstate::V => 60..61,
            Pstate::D => 59..60,
            Pstate::A => 58..59,
            Pstate::I => 57..58,
            Pstate::F => 56..57,
            Pstate::SS => 55..56,
            Pstate::IL => 54..55,
            Pstate::EL => 52..54,
            Pstate::NRW => 51..52,
            Pstate::SP => 50..51,
            Pstate::ALLINT => 49..50,
            Pstate::PAN => 48..49,
            Pstate::UAO => 47..48,
            Pstate::DIT => 46..47,
            Pstate::TCO => 45..46,
            Pstate::ZA => 44..45,
            Pstate::SM => 43..44,
            Pstate::SSBS => 42..43,
            Pstate::BTYPE => 40..42,
            Pstate::NZCV => Pstate::V.range().start..Pstate::N.range().end,
        }
    }

    /// The lowest bit of the field.
    pub fn idx(&self) -> (r: u64)
        ensures
            r == pstate_bits(*self).0,
    {
        self.range().start
    }

    /// `ones` of the field's width, shifted to the field.
    pub fn mask(&self) -> (r: u64)
        ensures
            r == ones_spec((pstate_bits(*self).1 - pstate_bits(*self).0) as u64) << pstate_bits(
                *self,
            ).0,
    {
        let rng = self.range();
        ones(rng.end - rng.start) << rng.start
    }
}

/// The (write back, post-index) pair that the `o` field of a load/store
/// pair selects.
pub open spec fn ld_st_pair_mode(o: u8) -> (bool, bool) {
    if o == 0b001 {
        (true, true)
    } else if o == 0b011 {
        (true, false)
    } else {
        (false, false)
    }
}

/// Decodes the `o` field of a load/store pair: post-index, pre-index or
/// signed offset.
pub fn decode_o_for_ld_st_pair_offset(o: u8) -> (r: (bool, bool))
    requires
        o == 0b001 || o == 0b011 || o == 0b010,
    ensures
        r == ld_st_pair_mode(o),
{
    match o {
        0b001 => (true, true),
        0b011 => (true, false),
        _ => (false, false),
    }
}

/// The element size exponent of a bit-mask immediate.
pub open spec fn bit_masks_len(immn: u8, imms: u8) -> u64 {
    highest_set_bit_spec((((immn << 6u8) as u16) | bit_field16((!imms) as u16, 0, 6)) as u64)
}

/// Whether `decode_bit_masks` runs to its end on these fields.
pub open spec fn decode_bit_masks_defined(immn: u8, imms: u8, immr: u8, immediate: bool, m: u8) -> bool {
    let x = (((immn << 6u8) as u16) | bit_field16((!imms) as u16, 0, 6)) as u64;
    let len = bit_masks_len(immn, imms);
    let levels = ones_spec(len);
    let r = immr & (levels as u8);
    &&& x != 0
    &&& 1 <= len < 8
    &&& m >= (1u8 << len)
    &&& !(immediate && (imms as u64 & levels) == levels)
    &&& (r as u64) % (1u64 << len) < 64
}

/// The (wmask, tmask) pair that `decode_bit_masks` computes.
pub open spec fn decode_bit_masks_spec(immn: u8, imms: u8, immr: u8, m: u8) -> (u64, u64) {
    let len = bit_masks_len(immn, imms);
    let levels = ones_spec(len);
    let s = imms & (levels as u8);
    let r = immr & (levels as u8);
    let diff = u8_specs::wrapping_sub(s, r);
    let esize = 1u64 << len;
    let d = bit_field16(diff as u16, 0, len as u16);
    let welem = ones_spec((s + 1) as u64);
    let telem = ones_spec((d + 1) as u64);
    (
        replicate_spec(ror_spec(welem, r as u64, esize), m as nat, esize),
        replicate_spec(telem, m as nat, esize),
    )
}

/// Decodes the bit-mask immediate fields into the (wmask, tmask) pair, for
/// a register of `m` bits; `s - r` wraps around.
pub fn decode_bit_masks(immn: u8, imms: u8, immr: u8, immediate: bool, m: u8) -> (r: (u64, u64))
    requires
        decode_bit_masks_defined(immn, imms, immr, immediate, m),
    ensures
        r == decode_bit_masks_spec(immn, imms, immr, m),
{
    let len = highest_set_bit(((immn << 6u8) as u16 | extract_bits16(0..6, (!imms) as u16)) as u64);
    let levels = ones(len);
    let s = imms & levels as u8;
    let r = immr & levels as u8;
    let diff = s.wrapping_sub(r);
    let esize: u64 = 1u64 << len;
    assert(esize > 0) by (bit_vector)
        requires
            esize == 1u64 << len,
            len < 8,
    ;
    let d = extract_bits16(0..len as usize, diff as u16);
    let welem = ones(s as u64 + 1);
    let telem = ones(d as u64 + 1);
    let wmask = replicate(ror(welem, r as u64, esize), m as u64, esize);
    let tmask = replicate(telem, m as u64, esize);
    (wmask, tmask)
}

/// The ways a register operand is extended.
#[derive(Clone, Copy, Debug, PartialEq, Eq, Structural)]
pub enum ExtendType {
    UXTB,
    UXTH,
    UXTW,
    UXTX,
    SXTB,
    SXTH,
    SXTW,
    SXTX,
}

/// The extension that the three-bit `option` field encodes.
pub open spec fn extend_type_of(op: u8) -> ExtendType {
    if op == 0 {
        ExtendType::UXTB
    } else if op == 1 {
        ExtendType::UXTH
    } else if op == 2 {
        ExtendType::UXTW
    } else if op == 3 {
        ExtendType::UXTX
    } else if op == 4 {
        ExtendType::SXTB
    } else if op == 5 {
        ExtendType::SXTH
    } else if op == 6 {
        ExtendType::SXTW
    } else {
        ExtendType::SXTX
    }
}

/// Decodes the three-bit `option` field of an extended register operand.
pub fn decode_reg_extend(op: u8) -> (r: ExtendType)
    requires
        op < 8,
    ensures
        r == extend_type_of(op),
{
    match op {
        0b000 => ExtendType::UXTB,
        0b001 => ExtendType::UXTH,
        0b010 => ExtendType::UXTW,
        0b011 => ExtendType::UXTX,
        0b100 => ExtendType::SXTB,
        0b101 => ExtendType::SXTH,
        0b110 => ExtendType::SXTW,
        _ => ExtendType::SXTX,
    }
}

/// All ones shifted left and back by `start`, then shifted left and back by
/// `end`.
pub open spec fn mask64(start: usize, end: usize) -> u64 {
    let mask = (u64::MAX >> start) << start;
    (mask << end) >> end
}

/// Builds the double word mask of `range`, in the manner of `mask64`.
pub fn gen_mask64(range: std::ops::Range<usize>) -> (r: u64)
    requires
        range.start < 64,
        range.end < 64,
    ensures
        r == mask64(range.start, range.end),
{
    let mask = (u64::MAX >> range.start) << range.start;
    (mask << range.end) >> range.end
}

/// Whether bit `idx` of `val` is set.
pub open spec fn bit_spec(val: u64, idx: u8) -> bool {
    ((val >> idx) & 0b1) == 0b1
}

/// Whether bit `idx` of `val` is set.
pub fn bit(val: u64, idx: u8) -> (r: bool)
    requires
        idx < 64,
    ensures
        r == bit_spec(val, idx),
{
    ((val >> idx) & 0b1) == 0b1
}

/// The kind of a SIMD modified immediate instruction.
#[derive(Clone, Copy, Debug, PartialEq, Eq, Structural)]
pub enum ImmediateOp {
    MOVI,
    MVNI,
    ORR,
    BIC,
}

/// The processor state fields that `MSR (immediate)` writes.
#[derive(Clone, Copy, Debug, PartialEq, Eq, Structural)]
pub enum PSTATEField {
    DAIFSet,
    DAIFClr,
    PAN,
    UAO,
    DIT,
    SSBS,
    TCO,
    SVCRSM,
    SVCRZA,
    SVCRSMZA,
    ALLINT,
    SP,
}

/// Whether `adv_simd_exapnd_imm` handles `op` and `cmode`.
pub open spec fn adv_simd_expand_imm_defined(op: u8, cmode: u8) -> bool {
    &&& cmode < 16
    &&& (cmode >> 1u8 == 7 ==> op < 2)
}

/// `1` for a set bit, `0` for a clear one.
pub open spec fn bit_u64(b: bool) -> u64 {
    if b {
        1
    } else {
        0
    }
}

/// `u64::from` on a `bool`: 1 for `true`, 0 for `false`.
fn u64_from(b: bool) -> (r: u64)
    ensures
        r == bit_u64(b),
{
    if b {
        1
    } else {
        0
    }
}

/// The 64-bit value that the SIMD modified immediate `imm8` expands to under
/// `op` and `cmode`.
pub open spec fn adv_simd_expand_imm_spec(op: u8, cmode: u8, imm8: u8) -> u64 {
    let imm8 = imm8 as u64;
    let cmode0 = cmode & 0b1;
    let sel = cmode >> 1u8;
    if sel == 0 {
        replicate_spec(imm8, 2, 32)
    } else if sel == 1 {
        replicate_spec(imm8 << 8u64, 2, 32)
    } else if sel == 2 {
        replicate_spec(imm8 << 16u64, 2, 32)
    } else if sel == 3 {
        replicate_spec(imm8 << 24u64, 2, 32)
    } else if sel == 4 {
        replicate_spec(imm8, 4, 16)
    } else if sel == 5 {
        replicate_spec(imm8 << 8u64, 4, 16)
    } else if sel == 6 {
        if cmode0 == 0 {
            replicate_spec((imm8 << 8u64) | ones_spec(8), 2, 32)
        } else {
            replicate_spec((imm8 << 16u64) | ones_spec(16), 2, 32)
        }
    } else if cmode0 == 0 && op == 0 {
        replicate_spec(imm8, 8, 8)
    } else if cmode0 == 0 {
        (replicate_spec(bit_u64(bit_spec(imm8, 7)), 8, 1) << 56u64) | (replicate_spec(
            bit_u64(bit_spec(imm8, 6)),
            8,
            1,
        ) << 48u64) | (replicate_spec(bit_u64(bit_spec(imm8, 5)), 8, 1) << 40u64) | (
        replicate_spec(bit_u64(bit_spec(imm8, 4)), 8, 1) << 32u64) | (replicate_spec(
            bit_u64(bit_spec(imm8, 3)),
            8,
            1,
        ) << 24u64) | (replicate_spec(bit_u64(bit_spec(imm8, 2)), 8, 1) << 16u64) | (
        replicate_spec(bit_u64(bit_spec(imm8, 1)), 8, 1) << 8u64) | replicate_spec(
            bit_u64(bit_spec(imm8, 0)),
            8,
            1,
        )
    } else if op == 0 {
        let a = bit_u64(bit_spec(imm8, 7)) << 31u64;
        let b = bit_u64(!bit_spec(imm8, 6)) << 30u64;
        let c = replicate_spec(bit_u64(bit_spec(imm8, 6)), 5, 1) << 25u64;
        let d = imm8 & (0b111111u64 << 19u64);
        replicate_spec(a | b | c | d, 2, 32)
    } else {
        let a = bit_u64(bit_spec(imm8, 7)) << 63u64;
        let b = bit_u64(!bit_spec(imm8, 6)) << 62u64;
        let c = replicate_spec(bit_u64(bit_spec(imm8, 6)), 8, 1) << 54u64;
        let d = imm8 & (0b111111u64 << 48u64);
        a | b | c | d
    }
}

/// Expands the SIMD modified immediate `imm8` under `op` and `cmode`.
pub fn adv_simd_exapnd_imm(op: u8, cmode: u8, imm8: u8) -> (r: u64)
    requires
        adv_simd_expand_imm_defined(op, cmode),
    ensures
        r == adv_simd_expand_imm_spec(op, cmode, imm8),
{
    let imm8 = imm8 as u64;
    let cmode0 = cmode & 0b1;
    assert((cmode0 == 0 || cmode0 == 1) && cmode >> 1u8 < 8) by (bit_vector)
        requires
            cmode0 == cmode & 0b1,
            cmode < 16,
    ;
    match cmode >> 1u8 {
        0b000 => replicate(imm8, 2, 32),
        0b001 => replicate(imm8 << 8u64, 2, 32),
        0b010 => replicate(imm8 << 16u64, 2, 32),
        0b011 => replicate(imm8 << 24u64, 2, 32),
        0b100 => replicate(imm8, 4, 16),
        0b101 => replicate(imm8 << 8u64, 4, 16),
        0b110 if cmode0 == 0 => replicate(imm8 << 8u64 | ones(8), 2, 32),
        0b110 => replicate(imm8 << 16u64 | ones(16), 2, 32),
        _ => {
            if cmode0 == 0 && op == 0 {
                return replicate(imm8, 8, 8);
            }
            if cmode0 == 0 && op == 1 {
                let imm8a = replicate(u64_from(bit(imm8, 7)), 8, 1) << 56u64;
                let imm8b = replicate(u64_from(bit(imm8, 6)), 8, 1) << 48u64;
                let imm8c = replicate(u64_from(bit(imm8, 5)), 8, 1) << 40u64;
                let imm8d = replicate(u64_from(bit(imm8, 4)), 8, 1) << 32u64;
                let imm8e = replicate(u64_from(bit(imm8, 3)), 8, 1) << 24u64;
                let imm8f = replicate(u64_from(bit(imm8, 2)), 8, 1) << 16u64;
                let imm8g = replicate(u64_from(bit(imm8, 1)), 8, 1) << 8u64;
                let imm8h = replicate(u64_from(bit(imm8, 0)), 8, 1);
                return imm8a | imm8b | imm8c | imm8d | imm8e | imm8f | imm8g | imm8h;
            }
            if cmode0 == 1 && op == 0 {
                let a = u64_from(bit(imm8, 7)) << 31u64;
                let b = u64_from(!bit(imm8, 6)) << 30u64;
                let c = replicate(u64_from(bit(imm8, 6)), 5, 1) << 25u64;
                let d = imm8 & 0b111111u64 << 19u64;
                let imm32 = a | b | c | d;
                return replicate(imm32, 2, 32);
            }
            let a = u64_from(bit(imm8, 7)) << 63u64;
            let b = u64_from(!bit(imm8, 6)) << 62u64;
            let c = replicate(u64_from(bit(imm8, 6)), 8, 1) << 54u64;
            let d = imm8 & 0b111111u64 << 48u64;
            a | b | c | d
        },
    }
}

/// Whether a system register access with these fields, a read when `read`
/// is 1, is one that `check_transactional_system_acceess` decides: the
/// accesses whose answer is implementation defined are not.
pub open spec fn transactional_access_decided(op0: u8, op1: u8, crn: u8, crm: u8, op2: u8, read: u8) -> bool {
    !(op0 == 0b11 && matches_pattern("1x11", crn) && !transactional_access(
        op0,
        op1,
        crn,
        crm,
        op2,
        read,
    ))
}

/// Whether the byte `v` matches the pattern string `pat`.
pub open spec fn matches_pattern(pat: &str, v: u8) -> bool {
    pattern_test(pattern_of(pat@).0, pattern_of(pat@).1, v as u32)
}

/// Whether a system register access with these fields, a read when `read`
/// is 1, is allowed in a transaction.
pub open spec fn transactional_access(op0: u8, op1: u8, crn: u8, crm: u8, op2: u8, read: u8) -> bool {
    ||| (read == 0 && op0 == 0b00 && op1 == 0b011 && crn == 0b0100 && matches_pattern("xxxx", crm)
        && matches_pattern("11x", op2))
    ||| (read == 0 && op0 == 0b01 && op1 == 0b011 && crn == 0b0111 && crm == 0b0100 && op2 == 0b001)
    ||| (read == 0 && op0 == 0b11 && op1 == 0b011 && crn == 0b0100 && crm == 0b0010 && matches_pattern("00x", op2))
    ||| (read == 0 && op0 == 0b11 && op1 == 0b011 && crn == 0b0100 && crm == 0b0100 && matches_pattern("00x", op2))
    ||| (read == 0 && op0 == 0b11 && op1 == 0b000 && crn == 0b0100 && crm == 0b0110 && op2 == 0b000)
    ||| (read == 0 && op0 == 0b11 && op1 == 0b011 && crn == 0b1001 && crm == 0b1100 && op2 == 0b100)
    ||| (read == 1 && op0 == 0b11 && matches_pattern("0xxx", crn))
    ||| (read == 1 && op0 == 0b11 && matches_pattern("100x", crn))
    ||| (read == 1 && op0 == 0b11 && crn == 0b1010)
    ||| (read == 1 && op0 == 0b11 && op1 == 0b000 && crn == 0b1100 && op2 == 0b010 && matches_pattern("1x00", crm))
    ||| (read == 1 && op0 == 0b11 && op1 == 0b000 && crn == 0b1100 && crm == 0b1011 && op2 == 0b011)
    ||| (read == 1 && op0 == 0b11 && crn == 0b1101)
    ||| (read == 1 && op0 == 0b11 && crn == 0b1110)
    ||| (read == 0 && op0 == 0b01 && op1 == 0b011 && crn == 0b0111 && crm == 0b0011 && op2 == 0b111)
    ||| (read == 0 && op0 == 0b01 && op1 == 0b011 && crn == 0b0111 && crm == 0b0011 && matches_pattern("10x", op2))
}

/// Whether a system register access with these fields, a read when `read`
/// is 1, may be made inside a transaction.
pub fn check_transactional_system_acceess(op0: u8, op1: u8, crn: u8, crm: u8, op2: u8, read: u8) -> (r: bool)
    requires
        transactional_access_decided(op0, op1, crn, crm, op2, read),
    ensures
        r == transactional_access(op0, op1, crn, crm, op2, read),
{
    proof {
        reveal_strlit("xxxx");
        reveal_strlit("11x");
        reveal_strlit("00x");
        reveal_strlit("0xxx");
        reveal_strlit("100x");
        reveal_strlit("1x00");
        reveal_strlit("10x");
        reveal_strlit("1x11");
    }
    match (read, op0, op1, crn, crm, op2) {
        (0b0, 0b00, 0b011, 0b0100, _, _) if parse_pattern("xxxx").test_u8(crm) && parse_pattern(
            "11x",
        ).test_u8(op2) => true,
        (0b0, 0b01, 0b011, 0b0111, 0b0100, 0b001) => true,
        (0b0, 0b11, 0b011, 0b0100, 0b0010, _) if parse_pattern("00x").test_u8(op2) => true,
        (0b0, 0b11, 0b011, 0b0100, 0b0100, _) if parse_pattern("00x").test_u8(op2) => true,
        (0b0, 0b11, 0b000, 0b0100, 0b0110, 0b000) => true,
        (0b0, 0b11, 0b011, 0b1001, 0b1100, 0b100) => true,
        (0b1, 0b11, _, _, _, _) if parse_pattern("0xxx").test_u8(crn) => true,
        (0b1, 0b11, _, _, _, _) if parse_pattern("100x").test_u8(crn) => true,
        (0b1, 0b11, _, 0b1010, _, _) => true,
        (0b1, 0b11, 0b000, 0b1100, _, 0b010) if parse_pattern("1x00").test_u8(crm) => true,
        (0b1, 0b11, 0b000, 0b1100, 0b1011, 0b011) => true,
        (0b1, 0b11, _, 0b1101, _, _) => true,
        (0b1, 0b11, _, 0b1110, _, _) => true,
        (0b0, 0b01, 0b011, 0b0111, 0b0011, 0b111) => true,
        (0b0, 0b01, 0b011, 0b0111, 0b0011, _) if parse_pattern("10x").test_u8(op2) => true,
        _ => false,
    }
}

} // verus!
