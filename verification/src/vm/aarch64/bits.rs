//! Bit manipulation used to decode AArch64 immediates.
use vstd::prelude::*;
use vstd::arithmetic::power2::{
    lemma2_to64, lemma2_to64_rest, lemma_pow2_strictly_increases, lemma_pow2_unfold, pow2,
};
use vstd::std_specs::bits::u64_leading_zeros;

use crate::machineinstr::operands::SizeImm12RnRt;
use crate::utility::{bit_field16, extract_bits16};

verus! {

/// The four ways a shifted register operand is shifted.
pub enum ShiftType {
    /// Logical shift left.
    LSL,
    /// Logical shift right.
    LSR,
    /// Arithmetic shift right.
    ASR,
    /// Rotate right.
    ROR,
}

/// The shift type that the two-bit `shift` field encodes.
pub open spec fn shift_type_of(shift: u8) -> ShiftType {
    if shift == 0 {
        ShiftType::LSL
    } else if shift == 1 {
        ShiftType::LSR
    } else if shift == 2 {
        ShiftType::ASR
    } else {
        ShiftType::ROR
    }
}

/// Decodes the two-bit `shift` field of a shifted register operand.
pub fn decode_shift(shift: u8) -> (r: ShiftType)
    requires
        shift < 4,
    ensures
        r == shift_type_of(shift),
{
    match shift {
        0b00 => ShiftType::LSL,
        0b01 => ShiftType::LSR,
        0b10 => ShiftType::ASR,
        _ => ShiftType::ROR,
    }
}

/// The position of the highest set bit of `x`.
pub open spec fn highest_set_bit_spec(x: u64) -> u64 {
    (63 - u64_leading_zeros(x)) as u64
}

/// The position of the highest set bit of `x`, which must not be zero.
pub fn highest_set_bit(x: u64) -> (r: u64)
    requires
        x != 0,
    ensures
        r == highest_set_bit_spec(x),
        r < 64,
        x >> r == 1,
{
    let lz = x.leading_zeros();
    proof {
        vstd::std_specs::bits::axiom_u64_leading_zeros(x);
        let t = (63 - lz) as u64;
        assert(x >> t == 1) by (bit_vector)
            requires
                x >> (64 - lz) as u64 == 0 || lz == 0,
                (x >> t) & 1 != 0,
                t < 64,
                t == (63 - lz) as u64,
        ;
    }
    63 - lz as u64
}

/// `x` shifted left by `size` and or-ed with itself, `n` times over, starting
/// from zero; bits shifted past bit 63 are lost.
pub open spec fn replicate_spec(x: u64, n: nat, size: u64) -> u64
    decreases n,
{
    if n == 0 {
        0
    } else {
        (replicate_spec(x, (n - 1) as nat, size) | x) << size
    }
}

/// Whether `replicate(_, n, size)` shifts by less than the width of a
/// double word.
pub open spec fn replicate_defined(n: u64, size: u64) -> bool {
    n == 0 || size < 64
}

/// Repeats `x` `n` times, `size` bits apart, in the manner of
/// `replicate_spec`.
pub fn replicate(x: u64, n: u64, size: u64) -> (r: u64)
    requires
        replicate_defined(n, size),
    ensures
        r == replicate_spec(x, n as nat, size),
{
    let mut result: u64 = 0b0;
    let mut i = n;
    while i > 0
        invariant
            i <= n,
            replicate_defined(n, size),
            result == replicate_spec(x, (n - i) as nat, size),
        decreases i,
    {
        result = result | x;
        result = result << size;
        i = i - 1;
    }
    result
}

/// `ones(n)`, computed as `replicate(1, n, 1)`.
pub open spec fn ones_spec(n: u64) -> u64 {
    replicate_spec(1, n as nat, 1)
}

/// `replicate(1, n, 1)`, the mask that the bit-mask decoding uses for `n`.
pub fn ones(n: u64) -> (r: u64)
    ensures
        r == ones_spec(n),
{
    replicate(1, n, 1)
}

/// `ones(n)` shifts after each copy, so it is `2^(n+1) - 2`: `n` set bits
/// starting at bit 1, while the double word can hold them.
pub proof fn lemma_ones_value(n: u64)
    requires
        n <= 62,
    ensures
        ones_spec(n) == pow2((n + 1) as nat) - 2,
    decreases n,
{
    lemma2_to64();
    lemma2_to64_rest();
    if n > 0 {
        lemma_ones_value((n - 1) as u64);
        let p = replicate_spec(1, (n - 1) as nat, 1);
        assert(ones_spec((n - 1) as u64) == p);
        assert(p == pow2(n as nat) - 2);
        lemma_pow2_unfold((n + 1) as nat);
        lemma_pow2_unfold(n as nat);
        if n < 62 {
            lemma_pow2_strictly_increases(n as nat, 62);
        }
        assert(pow2(62) == 0x4000_0000_0000_0000);
        assert(pow2(n as nat) <= pow2(62));
        assert(p % 2 == 0);
        assert(p < 0x4000_0000_0000_0000);
        assert((p | 1) << 1u64 == 2 * p + 2) by (bit_vector)
            requires
                p % 2 == 0,
                p < 0x4000_0000_0000_0000,
        ;
    } else {
        assert((0u64 | 1) << 1u64 == 2) by (bit_vector);
    }
}

/// Whether `ror(_, shift, size)` divides by a nonzero size and shifts by
/// less than the width of a double word.
pub open spec fn ror_defined(shift: u64, size: u64) -> bool {
    &&& size > 0
    &&& shift % size < 64
    &&& size - shift % size < 64
}

/// `x` shifted right by `shift % size`, or-ed with `x` shifted left by the
/// rest of `size` and masked with `ones(shift)`.
pub open spec fn ror_spec(x: u64, shift: u64, size: u64) -> u64 {
    let m = shift % size;
    (x >> m) | ((x << ((size - m) as u64)) & ones_spec(shift))
}

/// Rotates `x` right within `size` bits, in the manner of `ror_spec`.
pub fn ror(x: u64, shift: u64, size: u64) -> (r: u64)
    requires
        ror_defined(shift, size),
    ensures
        r == ror_spec(x, shift, size),
{
    let m = shift % size;
    (x >> m) | ((x << (size - m)) & ones(shift))
}

/// Whether `sign_extend(value, size)` stays within a signed double word:
/// the sign bit lies in it, and when it is set the bits above it can be
/// formed.
pub open spec fn sign_extend_defined(value: i64, size: u8) -> bool {
    &&& 1 <= size <= 64
    &&& (value & (1i64 << ((size - 1) as u8)) != 0 ==> size <= 62)
}

/// `value` with the bits from `size` up copied from bit `size - 1` when
/// that bit is set.
pub open spec fn sign_extend_spec(value: i64, size: u8) -> i64 {
    if value & (1i64 << ((size - 1) as u8)) != 0 {
        value | !(((1i64 << size) - 1) as i64)
    } else {
        value
    }
}

/// Sign-extends the `size`-bit field `value`: if bit `size - 1` is set,
/// every bit above it is set too.
pub fn sign_extend(value: i64, size: u8) -> (r: i64)
    requires
        sign_extend_defined(value, size),
    ensures
        r == sign_extend_spec(value, size),
{
    let mask: i64 = 1i64 << (size - 1);
    let sign = value & mask;
    if sign != 0 {
        let top: i64 = 1i64 << size;
        assert(top > 0) by (bit_vector)
            requires
                top == 1i64 << size,
                1 <= size <= 62,
        ;
        value | !(top - 1)
    } else {
        value
    }
}

/// Sign-extending a `size`-bit field gives the field itself when its top
/// bit is clear, and the field less `2^size` when it is set.
pub proof fn lemma_sign_extend_field(value: i64, size: u8)
    requires
        1 <= size <= 62,
        0 <= value < (1i64 << size),
    ensures
        value < (1i64 << ((size - 1) as u8)) ==> sign_extend_spec(value, size) == value,
        value >= (1i64 << ((size - 1) as u8)) ==> sign_extend_spec(value, size) == value - (1i64
            << size),
{
    let half = 1i64 << ((size - 1) as u8);
    let full = 1i64 << size;
    assert(half > 0 && full == 2 * half && full <= 0x4000_0000_0000_0000) by (bit_vector)
        requires
            1 <= size <= 62,
            half == 1i64 << ((size - 1) as u8),
            full == 1i64 << size,
    ;
    assert(value < half ==> value & half == 0) by (bit_vector)
        requires
            0 <= value,
            half > 0,
            full == 2 * half,
            value < full,
            half == 1i64 << ((size - 1) as u8),
            1 <= size <= 62,
    ;
    assert(value >= half ==> value & half != 0 && (value | !((full - 1) as i64)) == value - full)
        by (bit_vector)
        requires
            0 <= value,
            value < full,
            half > 0,
            full == 2 * half,
            half == 1i64 << ((size - 1) as u8),
            full == 1i64 << size,
            1 <= size <= 62,
    ;
}

/// The element size exponent of a bit-mask immediate: the highest set bit of
/// `immn` followed by the six low bits of `!imms`.
pub open spec fn bit_masks_len(immn: u8, imms: u8) -> u64 {
    highest_set_bit_spec((((immn << 6u8) as u16) | bit_field16((!imms) as u16, 0, 6)) as u64)
}

/// Whether `decode_bit_masks` runs to its end on these fields: the encoding
/// is not reserved and every shift stays within a double word.
pub open spec fn decode_bit_masks_defined(immn: u8, imms: u8, immr: u8, immediate: bool, m: u8) -> bool {
    let x = (((immn << 6u8) as u16) | bit_field16((!imms) as u16, 0, 6)) as u64;
    let len = bit_masks_len(immn, imms);
    let levels = ones_spec(len);
    &&& x != 0
    &&& 1 <= len <= 5
    &&& m >= (1u8 << len)
    &&& !(immediate && (imms as u64 & levels) == levels)
    &&& (imms & (levels as u8)) >= (immr & (levels as u8))
}

/// The (wmask, tmask) pair that `decode_bit_masks` computes.
pub open spec fn decode_bit_masks_spec(immn: u8, imms: u8, immr: u8, m: u8) -> (u64, u64) {
    let len = bit_masks_len(immn, imms);
    let levels = ones_spec(len);
    let s = imms & (levels as u8);
    let r = immr & (levels as u8);
    let diff = (s - r) as u8;
    let esize = 1u64 << len;
    let d = bit_field16(diff as u16, 0, len as u16);
    let welem = ones_spec((s + 1) as u64);
    let telem = ones_spec((d + 1) as u64);
    (
        replicate_spec(ror_spec(welem, r as u64, esize), m as nat, esize),
        replicate_spec(telem, m as nat, esize),
    )
}

/// Decodes the bit-mask immediate fields `immn`, `imms`, `immr` into the
/// (wmask, tmask) pair, for a register of `m` bits.
pub fn decode_bit_masks(immn: u8, imms: u8, immr: u8, immediate: bool, m: u8) -> (r: (u64, u64))
    requires
        decode_bit_masks_defined(immn, imms, immr, immediate, m),
    ensures
        r == decode_bit_masks_spec(immn, imms, immr, m),
{
    let len = highest_set_bit(((immn << 6u8) as u16 | extract_bits16(0..6, (!imms) as u16)) as u64);
    let levels = ones(len);
    let s = imms & levels as u8;
    let r = immr & levels as u8;
    let diff = s - r;
    let esize: u64 = 1u64 << len;
    assert(2 <= esize <= 32) by (bit_vector)
        requires
            esize == 1u64 << len,
            1 <= len <= 5,
    ;
    let d = extract_bits16(0..len as usize, diff as u16);
    let welem = ones(s as u64 + 1);
    let telem = ones(d as u64 + 1);
    let wmask = replicate(ror(welem, r as u64, esize), m as u64, esize);
    let tmask = replicate(telem, m as u64, esize);
    (wmask, tmask)
}

/// Whether `decode_bit_masks` runs to its end on these fields.
pub fn bit_masks_defined(immn: u8, imms: u8, immr: u8, immediate: bool, m: u8) -> (r: bool)
    ensures
        r == decode_bit_masks_defined(immn, imms, immr, immediate, m),
{
    let x = ((immn << 6u8) as u16 | extract_bits16(0..6, (!imms) as u16)) as u64;
    if x == 0 {
        return false;
    }
    let len = highest_set_bit(x);
    if len < 1 || len > 5 {
        return false;
    }
    if m < (1u8 << len) {
        return false;
    }
    let levels = ones(len);
    if immediate && (imms as u64 & levels) == levels {
        return false;
    }
    (imms & levels as u8) >= (immr & levels as u8)
}

/// The (write back, post-index, size, offset) decoding of a load/store
/// immediate: bit 11 of `imm12` clear selects a signed nine-bit offset in
/// bits 2..11 with the indexing mode in bits 0..2, set selects `imm12`
/// scaled by `size`.
pub open spec fn ld_st_operand_spec(operand: SizeImm12RnRt) -> (bool, bool, u8, i16) {
    if bit_field16(operand.imm12, 11, 12) == 0 {
        (
            true,
            bit_field16(operand.imm12, 0, 2) == 1,
            operand.size,
            sign_extend_spec(bit_field16(operand.imm12, 2, 11) as i64, 9) as i16,
        )
    } else {
        (false, false, operand.size, (operand.imm12 << operand.size) as i16)
    }
}

/// Whether `decode_operand_for_ld_st` can scale the offset: the scale only
/// matters, and must be below 16, when bit 11 of `imm12` is set.
pub open spec fn ld_st_operand_defined(operand: SizeImm12RnRt) -> bool {
    bit_field16(operand.imm12, 11, 12) == 0 || operand.size < 16
}

/// Decodes the offset and indexing mode of a load/store immediate.
pub fn decode_operand_for_ld_st(operand: SizeImm12RnRt) -> (r: (bool, bool, u8, i16))
    requires
        ld_st_operand_defined(operand),
    ensures
        r == ld_st_operand_spec(operand),
{
    if extract_bits16(11..12, operand.imm12) == 0b0 {
        let imm9 = extract_bits16(2..11, operand.imm12) as i64;
        let post = extract_bits16(0..2, operand.imm12) == 0b01;
        (true, post, operand.size, sign_extend(imm9, 9) as i16)
    } else {
        (false, false, operand.size, (operand.imm12 << operand.size) as i16)
    }
}

} // verus!
