//! Bit-level helpers shared by the decoder and the compiler.
use vstd::prelude::*;

pub mod array;
pub mod bit_patterns;
pub mod extract;
pub mod pattern;

pub use array::FixedBytesArray;
pub use bit_patterns::{ones_u8, MatchTester};
pub use pattern::{parse_pattern, Pattern};

verus! {

/// The mask whose `width` lowest bits are set.
pub open spec fn low_mask32(width: u32) -> u32 {
    if width >= 32 {
        0xffff_ffffu32
    } else {
        !(0xffff_ffffu32 << width)
    }
}

/// The bits `[lo, hi)` of `value`, shifted down to bit 0.
pub open spec fn bit_field32(value: u32, lo: u32, hi: u32) -> u32 {
    (value >> lo) & low_mask32((hi - lo) as u32)
}

/// Extracts the bits `range.start..range.end` of `value`.
pub fn extract_bits32(range: std::ops::Range<usize>, value: u32) -> (r: u32)
    requires
        range.start < range.end <= 32,
    ensures
        r == bit_field32(value, range.start as u32, range.end as u32),
        r <= low_mask32((range.end - range.start) as u32),
{
    let lo = range.start as u32;
    let hi = range.end as u32;
    let lshift: u32 = 32 - hi;
    let left_shifted = value << lshift;
    let r = left_shifted >> (lo + lshift);
    assert(r == bit_field32(value, lo, hi) && r <= low_mask32((hi - lo) as u32)) by (bit_vector)
        requires
            lo < hi <= 32,
            lshift == 32 - hi,
            left_shifted == value << lshift,
            r == left_shifted >> (lo + lshift),
    ;
    r
}

/// The mask whose `width` lowest bits are set, in a half-word.
pub open spec fn low_mask16(width: u16) -> u16 {
    if width >= 16 {
        0xffffu16
    } else {
        !(0xffffu16 << width)
    }
}

/// The bits `[lo, hi)` of the half-word `value`, shifted down to bit 0.
pub open spec fn bit_field16(value: u16, lo: u16, hi: u16) -> u16 {
    (value >> lo) & low_mask16((hi - lo) as u16)
}

/// Extracts the bits `range.start..range.end` of the half-word `value`.
pub fn extract_bits16(range: std::ops::Range<usize>, value: u16) -> (r: u16)
    requires
        range.start < range.end <= 16,
    ensures
        r == bit_field16(value, range.start as u16, range.end as u16),
        r <= low_mask16((range.end - range.start) as u16),
{
    let lo = range.start as u16;
    let hi = range.end as u16;
    let lshift: u16 = 16 - hi;
    let left_shifted = value << lshift;
    let r = left_shifted >> (lo + lshift);
    assert(r == bit_field16(value, lo, hi) && r <= low_mask16((hi - lo) as u16)) by (bit_vector)
        requires
            lo < hi <= 16,
            lshift == 16 - hi,
            left_shifted == value << lshift,
            r == left_shifted >> (lo + lshift),
    ;
    r
}

/// The bits `[lo, hi)` of `value` as a byte.
pub open spec fn field_u8(value: u32, lo: u32, hi: u32) -> u8 {
    bit_field32(value, lo, hi) as u8
}

/// The bits `[lo, hi)` of `value` as a half-word.
pub open spec fn field_u16(value: u32, lo: u32, hi: u32) -> u16 {
    bit_field32(value, lo, hi) as u16
}

/// A one-bit field is 0 or 1.
pub broadcast proof fn lemma_field_u8_one_bit(v: u32, lo: u32, hi: u32)
    requires
        hi == lo + 1,
        hi <= 32,
    ensures
        #[trigger] field_u8(v, lo, hi) < 2,
{
    assert(((v >> lo) & low_mask32((hi - lo) as u32)) < 2) by (bit_vector)
        requires
            hi == lo + 1,
            hi <= 32,
    ;
}

/// A two-bit field is below 4.
pub broadcast proof fn lemma_field_u8_two_bits(v: u32, lo: u32, hi: u32)
    requires
        hi == lo + 2,
        hi <= 32,
    ensures
        #[trigger] field_u8(v, lo, hi) < 4,
{
    assert(((v >> lo) & low_mask32((hi - lo) as u32)) < 4) by (bit_vector)
        requires
            hi == lo + 2,
            hi <= 32,
    ;
}

/// A five-bit field, such as a register number, is below 32.
pub broadcast proof fn lemma_field_u8_five_bits(v: u32, lo: u32, hi: u32)
    requires
        hi == lo + 5,
        hi <= 32,
    ensures
        #[trigger] field_u8(v, lo, hi) < 32,
{
    assert(((v >> lo) & low_mask32((hi - lo) as u32)) < 32) by (bit_vector)
        requires
            hi == lo + 5,
            hi <= 32,
    ;
}

/// Extracts the bits `range.start..range.end` of `value` into a byte.
pub fn extract_u8(range: std::ops::Range<usize>, value: u32) -> (r: u8)
    requires
        range.start < range.end <= range.start + 8,
        range.end <= 32,
    ensures
        r == field_u8(value, range.start as u32, range.end as u32),
        r == bit_field32(value, range.start as u32, range.end as u32),
{
    let lo = range.start as u32;
    let hi = range.end as u32;
    let v = extract_bits32(range, value);
    assert(v <= 0xff) by (bit_vector)
        requires
            v <= low_mask32((hi - lo) as u32),
            lo < hi <= lo + 8,
    ;
    v as u8
}

/// Extracts the bits `range.start..range.end` of `value` into a half-word.
pub fn extract_u16(range: std::ops::Range<usize>, value: u32) -> (r: u16)
    requires
        range.start < range.end <= range.start + 16,
        range.end <= 32,
    ensures
        r == field_u16(value, range.start as u32, range.end as u32),
        r == bit_field32(value, range.start as u32, range.end as u32),
{
    let lo = range.start as u32;
    let hi = range.end as u32;
    let v = extract_bits32(range, value);
    assert(v <= 0xffff) by (bit_vector)
        requires
            v <= low_mask32((hi - lo) as u32),
            lo < hi <= lo + 16,
    ;
    v as u16
}

/// The little-endian word made of the first four bytes of `b`.
pub open spec fn le_u32(b: Seq<u8>) -> u32 {
    (b[0] as u32) | ((b[1] as u32) << 8u32) | ((b[2] as u32) << 16u32) | ((b[3] as u32) << 24u32)
}

/// The little-endian double word made of the first eight bytes of `b`.
pub open spec fn le_u64(b: Seq<u8>) -> u64 {
    (b[0] as u64) | ((b[1] as u64) << 8u64) | ((b[2] as u64) << 16u64) | ((b[3] as u64) << 24u64)
        | ((b[4] as u64) << 32u64) | ((b[5] as u64) << 40u64) | ((b[6] as u64) << 48u64) | ((
    b[7] as u64) << 56u64)
}

/// Reads little-endian words from a stream of bytes.
pub struct BitReader {
    bytes: Vec<u8>,
    pos: usize,
}

impl View for BitReader {
    /// The bytes not read yet.
    type V = Seq<u8>;

    closed spec fn view(&self) -> Seq<u8> {
        self.bytes@.subrange(self.pos as int, self.bytes@.len() as int)
    }
}

impl BitReader {
    #[verifier::type_invariant]
    spec fn inv(self) -> bool {
        self.pos <= self.bytes@.len()
    }

    /// A reader over `bytes`, positioned at the first of them.
    pub fn new(bytes: Vec<u8>) -> (r: Self)
        ensures
            r@ == bytes@,
    {
        let r = Self { bytes, pos: 0 };
        assert(r@ =~= r.bytes@);
        r
    }

    /// Takes the next byte, if there is one.
    fn next(&mut self) -> (r: Option<u8>)
        ensures
            old(self)@.len() == 0 ==> r is None && final(self)@ == old(self)@,
            old(self)@.len() > 0 ==> r == Some(old(self)@[0]) && final(self)@ == old(self)@.drop_first(),
    {
        proof {
            use_type_invariant(&*self);
        }
        if self.pos < self.bytes.len() {
            let b = self.bytes[self.pos];
            self.pos = self.pos + 1;
            proof {
                assert(self@ =~= old(self)@.drop_first());
            }
            Some(b)
        } else {
            None
        }
    }

    /// Reads a little-endian 32-bit word. When fewer than four bytes are
    /// left, they are consumed and `None` is returned.
    pub fn read32(&mut self) -> (r: Option<u32>)
        ensures
            old(self)@.len() >= 4 ==> r == Some(le_u32(old(self)@)) && final(self)@ == old(
                self,
            )@.skip(4),
            old(self)@.len() < 4 ==> r is None && final(self)@.len() == 0,
    {
        let ghost s = self@;
        let b0 = match self.next() {
            Some(b) => b,
            None => return None,
        };
        let b1 = match self.next() {
            Some(b) => b,
            None => return None,
        };
        let b2 = match self.next() {
            Some(b) => b,
            None => return None,
        };
        let b3 = match self.next() {
            Some(b) => b,
            None => return None,
        };
        assert(self@ =~= s.skip(4));
        Some((b0 as u32) | ((b1 as u32) << 8u32) | ((b2 as u32) << 16u32) | ((b3 as u32) << 24u32))
    }

    /// Reads a little-endian 64-bit word. When fewer than eight bytes are
    /// left, they are consumed and `None` is returned.
    pub fn read64(&mut self) -> (r: Option<u64>)
        ensures
            old(self)@.len() >= 8 ==> r == Some(le_u64(old(self)@)) && final(self)@ == old(
                self,
            )@.skip(8),
            old(self)@.len() < 8 ==> r is None && final(self)@.len() == 0,
    {
        let ghost s = self@;
        let b0 = match self.next() {
            Some(b) => b,
            None => return None,
        };
        let b1 = match self.next() {
            Some(b) => b,
            None => return None,
        };
        let b2 = match self.next() {
            Some(b) => b,
            None => return None,
        };
        let b3 = match self.next() {
            Some(b) => b,
            None => return None,
        };
        let b4 = match self.next() {
            Some(b) => b,
            None => return None,
        };
        let b5 = match self.next() {
            Some(b) => b,
            None => return None,
        };
        let b6 = match self.next() {
            Some(b) => b,
            None => return None,
        };
        let b7 = match self.next() {
            Some(b) => b,
            None => return None,
        };
        assert(self@ =~= s.skip(8));
        Some(
            (b0 as u64) | ((b1 as u64) << 8u64) | ((b2 as u64) << 16u64) | ((b3 as u64) << 24u64)
                | ((b4 as u64) << 32u64) | ((b5 as u64) << 40u64) | ((b6 as u64) << 48u64) | ((
            b7 as u64) << 56u64),
        )
    }
}

} // verus!
