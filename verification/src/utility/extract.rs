//! Values extracted from the bytes of an encoded instruction.
use vstd::prelude::*;

use super::array::FixedBytesArray;

verus! {

/// A value that can be read from the front of a byte slice.
pub trait ExtractFromBytes: Copy + Sized {
    /// Whether `from` holds enough bytes to read a value.
    spec fn can_extract(from: Seq<u8>) -> bool;

    /// Whether `r` is the value read from `from`.
    spec fn extracts(from: Seq<u8>, r: Self) -> bool;

    /// Whether `from` holds enough bytes to read a value.
    fn fits(from: &[u8]) -> (r: bool)
        ensures
            r == Self::can_extract(from@),
    ;

    /// Reads a value from the front of `from`.
    fn extract(from: &[u8]) -> (r: Self)
        requires
            Self::can_extract(from@),
        ensures
            Self::extracts(from@, r),
    ;
}

impl<T: FixedBytesArray + Copy> ExtractFromBytes for T {
    open spec fn can_extract(from: Seq<u8>) -> bool {
        from.len() >= T::size_spec()
    }

    open spec fn extracts(from: Seq<u8>, r: Self) -> bool {
        r.bytes_spec() == from.take(T::size_spec() as int)
    }

    fn fits(from: &[u8]) -> (r: bool) {
        from.len() >= T::size()
    }

    fn extract(from: &[u8]) -> (r: Self) {
        T::from_bytes(from)
    }
}

impl ExtractFromBytes for u8 {
    open spec fn can_extract(from: Seq<u8>) -> bool {
        from.len() >= 1
    }

    open spec fn extracts(from: Seq<u8>, r: Self) -> bool {
        r == from[0]
    }

    fn fits(from: &[u8]) -> (r: bool) {
        from.len() >= 1
    }

    fn extract(from: &[u8]) -> (r: Self) {
        from[0]
    }
}

/// An integer whose bits can be set one at a time.
pub trait SetBit: Copy + Sized {
    /// The number of bits.
    spec fn width() -> nat;

    /// `self` with bit `position` set to `bit`.
    spec fn with_bit(self, position: usize, bit: bool) -> Self;

    /// The integer with no bit set.
    spec fn zero_spec() -> Self;

    /// The number of bits.
    fn width_exec() -> (r: usize)
        ensures
            r == Self::width(),
    ;

    /// The integer with no bit set.
    fn zero() -> (r: Self)
        ensures
            r == Self::zero_spec(),
    ;

    /// Sets bit `position` to `bit`.
    fn set_bit(&mut self, position: usize, bit: bool)
        requires
            position < Self::width(),
        ensures
            *final(self) == old(self).with_bit(position, bit),
    ;
}

impl SetBit for u8 {
    open spec fn width() -> nat {
        8
    }

    fn width_exec() -> (r: usize) {
        8
    }

    open spec fn with_bit(self, position: usize, bit: bool) -> Self {
        if bit {
            self | (1u8 << position)
        } else {
            self & !(1u8 << position)
        }
    }

    open spec fn zero_spec() -> Self {
        0
    }

    fn zero() -> (r: Self) {
        0
    }

    fn set_bit(&mut self, position: usize, bit: bool) {
        if bit {
            *self = *self | (1u8 << position);
        } else {
            *self = *self & !(1u8 << position);
        }
    }
}

impl SetBit for u16 {
    open spec fn width() -> nat {
        16
    }

    fn width_exec() -> (r: usize) {
        16
    }

    open spec fn with_bit(self, position: usize, bit: bool) -> Self {
        if bit {
            self | (1u16 << position)
        } else {
            self & !(1u16 << position)
        }
    }

    open spec fn zero_spec() -> Self {
        0
    }

    fn zero() -> (r: Self) {
        0
    }

    fn set_bit(&mut self, position: usize, bit: bool) {
        if bit {
            *self = *self | (1u16 << position);
        } else {
            *self = *self & !(1u16 << position);
        }
    }
}

impl SetBit for u32 {
    open spec fn width() -> nat {
        32
    }

    fn width_exec() -> (r: usize) {
        32
    }

    open spec fn with_bit(self, position: usize, bit: bool) -> Self {
        if bit {
            self | (1u32 << position)
        } else {
            self & !(1u32 << position)
        }
    }

    open spec fn zero_spec() -> Self {
        0
    }

    fn zero() -> (r: Self) {
        0
    }

    fn set_bit(&mut self, position: usize, bit: bool) {
        if bit {
            *self = *self | (1u32 << position);
        } else {
            *self = *self & !(1u32 << position);
        }
    }
}

impl SetBit for u64 {
    open spec fn width() -> nat {
        64
    }

    fn width_exec() -> (r: usize) {
        64
    }

    open spec fn with_bit(self, position: usize, bit: bool) -> Self {
        if bit {
            self | (1u64 << position)
        } else {
            self & !(1u64 << position)
        }
    }

    open spec fn zero_spec() -> Self {
        0
    }

    fn zero() -> (r: Self) {
        0
    }

    fn set_bit(&mut self, position: usize, bit: bool) {
        if bit {
            *self = *self | (1u64 << position);
        } else {
            *self = *self & !(1u64 << position);
        }
    }
}

impl SetBit for u128 {
    open spec fn width() -> nat {
        128
    }

    fn width_exec() -> (r: usize) {
        128
    }

    open spec fn with_bit(self, position: usize, bit: bool) -> Self {
        if bit {
            self | (1u128 << position)
        } else {
            self & !(1u128 << position)
        }
    }

    open spec fn zero_spec() -> Self {
        0
    }

    fn zero() -> (r: Self) {
        0
    }

    fn set_bit(&mut self, position: usize, bit: bool) {
        if bit {
            *self = *self | (1u128 << position);
        } else {
            *self = *self & !(1u128 << position);
        }
    }
}

impl SetBit for i8 {
    open spec fn width() -> nat {
        8
    }

    fn width_exec() -> (r: usize) {
        8
    }

    open spec fn with_bit(self, position: usize, bit: bool) -> Self {
        if bit {
            self | (1i8 << position)
        } else {
            self & !(1i8 << position)
        }
    }

    open spec fn zero_spec() -> Self {
        0
    }

    fn zero() -> (r: Self) {
        0
    }

    fn set_bit(&mut self, position: usize, bit: bool) {
        if bit {
            *self = *self | (1i8 << position);
        } else {
            *self = *self & !(1i8 << position);
        }
    }
}

impl SetBit for i16 {
    open spec fn width() -> nat {
        16
    }

    fn width_exec() -> (r: usize) {
        16
    }

    open spec fn with_bit(self, position: usize, bit: bool) -> Self {
        if bit {
            self | (1i16 << position)
        } else {
            self & !(1i16 << position)
        }
    }

    open spec fn zero_spec() -> Self {
        0
    }

    fn zero() -> (r: Self) {
        0
    }

    fn set_bit(&mut self, position: usize, bit: bool) {
        if bit {
            *self = *self | (1i16 << position);
        } else {
            *self = *self & !(1i16 << position);
        }
    }
}

impl SetBit for i32 {
    open spec fn width() -> nat {
        32
    }

    fn width_exec() -> (r: usize) {
        32
    }

    open spec fn with_bit(self, position: usize, bit: bool) -> Self {
        if bit {
            self | (1i32 << position)
        } else {
            self & !(1i32 << position)
        }
    }

    open spec fn zero_spec() -> Self {
        0
    }

    fn zero() -> (r: Self) {
        0
    }

    fn set_bit(&mut self, position: usize, bit: bool) {
        if bit {
            *self = *self | (1i32 << position);
        } else {
            *self = *self & !(1i32 << position);
        }
    }
}

impl SetBit for i64 {
    open spec fn width() -> nat {
        64
    }

    fn width_exec() -> (r: usize) {
        64
    }

    open spec fn with_bit(self, position: usize, bit: bool) -> Self {
        if bit {
            self | (1i64 << position)
        } else {
            self & !(1i64 << position)
        }
    }

    open spec fn zero_spec() -> Self {
        0
    }

    fn zero() -> (r: Self) {
        0
    }

    fn set_bit(&mut self, position: usize, bit: bool) {
        if bit {
            *self = *self | (1i64 << position);
        } else {
            *self = *self & !(1i64 << position);
        }
    }
}

impl SetBit for i128 {
    open spec fn width() -> nat {
        128
    }

    fn width_exec() -> (r: usize) {
        128
    }

    open spec fn with_bit(self, position: usize, bit: bool) -> Self {
        if bit {
            self | (1i128 << position)
        } else {
            self & !(1i128 << position)
        }
    }

    open spec fn zero_spec() -> Self {
        0
    }

    fn zero() -> (r: Self) {
        0
    }

    fn set_bit(&mut self, position: usize, bit: bool) {
        if bit {
            *self = *self | (1i128 << position);
        } else {
            *self = *self & !(1i128 << position);
        }
    }
}

/// Whether bit `v` of the little-endian bytes `from` is set.
pub open spec fn byte_bit(from: Seq<u8>, v: int) -> bool {
    from[v / 8] & (1u8 << ((v % 8) as u8)) != 0
}

/// The bits `l..r` of the little-endian bytes `from`, set one by one, in
/// order, into bits `0..r - l` of zero.
pub open spec fn extract_bits_spec<T: SetBit>(from: Seq<u8>, l: usize, r: int) -> T
    decreases r - l,
{
    if r <= l {
        T::zero_spec()
    } else {
        extract_bits_spec::<T>(from, l, r - 1).with_bit((r - 1 - l) as usize, byte_bit(from, r - 1))
    }
}

/// The bits `L..R` of the bytes read, as the low bits of a `T`.
#[derive(Clone, Copy)]
pub struct Extract<T, const L: usize, const R: usize>(pub T);

impl<T: SetBit, const L: usize, const R: usize> ExtractFromBytes for Extract<T, L, R> {
    open spec fn can_extract(from: Seq<u8>) -> bool {
        &&& L <= R
        &&& R - L <= T::width()
        &&& R == L || (R - 1) / 8 < from.len()
    }

    open spec fn extracts(from: Seq<u8>, r: Self) -> bool {
        r.0 == extract_bits_spec::<T>(from, L, R as int)
    }

    fn fits(from: &[u8]) -> (r: bool) {
        L <= R && R - L <= T::width_exec() && (R == L || (R - 1) / 8 < from.len())
    }

    fn extract(from: &[u8]) -> (r: Self) {
        let mut result = T::zero();
        let mut v: usize = L;
        while v < R
            invariant
                L <= v <= R,
                R - L <= T::width(),
                R == L || (R - 1) / 8 < from@.len(),
                result == extract_bits_spec::<T>(from@, L, v as int),
            decreases R - v,
        {
            let i = v - L;
            let b = from[v / 8] & (1u8 << (v % 8) as u8) != 0;
            result.set_bit(i, b);
            v = v + 1;
        }
        Self(result)
    }
}

} // verus!
