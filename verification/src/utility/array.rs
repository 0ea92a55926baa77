//! Fixed-size byte arrays read from the front of a slice.
use vstd::prelude::*;

verus! {

/// A byte array of a fixed size.
pub trait FixedBytesArray: Sized {
    /// The number of bytes in the array.
    spec fn size_spec() -> nat;

    /// The bytes of the array.
    spec fn bytes_spec(&self) -> Seq<u8>;

    /// The number of bytes in the array.
    fn size() -> (r: usize)
        ensures
            r == Self::size_spec(),
    ;

    /// The first `size_spec()` bytes of `from`.
    fn from_bytes(from: &[u8]) -> (r: Self)
        requires
            from@.len() >= Self::size_spec(),
        ensures
            r.bytes_spec() == from@.take(Self::size_spec() as int),
    ;
}

/// `<[u8; N] as TryFrom<&[u8]>>::try_from`, which std documents to succeed
/// when the slice holds exactly `N` bytes; the result holds them in order.
#[verifier::external_body]
fn array_from_slice<const N: usize>(from: &[u8]) -> (r: [u8; N])
    requires
        from@.len() == N,
    ensures
        r@ == from@,
{
    from.try_into().unwrap()
}

impl<const LEN: usize> FixedBytesArray for [u8; LEN] {
    open spec fn size_spec() -> nat {
        LEN as nat
    }

    open spec fn bytes_spec(&self) -> Seq<u8> {
        self@
    }

    fn size() -> (r: usize) {
        LEN
    }

    fn from_bytes(from: &[u8]) -> (r: Self) {
        let head = vstd::slice::slice_subrange(from, 0, LEN);
        array_from_slice(head)
    }
}

} // verus!
