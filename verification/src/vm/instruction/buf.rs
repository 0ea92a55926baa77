//! The byte buffers that compiled instructions are written into: a
//! `smallvec::SmallVec` of bytes, which keeps short instructions inline.
use vstd::prelude::*;

use smallvec::SmallVec;

verus! {

/// A byte buffer: a `SmallVec<[u8; 16]>`, which Verus sees only through the
/// functions below.
#[verifier::external_body]
pub struct InstrBuf {
    inner: SmallVec<[u8; 16]>,
}

/// The bytes a buffer holds, in order.
pub uninterp spec fn buf_bytes(v: InstrBuf) -> Seq<u8>;

impl View for InstrBuf {
    type V = Seq<u8>;

    open spec fn view(&self) -> Seq<u8> {
        buf_bytes(*self)
    }
}

/// The largest length for which growing a buffer never overflows its
/// capacity computation.
pub open spec fn buf_limit() -> nat {
    (usize::MAX / 4) as nat
}

/// `SmallVec::new`: an empty buffer.
#[verifier::external_body]
pub(crate) fn buf_new() -> (r: InstrBuf)
    ensures
        buf_bytes(r) == Seq::<u8>::empty(),
{
    InstrBuf { inner: SmallVec::new() }
}

/// `SmallVec::len`: the number of bytes held.
#[verifier::external_body]
pub(crate) fn buf_len(v: &InstrBuf) -> (r: usize)
    ensures
        r == buf_bytes(*v).len(),
{
    v.inner.len()
}

/// `SmallVec::push`: appends `x`. Growing past the inline capacity
/// allocates; the capacity computation panics only far above `buf_limit`.
#[verifier::external_body]
pub(crate) fn buf_push(v: &mut InstrBuf, x: u8)
    requires
        buf_bytes(*old(v)).len() + 1 <= buf_limit(),
    ensures
        buf_bytes(*final(v)) == buf_bytes(*old(v)).push(x),
{
    v.inner.push(x)
}

/// `SmallVec::extend_from_slice`: appends the bytes of `s`, in order.
#[verifier::external_body]
pub(crate) fn buf_extend_from_slice(v: &mut InstrBuf, s: &[u8])
    requires
        buf_bytes(*old(v)).len() + s@.len() <= buf_limit(),
    ensures
        buf_bytes(*final(v)) == buf_bytes(*old(v)) + s@,
{
    v.inner.extend_from_slice(s)
}

/// `SmallVec::resize`: truncates to `len` bytes, or appends copies of
/// `value` up to `len` bytes.
#[verifier::external_body]
pub(crate) fn buf_resize(v: &mut InstrBuf, len: usize, value: u8)
    requires
        len <= buf_limit(),
    ensures
        len <= buf_bytes(*old(v)).len() ==> buf_bytes(*final(v)) == buf_bytes(*old(v)).take(
            len as int,
        ),
        len > buf_bytes(*old(v)).len() ==> buf_bytes(*final(v)) == buf_bytes(*old(v)) + Seq::new(
            (len - buf_bytes(*old(v)).len()) as nat,
            |i: int| value,
        ),
{
    v.inner.resize(len, value)
}

/// `SmallVec::as_slice`: the bytes held, in order.
#[verifier::external_body]
pub(crate) fn buf_as_slice(v: &InstrBuf) -> (r: &[u8])
    ensures
        r@ == buf_bytes(*v),
{
    v.inner.as_slice()
}

impl InstrBuf {
    /// The number of bytes held.
    pub fn len(&self) -> (r: usize)
        ensures
            r == self@.len(),
    {
        buf_len(self)
    }

    /// A copy of the bytes held, in order.
    pub fn to_vec(&self) -> (r: Vec<u8>)
        ensures
            r@ == self@,
    {
        vstd::slice::slice_to_vec(buf_as_slice(self))
    }
}

} // verus!
