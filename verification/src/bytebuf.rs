//! Trusted interface to `bytes::BytesMut`, the growable byte buffer the codec
//! reads frames from and writes frames into.
//!
//! The buffer itself is opaque to the verifier; [`buf_contents`] names the
//! byte sequence a buffer holds, and each wrapper states, over that name, what
//! the corresponding `BytesMut` method does to it, as the crate's
//! documentation and source show.

use vstd::prelude::*;
use bytes::BytesMut;

verus! {

#[verifier::external_type_specification]
#[verifier::external_body]
pub struct ExBytesMut(BytesMut);

/// The sequence of bytes a `BytesMut` holds, in order.
pub uninterp spec fn buf_contents(b: BytesMut) -> Seq<u8>;

/// Relies on `BytesMut::new`: the resulting buffer has length 0.
#[verifier::external_body]
pub(crate) fn buf_new() -> (b: BytesMut)
    ensures
        buf_contents(b) == Seq::<u8>::empty(),
{
    BytesMut::new()
}

/// Relies on `BytesMut::len`: the number of bytes contained in the buffer.
#[verifier::external_body]
pub(crate) fn buf_len(b: &BytesMut) -> (n: usize)
    ensures
        n == buf_contents(*b).len(),
{
    b.len()
}

/// Relies on the `Deref<Target = [u8]>` impl of `BytesMut`: indexing reads
/// the byte at the given position.
#[verifier::external_body]
pub(crate) fn buf_index(b: &BytesMut, i: usize) -> (x: u8)
    requires
        i < buf_contents(*b).len(),
    ensures
        x == buf_contents(*b)[i as int],
{
    b[i]
}

/// Relies on `BytesMut::extend_from_slice`: appends the given bytes to the
/// buffer.
#[verifier::external_body]
pub(crate) fn buf_extend(b: &mut BytesMut, s: &[u8])
    ensures
        buf_contents(*final(b)) == buf_contents(*old(b)) + s@,
{
    b.extend_from_slice(s)
}

/// Relies on `BytesMut::extend_from_slice`: appends the one given byte to
/// the buffer.
#[verifier::external_body]
pub(crate) fn buf_push(b: &mut BytesMut, x: u8)
    ensures
        buf_contents(*final(b)) == buf_contents(*old(b)).push(x),
{
    b.extend_from_slice(&[x])
}

/// Relies on `BytesMut::split_to`: afterwards the buffer contains the
/// elements from `at` on, and the returned buffer the elements before `at`.
/// `split_to` panics when `at` exceeds the length, so that case is excluded.
#[verifier::external_body]
pub(crate) fn buf_split_to(b: &mut BytesMut, at: usize) -> (front: BytesMut)
    requires
        at <= buf_contents(*old(b)).len(),
    ensures
        buf_contents(front) == buf_contents(*old(b)).subrange(0, at as int),
        buf_contents(*final(b)) == buf_contents(*old(b)).subrange(
            at as int,
            buf_contents(*old(b)).len() as int,
        ),
{
    b.split_to(at)
}

/// Relies on `BytesMut::truncate`: keeps the first `len` bytes and drops the
/// rest; no effect when `len` is not below the current length.
#[verifier::external_body]
pub(crate) fn buf_truncate(b: &mut BytesMut, len: usize)
    ensures
        buf_contents(*final(b)) == buf_contents(*old(b)).take(
            if len <= buf_contents(*old(b)).len() {
                len as int
            } else {
                buf_contents(*old(b)).len() as int
            },
        ),
{
    b.truncate(len)
}

/// Relies on `BytesMut::clear`: removes all data from the buffer.
#[verifier::external_body]
pub(crate) fn buf_clear(b: &mut BytesMut)
    ensures
        buf_contents(*final(b)) == Seq::<u8>::empty(),
{
    b.clear()
}

/// Relies on `[u8]::to_vec` reached through the `Deref<Target = [u8]>` impl
/// of `BytesMut`: copies the buffer's bytes into a vector.
#[verifier::external_body]
pub(crate) fn buf_to_vec(b: &BytesMut) -> (v: Vec<u8>)
    ensures
        v@ == buf_contents(*b),
{
    b.to_vec()
}

} // verus!
