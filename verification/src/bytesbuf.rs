//! Trusted view of `bytes::BytesMut`, the byte buffer the codec and the
//! sink work on.
//!
//! The buffer is opaque to the verifier; `bytes_of` names its contents,
//! and each method the runtime calls is wrapped with a contract stating
//! what the crate's source shows it does to those contents.

use vstd::prelude::*;

verus! {

#[verifier::external_type_specification]
#[verifier::external_body]
pub struct ExBytesMut(bytes::BytesMut);

/// The bytes a `bytes::BytesMut` holds, front to back.
pub uninterp spec fn bytes_of(b: bytes::BytesMut) -> Seq<u8>;

/// Relies on bytes::BytesMut::new: creates a buffer without any bytes.
#[verifier::external_body]
pub(crate) fn bytesmut_new() -> (r: bytes::BytesMut)
    ensures
        bytes_of(r) == Seq::<u8>::empty(),
{
    bytes::BytesMut::new()
}

/// Relies on bytes::BytesMut::len: the number of bytes in the buffer.
#[verifier::external_body]
pub(crate) fn bytesmut_len(b: &bytes::BytesMut) -> (r: usize)
    ensures
        r == bytes_of(*b).len(),
{
    b.len()
}

/// Relies on bytes::BytesMut::split_to: removes and returns the first
/// `at` bytes, leaving the rest; panics if `at` exceeds the length, so
/// that case is excluded here.
#[verifier::external_body]
pub(crate) fn bytesmut_split_to(b: &mut bytes::BytesMut, at: usize) -> (r: bytes::BytesMut)
    requires
        at <= bytes_of(*old(b)).len(),
    ensures
        bytes_of(r) == bytes_of(*old(b)).take(at as int),
        bytes_of(*final(b)) == bytes_of(*old(b)).skip(at as int),
{
    b.split_to(at)
}

/// Relies on bytes::BytesMut::extend_from_slice: appends the given bytes
/// after the ones already held.
#[verifier::external_body]
pub(crate) fn bytesmut_extend(b: &mut bytes::BytesMut, src: &Vec<u8>)
    ensures
        bytes_of(*final(b)) == bytes_of(*old(b)) + src@,
{
    b.extend_from_slice(src.as_slice())
}

/// Relies on the `AsRef<[u8]>` impl of bytes::BytesMut: the slice of all
/// bytes held, copied out.
#[verifier::external_body]
pub(crate) fn bytesmut_to_vec(b: &bytes::BytesMut) -> (r: Vec<u8>)
    ensures
        r@ == bytes_of(*b),
{
    b.as_ref().to_vec()
}

} // verus!
