//! The residual read buffer, backed by `bytes::BytesMut`.
//!
//! When an inbound message is larger than the reader's capacity, the
//! remainder is carried in a `BytesMut` until the next read. The type is
//! opaque to the verifier, so its contents are named by an uninterpreted
//! sequence and each method the bridge uses is reached through a trusted
//! wrapper whose contract states what the method's own documentation
//! promises.

use vstd::prelude::*;

verus! {

/// `bytes::BytesMut`, declared so it can stand in fields and signatures.
#[verifier::external_type_specification]
#[verifier::external_body]
pub struct ExBytesMut(bytes::BytesMut);

/// The bytes a `BytesMut` holds, in order.
pub uninterp spec fn bytes_mut_view(b: bytes::BytesMut) -> Seq<u8>;

/// Relies on `bytes::BytesMut::new`: a newly created buffer holds no bytes.
#[verifier::external_body]
pub(crate) fn bm_new() -> (r: bytes::BytesMut)
    ensures
        bytes_mut_view(r) == Seq::<u8>::empty(),
{
    bytes::BytesMut::new()
}

/// Relies on `bytes::BytesMut::len`: the number of bytes contained.
#[verifier::external_body]
pub(crate) fn bm_len(b: &bytes::BytesMut) -> (r: usize)
    ensures
        r == bytes_mut_view(*b).len(),
{
    b.len()
}

/// Relies on `bytes::BytesMut::split_to`: afterwards `b` holds the bytes
/// from `at` on, and the returned buffer holds the first `at` bytes.
#[verifier::external_body]
pub(crate) fn bm_split_to(b: &mut bytes::BytesMut, at: usize) -> (r: bytes::BytesMut)
    requires
        at <= bytes_mut_view(*old(b)).len(),
    ensures
        bytes_mut_view(r) == bytes_mut_view(*old(b)).take(at as int),
        bytes_mut_view(*final(b)) == bytes_mut_view(*old(b)).skip(at as int),
{
    b.split_to(at)
}

/// Relies on `bytes::BytesMut::extend_from_slice`: appends the slice's bytes.
#[verifier::external_body]
pub(crate) fn bm_extend_from_slice(b: &mut bytes::BytesMut, s: &[u8])
    requires
        bytes_mut_view(*old(b)).len() + s@.len() <= usize::MAX,
    ensures
        bytes_mut_view(*final(b)) == bytes_mut_view(*old(b)) + s@,
{
    b.extend_from_slice(s)
}

/// Relies on `bytes::BytesMut`'s deref to its byte slice: copies the
/// contained bytes out in order.
#[verifier::external_body]
pub(crate) fn bm_to_vec(b: &bytes::BytesMut) -> (r: Vec<u8>)
    ensures
        r@ == bytes_mut_view(*b),
{
    b.to_vec()
}

} // verus!
