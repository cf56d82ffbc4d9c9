use vstd::prelude::*;
use bytes::Bytes;

verus! {

/// A cheaply clonable, reference-counted view of an immutable byte buffer,
/// from the `bytes` crate. Every payload field of a demuxed file is such a
/// view into the one caller-supplied buffer, so no payload byte is copied.
#[verifier::external_type_specification]
#[verifier::external_body]
pub struct ExBytes(Bytes);

/// The byte sequence that a `Bytes` handle views.
pub uninterp spec fn bytes_model(b: Bytes) -> Seq<u8>;

/// Relies on `bytes::Bytes::clone`: cloning is a cheap second handle that
/// views the same bytes of the same buffer.
pub assume_specification[ <Bytes as Clone>::clone ](b: &Bytes) -> (r: Bytes)
    ensures
        bytes_model(r) == bytes_model(*b),
;

/// Relies on `bytes::Bytes::len`: the number of bytes the handle views.
#[verifier::external_body]
pub(crate) fn bytes_len(b: &Bytes) -> (r: usize)
    ensures
        r == bytes_model(*b).len(),
{
    b.len()
}

/// Relies on the `Deref`-to-slice indexing of `bytes::Bytes`: the byte at
/// the given position of the viewed sequence.
#[verifier::external_body]
pub(crate) fn bytes_get(b: &Bytes, i: usize) -> (r: u8)
    requires
        i < bytes_model(*b).len(),
    ensures
        r == bytes_model(*b)[i as int],
{
    b[i]
}

/// Relies on `bytes::Bytes::slice`: a new handle onto the given sub-range of
/// the same buffer, without copying. It panics on an out-of-range request,
/// which the precondition rules out.
#[verifier::external_body]
pub(crate) fn bytes_slice(b: &Bytes, start: usize, end: usize) -> (r: Bytes)
    requires
        start <= end <= bytes_model(*b).len(),
    ensures
        bytes_model(r) == bytes_model(*b).subrange(start as int, end as int),
{
    b.slice(start..end)
}

} // verus!
