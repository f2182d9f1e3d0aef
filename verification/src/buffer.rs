//! The body of a fetched object, held in memory as `bytes::Bytes`.

use vstd::prelude::*;

verus! {

/// `bytes::Bytes`, carried as an opaque value.
#[verifier::external_type_specification]
#[verifier::external_body]
pub struct ExBytes(bytes::Bytes);

/// The bytes that a `bytes::Bytes` holds, in order.
pub uninterp spec fn contents(bytes: bytes::Bytes) -> Seq<u8>;

/// Borrows the bytes of a `bytes::Bytes`, through its `AsRef<[u8]>`.
///
/// Trusted: the slice is what the value holds.
#[verifier::external_body]
pub(crate) fn as_slice(bytes: &bytes::Bytes) -> (slice: &[u8])
    ensures
        slice@ == contents(*bytes),
{
    bytes.as_ref()
}

} // verus!
