//! SHA-256 hashing and constant-time comparison, both provided by `ring`.

use vstd::prelude::*;

verus! {

/// The SHA-256 digest of `data`, as computed by `ring::digest::digest` with `ring::digest::SHA256`.
pub uninterp spec fn sha256_digest(data: Seq<u8>) -> Seq<u8>;

/// `ring` counts the hashed input in bits with a 64-bit counter: longer inputs make it panic.
pub open spec fn within_sha256_limit(len: nat) -> bool {
    len * 8 <= u64::MAX
}

/// Calls `ring::digest::digest(&ring::digest::SHA256, data)`.
/// Trusted: the result is `sha256_digest(data)` and has the 32 bytes of `SHA256.output_len()`.
/// `ring` panics when the input's bit length does not fit in a `u64`; `requires` rules that out.
#[verifier::external_body]
pub(crate) fn sha256(data: &[u8]) -> (digest: Vec<u8>)
    requires
        within_sha256_limit(data@.len()),
    ensures
        digest@ == sha256_digest(data@),
        digest@.len() == 32,
{
    ring::digest::digest(&ring::digest::SHA256, data).as_ref().to_vec()
}

/// Declares `ring::error::Unspecified`, the error of `ring`'s comparison, so that it can stand
/// in signatures; nothing is known of its contents.
#[verifier::external_type_specification]
#[verifier::external_body]
pub struct ExUnspecified(ring::error::Unspecified);

/// Calls `ring::constant_time::verify_slices_are_equal(a, b)`.
/// Trusted: it returns `Ok(())` exactly when the two slices hold the same bytes, as its
/// documentation and source state; it never panics.
#[verifier::external_body]
#[allow(deprecated)]
pub(crate) fn verify_slices_are_equal(a: &[u8], b: &[u8]) -> (r: Result<(), ring::error::Unspecified>)
    ensures
        r is Ok <==> a@ == b@,
{
    ring::constant_time::verify_slices_are_equal(a, b)
}

} // verus!
