//! SHA-256 digests.
use sha2::Digest;
use vstd::prelude::*;

verus! {

/// The SHA-256 digest of `data` (FIPS 180-4), as computed by the `sha2` crate.
pub uninterp spec fn sha256(data: Seq<u8>) -> Seq<u8>;

/// Calls `Digest::digest` of `sha2::Sha256` (one `update` with `data`, then
/// `finalize`): its result is named `sha256` of the input bytes.
#[verifier::external_body]
fn sha256_digest(data: &[u8]) -> (d: [u8; 32])
    ensures
        d@ == sha256(data@),
{
    sha2::Sha256::digest(data).into()
}

/// The SHA-256 digest of `data`.
pub fn hash_256(data: &[u8]) -> (d: [u8; 32])
    ensures
        d@ == sha256(data@),
{
    sha256_digest(data)
}

} // verus!
