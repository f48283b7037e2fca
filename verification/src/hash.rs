//! The hash function that the checksums of the phrases rest on.

use sha2::Digest;
use vstd::prelude::*;

verus! {

/// The SHA-256 digest of `data`.
pub uninterp spec fn sha256_digest(data: Seq<u8>) -> Seq<u8>;

/// Calls `sha2::Sha256::digest`. Trusted: the result is the SHA-256 digest of
/// `data`, which has 32 bytes.
#[verifier::external_body]
fn sha256(data: &[u8]) -> (out: Vec<u8>)
    ensures
        out@ == sha256_digest(data@),
        out@.len() == 32,
{
    sha2::Sha256::digest(data).to_vec()
}

/// The byte from which both dialects take the checksum of an entropy: the
/// first byte of its digest.
pub open spec fn check_byte(entropy: Seq<u8>) -> u8 {
    sha256_digest(entropy)[0]
}

/// Computes the checksum byte of an entropy.
pub fn checksum_byte(entropy: &[u8]) -> (b: u8)
    ensures
        b == check_byte(entropy@),
{
    let digest = sha256(entropy);
    digest[0]
}

} // verus!
