//! SHA-256 digests, computed by the `sha2` crate.

use sha2::{Digest, Sha256};
use vstd::prelude::*;
use vstd::string::StringSliceAdditionalSpecFns;

verus! {

/// The SHA-256 digest of a sequence of bytes: what `Sha256::digest` of the
/// `sha2` crate returns for them.
pub uninterp spec fn sha256(data: Seq<u8>) -> Seq<u8>;

/// `Sha256::digest` of the `sha2` crate: hashes all of `data` in one call
/// and returns the 32 bytes of the digest. The result depends on the bytes
/// of `data` alone.
#[verifier::external_body]
fn digest(data: &[u8]) -> (out: [u8; 32])
    ensures
        out@ == sha256(data@),
{
    Sha256::digest(data).into()
}

/// The SHA-256 digest of the UTF-8 bytes of `verifier`.
pub fn sha256_bytes(verifier: &str) -> (out: [u8; 32])
    ensures
        out@ == sha256(verifier.spec_bytes()),
        out@.len() == 32,
{
    digest(verifier.as_bytes())
}

} // verus!
