//! Random bytes from the operating system, through the `rand` crate.

use crate::error::AuthError;
use rand::rngs::{SysError, SysRng};
use rand::TryRng;
use vstd::prelude::*;

verus! {

/// The error of the `rand` crate's system random source, `SysError`.
/// Nothing is known of what it holds.
#[verifier::external_type_specification]
#[verifier::external_body]
pub struct ExSysError(rand::rngs::SysError);

/// `SysRng::try_fill_bytes` of the `rand` crate: on success every byte of
/// `buf` has been overwritten with bytes from the system's random source; on
/// failure the contents are unspecified. The length of `buf` never changes.
/// Nothing is claimed of the bytes themselves.
#[verifier::external_body]
fn try_fill_bytes(buf: &mut Vec<u8>) -> (r: Result<(), SysError>)
    ensures
        final(buf)@.len() == old(buf)@.len(),
{
    SysRng.try_fill_bytes(buf.as_mut_slice())
}

/// A vector of `n` zero bytes.
fn zeroed(n: usize) -> (v: Vec<u8>)
    ensures
        v@.len() == n,
{
    let mut v: Vec<u8> = Vec::new();
    let mut i: usize = 0;
    while i < n
        invariant
            i <= n,
            v@.len() == i,
        decreases n - i,
    {
        v.push(0u8);
        i = i + 1;
    }
    v
}

/// Draws `n` bytes from the system's cryptographically secure random
/// source. Fails with `EntropyUnavailable` exactly when the source does.
pub fn random_bytes(n: usize) -> (r: Result<Vec<u8>, AuthError>)
    ensures
        match r {
            Ok(bytes) => bytes@.len() == n,
            Err(e) => e is EntropyUnavailable,
        },
{
    let mut buf = zeroed(n);
    match try_fill_bytes(&mut buf) {
        Ok(()) => Ok(buf),
        Err(_) => Err(AuthError::EntropyUnavailable),
    }
}

} // verus!
