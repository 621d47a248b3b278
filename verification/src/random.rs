//! Fresh random bytes for salts and nonces.

use rand::rand_core::{OsError, OsRng, TryRngCore};
use vstd::prelude::*;

verus! {

/// The error of rand's `OsRng`, carried through unopened.
#[verifier::external_type_specification]
#[verifier::external_body]
pub struct ExOsError(OsError);

/// `TryRngCore::try_fill_bytes` on rand's `OsRng`, over a new buffer of `len`
/// bytes. Trusted: on success the buffer still has `len` bytes. Nothing is
/// said of the bytes themselves: each call draws them anew.
#[verifier::external_body]
pub(crate) fn random_bytes(len: usize) -> (bytes: Result<Vec<u8>, OsError>)
    ensures
        bytes matches Ok(drawn) ==> drawn@.len() == len,
{
    let mut buffer = vec![0u8; len];
    OsRng.try_fill_bytes(&mut buffer)?;
    Ok(buffer)
}

} // verus!
