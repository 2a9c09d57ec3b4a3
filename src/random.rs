//! The system's random source.

use vstd::prelude::*;

verus! {

#[verifier::external_type_specification]
#[verifier::external_body]
pub struct ExRandomError(getrandom::Error);

/// Relies on getrandom::getrandom: on success every byte of the buffer was
/// filled from the system source, whose length it keeps.
#[verifier::external_body]
pub(crate) fn draw_bytes(n: usize) -> (r: Result<Vec<u8>, getrandom::Error>)
    ensures
        r matches Ok(v) ==> v@.len() == n,
{
    let mut bytes = vec![0u8; n];
    getrandom::getrandom(&mut bytes)?;
    Ok(bytes)
}

/// Relies on the `Display` impl of getrandom::Error for a readable
/// description of the failure; what it says depends on the system.
#[verifier::external_body]
pub(crate) fn describe_error(e: &getrandom::Error) -> String {
    e.to_string()
}

} // verus!
