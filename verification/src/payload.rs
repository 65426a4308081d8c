//! The synthetic payload of a connection.

use vstd::prelude::*;

verus! {

/// Calls `fastrand::u8` with the full range `..`, which draws one byte from
/// the thread's generator. The call does not panic on a non-empty range; what
/// it returns is left open.
#[verifier::external_body]
fn random_byte() -> (byte: u8) {
    fastrand::u8(..)
}

/// Generates the payload of one connection: `len` random bytes, so that the
/// content does not compress. The payload is generated once and sent
/// unchanged on every transmission.
pub fn generate_payloads(len: usize) -> (payload: Vec<u8>)
    ensures
        payload@.len() == len,
{
    let mut payload: Vec<u8> = Vec::new();
    let mut filled: usize = 0;
    while filled < len
        invariant
            filled <= len,
            payload@.len() == filled,
        decreases len - filled,
    {
        payload.push(random_byte());
        filled = filled + 1;
    }
    payload
}

} // verus!
