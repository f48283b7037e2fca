//! Clearing of secret bytes once they are no longer needed.

use vstd::prelude::*;
use zeroize::Zeroize;

verus! {

/// Calls `zeroize` of `zeroize::Zeroize` on the vector. Trusted: the call
/// overwrites the bytes with zeros and leaves the vector empty.
#[verifier::external_body]
fn wipe(buf: &mut Vec<u8>)
    ensures
        final(buf)@.len() == 0,
{
    buf.zeroize();
}

/// Clears a buffer that held a secret: its bytes are overwritten with zeros
/// and it is left empty.
pub fn clear(buf: &mut Vec<u8>)
    ensures
        final(buf)@.len() == 0,
{
    wipe(buf);
}

} // verus!
