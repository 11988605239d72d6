//! The source of random bytes for `CXNN`.

use vstd::prelude::*;

verus! {

/// Draws a byte with `rand::random::<u8>()` from the thread-local generator.
/// The byte depends on the generator's state, so nothing is stated of it:
/// any value may come back, and two calls may differ.
#[verifier::external_body]
pub(crate) fn random_byte() -> (r: u8) {
    rand::random::<u8>()
}

} // verus!
