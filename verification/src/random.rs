use vstd::prelude::*;

verus! {

/// One byte from `rand::random`, which draws it from the thread-local
/// generator of the `rand` crate.
///
/// This function is not verified. Nothing is claimed of the byte: two calls
/// may differ, and every value of `u8` may come back.
#[verifier::external_body]
pub(crate) fn random_byte() -> (byte: u8) {
    rand::random()
}

} // verus!
