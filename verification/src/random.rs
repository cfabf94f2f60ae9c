use vstd::prelude::*;

verus! {

/// Calls `rand::random::<u8>()`, which draws a byte from the thread-local
/// generator. Nothing is claimed of the byte: any value may come back, and
/// two calls may differ. The first call in a thread seeds the generator
/// from the operating system and panics if that source fails; nothing in
/// this library decides whether it does.
#[verifier::external_body]
pub(crate) fn random_byte() -> (byte: u8) {
    rand::random::<u8>()
}

} // verus!
