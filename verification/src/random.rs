//! The source of random bytes.

use vstd::prelude::*;

verus! {

/// A byte from `rand::random`, which draws it from the thread-local
/// generator of the `rand` crate. Nothing is claimed of the value: any byte
/// may come back, and two calls may differ. The generator is seeded from
/// the operating system at its first use in a thread, and panics there if
/// the operating system gives no seed.
#[verifier::external_body]
pub(crate) fn random_byte() -> (byte: u8) {
    rand::random()
}

} // verus!
