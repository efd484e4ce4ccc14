//! The source of the random byte that `CXNN` draws.

use vstd::prelude::*;

verus! {

/// A byte from `rand::random`, which asks the `rand` crate's thread-local
/// generator for a uniformly distributed `u8`.
///
/// Nothing is claimed of the value: it differs from call to call. The
/// generator seeds itself from the operating system on a thread's first
/// call, and `rand` panics there if the system hands out no entropy.
#[verifier::external_body]
pub(crate) fn random_byte() -> (byte: u8) {
    rand::random::<u8>()
}

} // verus!
