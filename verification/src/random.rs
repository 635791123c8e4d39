//! Where key bytes come from.

use rand::Rng;
use vstd::prelude::*;

verus! {

/// Draws one byte from `rand::thread_rng()` with `Rng::gen`.
///
/// Trusted, not proved. No claim is made about the value: any `u8` may come
/// back, and two calls need not agree. The generator is seeded from the
/// operating system on a thread's first draw, and `rand` panics there if the
/// system hands out no seed.
#[verifier::external_body]
pub(crate) fn random_byte() -> (byte: u8) {
    rand::thread_rng().gen()
}

} // verus!
