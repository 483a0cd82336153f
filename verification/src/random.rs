//! Trusted boundary to the random-number generator.

use vstd::prelude::*;

use rand::RngExt;

verus! {

#[verifier::external_type_specification]
#[verifier::external_body]
pub struct ExThreadRng(rand::rngs::ThreadRng);

/// Relies on `rand::rng`: a handle to the thread-local generator. Nothing is
/// assumed of the values it will produce.
#[verifier::external_body]
pub(crate) fn fresh_rng() -> (r: rand::rngs::ThreadRng) {
    rand::rng()
}

/// Relies on `rand::RngExt::random_range` over the nonempty range
/// `32..=126`: whatever is drawn lies inside it; nothing more is assumed of a
/// random draw.
#[verifier::external_body]
pub(crate) fn random_printable(rng: &mut rand::rngs::ThreadRng) -> (r: u8)
    ensures
        32 <= r <= 126,
{
    rng.random_range(32..=126)
}

} // verus!
