//! Trusted access to the rand crate. The noise generators own a `StdRng` and
//! draw uniform fixed-point values through the wrappers below; verification
//! assumes nothing of a draw beyond its range, so every caller is verified
//! for every value the generator may hand back.

use vstd::prelude::*;

verus! {

/// rand's standard generator. The type is opaque here: a value of it only
/// carries the generator's state between draws.
#[verifier::external_type_specification]
#[verifier::external_body]
pub struct ExStdRng(rand::rngs::StdRng);

/// Relies on rand's `SeedableRng::from_entropy`: returns a fresh `StdRng`
/// seeded from the operating system's entropy source. Nothing is assumed
/// about the values it will produce.
#[verifier::external_body]
pub(crate) fn rng_from_entropy() -> rand::rngs::StdRng {
    rand::SeedableRng::from_entropy()
}

/// Relies on rand's `Rng::gen_range` on an inclusive integer range: the
/// result is sampled from `lo..=hi`, so it lies within those bounds. The
/// call panics on an empty range, which `lo <= hi` rules out. Two draws with
/// equal arguments need not agree: no more than the bounds is assumed.
#[verifier::external_body]
pub(crate) fn rng_draw(rng: &mut rand::rngs::StdRng, lo: i64, hi: i64) -> (r: i64)
    requires
        lo <= hi,
    ensures
        lo <= r <= hi,
{
    rand::Rng::gen_range(rng, lo..=hi)
}

} // verus!
