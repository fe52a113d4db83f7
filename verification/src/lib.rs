//! Verified core of a Monte Carlo path tracer.
//!
//! The renderer's discrete kernel lives here: the decoded image buffer with
//! its clamped pixel lookup, the Perlin permutation tables with the lattice
//! hash that selects gradient vectors, and the image-backed texture's texel
//! fetch. Floating-point geometry and sampling sit outside the verified
//! library and consume these pieces through their contracts.

use vstd::prelude::*;

pub mod image;
pub mod perlin;
pub mod texture;

verus! {

/// Relies on `rand::Rng::random_range` over the inclusive range
/// `min..=max`: it returns a uniformly sampled member of that range and
/// panics only when the range is empty, which the precondition rules out.
#[verifier::external_body]
pub fn random_int(min: i32, max: i32) -> (r: i32)
    requires
        min <= max,
    ensures
        min <= r <= max,
{
    rand::Rng::random_range(&mut rand::rng(), min..=max)
}

} // verus!
