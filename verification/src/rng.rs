//! Random index draws for tie-breaking.
//!
//! The engine's only use of randomness is picking a harvest node; the
//! generator itself comes from the `rand` crate and nothing is assumed of
//! its output beyond the sampled range.

use vstd::prelude::*;
use rand::Rng;
use rand::rngs::SmallRng;

verus! {

/// The small fast pseudo-random generator of the `rand` crate; opaque here.
#[verifier::external_type_specification]
#[verifier::external_body]
pub struct ExSmallRng(SmallRng);

/// Relies on rand's `Rng::gen_range` over `0..max`: the sample lies in the
/// range, and the call panics only on an empty range.
#[verifier::external_body]
fn gen_index(rng: &mut SmallRng, max: usize) -> (r: usize)
    requires
        max > 0,
    ensures
        r < max,
{
    rng.gen_range(0..max)
}

/// Draw two independent samples over `[0, n)` and keep the larger: the
/// deliberate bias toward later indices used when picking a harvest node.
pub fn pick_biased_index(rng: &mut SmallRng, n: usize) -> (r: usize)
    requires
        n > 0,
    ensures
        r < n,
{
    let a = gen_index(rng, n);
    let b = gen_index(rng, n);
    if a >= b {
        a
    } else {
        b
    }
}

} // verus!
