//! Random sampling, behind trusted declarations of the `rand` crate.

use vstd::prelude::*;
use rand::distributions::Distribution;

verus! {

#[verifier::external_type_specification]
#[verifier::external_body]
pub struct ExOsRng(rand::rngs::OsRng);

/// Relies on rand's `Uniform::new_inclusive(lo, hi)` and
/// `Distribution::sample`: a sample of the inclusive uniform integer
/// distribution lies between its bounds. The sample draws entropy from
/// the operating system's generator, which panics only if the system's
/// source fails; no input of this function causes that.
#[verifier::external_body]
pub(crate) fn sample_in_range(rng: &mut rand::rngs::OsRng, lo: u8, hi: u8) -> (r: u8)
    requires
        lo <= hi,
    ensures
        lo <= r <= hi,
{
    rand::distributions::Uniform::new_inclusive(lo, hi).sample(rng)
}

} // verus!
