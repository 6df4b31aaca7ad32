//! Dice with half-open roll ranges, and a single uniformly-random roll.

use vstd::prelude::*;

verus! {

/// A die with an inclusive lower and an exclusive upper roll bound.
#[derive(Copy, Clone, Debug, PartialEq, Eq, Structural)]
pub struct Die {
    pub min: u16,
    pub max: u16,
}

/// Relies on rand's `Uniform::from(min..max)` with `thread_rng`: one value
/// drawn uniformly from the half-open range [min, max). `Uniform::new`
/// asserts `low < high`, so an empty range is excluded here.
#[verifier::external_body]
fn sample_uniform(min: u16, max: u16) -> (r: u16)
    requires
        min < max,
    ensures
        min <= r < max,
{
    let mut rng = rand::thread_rng();
    let die_range = rand::distributions::Uniform::from(min..max);
    rand::distributions::Distribution::sample(&die_range, &mut rng)
}

/// Rolls the die once: a uniformly-distributed value in [min, max), with the
/// upper bound exclusive by design.
pub fn roll_die(die: Die) -> (r: u16)
    requires
        die.min < die.max,
    ensures
        die.min <= r < die.max,
{
    sample_uniform(die.min, die.max)
}

} // verus!
