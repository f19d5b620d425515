//! Random rolls used when items are generated.

use vstd::prelude::*;

use rand::Rng;

verus! {

/// A uniformly random integer in `low..=high`, from the thread-local
/// generator (`rand::rng().random_range(low..=high)`). The contract states
/// only the range: the value itself is chance.
#[verifier::external_body]
pub(crate) fn roll_range(low: u32, high: u32) -> (r: u32)
    requires
        low <= high,
    ensures
        low <= r <= high,
{
    rand::rng().random_range(low..=high)
}

/// A random index into a list of `len` entries.
pub fn roll_index(len: usize) -> (r: usize)
    requires
        0 < len <= u32::MAX,
    ensures
        r < len,
{
    let hi = (len - 1) as u32;
    let r = roll_range(0, hi);
    r as usize
}

/// `true` with probability `numerator / denominator`, from the thread-local
/// generator (`rand::rng().random_ratio(numerator, denominator)`). Of the
/// outcome only the certain cases are stated: a ratio of one is always
/// `true`, a ratio of zero always `false` (rand's `Bernoulli::from_ratio`
/// and its sampling); otherwise it is chance. rand panics when the
/// denominator is zero or the numerator exceeds it, so those inputs are
/// excluded.
#[verifier::external_body]
pub(crate) fn roll_ratio(numerator: u32, denominator: u32) -> (r: bool)
    requires
        0 < denominator,
        numerator <= denominator,
    ensures
        numerator == denominator ==> r,
        numerator == 0 ==> !r,
{
    rand::rng().random_ratio(numerator, denominator)
}

} // verus!
