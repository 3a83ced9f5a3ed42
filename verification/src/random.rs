//! Random draws, made by the `rand` crate.
use vstd::prelude::*;

verus! {

/// Calls `rand::random_range` on the inclusive range `low..=high`
/// (the thread-local generator). The contract claims only that the value
/// drawn lies in the range; `rand` panics on an empty range, which
/// `requires` leaves out. Which value comes back is left open: it is chance.
#[verifier::external_body]
pub(crate) fn random_range_inclusive(low: i32, high: i32) -> (r: i32)
    requires
        low <= high,
    ensures
        low <= r <= high,
{
    rand::random_range(low..=high)
}

/// Calls `rand::random_ratio(numerator, denominator)`, which is true with
/// chance `numerator / denominator`. The contract claims what the `rand`
/// documentation guarantees: never true for a numerator of zero, always true
/// when numerator and denominator are equal. `rand` panics on a zero
/// denominator or a numerator above it, which `requires` leaves out. Which
/// value comes back otherwise is left open: it is chance.
#[verifier::external_body]
pub(crate) fn random_ratio(numerator: u32, denominator: u32) -> (r: bool)
    requires
        0 < denominator,
        numerator <= denominator,
    ensures
        numerator == 0 ==> !r,
        numerator == denominator ==> r,
{
    rand::random_ratio(numerator, denominator)
}

} // verus!
