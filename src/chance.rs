use rand::Rng;
use vstd::prelude::*;

verus! {

/// Relies on rand's `thread_rng` and `Rng::gen_ratio(1, denominator)`: a draw that
/// is true with probability `1 / denominator`. `gen_ratio` panics on a zero
/// denominator and always answers true when numerator and denominator are equal.
#[verifier::external_body]
pub(crate) fn one_in(denominator: u32) -> (r: bool)
    requires
        denominator >= 1,
    ensures
        denominator == 1 ==> r,
{
    rand::thread_rng().gen_ratio(1, denominator)
}

} // verus!
