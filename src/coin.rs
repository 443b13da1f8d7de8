use rand::rngs::StdRng;
use rand::Rng;
use vstd::prelude::*;

verus! {

/// The random source that seeds and re-seeds cells.
#[verifier::external_type_specification]
#[verifier::external_body]
pub struct ExStdRng(StdRng);

/// Relies on rand's `Rng::gen_ratio(1, 2)`: a fair coin, true one time in two.
/// The ratio is valid (denominator non-zero and not below the numerator), so
/// the call does not panic. Nothing is promised of which side comes up.
#[verifier::external_body]
pub(crate) fn flip_coin(rng: &mut StdRng) -> (r: bool) {
    rng.gen_ratio(1, 2)
}

} // verus!
