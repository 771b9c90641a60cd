use vstd::prelude::*;
use rand::seq::SliceRandom;
use rand::Rng;

verus! {

/// Relies on rand's thread_rng and Rng::gen_range: a random index below n.
/// gen_range panics on an empty range, so n must be positive.
#[verifier::external_body]
pub(crate) fn pick_below(n: usize) -> (r: usize)
    requires
        n >= 1,
    ensures
        r < n,
{
    rand::thread_rng().gen_range(0..n)
}

/// Relies on rand's SliceRandom::choose: a random element of the slice,
/// None exactly when the slice is empty.
#[verifier::external_body]
pub(crate) fn choose_string(v: &Vec<String>) -> (r: Option<String>)
    ensures
        r is Some <==> v@.len() > 0,
        r matches Some(x) ==> v@.contains(x),
{
    v.choose(&mut rand::thread_rng()).cloned()
}

} // verus!
