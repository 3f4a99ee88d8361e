use rand::Rng;
use vstd::prelude::*;

verus! {

/// Draws a number uniformly from `lo..hi` with `rand::thread_rng().gen_range`.
/// Trusted: the result lies in `[lo, hi)`; which value comes out rests on
/// chance and is not stated. `gen_range` panics on an empty range, hence the
/// `requires`.
#[verifier::external_body]
pub(crate) fn random_in_range(lo: i64, hi: i64) -> (r: i64)
    requires
        lo < hi,
    ensures
        lo <= r < hi,
{
    rand::thread_rng().gen_range(lo..hi)
}

} // verus!
