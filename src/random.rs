use rand::Rng;
use vstd::prelude::*;

verus! {

/// Relies on rand's `thread_rng` and `Rng::gen_range`: a value drawn from
/// `[lo, hi)`. `gen_range` panics when `lo >= hi`.
#[verifier::external_body]
pub(crate) fn random_between(lo: i64, hi: i64) -> (r: i64)
    requires
        lo < hi,
    ensures
        lo <= r < hi,
{
    rand::thread_rng().gen_range(lo, hi)
}

} // verus!
