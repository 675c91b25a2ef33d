//! The simulation's single source of randomness: headings, initial
//! placement and the invulnerability jitter all draw uniform integers.
use vstd::prelude::*;

verus! {

/// Relies on rand::thread_rng and rand::Rng::gen_range: a uniform draw
/// from `lo..hi`. gen_range panics on an empty range, which `lo < hi`
/// rules out; nothing more is assumed of the draw than its range.
#[verifier::external_body]
pub(crate) fn sample_range(lo: i64, hi: i64) -> (r: i64)
    requires
        lo < hi,
    ensures
        lo <= r < hi,
{
    rand::Rng::gen_range(&mut rand::thread_rng(), lo..hi)
}

} // verus!
