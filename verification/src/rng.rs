//! Source of randomness for spawn placement.

use vstd::prelude::*;

verus! {

/// Draws a vertical gap offset uniformly from `lo ..= hi`.
///
/// Relies on rand's `Rng::gen_range` over an inclusive `i64` range: for
/// `lo <= hi` the range is non-empty, so the call does not panic and returns
/// a value within the bounds. Nothing more is assumed: the draw is random,
/// so two calls with the same bounds may differ.
#[verifier::external_body]
pub(crate) fn random_in_range(lo: i64, hi: i64) -> (r: i64)
    requires
        lo <= hi,
    ensures
        lo <= r <= hi,
{
    rand::Rng::gen_range(&mut rand::thread_rng(), lo..=hi)
}

} // verus!
