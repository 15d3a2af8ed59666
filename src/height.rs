use vstd::prelude::*;

verus! {

/// The height that a get-height reply reports to the miner.
///
/// `known` is the anchor tip height recorded before this query, `submitted`
/// the anchor height of the last successful submission, `tip` the anchor tip
/// height read for this query and `upstream` the height the upstream node
/// itself reported.
pub open spec fn reported_height(known: Option<u64>, submitted: Option<u64>, tip: u64, upstream: u64) -> u64 {
    match known {
        None => upstream,
        Some(k) => if tip != k {
            k
        } else if submitted.is_some() && submitted.unwrap() >= k {
            k
        } else {
            upstream
        },
    }
}

/// When the anchor tip moves from `h1` to `h2`, the first reply reports the
/// old height `h1`; the next one, with the tip still at `h2` and the upstream
/// node reporting `h2`, reports `h2`.
pub proof fn tip_change_is_held_back_once(h1: u64, h2: u64, submitted: Option<u64>, upstream: u64)
    requires
        h1 != h2,
    ensures
        reported_height(Some(h1), submitted, h2, upstream) == h1,
        reported_height(Some(h2), submitted, h2, h2) == h2,
{
}

/// Once a block was submitted at or after the known height, and the tip has
/// not moved, every reply reports the known height, whatever the upstream
/// node says.
pub proof fn submitted_height_is_held(known: u64, submitted: u64, upstream: u64)
    requires
        submitted >= known,
    ensures
        reported_height(Some(known), Some(submitted), known, upstream) == known,
{
}

} // verus!
