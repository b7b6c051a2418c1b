use rand::Rng;
use vstd::prelude::*;

verus! {

/// Relies on rand's `Rng::gen_range` over an inclusive integer range: the
/// sample lies between the bounds. The range is nonempty by the
/// precondition (an empty range would make the call panic), and nothing
/// more than the bounds can be promised of a random draw.
#[verifier::external_body]
fn sample_between(min_ms: u64, max_ms: u64) -> (r: u64)
    requires
        min_ms <= max_ms,
    ensures
        min_ms <= r <= max_ms,
{
    rand::thread_rng().gen_range(min_ms..=max_ms)
}

/// Picks the length of one randomized pause: a duration between `min_ms`
/// and `max_ms` milliseconds, both inclusive, used as jitter between
/// automated actions so that their timing is not perfectly periodic.
/// Performing the pause is the caller's business; this decides only how
/// long it is, and every draw respects the bounds.
pub fn random_delay(min_ms: u64, max_ms: u64) -> (delay_ms: u64)
    requires
        min_ms <= max_ms,
    ensures
        min_ms <= delay_ms <= max_ms,
{
    sample_between(min_ms, max_ms)
}

} // verus!
