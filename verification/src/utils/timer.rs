//! Countdowns: timers that run down to zero and stay there.

use vstd::prelude::*;

verus! {

/// What is left of `remaining` milliseconds after `dt` more have passed.
pub open spec fn counted_down(remaining: int, dt: int) -> int {
    if remaining >= dt {
        remaining - dt
    } else {
        0
    }
}

/// The total time of a sequence of ticks.
pub open spec fn total_time(dts: Seq<u32>) -> int
    decreases dts.len(),
{
    if dts.len() == 0 {
        0
    } else {
        total_time(dts.drop_last()) + dts.last()
    }
}

/// What is left of `remaining` after each tick of `dts` in turn.
pub open spec fn counted_down_all(remaining: int, dts: Seq<u32>) -> int
    decreases dts.len(),
{
    if dts.len() == 0 {
        remaining
    } else {
        counted_down(counted_down_all(remaining, dts.drop_last()), dts.last() as int)
    }
}

/// Runs a countdown for `dt` milliseconds.
pub fn tick_down(remaining: u32, dt: u32) -> (left: u32)
    ensures
        left == counted_down(remaining as int, dt as int),
        left <= remaining,
{
    remaining.saturating_sub(dt)
}

/// A countdown depends on the total time that passed, not on how the time
/// was cut into ticks: it has run out exactly when the ticks add up to at
/// least the time it was started with.
pub proof fn lemma_countdown_accumulates(remaining: int, dts: Seq<u32>)
    requires
        0 <= remaining,
    ensures
        0 <= total_time(dts),
        counted_down_all(remaining, dts) == counted_down(remaining, total_time(dts)),
        counted_down_all(remaining, dts) == 0 <==> total_time(dts) >= remaining,
    decreases dts.len(),
{
    if dts.len() > 0 {
        lemma_countdown_accumulates(remaining, dts.drop_last());
    }
}

} // verus!
