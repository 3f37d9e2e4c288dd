//! When automatic garbage collection is due.
//!
//! A marker file records the last collection; its change time, in seconds
//! since the epoch, is what the schedule reads.

use vstd::prelude::*;

verus! {

/// Days between collections when none are configured.
pub const DEFAULT_GC_AGE_DAYS: u32 = 7;

/// Seconds in a day.
pub const SECONDS_PER_DAY: u64 = 86400;

/// What the automatic collection does on this run.
#[derive(Clone, Copy, Debug, PartialEq, Eq, Structural)]
pub enum GcDecision {
    /// No marker yet: create it and collect nothing.
    StartMarker,
    /// The marker is old enough: collect, then renew the marker.
    Collect,
    /// The marker is younger than the interval: do nothing.
    Wait,
}

/// Seconds between collections for a configured age in days.
pub open spec fn gc_interval(gc_age_days: Option<u32>) -> int {
    match gc_age_days {
        Some(d) => d as int * SECONDS_PER_DAY as int,
        None => DEFAULT_GC_AGE_DAYS as int * SECONDS_PER_DAY as int,
    }
}

/// Seconds from `since` to `now`, or zero when `since` lies ahead.
pub open spec fn elapsed(since: u64, now: u64) -> int {
    if now >= since {
        now - since
    } else {
        0
    }
}

/// The decision, given the marker's change time if it exists and the time now.
pub open spec fn gc_decision_spec(marker: Option<u64>, now: u64, gc_age_days: Option<u32>) -> GcDecision {
    match marker {
        None => GcDecision::StartMarker,
        Some(t) => if elapsed(t, now) >= gc_interval(gc_age_days) {
            GcDecision::Collect
        } else {
            GcDecision::Wait
        },
    }
}

/// Seconds between collections for a configured age in days.
pub fn gc_interval_secs(gc_age_days: Option<u32>) -> (r: u64)
    ensures
        r == gc_interval(gc_age_days),
{
    let days: u32 = match gc_age_days {
        Some(d) => d,
        None => DEFAULT_GC_AGE_DAYS,
    };
    assert(days as u64 * SECONDS_PER_DAY <= u64::MAX) by (nonlinear_arith)
        requires
            days <= u32::MAX,
    ;
    days as u64 * SECONDS_PER_DAY
}

/// Whether a collection is due on this run.
pub fn gc_decision(marker: Option<u64>, now: u64, gc_age_days: Option<u32>) -> (r: GcDecision)
    ensures
        r == gc_decision_spec(marker, now, gc_age_days),
{
    match marker {
        None => GcDecision::StartMarker,
        Some(t) => {
            let since: u64 = if now >= t {
                now - t
            } else {
                0
            };
            if since >= gc_interval_secs(gc_age_days) {
                GcDecision::Collect
            } else {
                GcDecision::Wait
            }
        },
    }
}

} // verus!
