//! Clock gate: decides from the hour of day whether the system listens.
//!
//! The configured window `[start_hour, end_hour)` is the recurring idle
//! period; the system is active at every hour outside it.

use vstd::prelude::*;

verus! {

/// The idle window: hours `start_hour <= h < end_hour` are idle.
///
/// Both bounds are hours of a day, so the window lies within one calendar
/// day; an empty window (`start_hour >= end_hour`) makes every hour active.
pub struct TimeWindow {
    pub start_hour: u32,
    pub end_hour: u32,
}

/// Hour `hour` falls inside the idle window `w`.
pub open spec fn idle_hour(w: TimeWindow, hour: u32) -> bool {
    w.start_hour <= hour < w.end_hour
}

/// Relies on chrono::Local::now and chrono::Timelike::hour: the hour of the
/// current local time, always in 0..24. The value depends on the wall
/// clock, so nothing more is promised of it.
#[verifier::external_body]
pub(crate) fn current_local_hour() -> (r: u32)
    ensures
        r < 24,
{
    chrono::Timelike::hour(&chrono::Local::now())
}

impl TimeWindow {
    /// Build a window; the bounds are taken as given at configuration time.
    pub fn new(start_hour: u32, end_hour: u32) -> (r: TimeWindow)
        ensures
            r.start_hour == start_hour,
            r.end_hour == end_hour,
    {
        TimeWindow { start_hour, end_hour }
    }

    /// True exactly on the hours of the window, `start_hour` included,
    /// `end_hour` excluded.
    pub fn is_idle(&self, hour: u32) -> (r: bool)
        ensures
            r == idle_hour(*self, hour),
    {
        self.start_hour <= hour && hour < self.end_hour
    }

    /// True exactly on the hours outside the window.
    pub fn is_active(&self, hour: u32) -> (r: bool)
        ensures
            r == !idle_hour(*self, hour),
    {
        !self.is_idle(hour)
    }
}

} // verus!
