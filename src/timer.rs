//! A countdown timer.

use vstd::prelude::*;
use crate::clock::{clock_millis, clock_text, format_clock, since};

verus! {

/// The text a timer shows for `ms` remaining milliseconds. Minutes and
/// seconds are shown as totals, not as the part past the larger unit.
pub open spec fn remaining_text(ms: nat) -> Seq<char> {
    clock_text("Exiting in "@, ms, false)
}

/// The milliseconds left at clock reading `now` of a countdown of `duration`
/// milliseconds from `start`: zero once it is over.
pub open spec fn remaining(start: u64, duration: u64, now: u64) -> int {
    if since(start, now) >= duration {
        0
    } else {
        duration - since(start, now)
    }
}

/// A countdown of `duration` milliseconds from the clock reading `start_time`.
pub struct Timer {
    start_time: u64,
    duration: u64,
}

impl Timer {
    /// The clock reading the countdown started at.
    pub closed spec fn start_view(&self) -> u64 {
        self.start_time
    }

    /// The length of the countdown, in milliseconds.
    pub closed spec fn duration_view(&self) -> u64 {
        self.duration
    }

    /// A countdown of `duration` milliseconds starting now.
    pub fn new(duration: u64) -> (r: Timer)
        ensures
            r.duration_view() == duration,
    {
        Self::started_at(clock_millis(), duration)
    }

    /// A countdown of `duration` milliseconds starting at clock reading `now`.
    pub fn started_at(now: u64, duration: u64) -> (r: Timer)
        ensures
            r.start_view() == now,
            r.duration_view() == duration,
    {
        Timer { start_time: now, duration }
    }

    /// The milliseconds left at clock reading `now`, zero once the countdown
    /// is over.
    pub fn remaining_at(&self, now: u64) -> (r: u64)
        ensures
            r == remaining(self.start_view(), self.duration_view(), now),
    {
        let elapsed = if now >= self.start_time {
            now - self.start_time
        } else {
            0
        };
        if elapsed >= self.duration {
            0
        } else {
            self.duration - elapsed
        }
    }

    /// The milliseconds left now.
    pub fn time_remaining(&self) -> (r: u64)
        ensures
            r <= self.duration_view(),
            exists|now: u64| r == remaining(self.start_view(), self.duration_view(), now),
    {
        let now = clock_millis();
        self.remaining_at(now)
    }

    /// The text shown for `remaining` milliseconds.
    pub fn format_remaining(remaining: u64) -> (r: String)
        ensures
            r@ == remaining_text(remaining as nat),
    {
        format_clock("Exiting in ", remaining, false)
    }

    /// The text shown for the time left now.
    pub fn format_duration(&self) -> (r: String)
        ensures
            exists|ms: nat| ms <= self.duration_view() && r@ == remaining_text(ms),
    {
        let remaining = self.time_remaining();
        let r = Self::format_remaining(remaining);
        assert(r@ == remaining_text(remaining as nat));
        r
    }
}

} // verus!
