//! A stopwatch that counts the milliseconds since it was started.

use vstd::prelude::*;
use crate::clock::{clock_millis, clock_text, format_clock, since};

verus! {

/// The text a stopwatch shows for `ms` elapsed milliseconds.
pub open spec fn elapsed_text(ms: nat) -> Seq<char> {
    clock_text("Elapsed: "@, ms, true)
}

/// A stopwatch: the clock reading it started at, in milliseconds, and whether
/// it runs. A paused stopwatch shows zero; resuming counts from the same start.
pub struct StopWatch {
    start_time: u64,
    running: bool,
}

impl StopWatch {
    /// The clock reading the stopwatch counts from.
    pub closed spec fn start_view(&self) -> u64 {
        self.start_time
    }

    /// Whether the stopwatch runs.
    pub closed spec fn running_view(&self) -> bool {
        self.running
    }

    /// A running stopwatch started now.
    pub fn new() -> (r: StopWatch)
        ensures
            r.running_view(),
    {
        Self::started_at(clock_millis())
    }

    /// A running stopwatch started at clock reading `now`.
    pub fn started_at(now: u64) -> (r: StopWatch)
        ensures
            r.running_view(),
            r.start_view() == now,
    {
        StopWatch { start_time: now, running: true }
    }

    /// The milliseconds elapsed at clock reading `now`: those since the start
    /// while running, zero while paused.
    pub fn elapsed_at(&self, now: u64) -> (r: u64)
        ensures
            r == if self.running_view() {
                since(self.start_view(), now)
            } else {
                0
            },
    {
        if self.running {
            if now >= self.start_time {
                now - self.start_time
            } else {
                0
            }
        } else {
            0
        }
    }

    /// The milliseconds elapsed now; zero while paused.
    pub fn elapsed(&self) -> (r: u64)
        ensures
            !self.running_view() ==> r == 0,
            self.running_view() ==> exists|now: u64| r == since(self.start_view(), now),
    {
        let now = clock_millis();
        self.elapsed_at(now)
    }

    /// Pauses a running stopwatch or resumes a paused one.
    pub fn toggle(&mut self)
        ensures
            final(self).running_view() == !old(self).running_view(),
            final(self).start_view() == old(self).start_view(),
    {
        self.running = !self.running;
    }

    /// Starts over from clock reading `now`, running.
    pub fn reset_at(&mut self, now: u64)
        ensures
            final(self).running_view(),
            final(self).start_view() == now,
    {
        self.start_time = now;
        self.running = true;
    }

    /// Starts over from now, running.
    pub fn reset(&mut self)
        ensures
            final(self).running_view(),
    {
        self.reset_at(clock_millis());
    }

    /// The text shown for `elapsed` milliseconds.
    pub fn format_duration(elapsed: u64) -> (r: String)
        ensures
            r@ == elapsed_text(elapsed as nat),
    {
        format_clock("Elapsed: ", elapsed, true)
    }
}

} // verus!
