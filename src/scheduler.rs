//! The refresh schedule: which ingestion step runs next, and how long to
//! wait, decided from the phase that just ended and its outcome.
use vstd::prelude::*;

verus! {

/// Length of one refresh cycle, counted from the cycle's start.
pub const REFRESH_INTERVAL_MS: u64 = 900000;

/// Wait after a failed feed refresh before the next cycle starts.
pub const RETRY_DELAY_MS: u64 = 5000;

/// Where the schedule stands.
#[derive(Clone, Copy, Debug, PartialEq, Eq, Structural)]
pub enum Phase {
    Idle,
    RunningPei,
    RunningBfarm,
    RunningFeed,
    Sleeping,
}

/// What the driver is to do next.
#[derive(Clone, Copy, Debug, PartialEq, Eq, Structural)]
pub enum Action {
    CrawlPei,
    CrawlBfarm,
    RefreshFeed,
    /// Wait this many milliseconds, then step again.
    Sleep(u64),
}

/// The wait that ends a successful cycle: until the interval after the
/// cycle's start, and none where the cycle has overrun it.
pub open spec fn remaining_ms(start: u64, now: u64) -> u64 {
    let d = start + REFRESH_INTERVAL_MS - now;
    if d <= 0 {
        0
    } else if d > u64::MAX {
        u64::MAX
    } else {
        d as u64
    }
}

/// The refresh schedule's state.
pub struct Scheduler {
    pub phase: Phase,
    /// When the current cycle started, in milliseconds.
    pub cycle_start: u64,
}

impl Scheduler {
    pub fn new() -> (r: Scheduler)
        ensures
            r.phase == Phase::Idle,
            r.cycle_start == 0,
    {
        Scheduler { phase: Phase::Idle, cycle_start: 0 }
    }

    /// Ends the current phase at time `now`; `ok` says whether its step
    /// succeeded. A crawler's failure does not stop the cycle; a failed feed
    /// refresh waits the retry delay and then starts a new cycle.
    pub fn step(&mut self, now: u64, ok: bool) -> (a: Action)
        ensures
            match old(self).phase {
                Phase::Idle | Phase::Sleeping => final(self).phase == Phase::RunningPei
                    && final(self).cycle_start == now && a == Action::CrawlPei,
                Phase::RunningPei => final(self).phase == Phase::RunningBfarm
                    && final(self).cycle_start == old(self).cycle_start && a == Action::CrawlBfarm,
                Phase::RunningBfarm => final(self).phase == Phase::RunningFeed
                    && final(self).cycle_start == old(self).cycle_start && a == Action::RefreshFeed,
                Phase::RunningFeed => final(self).phase == Phase::Sleeping
                    && final(self).cycle_start == old(self).cycle_start && a == if ok {
                    Action::Sleep(remaining_ms(old(self).cycle_start, now))
                } else {
                    Action::Sleep(RETRY_DELAY_MS)
                },
            },
    {
        match self.phase {
            Phase::Idle | Phase::Sleeping => {
                self.phase = Phase::RunningPei;
                self.cycle_start = now;
                Action::CrawlPei
            },
            Phase::RunningPei => {
                self.phase = Phase::RunningBfarm;
                Action::CrawlBfarm
            },
            Phase::RunningBfarm => {
                self.phase = Phase::RunningFeed;
                Action::RefreshFeed
            },
            Phase::RunningFeed => {
                self.phase = Phase::Sleeping;
                if !ok {
                    return Action::Sleep(RETRY_DELAY_MS);
                }
                let start = self.cycle_start;
                let wait: u64 = if now >= start {
                    let elapsed = now - start;
                    if elapsed >= REFRESH_INTERVAL_MS {
                        0
                    } else {
                        REFRESH_INTERVAL_MS - elapsed
                    }
                } else if start - now > u64::MAX - REFRESH_INTERVAL_MS {
                    u64::MAX
                } else {
                    start - now + REFRESH_INTERVAL_MS
                };
                Action::Sleep(wait)
            },
        }
    }
}

} // verus!
