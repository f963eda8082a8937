//! When the shown data is due for an automatic reload.

use vstd::prelude::*;

verus! {

/// Milliseconds between two automatic reloads.
pub const DEFAULT_INTERVAL_MS: u64 = 5000;

/// Decides from readings of a monotonic clock, in milliseconds, whether an
/// automatic reload is due.
#[derive(Clone, Copy, Debug, PartialEq, Eq, Structural)]
pub struct RefreshScheduler {
    pub enabled: bool,
    pub last_refresh: u64,
    pub interval: u64,
}

impl RefreshScheduler {
    /// The time since the last reload; a reading older than that reload counts as none.
    pub open spec fn elapsed_at(self, now: u64) -> int {
        if now >= self.last_refresh {
            now - self.last_refresh
        } else {
            0
        }
    }

    /// A reload is due when the scheduler is enabled and a full interval has passed.
    pub open spec fn due_at(self, now: u64) -> bool {
        self.enabled && self.elapsed_at(now) >= self.interval
    }

    /// The interval is never zero, so a reload is never due at the instant of the last one.
    pub open spec fn wf(self) -> bool {
        self.interval > 0
    }

    /// The scheduler a session starts with at `now`.
    pub open spec fn new_at(now: u64) -> RefreshScheduler {
        RefreshScheduler { enabled: true, last_refresh: now, interval: DEFAULT_INTERVAL_MS }
    }

    /// An enabled scheduler whose last reload counts as having happened at `now`.
    pub fn new(now: u64) -> (s: RefreshScheduler)
        ensures
            s == RefreshScheduler::new_at(now),
            s.wf(),
    {
        RefreshScheduler { enabled: true, last_refresh: now, interval: DEFAULT_INTERVAL_MS }
    }

    pub fn is_enabled(&self) -> (b: bool)
        ensures
            b == self.enabled,
    {
        self.enabled
    }

    pub fn is_due(&self, now: u64) -> (due: bool)
        ensures
            due == self.due_at(now),
    {
        let elapsed: u64 = if now >= self.last_refresh {
            now - self.last_refresh
        } else {
            0
        };
        self.enabled && elapsed >= self.interval
    }

    /// Records that a reload starts at `now`.
    pub fn mark(&mut self, now: u64)
        ensures
            *final(self) == old(self).marked(now),
    {
        self.last_refresh = now;
    }

    /// Switches automatic reloads on or off; switching them on restarts the
    /// interval at `now`. Returns whether they are on afterwards.
    pub fn toggle(&mut self, now: u64) -> (enabled: bool)
        ensures
            enabled == !old(self).enabled,
            *final(self) == old(self).toggled(now),
    {
        self.enabled = !self.enabled;
        if self.enabled {
            self.last_refresh = now;
        }
        self.enabled
    }

    pub open spec fn toggled(self, now: u64) -> RefreshScheduler {
        RefreshScheduler {
            enabled: !self.enabled,
            last_refresh: if self.enabled {
                self.last_refresh
            } else {
                now
            },
            interval: self.interval,
        }
    }

    pub open spec fn marked(self, now: u64) -> RefreshScheduler {
        RefreshScheduler { last_refresh: now, ..self }
    }
}

/// Right after a reload none is due; one becomes due exactly when the
/// scheduler is enabled and the clock has advanced by the interval or more;
/// a disabled scheduler never asks for one.
pub proof fn lemma_due_after_interval_only(s: RefreshScheduler, refreshed: u64, now: u64)
    requires
        s.wf(),
    ensures
        !s.marked(refreshed).due_at(refreshed),
        s.marked(refreshed).due_at(now) <==> s.enabled && now - refreshed >= s.interval,
        !s.enabled ==> !s.due_at(now),
        !s.enabled ==> !s.toggled(refreshed).due_at(refreshed),
{
}

} // verus!
