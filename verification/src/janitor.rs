//! The sweep schedule of the cache janitor.
//!
//! The host process runs a background task that periodically calls the
//! cache's `clean`. The decision of *when* to sweep lives here: the first
//! sweep is due one full period after start, and after each sweep the next
//! one is due one full period after the tick that performed it. A missed
//! tick is therefore never followed by a burst of catch-up sweeps — the
//! schedule always resumes a whole period later (delay-style rescheduling).

use vstd::prelude::*;

use crate::weather::UnixTimestamp;

verus! {

/// The sweep schedule: how often to sweep, and when the next sweep is due.
pub struct Janitor {
    pub period: i64,
    pub next_sweep: i64,
}

impl Janitor {
    /// The schedule's invariant: a positive period.
    pub open spec fn wf(&self) -> bool {
        self.period > 0
    }

    /// A schedule whose first sweep is due one full period after `start`,
    /// not immediately.
    pub fn new(start: &UnixTimestamp, period_seconds: i64) -> (j: Janitor)
        requires
            period_seconds > 0,
            start@ + period_seconds <= i64::MAX,
        ensures
            j.wf(),
            j.period == period_seconds,
            j.next_sweep == start@ + period_seconds,
    {
        Janitor { period: period_seconds, next_sweep: start.value() + period_seconds }
    }

    /// Whether a sweep is due at `now`.
    pub fn due(&self, now: &UnixTimestamp) -> (b: bool)
        ensures
            b == (now@ >= self.next_sweep),
    {
        now.value() >= self.next_sweep
    }

    /// One tick of the janitor at `now`: reports whether to sweep now, and
    /// if so reschedules the next sweep one full period after this tick —
    /// not after the originally due time — so missed ticks never pile up.
    pub fn tick(&mut self, now: &UnixTimestamp) -> (sweep_now: bool)
        requires
            old(self).wf(),
            now@ + old(self).period <= i64::MAX,
        ensures
            final(self).wf(),
            final(self).period == old(self).period,
            sweep_now == (now@ >= old(self).next_sweep),
            sweep_now ==> final(self).next_sweep == now@ + old(self).period,
            !sweep_now ==> final(self).next_sweep == old(self).next_sweep,
    {
        if now.value() >= self.next_sweep {
            self.next_sweep = now.value() + self.period;
            true
        } else {
            false
        }
    }
}

/// Delay-style rescheduling never bursts: after a tick sweeps at `t`, no
/// tick strictly before `t + period` sweeps again, however late the sweep
/// at `t` itself was.
pub proof fn lemma_no_catch_up_burst(j: Janitor, t: int, later: int)
    requires
        j.wf(),
        j.next_sweep == t + j.period,
        later < t + j.period,
    ensures
        !(later >= j.next_sweep),
{
}

} // verus!
