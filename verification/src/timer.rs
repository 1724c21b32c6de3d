//! Cooperative periodic timer: instead of a blocking sleep on a thread, the
//! owner polls it with the current time and fires the pending action when a
//! full period has elapsed since the last firing.

use vstd::prelude::*;

verus! {

/// Periodic schedule state: a fixed period, a running flag, and the time of
/// the last firing.
pub struct Timer {
    period_ms: u64,
    running: bool,
    last_execution: Option<u64>,
}

impl Timer {
    /// Configured period in milliseconds.
    pub closed spec fn period(&self) -> u64 {
        self.period_ms
    }

    /// Whether the schedule is active.
    pub closed spec fn running(&self) -> bool {
        self.running
    }

    /// Time of the last firing, if any.
    pub closed spec fn last(&self) -> Option<u64> {
        self.last_execution
    }

    /// Whether a poll at `now` fires: the timer runs and either never fired
    /// or a full period has elapsed.
    pub open spec fn due(&self, now: u64) -> bool {
        self.running() && match self.last() {
            None => true,
            Some(t) => now - t >= self.period(),
        }
    }

    /// A stopped timer with the given period and no past firing.
    pub fn new(period_ms: u64) -> (r: Self)
        ensures
            r.period() == period_ms,
            !r.running(),
            r.last() is None,
    {
        Timer { period_ms, running: false, last_execution: None }
    }

    /// Activates the schedule.
    pub fn start(&mut self)
        ensures
            final(self).running(),
            final(self).period() == old(self).period(),
            final(self).last() == old(self).last(),
    {
        self.running = true;
    }

    /// Deactivates the schedule; no poll fires afterwards. Idempotent.
    pub fn stop(&mut self)
        ensures
            !final(self).running(),
            final(self).period() == old(self).period(),
            final(self).last() == old(self).last(),
    {
        self.running = false;
    }

    /// Whether the schedule is active.
    pub fn is_running(&self) -> (r: bool)
        ensures
            r == self.running(),
    {
        self.running
    }

    /// Time of the last firing, if any.
    pub fn last_execution_time(&self) -> (r: Option<u64>)
        ensures
            r == self.last(),
    {
        self.last_execution
    }

    /// Polls the schedule at the current time; reports whether the periodic
    /// action is to be fired now, and if so records the firing time. The
    /// clock must not run backwards past the last firing.
    pub fn poll(&mut self, current_time: u64) -> (fired: bool)
        requires
            old(self).last() is Some ==> old(self).last().unwrap() <= current_time,
        ensures
            fired == old(self).due(current_time),
            final(self).period() == old(self).period(),
            final(self).running() == old(self).running(),
            fired ==> final(self).last() == Some(current_time),
            !fired ==> final(self).last() == old(self).last(),
    {
        if self.running {
            match self.last_execution {
                Some(last) => {
                    if current_time - last >= self.period_ms {
                        self.last_execution = Some(current_time);
                        true
                    } else {
                        false
                    }
                },
                None => {
                    self.last_execution = Some(current_time);
                    true
                },
            }
        } else {
            false
        }
    }
}

} // verus!
