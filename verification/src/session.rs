//! The session accountant: a time balance that decays while running and is
//! frozen while paused. Every addition and subtraction saturates.
use vstd::prelude::*;
use crate::model::Session;

verus! {

/// One request of an owner against their own session.
pub enum Step {
    Start { now: u64 },
    Pause { now: u64 },
}

impl Step {
    /// The clock reading the request was made at.
    pub open spec fn time(self) -> u64 {
        match self {
            Step::Start { now } => now,
            Step::Pause { now } => now,
        }
    }
}

impl Session {
    /// Whether the balance is frozen.
    pub open spec fn is_paused(self) -> bool {
        self.started_at == 0
    }

    /// Seconds consumed at `now` since the session was started; a clock
    /// reading before the start counts as no time at all.
    pub open spec fn elapsed_at(self, now: u64) -> int {
        if self.started_at == 0 || now <= self.started_at {
            0
        } else {
            now - self.started_at
        }
    }

    /// The balance as of `now`: the stored balance less what has elapsed,
    /// floored at zero.
    pub open spec fn remaining_at(self, now: u64) -> int {
        if self.remaining_secs <= self.elapsed_at(now) {
            0
        } else {
            self.remaining_secs - self.elapsed_at(now)
        }
    }

    /// Running with something left at `now`.
    pub open spec fn active_at(self, now: u64) -> bool {
        self.started_at > 0 && self.remaining_at(now) > 0
    }

    /// Whether a start request at `now` moves the session from paused to
    /// running.
    pub open spec fn starts_at(self, now: u64) -> bool {
        self.started_at == 0 && self.remaining_secs > 0 && now > 0
    }

    /// The session after a start request at `now`.
    pub open spec fn started(self, now: u64) -> Session {
        if self.starts_at(now) {
            Session { remaining_secs: self.remaining_secs, started_at: now }
        } else {
            self
        }
    }

    /// The session after a pause request at `now`.
    pub open spec fn paused(self, now: u64) -> Session {
        if self.started_at > 0 {
            Session { remaining_secs: self.remaining_at(now) as u64, started_at: 0 }
        } else {
            self
        }
    }

    /// The session after `amount` seconds were credited to it.
    pub open spec fn credited(self, amount: u64) -> Session {
        Session {
            remaining_secs: if self.remaining_secs + amount > u64::MAX {
                u64::MAX
            } else {
                (self.remaining_secs + amount) as u64
            },
            started_at: self.started_at,
        }
    }

    /// When a running session runs out; 0 for a paused one.
    pub open spec fn expiry(self) -> u64 {
        if self.started_at == 0 {
            0
        } else if self.started_at + self.remaining_secs > u64::MAX {
            u64::MAX
        } else {
            (self.started_at + self.remaining_secs) as u64
        }
    }

    /// The session after one request.
    pub open spec fn after(self, step: Step) -> Session {
        match step {
            Step::Start { now } => self.started(now),
            Step::Pause { now } => self.paused(now),
        }
    }

    /// The session after a sequence of requests, first to last.
    pub open spec fn after_all(self, steps: Seq<Step>) -> Session
        decreases steps.len(),
    {
        if steps.len() == 0 {
            self
        } else {
            self.after_all(steps.drop_last()).after(steps.last())
        }
    }

    /// The empty, paused session every owner starts with.
    pub fn new() -> (s: Session)
        ensures
            s == (Session { remaining_secs: 0, started_at: 0 }),
    {
        Session { remaining_secs: 0, started_at: 0 }
    }

    /// The balance as of `now`, without changing anything.
    pub fn effective_remaining(&self, now: u64) -> (r: u64)
        ensures
            r == self.remaining_at(now),
    {
        if self.started_at == 0 {
            self.remaining_secs
        } else {
            self.remaining_secs.saturating_sub(now.saturating_sub(self.started_at))
        }
    }

    /// Whether the session is running with something left at `now`.
    pub fn is_active(&self, now: u64) -> (r: bool)
        ensures
            r == self.active_at(now),
    {
        self.started_at > 0 && self.effective_remaining(now) > 0
    }

    /// Starts the clock at `now` if the session is paused with a balance;
    /// a running or an empty session is left as it is. Returns whether the
    /// session went from paused to running.
    pub fn start(&mut self, now: u64) -> (started: bool)
        ensures
            *final(self) == old(self).started(now),
            started == old(self).starts_at(now),
    {
        if self.effective_remaining(now) == 0 {
            return false;
        }
        if self.started_at == 0 && now > 0 {
            self.started_at = now;
            true
        } else {
            false
        }
    }

    /// Freezes a running session at its balance as of `now`; a paused one
    /// is left as it is. Returns whether the session was running.
    pub fn pause(&mut self, now: u64) -> (paused: bool)
        ensures
            *final(self) == old(self).paused(now),
            paused == (old(self).started_at > 0),
    {
        if self.started_at > 0 {
            let spent: u64 = now.saturating_sub(self.started_at);
            self.remaining_secs = self.remaining_secs.saturating_sub(spent);
            self.started_at = 0;
            true
        } else {
            false
        }
    }

    /// Adds `amount` seconds to the balance, saturating. A running session
    /// keeps running from the same start.
    pub fn credit(&mut self, amount: u64)
        ensures
            *final(self) == old(self).credited(amount),
    {
        self.remaining_secs = self.remaining_secs.saturating_add(amount);
    }

    /// When a running session runs out; 0 for a paused one.
    pub fn expires_at(&self) -> (t: u64)
        ensures
            t == self.expiry(),
    {
        if self.started_at > 0 {
            self.started_at.saturating_add(self.remaining_secs)
        } else {
            0
        }
    }
}

/// The balance is a `u64` at every time: it never goes below zero and
/// never exceeds what is stored.
pub proof fn law_remaining_bounded(s: Session, now: u64)
    ensures
        0 <= s.remaining_at(now) <= s.remaining_secs,
{
}

/// While paused the balance is the same at every time.
pub proof fn law_paused_is_constant(s: Session, t1: u64, t2: u64)
    requires
        s.is_paused(),
    ensures
        s.remaining_at(t1) == s.remaining_at(t2),
        s.remaining_at(t1) == s.remaining_secs,
{
}

/// While running the balance does not grow as time passes.
pub proof fn law_running_is_non_increasing(s: Session, t1: u64, t2: u64)
    requires
        t1 <= t2,
    ensures
        s.remaining_at(t2) <= s.remaining_at(t1),
{
}

/// A start or pause request never adds to the balance: seen at any time
/// from the request on, the balance is at most what it was at the request,
/// and at the time of the request it is what it was. A pause freezes it
/// at exactly that value.
pub proof fn law_step_never_adds(s: Session, step: Step, later: u64)
    requires
        step.time() <= later,
    ensures
        s.after(step).remaining_at(later) <= s.remaining_at(step.time()),
        s.after(step).remaining_at(step.time()) == s.remaining_at(step.time()),
        step is Pause ==> s.after(step).remaining_at(later) == s.remaining_at(step.time()),
        step is Pause ==> s.after(step).is_paused(),
{
}

/// Whether the clock readings of a sequence of requests never go back
/// and none lies before `from`.
pub open spec fn clock_is_monotone(from: u64, steps: Seq<Step>) -> bool {
    &&& forall|i: int| 0 <= i < steps.len() ==> from <= (#[trigger] steps[i]).time()
    &&& forall|i: int, j: int|
        0 <= i <= j < steps.len() ==> (#[trigger] steps[i]).time() <= (#[trigger] steps[j]).time()
}

/// Over any sequence of start and pause requests made on a clock that
/// does not go back, the balance seen after the last request is at most
/// the balance there was before the first.
pub proof fn law_requests_never_add(s: Session, from: u64, steps: Seq<Step>, later: u64)
    requires
        clock_is_monotone(from, steps),
        forall|i: int| 0 <= i < steps.len() ==> (#[trigger] steps[i]).time() <= later,
        from <= later,
    ensures
        s.after_all(steps).remaining_at(later) <= s.remaining_at(from),
    decreases steps.len(),
{
    if steps.len() > 0 {
        let init = steps.drop_last();
        let last = steps.last();
        law_requests_never_add(s, from, init, last.time());
        law_step_never_adds(s.after_all(init), last, later);
    }
}

} // verus!
