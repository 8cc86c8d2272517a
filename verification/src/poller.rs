//! Waiting for a condition at a fixed cadence, up to a timeout.

use vstd::prelude::*;

verus! {

/// What to do after one check of the condition.
#[derive(Clone, Copy, Debug, PartialEq, Eq, Structural)]
pub enum Verdict {
    /// The condition holds.
    Reached,
    /// The condition does not hold yet: wait, then check again.
    Wait { secs: u64 },
    /// The condition did not hold and the time is up.
    TimedOut,
}

/// One wait for a condition. The cadence is fixed: no backoff. A timeout is
/// reported, never retried here.
#[derive(Clone, Copy, Debug, PartialEq, Eq, Structural)]
pub struct Poller {
    /// The time after which a failed check ends the wait; `None` waits as
    /// long as it takes.
    pub timeout_secs: Option<u64>,
    /// The time between two checks.
    pub interval_secs: u64,
    /// The time waited so far.
    pub elapsed_secs: u64,
}

impl Poller {
    /// The verdict on one check.
    pub open spec fn verdict(self, reached: bool) -> Verdict {
        if reached {
            Verdict::Reached
        } else if self.timeout_secs is Some && self.elapsed_secs + self.interval_secs
            > self.timeout_secs->0 {
            Verdict::TimedOut
        } else {
            Verdict::Wait { secs: self.interval_secs }
        }
    }

    /// The poller after one check.
    pub open spec fn after(self, reached: bool) -> Poller {
        if self.verdict(reached) is Wait && self.elapsed_secs + self.interval_secs <= u64::MAX {
            Poller { elapsed_secs: (self.elapsed_secs + self.interval_secs) as u64, ..self }
        } else {
            self
        }
    }

    /// Number of checks that may still end in `Wait`.
    pub open spec fn waits_left(self) -> nat {
        if self.timeout_secs is Some && self.interval_secs > 0 && self.elapsed_secs
            <= self.timeout_secs->0 {
            ((self.timeout_secs->0 - self.elapsed_secs) / (self.interval_secs as int)) as nat
        } else {
            0
        }
    }

    /// A wait that ends when a failed check finds that the next check would
    /// come after `timeout_secs`.
    pub fn bounded(timeout_secs: u64, interval_secs: u64) -> (p: Poller)
        ensures
            p == (Poller { timeout_secs: Some(timeout_secs), interval_secs, elapsed_secs: 0 }),
    {
        Poller { timeout_secs: Some(timeout_secs), interval_secs, elapsed_secs: 0 }
    }

    /// A wait without timeout.
    pub fn unbounded(interval_secs: u64) -> (p: Poller)
        ensures
            p == (Poller { timeout_secs: None, interval_secs, elapsed_secs: 0 }),
    {
        Poller { timeout_secs: None, interval_secs, elapsed_secs: 0 }
    }

    /// Takes the outcome of one check and says how to go on. After `Wait`
    /// the caller sleeps for the interval and checks again.
    pub fn observe(&mut self, reached: bool) -> (v: Verdict)
        ensures
            v == old(self).verdict(reached),
            *final(self) == old(self).after(reached),
    {
        if reached {
            return Verdict::Reached;
        }
        let next = self.elapsed_secs.checked_add(self.interval_secs);
        match self.timeout_secs {
            Some(limit) => {
                match next {
                    Some(n) => {
                        if n > limit {
                            Verdict::TimedOut
                        } else {
                            self.elapsed_secs = n;
                            Verdict::Wait { secs: self.interval_secs }
                        }
                    },
                    None => Verdict::TimedOut,
                }
            },
            None => {
                match next {
                    Some(n) => {
                        self.elapsed_secs = n;
                    },
                    None => {},
                }
                Verdict::Wait { secs: self.interval_secs }
            },
        }
    }
}

/// A bounded wait with a positive interval comes to an end: each `Wait`
/// leaves one `Wait` fewer, and with none left a failed check times out.
pub proof fn law_bounded_wait_ends(p: Poller)
    requires
        p.timeout_secs is Some,
        p.interval_secs > 0,
    ensures
        p.verdict(false) is Wait ==> p.after(false).waits_left() + 1 == p.waits_left(),
        p.verdict(false) is Wait <==> p.waits_left() > 0,
        p.elapsed_secs <= p.timeout_secs->0 && p.waits_left() == 0 ==> p.verdict(false)
            is TimedOut,
{
    let t = p.timeout_secs->0 as int;
    let e = p.elapsed_secs as int;
    let i = p.interval_secs as int;
    if e <= t {
        assert((t - e) / i > 0 <==> t - e >= i) by (nonlinear_arith)
            requires
                i > 0,
                t - e >= 0,
        ;
        if e + i <= t {
            assert((t - (e + i)) / i + 1 == (t - e) / i) by (nonlinear_arith)
                requires
                    i > 0,
                    t - (e + i) >= 0,
            ;
        }
    }
}

} // verus!
