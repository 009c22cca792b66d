//! Readiness probing.
//!
//! After a spawn the supervisor must not report the backend as available
//! until its TCP listener actually accepts connections: mere process
//! existence is not readiness.  The caller polls at a fixed interval, each
//! time checking whether the child has already exited and otherwise
//! attempting one loopback connect, and reports what it saw.  This module
//! holds the budget and the classification of those observations; the
//! operating-system calls themselves stay with the caller.

use vstd::prelude::*;

verus! {

/// Number of polling iterations before the probe gives up.
pub const POLL_BUDGET: u32 = 80;

/// Milliseconds the caller should sleep between polling iterations.
pub const POLL_INTERVAL_MILLIS: u64 = 150;

/// What one polling iteration observed.
#[derive(Debug, Clone, PartialEq, Eq)]
pub enum PollObservation {
    /// The child process has already terminated; `status` describes its exit.
    Exited { status: String },
    /// A loopback connect to the backend's port succeeded.
    Accepted,
    /// The connect was refused or timed out: expected while the backend is
    /// still starting, not a failure signal.
    NotYetUp,
    /// The connect failed in an unexpected way (invalid address, permission).
    Fault { cause: String },
}

/// The probe's verdict on one launch attempt.
#[derive(Debug, Clone, PartialEq, Eq)]
pub enum ProbeOutcome {
    /// The backend's listener accepts connections.
    Ready,
    /// The process terminated before opening its port.
    ExitedEarly { status: String },
    /// The process still runs but never became reachable within the budget.
    TimedOut,
    /// An unexpected error ended the probe before the budget was spent.
    ProbeError { cause: String },
}

/// Bounded poll-until-ready: counts down from `POLL_BUDGET` over the
/// iterations that saw nothing yet, and turns each observation into either
/// a final outcome or the decision to keep polling.
pub struct ReadinessProbe {
    remaining: u32,
}

impl ReadinessProbe {
    /// Iterations this probe may still spend waiting.
    pub closed spec fn remaining(self) -> int {
        self.remaining as int
    }

    /// A fresh probe with the full polling budget.
    pub fn new() -> (p: ReadinessProbe)
        ensures
            p.remaining() == POLL_BUDGET,
    {
        ReadinessProbe { remaining: POLL_BUDGET }
    }

    /// Iterations this probe may still spend waiting, for the caller's loop.
    pub fn budget_left(&self) -> (n: u32)
        ensures
            n as int == self.remaining(),
    {
        self.remaining
    }

    /// Classifies one polling observation.
    ///
    /// An exited child, an accepted connect and an unexpected fault each end
    /// the probe at once, without spending budget.  Only "not yet up" spends
    /// one iteration; when it spends the last one the probe times out.
    pub fn observe(&mut self, obs: PollObservation) -> (r: Option<ProbeOutcome>)
        requires
            old(self).remaining() > 0,
        ensures
            obs matches PollObservation::Exited { status } ==> r == Some(
                ProbeOutcome::ExitedEarly { status },
            ),
            obs == PollObservation::Accepted ==> r == Some(ProbeOutcome::Ready),
            obs matches PollObservation::Fault { cause } ==> r == Some(
                ProbeOutcome::ProbeError { cause },
            ),
            obs == PollObservation::NotYetUp ==> final(self).remaining() == old(self).remaining()
                - 1,
            (obs == PollObservation::NotYetUp && old(self).remaining() > 1) ==> r is None,
            (obs == PollObservation::NotYetUp && old(self).remaining() == 1) ==> r == Some(
                ProbeOutcome::TimedOut,
            ),
            obs != PollObservation::NotYetUp ==> final(self).remaining() == old(self).remaining(),
    {
        match obs {
            PollObservation::Exited { status } => Some(ProbeOutcome::ExitedEarly { status }),
            PollObservation::Accepted => Some(ProbeOutcome::Ready),
            PollObservation::Fault { cause } => Some(ProbeOutcome::ProbeError { cause }),
            PollObservation::NotYetUp => {
                self.remaining = self.remaining - 1;
                if self.remaining == 0 {
                    Some(ProbeOutcome::TimedOut)
                } else {
                    None
                }
            },
        }
    }
}

} // verus!
