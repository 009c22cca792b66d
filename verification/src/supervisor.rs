//! The process supervisor's state machine.
//!
//! The supervisor owns the launch of the backend process: it generates the
//! bearer token once, walks a bounded retry loop over launch attempts, and
//! records why an attempt failed.  The caller performs the operating-system
//! work — spawning the child, probing its port, sleeping, killing — and
//! reports each result back here; this module decides what happens next and
//! guarantees the bookkeeping: at most `MAX_ATTEMPTS` attempts, `Ready`
//! only after an accepted probe, the child handle cleared exactly when the
//! process is released, and a configuration surfaced only in `Ready`.

use vstd::prelude::*;
use crate::port::Mode;
use crate::probe::ProbeOutcome;
use crate::token::{valid_token, generate_token};
use crate::url::{spec_decimal, spec_loopback_url, loopback_url, push_decimal};

verus! {

/// Maximum number of launch attempts before the supervisor gives up.
pub const MAX_ATTEMPTS: usize = 5;

/// Milliseconds the caller should sleep between launch attempts.
pub const BACKOFF_MILLIS: u64 = 200;

/// Name of the environment variable carrying the decimal port the backend
/// must bind.
pub fn port_env_var() -> (r: &'static str)
    ensures
        r@ == "ECHOSMITH_PORT"@,
{
    "ECHOSMITH_PORT"
}

/// Name of the environment variable carrying the bearer token the backend
/// must require.
pub fn token_env_var() -> (r: &'static str)
    ensures
        r@ == "ECHOSMITH_TOKEN"@,
{
    "ECHOSMITH_TOKEN"
}

/// Where the supervisor stands in the launch lifecycle.
#[derive(Clone, Copy, Debug, PartialEq, Eq, Structural)]
pub enum Phase {
    /// No attempt underway: fresh, or between retries.
    Idle,
    /// An attempt has a port and is being spawned.
    Spawning,
    /// The child runs; its port is being probed.
    AwaitingReady,
    /// The backend accepts connections; the terminal success state.
    Ready,
    /// The supervisor was shut down.
    Stopped,
    /// Every attempt failed, or the launch spec could not be resolved.
    Failed,
}

/// Why a launch did not succeed.
#[derive(Debug, Clone, PartialEq, Eq)]
pub enum SupervisorError {
    /// No launch spec could be resolved; fatal at once, never retried.
    Resolution { cause: String },
    /// The OS refused to create the process.
    Spawn { cause: String },
    /// The process terminated before opening its port.
    ExitedEarly { status: String },
    /// The process never became reachable within the probe budget.
    TimedOut,
    /// Probing failed in an unexpected way.
    Probe { cause: String },
}

/// The environment values one launch attempt hands to the backend.
pub struct LaunchEnv {
    /// Decimal rendering of the port the backend must bind.
    pub port_value: String,
    /// The bearer token the backend must require.
    pub token_value: String,
}

/// The {url, token} pair surfaced to the shell once the backend is ready.
#[derive(Debug, Clone, PartialEq, Eq)]
pub struct BackendConfig {
    pub url: String,
    pub token: String,
}

/// The supervisor's state: lifecycle phase, the token generated once at
/// construction, the port of the current attempt, how many attempts have
/// been started, whether a live child is currently owned, and the last
/// recorded error.
pub struct Supervisor {
    phase: Phase,
    mode: Mode,
    token: String,
    port: u16,
    attempt: usize,
    owns_child: bool,
    last_error: Option<SupervisorError>,
}

impl Supervisor {
    /// Lifecycle phase.
    pub closed spec fn phase(self) -> Phase {
        self.phase
    }

    /// Runtime mode the supervisor was created for.
    pub closed spec fn mode_of(self) -> Mode {
        self.mode
    }

    /// The bearer token, generated once per supervisor.
    pub closed spec fn token_chars(self) -> Seq<char> {
        self.token@
    }

    /// Port of the current (or last) launch attempt.
    pub closed spec fn current_port(self) -> u16 {
        self.port
    }

    /// Number of launch attempts started so far.
    pub closed spec fn attempts(self) -> int {
        self.attempt as int
    }

    /// Whether a live child process is currently owned.
    pub closed spec fn owns_process(self) -> bool {
        self.owns_child
    }

    /// The last recorded error, if any.
    pub closed spec fn last_err(self) -> Option<SupervisorError> {
        self.last_error
    }

    /// Well-formedness: the token is valid for the supervisor's lifetime,
    /// the attempt count never passes the budget, and a child is owned in
    /// exactly the phases where one can be live.
    pub open spec fn wf(self) -> bool {
        &&& valid_token(self.token_chars())
        &&& 0 <= self.attempts() <= MAX_ATTEMPTS as int
        &&& (self.phase() == Phase::Ready || self.phase() == Phase::AwaitingReady
            <==> self.owns_process())
        &&& (self.phase() == Phase::Spawning || self.phase() == Phase::AwaitingReady
            || self.phase() == Phase::Ready ==> self.attempts() >= 1)
    }

    /// A fresh supervisor: idle, no attempts spent, token drawn once.
    pub fn new(mode: Mode) -> (s: Supervisor)
        ensures
            s.wf(),
            s.phase() == Phase::Idle,
            s.mode_of() == mode,
            s.attempts() == 0,
            !s.owns_process(),
            s.last_err() is None,
    {
        Supervisor {
            phase: Phase::Idle,
            mode,
            token: generate_token(),
            port: 0,
            attempt: 0,
            owns_child: false,
            last_error: None,
        }
    }

    /// State after starting an attempt on `port`.
    pub closed spec fn spec_begin_attempt(s: Supervisor, port: u16) -> Supervisor {
        Supervisor {
            phase: Phase::Spawning,
            mode: s.mode,
            token: s.token,
            port,
            attempt: (s.attempt + 1) as usize,
            owns_child: s.owns_child,
            last_error: s.last_error,
        }
    }

    /// State after a failed attempt that recorded `err`: back to `Idle`
    /// for a retry while budget remains, `Failed` once it is spent.
    pub closed spec fn spec_record_failure(s: Supervisor, err: SupervisorError) -> Supervisor {
        Supervisor {
            phase: if s.attempt >= MAX_ATTEMPTS {
                Phase::Failed
            } else {
                Phase::Idle
            },
            mode: s.mode,
            token: s.token,
            port: s.port,
            attempt: s.attempt,
            owns_child: false,
            last_error: Some(err),
        }
    }

    /// State after a spawn failure with message `cause`.
    pub closed spec fn spec_spawn_failure(s: Supervisor, cause: String) -> Supervisor {
        Self::spec_record_failure(s, SupervisorError::Spawn { cause })
    }

    /// State after a successful spawn: the child is owned and under probe.
    pub closed spec fn spec_spawn_success(s: Supervisor) -> Supervisor {
        Supervisor {
            phase: Phase::AwaitingReady,
            mode: s.mode,
            token: s.token,
            port: s.port,
            attempt: s.attempt,
            owns_child: true,
            last_error: s.last_error,
        }
    }

    /// State after the probe's verdict on the current attempt.
    pub closed spec fn spec_probe_outcome(s: Supervisor, outcome: ProbeOutcome) -> Supervisor {
        match outcome {
            ProbeOutcome::Ready => Supervisor {
                phase: Phase::Ready,
                mode: s.mode,
                token: s.token,
                port: s.port,
                attempt: s.attempt,
                owns_child: true,
                last_error: s.last_error,
            },
            ProbeOutcome::ExitedEarly { status } => Self::spec_record_failure(
                s,
                SupervisorError::ExitedEarly { status },
            ),
            ProbeOutcome::TimedOut => Self::spec_record_failure(s, SupervisorError::TimedOut),
            ProbeOutcome::ProbeError { cause } => Self::spec_record_failure(
                s,
                SupervisorError::Probe { cause },
            ),
        }
    }

    /// State after a shutdown request.
    pub closed spec fn spec_stop(s: Supervisor) -> Supervisor {
        Supervisor {
            phase: Phase::Stopped,
            mode: s.mode,
            token: s.token,
            port: s.port,
            attempt: s.attempt,
            owns_child: false,
            last_error: s.last_error,
        }
    }

    /// State after the launch spec failed to resolve: `Failed` at once.
    pub closed spec fn spec_fail_resolution(s: Supervisor, cause: String) -> Supervisor {
        Supervisor {
            phase: Phase::Failed,
            mode: s.mode,
            token: s.token,
            port: s.port,
            attempt: s.attempt,
            owns_child: false,
            last_error: Some(SupervisorError::Resolution { cause }),
        }
    }

    /// Records that no launch spec could be resolved.  Fatal at once: a
    /// missing or misconfigured installation cannot be retried away.
    pub fn fail_resolution(&mut self, cause: String)
        requires
            old(self).wf(),
            old(self).phase() == Phase::Idle,
        ensures
            *final(self) == Self::spec_fail_resolution(*old(self), cause),
            final(self).wf(),
            final(self).phase() == Phase::Failed,
            final(self).last_err() == Some(SupervisorError::Resolution { cause }),
            final(self).token_chars() == old(self).token_chars(),
    {
        self.phase = Phase::Failed;
        self.owns_child = false;
        self.last_error = Some(SupervisorError::Resolution { cause });
    }

    /// Starts a launch attempt on `port`.  Only possible while idle with
    /// budget remaining, so no supervisor ever starts more than
    /// `MAX_ATTEMPTS` attempts.
    pub fn begin_attempt(&mut self, port: u16)
        requires
            old(self).wf(),
            old(self).phase() == Phase::Idle,
            old(self).attempts() < MAX_ATTEMPTS as int,
        ensures
            *final(self) == Self::spec_begin_attempt(*old(self), port),
            final(self).wf(),
            final(self).phase() == Phase::Spawning,
            final(self).current_port() == port,
            final(self).attempts() == old(self).attempts() + 1,
            final(self).token_chars() == old(self).token_chars(),
            !final(self).owns_process(),
    {
        self.phase = Phase::Spawning;
        self.port = port;
        self.attempt = self.attempt + 1;
    }

    /// The environment values for the current attempt: the decimal port and
    /// the bearer token, exactly as the backend must receive them.
    pub fn launch_env(&self) -> (e: LaunchEnv)
        ensures
            e.port_value@ == spec_decimal(self.current_port() as int),
            e.token_value@ == self.token_chars(),
    {
        let mut port_value: String = String::new();
        push_decimal(&mut port_value, self.port);
        LaunchEnv { port_value, token_value: self.token.clone() }
    }

    /// Records that the spawn succeeded: the supervisor now owns the child
    /// and awaits its readiness.
    pub fn on_spawn_success(&mut self)
        requires
            old(self).wf(),
            old(self).phase() == Phase::Spawning,
        ensures
            *final(self) == Self::spec_spawn_success(*old(self)),
            final(self).wf(),
            final(self).phase() == Phase::AwaitingReady,
            final(self).owns_process(),
            final(self).current_port() == old(self).current_port(),
            final(self).attempts() == old(self).attempts(),
            final(self).token_chars() == old(self).token_chars(),
    {
        self.phase = Phase::AwaitingReady;
        self.owns_child = true;
    }

    /// Records that the OS refused to create the process.  The attempt is
    /// spent: the supervisor returns to `Idle` for a retry while budget
    /// remains, and is `Failed` once it is spent.
    pub fn on_spawn_failure(&mut self, cause: String)
        requires
            old(self).wf(),
            old(self).phase() == Phase::Spawning,
        ensures
            *final(self) == Self::spec_spawn_failure(*old(self), cause),
            final(self).wf(),
            final(self).phase() != Phase::Ready,
            !final(self).owns_process(),
            final(self).last_err() == Some(SupervisorError::Spawn { cause }),
            final(self).attempts() == old(self).attempts(),
            final(self).token_chars() == old(self).token_chars(),
            old(self).attempts() == MAX_ATTEMPTS as int ==> final(self).phase() == Phase::Failed,
            old(self).attempts() < MAX_ATTEMPTS as int ==> final(self).phase() == Phase::Idle,
    {
        self.owns_child = false;
        self.last_error = Some(SupervisorError::Spawn { cause });
        self.phase = if self.attempt >= MAX_ATTEMPTS {
            Phase::Failed
        } else {
            Phase::Idle
        };
    }

    /// Records the probe's verdict on the current attempt.  `Ready` is the
    /// terminal success; any other verdict spends the attempt, and the
    /// caller must have terminated the child (best effort, errors ignored)
    /// before reporting it here.
    pub fn on_probe_outcome(&mut self, outcome: ProbeOutcome)
        requires
            old(self).wf(),
            old(self).phase() == Phase::AwaitingReady,
        ensures
            *final(self) == Self::spec_probe_outcome(*old(self), outcome),
            final(self).wf(),
            final(self).current_port() == old(self).current_port(),
            final(self).attempts() == old(self).attempts(),
            final(self).token_chars() == old(self).token_chars(),
            outcome == ProbeOutcome::Ready ==> final(self).phase() == Phase::Ready
                && final(self).owns_process() && final(self).last_err() == old(self).last_err(),
            outcome != ProbeOutcome::Ready ==> !final(self).owns_process() && final(self).phase()
                != Phase::Ready,
            outcome != ProbeOutcome::Ready && old(self).attempts() == MAX_ATTEMPTS as int
                ==> final(self).phase() == Phase::Failed,
            outcome != ProbeOutcome::Ready && old(self).attempts() < MAX_ATTEMPTS as int
                ==> final(self).phase() == Phase::Idle,
            outcome matches ProbeOutcome::ExitedEarly { status } ==> final(self).last_err()
                == Some(SupervisorError::ExitedEarly { status }),
            outcome == ProbeOutcome::TimedOut ==> final(self).last_err() == Some(
                SupervisorError::TimedOut,
            ),
            outcome matches ProbeOutcome::ProbeError { cause } ==> final(self).last_err() == Some(
                SupervisorError::Probe { cause },
            ),
    {
        match outcome {
            ProbeOutcome::Ready => {
                self.phase = Phase::Ready;
            },
            ProbeOutcome::ExitedEarly { status } => {
                self.owns_child = false;
                self.last_error = Some(SupervisorError::ExitedEarly { status });
                self.phase = if self.attempt >= MAX_ATTEMPTS {
                    Phase::Failed
                } else {
                    Phase::Idle
                };
            },
            ProbeOutcome::TimedOut => {
                self.owns_child = false;
                self.last_error = Some(SupervisorError::TimedOut);
                self.phase = if self.attempt >= MAX_ATTEMPTS {
                    Phase::Failed
                } else {
                    Phase::Idle
                };
            },
            ProbeOutcome::ProbeError { cause } => {
                self.owns_child = false;
                self.last_error = Some(SupervisorError::Probe { cause });
                self.phase = if self.attempt >= MAX_ATTEMPTS {
                    Phase::Failed
                } else {
                    Phase::Idle
                };
            },
        }
    }

    /// Shuts the supervisor down.  Callable in any state, any number of
    /// times: it never errors, always leaves the phase `Stopped`, and
    /// releases the child handle (the caller kills the process, ignoring
    /// errors — it may already be gone).
    pub fn stop(&mut self)
        ensures
            *final(self) == Self::spec_stop(*old(self)),
            final(self).phase() == Phase::Stopped,
            !final(self).owns_process(),
            final(self).token_chars() == old(self).token_chars(),
            final(self).attempts() == old(self).attempts(),
            final(self).last_err() == old(self).last_err(),
    {
        self.phase = Phase::Stopped;
        self.owns_child = false;
    }

    /// The {url, token} pair for the shell: present exactly in `Ready`,
    /// with the loopback URL of the port the backend was told to bind and
    /// the supervisor's 32-character alphanumeric token.
    pub fn config(&self) -> (r: Option<BackendConfig>)
        requires
            self.wf(),
        ensures
            (r is Some) <==> self.phase() == Phase::Ready,
            r matches Some(c) ==> c.url@ == spec_loopback_url(self.current_port())
                && c.token@ == self.token_chars() && valid_token(c.token@),
    {
        if self.phase == Phase::Ready {
            Some(BackendConfig { url: loopback_url(self.port), token: self.token.clone() })
        } else {
            None
        }
    }

    /// Lifecycle phase, for the caller's loop.
    pub fn status(&self) -> (p: Phase)
        ensures
            p == self.phase(),
    {
        self.phase
    }

    /// Number of launch attempts started so far.
    pub fn attempts_used(&self) -> (n: usize)
        ensures
            n as int == self.attempts(),
    {
        self.attempt
    }

    /// Port of the current (or last) launch attempt.
    pub fn chosen_port(&self) -> (p: u16)
        ensures
            p == self.current_port(),
    {
        self.port
    }

    /// Whether another launch attempt may be started.
    pub fn can_retry(&self) -> (b: bool)
        ensures
            b == (self.phase() == Phase::Idle && self.attempts() < MAX_ATTEMPTS as int),
    {
        self.phase == Phase::Idle && self.attempt < MAX_ATTEMPTS
    }

    /// The last recorded error, surfaced to the caller after `Failed`.
    pub fn last_failure(&self) -> (r: &Option<SupervisorError>)
        ensures
            r == self.last_err(),
    {
        &self.last_error
    }
}

/// Law: stopping is idempotent.  A second shutdown request finds the
/// supervisor exactly as the first left it: phase `Stopped`, no owned
/// child, everything else untouched.
pub proof fn lemma_stop_idempotent(s: Supervisor)
    ensures
        Supervisor::spec_stop(Supervisor::spec_stop(s)) == Supervisor::spec_stop(s),
{
}

/// One spent attempt: begun on `port`, ended by a spawn failure recorded
/// with message `cause`.
pub open spec fn spec_failed_attempt(s: Supervisor, port: u16, cause: String) -> Supervisor {
    Supervisor::spec_spawn_failure(Supervisor::spec_begin_attempt(s, port), cause)
}

/// The supervisor after a run of spent attempts, one per element of
/// `steps`: each step's port and spawn-failure message in order.
pub open spec fn spec_failed_attempts(s: Supervisor, steps: Seq<(u16, String)>) -> Supervisor
    decreases steps.len(),
{
    if steps.len() == 0 {
        s
    } else {
        spec_failed_attempts(spec_failed_attempt(s, steps[0].0, steps[0].1), steps.drop_first())
    }
}

/// Law: when every spawn fails — as when the resolved launch spec points
/// at a program that does not exist — the supervisor never reaches
/// `Ready`, keeps its token, and once the attempt budget is spent it is
/// `Failed`.
pub proof fn lemma_spawn_failures_never_ready(s: Supervisor, steps: Seq<(u16, String)>)
    requires
        s.wf(),
        s.phase() == Phase::Idle,
        s.attempts() + steps.len() <= MAX_ATTEMPTS as int,
    ensures
        spec_failed_attempts(s, steps).wf(),
        spec_failed_attempts(s, steps).phase() != Phase::Ready,
        spec_failed_attempts(s, steps).token_chars() == s.token_chars(),
        steps.len() > 0 && s.attempts() + steps.len() == MAX_ATTEMPTS as int
            ==> spec_failed_attempts(s, steps).phase() == Phase::Failed,
    decreases steps.len(),
{
    if steps.len() > 0 {
        let s1 = spec_failed_attempt(s, steps[0].0, steps[0].1);
        if steps.len() == 1 {
            assert(spec_failed_attempts(s1, steps.drop_first()) == s1);
        } else {
            lemma_spawn_failures_never_ready(s1, steps.drop_first());
        }
    }
}

/// Law: a successful launch — an attempt begun on `port` whose spawn
/// succeeded and whose probe reported `Ready` — ends in `Ready` holding
/// that very port and the unchanged, well-formed token; `config` therefore
/// surfaces the loopback URL of the port the backend was told to bind and
/// a 32-character alphanumeric token.
pub proof fn lemma_successful_launch_config(s: Supervisor, port: u16)
    requires
        s.wf(),
        s.phase() == Phase::Idle,
        s.attempts() < MAX_ATTEMPTS as int,
    ensures
        ({
            let r = Supervisor::spec_probe_outcome(
                Supervisor::spec_spawn_success(Supervisor::spec_begin_attempt(s, port)),
                ProbeOutcome::Ready,
            );
            &&& r.wf()
            &&& r.phase() == Phase::Ready
            &&& r.current_port() == port
            &&& r.token_chars() == s.token_chars()
            &&& valid_token(r.token_chars())
        }),
{
}

} // verus!
