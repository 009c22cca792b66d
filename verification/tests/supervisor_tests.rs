use backend_supervisor::port::Mode;
use backend_supervisor::probe::{PollObservation, ProbeOutcome, ReadinessProbe, POLL_BUDGET};
use backend_supervisor::supervisor::{Phase, Supervisor, SupervisorError, MAX_ATTEMPTS};

fn is_alnum(c: char) -> bool {
    c.is_ascii_alphanumeric()
}

#[test]
fn successful_launch_config_has_port_and_token() {
    let mut s = Supervisor::new(Mode::Production);
    s.begin_attempt(4321);
    let env = s.launch_env();
    assert_eq!(env.port_value, "4321");
    s.on_spawn_success();
    s.on_probe_outcome(ProbeOutcome::Ready);
    assert_eq!(s.status(), Phase::Ready);
    let cfg = s.config().expect("ready supervisor must surface a config");
    assert_eq!(cfg.url, "http://127.0.0.1:4321");
    assert_eq!(cfg.token.len(), 32);
    assert!(cfg.token.chars().all(is_alnum));
    assert_eq!(cfg.token, env.token_value);
}

#[test]
fn config_absent_before_ready() {
    let mut s = Supervisor::new(Mode::Development);
    assert!(s.config().is_none());
    s.begin_attempt(6000);
    assert!(s.config().is_none());
    s.on_spawn_success();
    assert!(s.config().is_none());
}

#[test]
fn stop_is_idempotent() {
    let mut s = Supervisor::new(Mode::Production);
    // Stop without any successful (or even attempted) start.
    s.stop();
    assert_eq!(s.status(), Phase::Stopped);
    // Stop again: no error, state still Stopped.
    s.stop();
    assert_eq!(s.status(), Phase::Stopped);
    assert!(s.last_failure().is_none());
    assert!(s.config().is_none());
}

#[test]
fn stop_after_ready_clears_process() {
    let mut s = Supervisor::new(Mode::Production);
    s.begin_attempt(7777);
    s.on_spawn_success();
    s.on_probe_outcome(ProbeOutcome::Ready);
    s.stop();
    assert_eq!(s.status(), Phase::Stopped);
    s.stop();
    assert_eq!(s.status(), Phase::Stopped);
}

#[test]
fn spawn_failures_exhaust_attempts() {
    let mut s = Supervisor::new(Mode::Production);
    let mut attempts = 0usize;
    while s.can_retry() {
        s.begin_attempt(6100 + attempts as u16);
        assert_ne!(s.status(), Phase::Ready);
        s.on_spawn_failure("program not found".to_string());
        assert_ne!(s.status(), Phase::Ready);
        attempts += 1;
        assert!(attempts <= MAX_ATTEMPTS);
    }
    assert_eq!(attempts, MAX_ATTEMPTS);
    assert_eq!(s.attempts_used(), MAX_ATTEMPTS);
    assert_eq!(s.status(), Phase::Failed);
    match s.last_failure() {
        Some(SupervisorError::Spawn { cause }) => assert_eq!(cause, "program not found"),
        other => panic!("expected a spawn error, got {:?}", other),
    }
    assert!(s.config().is_none());
}

#[test]
fn resolution_failure_is_fatal_without_retry() {
    let mut s = Supervisor::new(Mode::Production);
    s.fail_resolution("backend source not found".to_string());
    assert_eq!(s.status(), Phase::Failed);
    assert!(!s.can_retry());
    assert_eq!(s.attempts_used(), 0);
    match s.last_failure() {
        Some(SupervisorError::Resolution { cause }) => {
            assert_eq!(cause, "backend source not found")
        }
        other => panic!("expected a resolution error, got {:?}", other),
    }
}

#[test]
fn exited_early_retries_with_fresh_port() {
    let mut s = Supervisor::new(Mode::Development);
    s.begin_attempt(6200);
    s.on_spawn_success();

    // The probe sees the child gone before its port opened.
    let mut probe = ReadinessProbe::new();
    let verdict = probe.observe(PollObservation::Exited { status: "exit status: 1".to_string() });
    assert_eq!(
        verdict,
        Some(ProbeOutcome::ExitedEarly { status: "exit status: 1".to_string() })
    );

    s.on_probe_outcome(verdict.unwrap());
    assert_eq!(s.status(), Phase::Idle);
    assert!(s.can_retry());
    match s.last_failure() {
        Some(SupervisorError::ExitedEarly { status }) => assert_eq!(status, "exit status: 1"),
        other => panic!("expected an early-exit error, got {:?}", other),
    }

    // The retry runs on a fresh port, not the failed one.
    s.begin_attempt(6201);
    assert_ne!(s.chosen_port(), 6200);
    assert_eq!(s.chosen_port(), 6201);
}

#[test]
fn ready_within_few_polls_returns_correct_pair() {
    let mut s = Supervisor::new(Mode::Production);
    s.begin_attempt(6300);
    s.on_spawn_success();

    let mut probe = ReadinessProbe::new();
    let mut polls = 0u32;
    let verdict = loop {
        polls += 1;
        // The mock backend opens its listener on the fourth poll.
        let obs = if polls < 4 { PollObservation::NotYetUp } else { PollObservation::Accepted };
        if let Some(v) = probe.observe(obs) {
            break v;
        }
    };
    assert!(polls < 5);
    assert_eq!(verdict, ProbeOutcome::Ready);

    s.on_probe_outcome(verdict);
    assert_eq!(s.status(), Phase::Ready);
    let cfg = s.config().expect("ready supervisor must surface a config");
    assert_eq!(cfg.url, "http://127.0.0.1:6300");
    assert_eq!(cfg.token.len(), 32);
}

#[test]
fn probe_times_out_when_budget_spent() {
    let mut probe = ReadinessProbe::new();
    for i in 1..=POLL_BUDGET {
        let r = probe.observe(PollObservation::NotYetUp);
        if i < POLL_BUDGET {
            assert!(r.is_none());
        } else {
            assert_eq!(r, Some(ProbeOutcome::TimedOut));
        }
    }
    assert_eq!(probe.budget_left(), 0);
}

#[test]
fn probe_fault_ends_probe_at_once() {
    let mut probe = ReadinessProbe::new();
    let r = probe.observe(PollObservation::Fault { cause: "permission denied".to_string() });
    assert_eq!(r, Some(ProbeOutcome::ProbeError { cause: "permission denied".to_string() }));
    // An unexpected fault spends no budget: it skips the remaining polls.
    assert_eq!(probe.budget_left(), POLL_BUDGET);
}

#[test]
fn timeout_and_probe_error_are_recorded_and_retried() {
    let mut s = Supervisor::new(Mode::Production);
    s.begin_attempt(6400);
    s.on_spawn_success();
    s.on_probe_outcome(ProbeOutcome::TimedOut);
    assert_eq!(s.status(), Phase::Idle);
    assert!(matches!(s.last_failure(), Some(SupervisorError::TimedOut)));

    s.begin_attempt(6401);
    s.on_spawn_success();
    s.on_probe_outcome(ProbeOutcome::ProbeError { cause: "invalid address".to_string() });
    assert_eq!(s.status(), Phase::Idle);
    match s.last_failure() {
        Some(SupervisorError::Probe { cause }) => assert_eq!(cause, "invalid address"),
        other => panic!("expected a probe error, got {:?}", other),
    }
}

#[test]
fn probe_failures_exhaust_attempts_to_failed() {
    let mut s = Supervisor::new(Mode::Production);
    while s.can_retry() {
        s.begin_attempt(6500);
        s.on_spawn_success();
        s.on_probe_outcome(ProbeOutcome::TimedOut);
        assert_ne!(s.status(), Phase::Ready);
    }
    assert_eq!(s.status(), Phase::Failed);
    assert_eq!(s.attempts_used(), MAX_ATTEMPTS);
    assert!(matches!(s.last_failure(), Some(SupervisorError::TimedOut)));
}

#[test]
fn two_supervisors_never_share_a_token() {
    // A restart builds a fresh supervisor; its token must be independent.
    for _ in 0..16 {
        let a = Supervisor::new(Mode::Production);
        let b = Supervisor::new(Mode::Production);
        assert_ne!(a.launch_env().token_value, b.launch_env().token_value);
    }
}

#[test]
fn generated_tokens_are_32_alphanumeric() {
    for _ in 0..64 {
        let t = backend_supervisor::token::generate_token();
        assert_eq!(t.len(), 32);
        assert!(t.chars().all(is_alnum));
    }
}
