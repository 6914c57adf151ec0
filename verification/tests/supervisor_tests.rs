use recipe_core::backoff::BackoffPolicy;
use recipe_core::outcome::{AttemptExit, AttemptOutcome, ErrorCondition, FatalRule, JobOutcome};
use recipe_core::supervisor::{ControlCommand, Phase, Supervisor, SupervisorAction, SupervisorEvent};

fn policy() -> BackoffPolicy {
    BackoffPolicy::new(100, 1000, 60_000).expect("bounds are in order")
}

fn supervisor() -> Supervisor {
    Supervisor::new(String::from("queue"), policy(), FatalRule::none())
}

fn transient(ran_for_ms: u64) -> SupervisorEvent {
    SupervisorEvent::AttemptEnded {
        exit: AttemptExit::Returned(AttemptOutcome::Transient(ErrorCondition::Connection)),
        ran_for_ms,
    }
}

fn ended(outcome: AttemptOutcome) -> SupervisorEvent {
    SupervisorEvent::AttemptEnded { exit: AttemptExit::Returned(outcome), ran_for_ms: 0 }
}

#[test]
fn policy_needs_ordered_bounds() {
    assert!(BackoffPolicy::new(2, 1, 0).is_none());
    assert!(BackoffPolicy::new(1, 1, 0).is_some());
    assert!(BackoffPolicy::new(0, 0, 0).is_some());
    let policy = policy();
    assert_eq!(policy.min_delay_ms(), 100);
    assert_eq!(policy.max_delay_ms(), 1000);
    assert_eq!(policy.reset_after_ms(), 60_000);
}

#[test]
fn next_delay_doubles_up_to_the_cap() {
    let policy = policy();
    assert_eq!(policy.next_delay(100), 200);
    assert_eq!(policy.next_delay(200), 400);
    assert_eq!(policy.next_delay(400), 800);
    assert_eq!(policy.next_delay(500), 1000);
    assert_eq!(policy.next_delay(800), 1000);
    assert_eq!(policy.next_delay(1000), 1000);
    assert_eq!(policy.next_delay(u64::MAX), 1000);
    assert_eq!(policy.next_delay(0), 100);
    assert_eq!(policy.next_delay(49), 100);
    assert_eq!(policy.next_delay(50), 100);
}

#[test]
fn next_delay_at_the_largest_bounds() {
    let policy = BackoffPolicy::new(1, u64::MAX, 0).expect("bounds are in order");
    assert_eq!(policy.next_delay(u64::MAX / 2), u64::MAX - 1);
    assert_eq!(policy.next_delay(u64::MAX / 2 + 1), u64::MAX);
    assert_eq!(policy.next_delay(u64::MAX), u64::MAX);
}

#[test]
fn restart_delay_resets_after_a_sustained_run() {
    let policy = policy();
    assert_eq!(policy.restart_delay(800, 59_999), 800);
    assert_eq!(policy.restart_delay(800, 60_000), 100);
    assert_eq!(policy.restart_delay(800, u64::MAX), 100);
}

#[test]
fn job_fails_twice_then_succeeds() {
    let mut job = supervisor();
    assert_eq!(job.phase(), Phase::Starting);
    assert_eq!(job.step(SupervisorEvent::Launch), SupervisorAction::Start { attempt: 1 });
    assert_eq!(job.phase(), Phase::Running);

    let mut restarts = 0;
    let first = job.step(transient(10));
    assert_eq!(
        first,
        SupervisorAction::Backoff {
            delay_ms: 100,
            restart: 1,
            attempt: 1,
            cause: ErrorCondition::Connection
        }
    );
    restarts += 1;
    assert_eq!(job.phase(), Phase::Restarting);
    assert_eq!(job.step(SupervisorEvent::BackoffElapsed), SupervisorAction::Start { attempt: 2 });

    let second = job.step(transient(10));
    assert_eq!(
        second,
        SupervisorAction::Backoff {
            delay_ms: 200,
            restart: 2,
            attempt: 2,
            cause: ErrorCondition::Connection
        }
    );
    restarts += 1;
    assert_eq!(job.step(SupervisorEvent::BackoffElapsed), SupervisorAction::Start { attempt: 3 });
    assert_eq!(job.phase(), Phase::Running);

    let last = job.step(ended(AttemptOutcome::Success));
    assert_eq!(
        last,
        SupervisorAction::Finish {
            outcome: JobOutcome::Completed,
            attempts: 3,
            cancel_attempt: false
        }
    );
    assert_eq!(restarts, 2);
    assert_eq!(job.restarts(), 2);
    assert_eq!(job.attempts(), 3);
    assert_eq!(job.phase(), Phase::Stopped(JobOutcome::Completed));
    assert_eq!(job.outcome(), Some(JobOutcome::Completed));
    assert_eq!(job.name(), "queue");
}

#[test]
fn delays_never_shrink_and_stop_at_the_cap() {
    let mut job = supervisor();
    job.step(SupervisorEvent::Launch);
    let mut delays = Vec::new();
    for _ in 0..8 {
        match job.step(transient(1)) {
            SupervisorAction::Backoff { delay_ms, .. } => delays.push(delay_ms),
            other => panic!("expected a restart, got {:?}", other),
        }
        assert!(matches!(job.step(SupervisorEvent::BackoffElapsed), SupervisorAction::Start { .. }));
    }
    assert_eq!(delays, vec![100, 200, 400, 800, 1000, 1000, 1000, 1000]);
}

#[test]
fn delay_resets_to_the_minimum_after_a_sustained_run() {
    let mut job = supervisor();
    job.step(SupervisorEvent::Launch);
    for expected in [100u64, 200, 400] {
        match job.step(transient(5)) {
            SupervisorAction::Backoff { delay_ms, .. } => assert_eq!(delay_ms, expected),
            other => panic!("expected a restart, got {:?}", other),
        }
        job.step(SupervisorEvent::BackoffElapsed);
    }
    match job.step(transient(60_000)) {
        SupervisorAction::Backoff { delay_ms, restart, .. } => {
            assert_eq!(delay_ms, 100);
            assert_eq!(restart, 4);
        }
        other => panic!("expected a restart, got {:?}", other),
    }
    job.step(SupervisorEvent::BackoffElapsed);
    match job.step(transient(5)) {
        SupervisorAction::Backoff { delay_ms, .. } => assert_eq!(delay_ms, 200),
        other => panic!("expected a restart, got {:?}", other),
    }
}

#[test]
fn fatal_failure_is_reported_once_and_never_restarted() {
    let mut job = supervisor();
    job.step(SupervisorEvent::Launch);
    let action = job.step(ended(AttemptOutcome::Fatal(ErrorCondition::InvalidCredentials)));
    assert_eq!(
        action,
        SupervisorAction::Finish {
            outcome: JobOutcome::Failed(ErrorCondition::InvalidCredentials),
            attempts: 1,
            cancel_attempt: false
        }
    );
    let later = [
        SupervisorEvent::BackoffElapsed,
        SupervisorEvent::Launch,
        transient(1),
        ended(AttemptOutcome::Fatal(ErrorCondition::Other)),
        ended(AttemptOutcome::Success),
        SupervisorEvent::Command(ControlCommand::Resume),
        SupervisorEvent::Command(ControlCommand::Pause),
        SupervisorEvent::Command(ControlCommand::Stop),
    ];
    for event in later {
        assert_eq!(job.step(event), SupervisorAction::Idle);
        assert_eq!(job.phase(), Phase::Stopped(JobOutcome::Failed(ErrorCondition::InvalidCredentials)));
    }
    assert_eq!(job.attempts(), 1);
    assert_eq!(job.restarts(), 0);
}

#[test]
fn abnormal_end_is_transient_unless_the_rule_says_fatal() {
    let rule = FatalRule::new(vec![ErrorCondition::InvalidCredentials, ErrorCondition::Configuration]);
    assert!(rule.is_fatal(ErrorCondition::InvalidCredentials));
    assert!(rule.is_fatal(ErrorCondition::Configuration));
    assert!(!rule.is_fatal(ErrorCondition::Timeout));
    assert!(!FatalRule::none().is_fatal(ErrorCondition::InvalidCredentials));
    assert_eq!(
        rule.classify(AttemptExit::Aborted(ErrorCondition::Aborted)),
        AttemptOutcome::Transient(ErrorCondition::Aborted)
    );
    assert_eq!(
        rule.classify(AttemptExit::Aborted(ErrorCondition::Configuration)),
        AttemptOutcome::Fatal(ErrorCondition::Configuration)
    );
    assert_eq!(
        rule.classify(AttemptExit::Returned(AttemptOutcome::Transient(ErrorCondition::Configuration))),
        AttemptOutcome::Transient(ErrorCondition::Configuration)
    );
    assert_eq!(rule.classify(AttemptExit::Returned(AttemptOutcome::Success)), AttemptOutcome::Success);

    let mut job = Supervisor::new(String::from("search"), policy(), rule);
    job.step(SupervisorEvent::Launch);
    let action = job.step(SupervisorEvent::AttemptEnded {
        exit: AttemptExit::Aborted(ErrorCondition::Timeout),
        ran_for_ms: 3,
    });
    assert_eq!(
        action,
        SupervisorAction::Backoff { delay_ms: 100, restart: 1, attempt: 1, cause: ErrorCondition::Timeout }
    );
    job.step(SupervisorEvent::BackoffElapsed);
    let action = job.step(SupervisorEvent::AttemptEnded {
        exit: AttemptExit::Aborted(ErrorCondition::InvalidCredentials),
        ran_for_ms: 3,
    });
    assert_eq!(
        action,
        SupervisorAction::Finish {
            outcome: JobOutcome::Failed(ErrorCondition::InvalidCredentials),
            attempts: 2,
            cancel_attempt: false
        }
    );
}

#[test]
fn stop_cancels_the_attempt_in_flight() {
    let mut job = supervisor();
    job.step(SupervisorEvent::Launch);
    let action = job.step(SupervisorEvent::Command(ControlCommand::Stop));
    assert_eq!(
        action,
        SupervisorAction::Finish { outcome: JobOutcome::Cancelled, attempts: 1, cancel_attempt: true }
    );
    assert_eq!(job.step(transient(1)), SupervisorAction::Idle);
    assert_eq!(job.outcome(), Some(JobOutcome::Cancelled));
}

#[test]
fn stop_during_backoff_prevents_the_restart() {
    let mut job = supervisor();
    job.step(SupervisorEvent::Launch);
    job.step(transient(1));
    let action = job.step(SupervisorEvent::Command(ControlCommand::Stop));
    assert_eq!(
        action,
        SupervisorAction::Finish { outcome: JobOutcome::Cancelled, attempts: 1, cancel_attempt: false }
    );
    assert_eq!(job.step(SupervisorEvent::BackoffElapsed), SupervisorAction::Idle);
    assert_eq!(job.attempts(), 1);
}

#[test]
fn stop_before_launch() {
    let mut job = supervisor();
    let action = job.step(SupervisorEvent::Command(ControlCommand::Stop));
    assert_eq!(
        action,
        SupervisorAction::Finish { outcome: JobOutcome::Cancelled, attempts: 0, cancel_attempt: false }
    );
    assert_eq!(job.step(SupervisorEvent::Launch), SupervisorAction::Idle);
}

#[test]
fn pause_holds_the_restart_until_resume() {
    let mut job = supervisor();
    job.step(SupervisorEvent::Launch);
    assert_eq!(job.step(SupervisorEvent::Command(ControlCommand::Pause)), SupervisorAction::Idle);
    assert!(job.is_paused());
    assert_eq!(job.phase(), Phase::Running);
    assert!(matches!(job.step(transient(1)), SupervisorAction::Backoff { delay_ms: 100, .. }));
    assert_eq!(job.step(SupervisorEvent::BackoffElapsed), SupervisorAction::Idle);
    assert_eq!(job.phase(), Phase::Restarting);
    assert_eq!(job.step(SupervisorEvent::BackoffElapsed), SupervisorAction::Idle);
    assert_eq!(
        job.step(SupervisorEvent::Command(ControlCommand::Resume)),
        SupervisorAction::Start { attempt: 2 }
    );
    assert!(!job.is_paused());
    assert_eq!(job.phase(), Phase::Running);
    assert_eq!(job.step(SupervisorEvent::Command(ControlCommand::Resume)), SupervisorAction::Idle);
}

#[test]
fn pause_before_launch_holds_the_first_attempt() {
    let mut job = supervisor();
    job.step(SupervisorEvent::Command(ControlCommand::Pause));
    assert_eq!(job.step(SupervisorEvent::Launch), SupervisorAction::Idle);
    assert_eq!(job.phase(), Phase::Starting);
    assert_eq!(
        job.step(SupervisorEvent::Command(ControlCommand::Resume)),
        SupervisorAction::Start { attempt: 1 }
    );
}

#[test]
fn resume_during_backoff_does_not_skip_the_delay() {
    let mut job = supervisor();
    job.step(SupervisorEvent::Launch);
    job.step(transient(1));
    job.step(SupervisorEvent::Command(ControlCommand::Pause));
    assert_eq!(job.step(SupervisorEvent::Command(ControlCommand::Resume)), SupervisorAction::Idle);
    assert_eq!(job.phase(), Phase::Restarting);
    assert_eq!(job.step(SupervisorEvent::BackoffElapsed), SupervisorAction::Start { attempt: 2 });
}

#[test]
fn events_out_of_place_are_ignored() {
    let mut job = supervisor();
    assert_eq!(job.step(SupervisorEvent::BackoffElapsed), SupervisorAction::Idle);
    assert_eq!(job.step(transient(1)), SupervisorAction::Idle);
    assert_eq!(job.phase(), Phase::Starting);
    job.step(SupervisorEvent::Launch);
    assert_eq!(job.step(SupervisorEvent::Launch), SupervisorAction::Idle);
    assert_eq!(job.step(SupervisorEvent::BackoffElapsed), SupervisorAction::Idle);
    assert_eq!(job.attempts(), 1);
    assert_eq!(job.phase(), Phase::Running);
}

#[test]
fn zero_delay_policy_restarts_without_delay() {
    let policy = BackoffPolicy::new(0, 0, 10).expect("bounds are in order");
    let mut job = Supervisor::new(String::from("server"), policy, FatalRule::none());
    job.step(SupervisorEvent::Launch);
    for restart in 1..=3u64 {
        assert_eq!(
            job.step(transient(1)),
            SupervisorAction::Backoff {
                delay_ms: 0,
                restart,
                attempt: restart,
                cause: ErrorCondition::Connection
            }
        );
        job.step(SupervisorEvent::BackoffElapsed);
    }
}
