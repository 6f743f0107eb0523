use goose_agent_core::agent_loop::{
    AgentLoopControl, AgentLoopControlDecision, AgentLoopOptions, AgentLoopRetrySpec,
    AgentLoopRunner, AgentLoopSessionSpec, AgentLoopTurnLimit, LoopRunnerAction,
    DEFAULT_AGENT_LOOP_MAX_TURNS,
};
use goose_agent_core::provider_retry::ProviderRetryPolicy;
use tokio_util::sync::CancellationToken;

#[test]
fn lib_loop_control_tracks_turn_budget() {
    let mut control = AgentLoopControl::new(2, None);

    assert_eq!(control.begin_turn(true), AgentLoopControlDecision::Continue);
    assert_eq!(control.turns_taken(), 1);
    assert_eq!(control.begin_turn(true), AgentLoopControlDecision::Continue);
    assert_eq!(control.turns_taken(), 2);
    assert_eq!(
        control.begin_turn(true),
        AgentLoopControlDecision::MaxTurnsReached
    );
    assert_eq!(control.turns_taken(), 3);
}

#[test]
fn lib_loop_control_can_skip_turn_increment_for_retries() {
    let mut control = AgentLoopControl::new(1, None);

    assert_eq!(
        control.begin_turn(false),
        AgentLoopControlDecision::Continue
    );
    assert_eq!(control.turns_taken(), 0);
    assert_eq!(control.begin_turn(true), AgentLoopControlDecision::Continue);
    assert_eq!(
        control.begin_turn(true),
        AgentLoopControlDecision::MaxTurnsReached
    );
}

#[test]
fn lib_loop_control_reports_cancellation_before_incrementing() {
    let token = CancellationToken::new();
    token.cancel();
    let mut control = AgentLoopControl::new(2, Some(token));

    assert_eq!(
        control.begin_turn(true),
        AgentLoopControlDecision::Cancelled
    );
    assert_eq!(control.turns_taken(), 0);
}

#[test]
fn lib_turn_limit_prefers_explicit_then_configured_then_default() {
    assert_eq!(
        AgentLoopTurnLimit::new(Some(5))
            .with_configured_max_turns(Some(10))
            .with_default_max_turns(20)
            .resolve(),
        5
    );
    assert_eq!(
        AgentLoopTurnLimit::new(None)
            .with_configured_max_turns(Some(10))
            .with_default_max_turns(20)
            .resolve(),
        10
    );
    assert_eq!(
        AgentLoopTurnLimit::new(None)
            .with_configured_max_turns(None)
            .with_default_max_turns(20)
            .resolve(),
        20
    );
}

#[test]
fn lib_turn_limit_default_matches_goose_loop_default() {
    assert_eq!(
        AgentLoopTurnLimit::new(None).resolve(),
        DEFAULT_AGENT_LOOP_MAX_TURNS
    );
}

#[test]
fn lib_builds_session_spec_from_loop_options() {
    let options = AgentLoopOptions {
        max_turns: Some(7),
        retry: ProviderRetryPolicy {
            max_attempts: 3,
            retry_transient_errors: true,
            timeout_seconds: Some(60),
        },
    };

    let spec = options.session_spec("session-1");

    assert_eq!(
        spec,
        AgentLoopSessionSpec {
            runtime_session_id: "session-1".to_string(),
            max_turns: Some(7),
            retry: Some(AgentLoopRetrySpec {
                max_retries: 2,
                timeout_seconds: Some(60),
            }),
        }
    );
}

#[test]
fn lib_omits_retry_spec_when_provider_retry_policy_does_not_retry() {
    let policy = ProviderRetryPolicy {
        max_attempts: 1,
        retry_transient_errors: true,
        timeout_seconds: Some(60),
    };

    assert_eq!(
        AgentLoopRetrySpec::from_provider_retry_policy(&policy),
        None
    );
}

#[test]
fn tests_loop_control_tracks_turn_budget() {
    let mut control = AgentLoopControl::new(2, None);

    assert_eq!(control.begin_turn(true), AgentLoopControlDecision::Continue);
    assert_eq!(control.turns_taken(), 1);
    assert_eq!(control.begin_turn(true), AgentLoopControlDecision::Continue);
    assert_eq!(control.turns_taken(), 2);
    assert_eq!(
        control.begin_turn(true),
        AgentLoopControlDecision::MaxTurnsReached
    );
    assert_eq!(control.turns_taken(), 3);
}

#[test]
fn tests_loop_control_can_skip_turn_increment_for_retries() {
    let mut control = AgentLoopControl::new(1, None);

    assert_eq!(
        control.begin_turn(false),
        AgentLoopControlDecision::Continue
    );
    assert_eq!(control.turns_taken(), 0);
    assert_eq!(control.begin_turn(true), AgentLoopControlDecision::Continue);
    assert_eq!(
        control.begin_turn(true),
        AgentLoopControlDecision::MaxTurnsReached
    );
}

#[test]
fn tests_loop_control_reports_cancellation_before_incrementing() {
    let token = CancellationToken::new();
    token.cancel();
    let mut control = AgentLoopControl::new(2, Some(token));

    assert_eq!(
        control.begin_turn(true),
        AgentLoopControlDecision::Cancelled
    );
    assert_eq!(control.turns_taken(), 0);
}

#[test]
fn tests_turn_limit_prefers_explicit_then_configured_then_default() {
    assert_eq!(
        AgentLoopTurnLimit::new(Some(5))
            .with_configured_max_turns(Some(10))
            .with_default_max_turns(20)
            .resolve(),
        5
    );
    assert_eq!(
        AgentLoopTurnLimit::new(None)
            .with_configured_max_turns(Some(10))
            .with_default_max_turns(20)
            .resolve(),
        10
    );
    assert_eq!(
        AgentLoopTurnLimit::new(None)
            .with_configured_max_turns(None)
            .with_default_max_turns(20)
            .resolve(),
        20
    );
}

#[test]
fn tests_turn_limit_default_matches_goose_loop_default() {
    assert_eq!(
        AgentLoopTurnLimit::new(None).resolve(),
        DEFAULT_AGENT_LOOP_MAX_TURNS
    );
}

#[test]
fn tests_builds_session_spec_from_loop_options() {
    let options = AgentLoopOptions {
        max_turns: Some(7),
        retry: ProviderRetryPolicy {
            max_attempts: 3,
            retry_transient_errors: true,
            timeout_seconds: Some(60),
        },
    };

    let spec = options.session_spec("session-1");

    assert_eq!(
        spec,
        AgentLoopSessionSpec {
            runtime_session_id: "session-1".to_string(),
            max_turns: Some(7),
            retry: Some(AgentLoopRetrySpec {
                max_retries: 2,
                timeout_seconds: Some(60),
            }),
        }
    );
}

#[test]
fn tests_omits_retry_spec_when_provider_retry_policy_does_not_retry() {
    let policy = ProviderRetryPolicy {
        max_attempts: 1,
        retry_transient_errors: true,
        timeout_seconds: Some(60),
    };

    assert_eq!(
        AgentLoopRetrySpec::from_provider_retry_policy(&policy),
        None
    );
}

#[test]
fn uncancelled_token_lets_turns_continue() {
    let token = CancellationToken::new();
    let mut control = AgentLoopControl::new(1, Some(token.clone()));

    assert!(!control.is_cancelled());
    assert_eq!(control.begin_turn(true), AgentLoopControlDecision::Continue);
    token.cancel();
    assert!(control.is_cancelled());
    assert_eq!(control.begin_turn(true), AgentLoopControlDecision::Cancelled);
    assert_eq!(control.turns_taken(), 1);
    assert_eq!(control.max_turns(), 1);
}

#[test]
fn observed_cancellation_leaves_count_alone() {
    let mut control = AgentLoopControl::new(0, None);

    assert_eq!(
        control.begin_turn_observing(true, true),
        AgentLoopControlDecision::Cancelled
    );
    assert_eq!(control.turns_taken(), 0);
    assert_eq!(
        control.begin_turn_observing(false, false),
        AgentLoopControlDecision::Continue
    );
    assert_eq!(
        control.begin_turn_observing(false, true),
        AgentLoopControlDecision::MaxTurnsReached
    );
    assert_eq!(control.turns_taken(), 1);
}

#[test]
fn turn_count_saturates_at_the_largest_count() {
    let mut control = AgentLoopControl::new(u32::MAX, None);
    for _ in 0..3 {
        control.begin_turn(false);
    }
    assert_eq!(control.turns_taken(), 0);
    assert_eq!(AgentLoopTurnLimit::default().resolve(), 1000);
    assert_eq!(
        AgentLoopTurnLimit::new(None).with_configured_max_turns(Some(0)).resolve(),
        0
    );
}

#[test]
fn retry_spec_requires_transient_retries_and_more_than_one_attempt() {
    let no_transient = ProviderRetryPolicy {
        max_attempts: 4,
        retry_transient_errors: false,
        timeout_seconds: None,
    };
    assert_eq!(AgentLoopRetrySpec::from_provider_retry_policy(&no_transient), None);

    let zero = ProviderRetryPolicy {
        max_attempts: 0,
        retry_transient_errors: true,
        timeout_seconds: None,
    };
    assert_eq!(AgentLoopRetrySpec::from_provider_retry_policy(&zero), None);

    let two = ProviderRetryPolicy {
        max_attempts: 2,
        retry_transient_errors: true,
        timeout_seconds: Some(5),
    };
    assert_eq!(
        AgentLoopRetrySpec::from_provider_retry_policy(&two),
        Some(AgentLoopRetrySpec {
            max_retries: 1,
            timeout_seconds: Some(5),
        })
    );
}

#[test]
fn default_loop_options_allow_twelve_turns_and_no_retry() {
    let options = AgentLoopOptions::default();
    let spec = options.session_spec("s");

    assert_eq!(spec.max_turns, Some(12));
    assert_eq!(spec.retry, None);
    assert_eq!(spec.runtime_session_id, "s");
}

fn retrying_options() -> AgentLoopOptions {
    AgentLoopOptions {
        max_turns: Some(7),
        retry: ProviderRetryPolicy {
            max_attempts: 3,
            retry_transient_errors: true,
            timeout_seconds: Some(60),
        },
    }
}

#[test]
fn runner_applies_policies_before_running_the_source_loop() {
    let mut runner = AgentLoopRunner::new("session-1".to_string(), retrying_options());

    assert!(matches!(runner.step(true), LoopRunnerAction::ApplyPromptPolicy));
    assert!(matches!(runner.step(true), LoopRunnerAction::EnforceToolPolicy));
    match runner.step(true) {
        LoopRunnerAction::RunSourceLoop(spec) => assert_eq!(
            spec,
            AgentLoopSessionSpec {
                runtime_session_id: "session-1".to_string(),
                max_turns: Some(7),
                retry: Some(AgentLoopRetrySpec {
                    max_retries: 2,
                    timeout_seconds: Some(60),
                }),
            }
        ),
        action => panic!("unexpected action: {action:?}"),
    }
    assert!(matches!(runner.step(true), LoopRunnerAction::Finish));
    assert!(matches!(runner.step(true), LoopRunnerAction::Nothing));
}

#[test]
fn runner_stops_at_the_first_failure() {
    let mut runner = AgentLoopRunner::new("session-1".to_string(), AgentLoopOptions::default());
    assert!(matches!(runner.step(true), LoopRunnerAction::ApplyPromptPolicy));
    assert!(matches!(runner.step(false), LoopRunnerAction::Fail));
    assert!(matches!(runner.step(true), LoopRunnerAction::Nothing));

    let mut runner = AgentLoopRunner::new("session-2".to_string(), AgentLoopOptions::default());
    runner.step(true);
    runner.step(true);
    assert!(matches!(runner.step(false), LoopRunnerAction::Fail));
    assert!(matches!(runner.step(true), LoopRunnerAction::Nothing));
}
