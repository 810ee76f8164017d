//! How a session's status settles a turn.

use laplus::settling::SessionStatus;
use laplus::settling::TurnState;

#[test]
fn the_rule_matches_upstreams_two_copies() {
    let upstream: &[(SessionStatus, Option<TurnState>)] = &[
        (SessionStatus::Idle, Some(TurnState::Completed)),
        (SessionStatus::Ready, Some(TurnState::Completed)),
        (SessionStatus::Error, Some(TurnState::Error)),
        (SessionStatus::Interrupted, Some(TurnState::Interrupted)),
        (SessionStatus::Stopped, Some(TurnState::Interrupted)),
        (SessionStatus::Starting, None),
        (SessionStatus::Running, None),
    ];

    for (status, settled) in upstream {
        assert_eq!(
            status.settles_turn_as(),
            *settled,
            "{} settles a running turn differently",
            status.as_str()
        );
    }
}

#[test]
fn every_contract_status_is_covered() {
    let all = [
        SessionStatus::Idle,
        SessionStatus::Starting,
        SessionStatus::Running,
        SessionStatus::Ready,
        SessionStatus::Interrupted,
        SessionStatus::Stopped,
        SessionStatus::Error,
    ];
    assert_eq!(all.len(), 7);
    for status in all {
        let _ = status.settles_turn_as();
        assert!(
            ["idle", "starting", "running", "ready", "interrupted", "stopped", "error"].contains(&status.as_str()),
            "{} is not a contract literal",
            status.as_str()
        );
    }
}

#[test]
fn settling_never_produces_a_running_turn() {
    for status in [
        SessionStatus::Idle,
        SessionStatus::Starting,
        SessionStatus::Running,
        SessionStatus::Ready,
        SessionStatus::Interrupted,
        SessionStatus::Stopped,
        SessionStatus::Error,
    ] {
        assert_ne!(status.settles_turn_as(), Some(TurnState::Running));
    }
}

#[test]
fn an_agent_is_working_exactly_while_no_turn_has_settled() {
    for status in [
        SessionStatus::Idle,
        SessionStatus::Starting,
        SessionStatus::Running,
        SessionStatus::Ready,
        SessionStatus::Interrupted,
        SessionStatus::Stopped,
        SessionStatus::Error,
    ] {
        assert_eq!(
            status.is_working(),
            status.settles_turn_as().is_none(),
            "{} is read as working by one rule and not the other",
            status.as_str()
        );
    }
}

#[test]
fn a_stored_turn_state_round_trips() {
    for state in [TurnState::Running, TurnState::Completed, TurnState::Interrupted, TurnState::Error] {
        assert_eq!(TurnState::from_stored(state.as_str()), state);
    }
}

#[test]
fn a_turn_state_this_build_cannot_read_is_an_error_rather_than_a_success() {
    assert_eq!(TurnState::from_stored("snoozed"), TurnState::Error);
    assert_eq!(TurnState::from_stored(""), TurnState::Error);
}
