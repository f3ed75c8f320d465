use kubectl_rsh::errors::RshError;
use kubectl_rsh::session::SessionAction;
use kubectl_rsh::session::SessionDriver;
use kubectl_rsh::session::SessionEvent;
use kubectl_rsh::session::SessionState;

#[test]
fn clean_session_restores_exactly_once() {
    let mut d = SessionDriver::new();
    assert_eq!(SessionAction::ProbeTerminal, d.step(SessionEvent::Start));
    assert_eq!(
        SessionAction::ApplyRawMode,
        d.step(SessionEvent::TerminalProbePassed)
    );
    assert_eq!(
        SessionAction::RunBranches,
        d.step(SessionEvent::RawModeApplied)
    );
    assert_eq!(
        SessionAction::RestoreTerminal,
        d.step(SessionEvent::BranchFinished(None))
    );
    assert_eq!(
        SessionAction::Report,
        d.step(SessionEvent::RestoreFinished(true))
    );
    assert_eq!(SessionState::Done, d.state);
    assert_eq!(1, d.restores_issued);
    assert!(d.primary_error.is_none());
    assert!(!d.restore_failed);
}

#[test]
fn failing_branch_still_restores_exactly_once() {
    let mut d = SessionDriver::new();
    d.step(SessionEvent::Start);
    d.step(SessionEvent::TerminalProbePassed);
    d.step(SessionEvent::RawModeApplied);
    assert_eq!(
        SessionAction::RestoreTerminal,
        d.step(SessionEvent::BranchFinished(Some(RshError::ChannelError)))
    );
    d.step(SessionEvent::RestoreFinished(true));
    assert_eq!(SessionState::Done, d.state);
    assert_eq!(1, d.restores_issued);
    assert_eq!(Some(RshError::ChannelError), d.primary_error);
}

#[test]
fn restore_failure_is_reported_beside_the_branch_error() {
    let mut d = SessionDriver::new();
    d.step(SessionEvent::Start);
    d.step(SessionEvent::TerminalProbePassed);
    d.step(SessionEvent::RawModeApplied);
    d.step(SessionEvent::BranchFinished(Some(
        RshError::SignalSubscriptionError,
    )));
    d.step(SessionEvent::RestoreFinished(false));
    assert_eq!(SessionState::Done, d.state);
    assert_eq!(Some(RshError::SignalSubscriptionError), d.primary_error);
    assert!(d.restore_failed);
}

#[test]
fn not_a_terminal_fails_before_any_mutation() {
    let mut d = SessionDriver::new();
    assert_eq!(SessionAction::ProbeTerminal, d.step(SessionEvent::Start));
    assert_eq!(
        SessionAction::Report,
        d.step(SessionEvent::TerminalProbeFailed)
    );
    assert_eq!(SessionState::Done, d.state);
    assert_eq!(Some(RshError::NotATerminal), d.primary_error);
    assert!(!d.raw_mode_applied);
    assert_eq!(0, d.restores_issued);
}

#[test]
fn raw_mode_failure_skips_the_restore() {
    let mut d = SessionDriver::new();
    d.step(SessionEvent::Start);
    d.step(SessionEvent::TerminalProbePassed);
    assert_eq!(SessionAction::Report, d.step(SessionEvent::RawModeFailed));
    assert_eq!(SessionState::Done, d.state);
    assert_eq!(Some(RshError::TerminalConfigError), d.primary_error);
    assert_eq!(0, d.restores_issued);
}
