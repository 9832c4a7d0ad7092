//! The foreground controller's decision rules.

use minit::foreground::{
    plan_after_pgroup, resolve_foreground_outcome, ForegroundError, ForegroundPlan, TcsetOutcome,
    TtyProbe,
};

#[test]
fn no_terminal_finishes_setup_successfully() {
    // Without a controlling terminal, nothing beyond process-group
    // creation is attempted.
    assert_eq!(plan_after_pgroup(&TtyProbe::NoTty), ForegroundPlan::Finished);
}

#[test]
fn an_open_terminal_is_claimed_as_foreground() {
    assert_eq!(
        plan_after_pgroup(&TtyProbe::Tty { fd: 3 }),
        ForegroundPlan::SetForeground { fd: 3 }
    );
}

#[test]
fn expected_terminal_absences_are_tolerated() {
    assert_eq!(resolve_foreground_outcome(&TcsetOutcome::Success), Ok(()));
    assert_eq!(resolve_foreground_outcome(&TcsetOutcome::NoTerminal), Ok(()));
    assert_eq!(resolve_foreground_outcome(&TcsetOutcome::NoDevice), Ok(()));
}

#[test]
fn other_foreground_failures_are_fatal() {
    assert_eq!(
        resolve_foreground_outcome(&TcsetOutcome::OtherError { errno: 13 }),
        Err(ForegroundError::ForegroundFailed { errno: 13 })
    );
}
