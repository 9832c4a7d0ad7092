//! The supervisor's decision core: signal classification, the step
//! rule over iteration events, and the sweep decision rule.

use minit::reaper::{sweep_outcomes, ReapError, WaitOutcome};
use minit::supervisor::{
    classify_signal, supervise_step, IterationEvent, SignalVerdict, SupervisorState,
    SIGCHLD_SIGNO,
};

#[test]
fn sigchld_number_matches_the_signal_crate() {
    assert_eq!(nix::sys::signal::Signal::SIGCHLD as i32, SIGCHLD_SIGNO);
}

#[test]
fn child_termination_signal_means_reap() {
    assert_eq!(classify_signal(SIGCHLD_SIGNO), SignalVerdict::ReapChildren);
}

#[test]
fn other_signals_are_forwarded_unmodified() {
    assert_eq!(
        classify_signal(15),
        SignalVerdict::ForwardToChild { sig: 15 }
    );
    assert_eq!(classify_signal(1), SignalVerdict::ForwardToChild { sig: 1 });
}

#[test]
fn primary_exit_terminates_without_any_forward() {
    // The configured command was spawned; its termination signal
    // arrives, the sweep collects its identity, and the loop ends.
    let primary = 4242;
    let ev = IterationEvent::ChildEvent {
        reaped: vec![primary],
    };
    let (state, forward) = supervise_step(primary, SupervisorState::Supervising, &ev);
    assert_eq!(state, SupervisorState::Terminated);
    assert_eq!(forward, None);
}

#[test]
fn unrelated_signal_is_forwarded_and_supervision_goes_on() {
    let primary = 4242;
    let ev = IterationEvent::Unrelated { sig: 15 };
    let (state, forward) = supervise_step(primary, SupervisorState::Supervising, &ev);
    assert_eq!(state, SupervisorState::Supervising);
    assert_eq!(forward, Some(15));
}

#[test]
fn non_primary_exit_keeps_supervising() {
    // Two descendants exist and only the non-primary one exits: the
    // sweep returns its identity and the loop does not transition.
    let primary = 4242;
    let other = 4300;
    let outcomes = vec![WaitOutcome::Reaped { pid: other }, WaitOutcome::NothingReady];
    let reaped = sweep_outcomes(&outcomes).unwrap();
    assert_eq!(reaped, vec![other]);
    let ev = IterationEvent::ChildEvent { reaped };
    let (state, forward) = supervise_step(primary, SupervisorState::Supervising, &ev);
    assert_eq!(state, SupervisorState::Supervising);
    assert_eq!(forward, None);
}

#[test]
fn failed_read_changes_nothing() {
    let (state, forward) =
        supervise_step(7, SupervisorState::Supervising, &IterationEvent::ReadFailed);
    assert_eq!(state, SupervisorState::Supervising);
    assert_eq!(forward, None);
}

#[test]
fn failed_sweep_changes_nothing() {
    let (state, forward) = supervise_step(
        7,
        SupervisorState::Supervising,
        &IterationEvent::ChildEventFailed,
    );
    assert_eq!(state, SupervisorState::Supervising);
    assert_eq!(forward, None);
}

#[test]
fn terminated_stays_terminated() {
    let (state, forward) = supervise_step(
        7,
        SupervisorState::Terminated,
        &IterationEvent::Unrelated { sig: 9 },
    );
    assert_eq!(state, SupervisorState::Terminated);
    assert_eq!(forward, None);
}

#[test]
fn sweep_with_nothing_ready_is_empty() {
    // Nothing has terminated: the sweep returns an empty sequence, and
    // doing it again returns an empty sequence again.
    let outcomes = vec![WaitOutcome::NothingReady];
    assert_eq!(sweep_outcomes(&outcomes).unwrap(), Vec::<i32>::new());
    assert_eq!(sweep_outcomes(&outcomes).unwrap(), Vec::<i32>::new());
}

#[test]
fn sweep_with_no_children_is_empty_not_an_error() {
    let outcomes = vec![WaitOutcome::NoChildren];
    assert_eq!(sweep_outcomes(&outcomes).unwrap(), Vec::<i32>::new());
}

#[test]
fn sweep_collects_in_order_until_the_stop() {
    let outcomes = vec![
        WaitOutcome::Reaped { pid: 9 },
        WaitOutcome::OtherStatus,
        WaitOutcome::Reaped { pid: 11 },
        WaitOutcome::NothingReady,
        WaitOutcome::Reaped { pid: 13 },
    ];
    assert_eq!(sweep_outcomes(&outcomes).unwrap(), vec![9, 11]);
}

#[test]
fn sweep_surfaces_an_unexpected_failure() {
    let outcomes = vec![WaitOutcome::Reaped { pid: 9 }, WaitOutcome::Failed { errno: 5 }];
    assert_eq!(sweep_outcomes(&outcomes), Err(ReapError { errno: 5 }));
}

#[test]
fn sleep_scenario_run() {
    // Config {cmd: ["sleep", "5"]}: the child runs, the termination
    // signal arrives once, the sweep returns the child's identity, the
    // loop terminates, and no signal was ever forwarded.
    let primary = 57;
    let mut state = SupervisorState::Supervising;
    let mut forwarded: Vec<i32> = Vec::new();
    let events = vec![IterationEvent::ChildEvent { reaped: vec![primary] }];
    for ev in &events {
        let (next, forward) = supervise_step(primary, state, ev);
        if let Some(sig) = forward {
            forwarded.push(sig);
        }
        state = next;
    }
    assert_eq!(state, SupervisorState::Terminated);
    assert_eq!(forwarded, Vec::<i32>::new());
}

#[test]
fn mixed_run_forwards_everything_before_the_exit() {
    let primary = 57;
    let other = 58;
    let mut state = SupervisorState::Supervising;
    let mut forwarded: Vec<i32> = Vec::new();
    let events = vec![
        IterationEvent::Unrelated { sig: 1 },
        IterationEvent::ReadFailed,
        IterationEvent::ChildEvent { reaped: vec![other] },
        IterationEvent::Unrelated { sig: 15 },
        IterationEvent::ChildEvent { reaped: vec![other, primary] },
    ];
    let mut terminated_at = None;
    for (i, ev) in events.iter().enumerate() {
        let (next, forward) = supervise_step(primary, state, ev);
        if let Some(sig) = forward {
            forwarded.push(sig);
        }
        if next == SupervisorState::Terminated && terminated_at.is_none() {
            terminated_at = Some(i);
        }
        state = next;
    }
    assert_eq!(forwarded, vec![1, 15]);
    assert_eq!(terminated_at, Some(4));
}
