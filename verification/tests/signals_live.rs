//! The signal gate and the reaper against the real kernel.

use nix::sys::signal::{SigSet, Signal};

#[test]
fn restoring_a_captured_mask_round_trips() {
    // Block an extra signal, capture the mask, change the thread's
    // mask, restore the captured one: the extra signal is blocked
    // again, exactly as at capture time.
    let mut extra = SigSet::empty();
    extra.add(Signal::SIGUSR2);
    extra.thread_block().unwrap();

    let captured = minit::signals::capture_current_mask().unwrap();
    assert!(SigSet::thread_get_mask().unwrap().contains(Signal::SIGUSR2));

    extra.thread_unblock().unwrap();
    assert!(!SigSet::thread_get_mask().unwrap().contains(Signal::SIGUSR2));

    minit::signals::restore(&captured).unwrap();
    assert!(SigSet::thread_get_mask().unwrap().contains(Signal::SIGUSR2));
}

#[test]
fn restore_of_the_current_mask_changes_nothing() {
    let before = SigSet::thread_get_mask().unwrap();
    let captured = minit::signals::capture_current_mask().unwrap();
    minit::signals::restore(&captured).unwrap();
    let after = SigSet::thread_get_mask().unwrap();
    for sig in Signal::iterator() {
        assert_eq!(before.contains(sig), after.contains(sig));
    }
}

#[test]
fn blocked_queue_delivers_a_raised_signal() {
    let initial = minit::signals::capture_current_mask().unwrap();
    let mut sfd = minit::signals::block_all().unwrap();
    nix::sys::signal::raise(Signal::SIGUSR1).unwrap();
    let sig = minit::signals::next_signal(&mut sfd).unwrap();
    assert_eq!(sig, Signal::SIGUSR1 as i32);
    minit::signals::restore(&initial).unwrap();
}

#[test]
fn child_termination_signal_dispatches_to_an_empty_reap() {
    // A child-termination signal arrives while no child exists: the
    // dispatch reaps, finds nothing, and reports no identities.
    let initial = minit::signals::capture_current_mask().unwrap();
    let mut sfd = minit::signals::block_all().unwrap();
    nix::sys::signal::raise(Signal::SIGCHLD).unwrap();
    let pids = minit::process_signals(4242, &mut sfd).unwrap();
    assert_eq!(pids, Vec::<i32>::new());
    minit::signals::restore(&initial).unwrap();
}

#[test]
fn supervision_does_not_finish_without_the_primary() {
    let initial = minit::signals::capture_current_mask().unwrap();
    let mut sfd = minit::signals::block_all().unwrap();
    nix::sys::signal::raise(Signal::SIGCHLD).unwrap();
    let done = minit::supervisor::supervise_once(4242, &mut sfd);
    assert!(!done);
    minit::signals::restore(&initial).unwrap();
}

#[test]
fn forwarding_an_unknown_signal_number_fails_without_delivery() {
    let r = minit::forward_signal(i32::MAX, 0);
    assert!(matches!(
        r,
        Err(minit::supervisor::LoopError::ForwardFailed { .. })
    ));
}

#[test]
fn forwarding_a_harmless_signal_to_self_succeeds() {
    // SIGURG is ignored by default, so delivering it to the test
    // process itself is observable only as a successful forward.
    let own_pid = nix::unistd::getpid().as_raw();
    let r = minit::forward_signal(own_pid, Signal::SIGURG as i32);
    assert_eq!(r, Ok(()));
}

#[test]
fn reaping_with_no_children_is_empty_twice() {
    // The test process has no children: the sweep finds nothing, twice
    // in a row, and neither call is an error.
    assert_eq!(minit::reap_zombies().unwrap(), Vec::<i32>::new());
    assert_eq!(minit::reap_zombies().unwrap(), Vec::<i32>::new());
}
