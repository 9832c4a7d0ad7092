//! Foreground setup for the about-to-be-replaced child: create a new
//! process group, and, when a controlling terminal exists, make that
//! group the terminal's foreground group.
//!
//! Runs in the child's address space, after fork and before the program
//! image is replaced.  A missing controlling terminal — the common case
//! under container runtimes — is not a failure: group creation alone
//! completes the setup.  Only the inability to create the group, to
//! shield against the terminal-output-stop signal, or an unexpected
//! foreground-assignment failure is fatal.

use vstd::prelude::*;

use nix::sys::signal::SigSet;

use crate::signals::{mask_block, sigset_empty};

verus! {

/// A fatal failure of foreground setup.
#[derive(Clone, Copy, Debug, PartialEq, Eq, Structural)]
pub enum ForegroundError {
    /// The new process group could not be created.  Fatal: without a
    /// distinct group, signals forwarded to "the child" could hit the
    /// supervisor itself.
    ProcessGroupFailed { errno: i32 },
    /// The terminal-output-stop signal could not be blocked before the
    /// foreground change.
    BlockStopSignalFailed { errno: i32 },
    /// The foreground assignment failed for a reason other than the
    /// expected "not a terminal" and "no such device".
    ForegroundFailed { errno: i32 },
}

/// Whether a controlling terminal could be opened.
#[derive(Clone, Copy, Debug, PartialEq, Eq, Structural)]
pub enum TtyProbe {
    /// No controlling terminal: every open failure lands here.
    NoTty,
    /// The controlling terminal, open under the given descriptor.
    Tty { fd: i32 },
}

/// What remains to do once the new process group exists.
#[derive(Clone, Copy, Debug, PartialEq, Eq, Structural)]
pub enum ForegroundPlan {
    /// Nothing: setup is complete and successful.
    Finished,
    /// Make the group the foreground group of the terminal at `fd`.
    SetForeground { fd: i32 },
}

/// What the foreground assignment reported.
#[derive(Clone, Copy, Debug, PartialEq, Eq, Structural)]
pub enum TcsetOutcome {
    /// The group is now the foreground group.
    Success,
    /// "Not a terminal" — expected in containerized environments.
    NoTerminal,
    /// "No such device" — expected in virtualized environments.
    NoDevice,
    /// Any other failure.
    OtherError { errno: i32 },
}

/// After group creation, a missing terminal finishes the setup; an open
/// terminal is to be claimed as foreground.
pub open spec fn spec_plan_after_pgroup(probe: TtyProbe) -> ForegroundPlan {
    match probe {
        TtyProbe::NoTty => ForegroundPlan::Finished,
        TtyProbe::Tty { fd } => ForegroundPlan::SetForeground { fd },
    }
}

/// Decides what remains after the process group exists.
pub fn plan_after_pgroup(probe: &TtyProbe) -> (p: ForegroundPlan)
    ensures
        p == spec_plan_after_pgroup(*probe),
{
    match probe {
        TtyProbe::NoTty => ForegroundPlan::Finished,
        TtyProbe::Tty { fd } => ForegroundPlan::SetForeground { fd: *fd },
    }
}

/// Success, and the two expected can't-happen-to-be-foreground answers,
/// count as done; anything else is fatal.
pub open spec fn spec_resolve_foreground(o: TcsetOutcome) -> Result<(), ForegroundError> {
    match o {
        TcsetOutcome::Success => Ok(()),
        TcsetOutcome::NoTerminal => Ok(()),
        TcsetOutcome::NoDevice => Ok(()),
        TcsetOutcome::OtherError { errno } => Err(ForegroundError::ForegroundFailed { errno }),
    }
}

/// Resolves the foreground assignment's outcome into the setup result.
pub fn resolve_foreground_outcome(o: &TcsetOutcome) -> (r: Result<(), ForegroundError>)
    ensures
        r == spec_resolve_foreground(*o),
{
    match o {
        TcsetOutcome::Success => Ok(()),
        TcsetOutcome::NoTerminal => Ok(()),
        TcsetOutcome::NoDevice => Ok(()),
        TcsetOutcome::OtherError { errno } => Err(
            ForegroundError::ForegroundFailed { errno: *errno },
        ),
    }
}

/// What `make_foreground` must return, given what each step reported.
/// Steps after the first failure, and both later steps when no terminal
/// exists, are never consulted.
pub open spec fn foreground_matches(
    pgroup: Result<(), i32>,
    probe: TtyProbe,
    block: Result<(), i32>,
    tc: TcsetOutcome,
    r: Result<(), ForegroundError>,
) -> bool {
    match pgroup {
        Err(errno) => r == Err::<(), ForegroundError>(
            ForegroundError::ProcessGroupFailed { errno },
        ),
        Ok(_) => match spec_plan_after_pgroup(probe) {
            ForegroundPlan::Finished => r == Ok::<(), ForegroundError>(()),
            ForegroundPlan::SetForeground { .. } => match block {
                Err(errno) => r == Err::<(), ForegroundError>(
                    ForegroundError::BlockStopSignalFailed { errno },
                ),
                Ok(_) => r == spec_resolve_foreground(tc),
            },
        },
    }
}

/// On an environment with no controlling terminal, a created process
/// group completes the setup successfully: the plan attempts no
/// foreground-group change, whatever the never-consulted later steps
/// would have reported.
pub proof fn lemma_no_tty_setup_succeeds(block: Result<(), i32>, tc: TcsetOutcome)
    ensures
        spec_plan_after_pgroup(TtyProbe::NoTty) == ForegroundPlan::Finished,
        foreground_matches(Ok(()), TtyProbe::NoTty, block, tc, Ok(())),
{
}

/// Relies on `nix::unistd::setpgid` called with zero for both
/// arguments: makes the calling process the leader of a new process
/// group.
#[verifier::external_body]
fn set_new_process_group() -> Result<(), i32> {
    nix::unistd::setpgid(nix::unistd::Pid::from_raw(0), nix::unistd::Pid::from_raw(0)).map_err(
        |e| e as i32,
    )
}

/// Relies on `nix::unistd::getpgrp`: the calling process's group.
#[verifier::external_body]
fn process_group_id() -> i32 {
    nix::unistd::getpgrp().as_raw()
}

/// Relies on `nix::fcntl::open` on `/dev/tty`: opens the controlling
/// terminal by its well-known path, avoiding any reliance on the
/// standard descriptors.  Every failure to open means no terminal.
#[verifier::external_body]
fn open_controlling_tty() -> TtyProbe {
    match nix::fcntl::open(
        "/dev/tty",
        nix::fcntl::OFlag::O_RDONLY,
        nix::sys::stat::Mode::empty(),
    ) {
        Ok(fd) => TtyProbe::Tty { fd },
        Err(_) => TtyProbe::NoTty,
    }
}

/// Relies on `nix::sys::signal::SigSet::add`: puts the
/// terminal-output-stop signal into the set.
#[verifier::external_body]
fn sigset_add_sigttou(mask: &mut SigSet) {
    mask.add(nix::sys::signal::Signal::SIGTTOU);
}

/// Relies on `nix::unistd::tcsetpgrp`: asks the terminal at `fd` to
/// make `pgrp` its foreground group, telling the two expected benign
/// failures apart from the rest.
#[verifier::external_body]
fn tcsetpgrp_raw(fd: i32, pgrp: i32) -> TcsetOutcome {
    match nix::unistd::tcsetpgrp(fd, nix::unistd::Pid::from_raw(pgrp)) {
        Ok(_) => TcsetOutcome::Success,
        Err(nix::errno::Errno::ENOTTY) => TcsetOutcome::NoTerminal,
        Err(nix::errno::Errno::ENXIO) => TcsetOutcome::NoDevice,
        Err(e) => TcsetOutcome::OtherError { errno: e as i32 },
    }
}

/// Relies on `nix::unistd::close`: releases the descriptor.
#[verifier::external_body]
fn close_fd(fd: i32) -> Result<(), i32> {
    nix::unistd::close(fd).map_err(|e| e as i32)
}

/// Places the calling process in the foreground: creates a new process
/// group with the caller as leader and, when a controlling terminal
/// exists, makes that group the terminal's foreground group — blocking
/// the terminal-output-stop signal for the attempt, and tolerating the
/// two failures that mean the environment simply has no usable
/// terminal.  Meant to run in the child between fork and exec.
pub fn make_foreground() -> (r: Result<(), ForegroundError>)
    ensures
        exists|pgroup: Result<(), i32>, probe: TtyProbe, block: Result<(), i32>, tc: TcsetOutcome|
            foreground_matches(pgroup, probe, block, tc, r),
{
    let pgroup = set_new_process_group();
    if let Err(errno) = pgroup {
        let r = Err::<(), ForegroundError>(ForegroundError::ProcessGroupFailed { errno });
        proof {
            assert(foreground_matches(
                pgroup,
                TtyProbe::NoTty,
                Ok(()),
                TcsetOutcome::Success,
                r,
            ));
        }
        return r;
    }
    let pgrp = process_group_id();
    let probe = open_controlling_tty();
    match plan_after_pgroup(&probe) {
        ForegroundPlan::Finished => {
            let r = Ok::<(), ForegroundError>(());
            proof {
                assert(foreground_matches(pgroup, probe, Ok(()), TcsetOutcome::Success, r));
            }
            r
        },
        ForegroundPlan::SetForeground { fd } => {
            let mut stop_mask = sigset_empty();
            sigset_add_sigttou(&mut stop_mask);
            let block = mask_block(&stop_mask);
            if let Err(errno) = block {
                let _ = close_fd(fd);
                let r = Err::<(), ForegroundError>(
                    ForegroundError::BlockStopSignalFailed { errno },
                );
                proof {
                    assert(foreground_matches(pgroup, probe, block, TcsetOutcome::Success, r));
                }
                return r;
            }
            let outcome = tcsetpgrp_raw(fd, pgrp);
            let _ = close_fd(fd);
            let r = resolve_foreground_outcome(&outcome);
            proof {
                assert(foreground_matches(pgroup, probe, block, outcome, r));
            }
            r
        },
    }
}

} // verus!
