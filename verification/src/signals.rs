//! The signal gate: ownership of the process-wide signal mask and the
//! synchronous signal queue.
//!
//! All signals are blocked and then read one at a time from a queue, so
//! every signal — including child terminations — passes through a single
//! control point instead of racing asynchronous handlers.  The initial
//! mask is captured first and restored into the child just before it
//! replaces its program image, so the supervised program inherits the
//! signal disposition it expects.

use vstd::prelude::*;

use nix::sys::signal::SigSet;
use nix::sys::signalfd::SignalFd;

verus! {

/// The blocked-signal set of a thread, as the kernel keeps it.  Opaque:
/// the library only captures, installs and hands these around.
#[verifier::external_type_specification]
#[verifier::external_body]
pub struct ExSigSet(SigSet);

/// The readable queue of pending signals bound to a blocked set.
#[verifier::external_type_specification]
#[verifier::external_body]
pub struct ExSignalFd(SignalFd);

/// A fatal failure while setting up signal multiplexing.  Without a
/// fully blocked mask and a queue no signal can be multiplexed safely,
/// so the caller aborts startup on any of these.
#[derive(Clone, Copy, Debug, PartialEq, Eq, Structural)]
pub enum SignalSetupError {
    /// The calling thread's current mask could not be read.
    MaskReadFailed { errno: i32 },
    /// The all-signals mask could not be installed.
    BlockFailed { errno: i32 },
    /// The signal queue could not be created.
    QueueCreateFailed { errno: i32 },
    /// A previously captured mask could not be installed.
    RestoreFailed { errno: i32 },
}

/// A failed read from the signal queue.  Non-fatal: the supervisor logs
/// it and keeps polling rather than die from one bad read.
#[derive(Clone, Copy, Debug, PartialEq, Eq, Structural)]
pub enum SignalReadError {
    /// The read itself failed with the given errno.
    ReadFailed { errno: i32 },
    /// The read returned without a signal.
    NoSignal,
}

/// Relies on `nix::sys::signal::SigSet::thread_get_mask`: returns the
/// calling thread's current blocked-signal set.
#[verifier::external_body]
fn thread_get_mask_raw() -> Result<SigSet, i32> {
    SigSet::thread_get_mask().map_err(|e| e as i32)
}

/// Relies on `nix::sys::signal::SigSet::all`: the set holding every
/// signal.
#[verifier::external_body]
fn sigset_all() -> SigSet {
    SigSet::all()
}

/// Relies on `nix::sys::signal::SigSet::empty`: the set holding no
/// signal.
#[verifier::external_body]
pub(crate) fn sigset_empty() -> SigSet {
    SigSet::empty()
}

/// Relies on `nix::sys::signal::SigSet::thread_block`: adds the given
/// set to the calling thread's blocked signals.
#[verifier::external_body]
pub(crate) fn mask_block(mask: &SigSet) -> Result<(), i32> {
    mask.thread_block().map_err(|e| e as i32)
}

/// Relies on `nix::sys::signal::SigSet::thread_set_mask`: replaces the
/// calling thread's blocked set with the given one.
#[verifier::external_body]
fn mask_set(mask: &SigSet) -> Result<(), i32> {
    mask.thread_set_mask().map_err(|e| e as i32)
}

/// Relies on `nix::sys::signalfd::SignalFd::new`: creates a queue that
/// delivers the signals in `mask` as synchronous reads.
#[verifier::external_body]
fn signalfd_new(mask: &SigSet) -> Result<SignalFd, i32> {
    SignalFd::new(mask).map_err(|e| e as i32)
}

/// Relies on `nix::sys::signalfd::SignalFd::read_signal`: blocks until a
/// signal is queued and picks out the delivered signal's number.
#[verifier::external_body]
fn read_signal_raw(sfd: &mut SignalFd) -> Result<Option<i32>, i32> {
    match sfd.read_signal() {
        Ok(Some(info)) => Ok(Some(info.ssi_signo as i32)),
        Ok(None) => Ok(None),
        Err(e) => Err(e as i32),
    }
}

/// Reads the calling thread's current blocked-signal set.  Meant to be
/// called once, before any mask mutation: the captured value is the
/// snapshot later restored into the child.
pub fn capture_current_mask() -> (r: Result<SigSet, SignalSetupError>)
    ensures
        r is Err ==> r->Err_0 is MaskReadFailed,
{
    match thread_get_mask_raw() {
        Ok(mask) => Ok(mask),
        Err(errno) => Err(SignalSetupError::MaskReadFailed { errno }),
    }
}

/// Blocks every signal on the calling thread and returns the queue
/// handle bound to that full set.  Each failure keeps its cause: a
/// failed block and a failed queue creation are distinct fatal errors.
pub fn block_all() -> (r: Result<SignalFd, SignalSetupError>)
    ensures
        r is Err ==> (r->Err_0 is BlockFailed || r->Err_0 is QueueCreateFailed),
{
    let mask = sigset_all();
    if let Err(errno) = mask_block(&mask) {
        return Err(SignalSetupError::BlockFailed { errno });
    }
    match signalfd_new(&mask) {
        Ok(sfd) => Ok(sfd),
        Err(errno) => Err(SignalSetupError::QueueCreateFailed { errno }),
    }
}

/// Blocks until exactly one signal is available on the queue and
/// returns its number.  An interrupted or empty read is reported as a
/// non-fatal `SignalReadError` for the caller to log and move past.
pub fn next_signal(sfd: &mut SignalFd) -> (r: Result<i32, SignalReadError>)
    ensures
        r is Err ==> (r->Err_0 is ReadFailed || r->Err_0 is NoSignal),
{
    match read_signal_raw(sfd) {
        Ok(Some(sig)) => Ok(sig),
        Ok(None) => Err(SignalReadError::NoSignal),
        Err(errno) => Err(SignalReadError::ReadFailed { errno }),
    }
}

/// Installs a previously captured mask onto the calling thread.  Used by
/// the child, immediately before it replaces its program image, so the
/// executed program inherits the original signal disposition rather than
/// the supervisor's all-blocked mask.
pub fn restore(mask: &SigSet) -> (r: Result<(), SignalSetupError>)
    ensures
        r is Err ==> r->Err_0 is RestoreFailed,
{
    match mask_set(mask) {
        Ok(()) => Ok(()),
        Err(errno) => Err(SignalSetupError::RestoreFailed { errno }),
    }
}

} // verus!
