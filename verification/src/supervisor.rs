//! The supervisor loop's decisions: classify each delivered signal,
//! reap descendants on a child-termination signal, forward every other
//! signal to the primary child, and end supervision exactly when the
//! primary child's identity shows up among the reaped.
//!
//! The loop body lives here as `process_signals` and `supervise_once`;
//! the caller that owns the process's lifetime repeats it.  The same
//! decision rule is stated once more as a step function over explicit
//! iteration events, and the laws of whole runs — every unrelated
//! signal is forwarded unmodified, and the run terminates exactly when
//! the primary child is reaped — are proved about it.

use vstd::prelude::*;

use nix::sys::signalfd::SignalFd;

use crate::reaper::{
    complete_trace, is_progress, reap_zombies, reaped_pids, spec_sweep, sweep_result, ReapError,
    WaitOutcome,
};
use crate::signals::{next_signal, SignalReadError};

verus! {

/// The signal number of the child-termination signal (SIGCHLD) on this
/// platform.  A test holds this value against the one the signal crate
/// reports, so a port to a platform that numbers SIGCHLD differently
/// fails loudly rather than silently misclassifying.
pub const SIGCHLD_SIGNO: i32 = 17;

/// What the loop is doing: still supervising the primary child, or done
/// because the child was observed to have terminated.
///
/// The supervisor's whole life runs bootstrap (capture the initial
/// mask, block everything), spawn (start the primary child), then this
/// loop.  The two earlier phases are linear and their failures abort
/// startup before supervision begins, so only the loop's two states
/// appear here; `Terminated` is the only way out of `Supervising`.
#[derive(Clone, Copy, Debug, PartialEq, Eq, Structural)]
pub enum SupervisorState {
    Supervising,
    Terminated,
}

/// How one delivered signal is dispatched.
#[derive(Clone, Copy, Debug, PartialEq, Eq, Structural)]
pub enum SignalVerdict {
    /// The child-termination signal: sweep the terminated descendants.
    ReapChildren,
    /// Any other signal: pass it to the primary child unmodified.
    ForwardToChild { sig: i32 },
}

/// A recoverable failure of one loop iteration.  None of these ends
/// supervision: the caller logs them and keeps polling.
#[derive(Clone, Copy, Debug, PartialEq, Eq, Structural)]
pub enum LoopError {
    /// The signal queue read failed.
    SignalRead { errno: i32 },
    /// The signal queue returned without a signal.
    NoSignal,
    /// Forwarding the signal to the child failed — benign when the
    /// child has already exited; the next reap will catch it.
    ForwardFailed { errno: i32 },
    /// The reap sweep itself failed.
    Reap { errno: i32 },
}

/// What one iteration of the supervisor loop observed.
#[derive(Debug)]
pub enum IterationEvent {
    /// The signal read failed; nothing else happened.
    ReadFailed,
    /// A signal other than the child-termination signal arrived.
    Unrelated { sig: i32 },
    /// The child-termination signal arrived and the sweep collected
    /// these identities.
    ChildEvent { reaped: Vec<i32> },
    /// The child-termination signal arrived but the sweep failed.
    ChildEventFailed,
}

/// The dispatch rule: the child-termination signal means reap, every
/// other signal is forwarded as it came.
pub open spec fn spec_classify(sig: i32) -> SignalVerdict {
    if sig == SIGCHLD_SIGNO {
        SignalVerdict::ReapChildren
    } else {
        SignalVerdict::ForwardToChild { sig }
    }
}

/// Classifies one delivered signal.
pub fn classify_signal(sig: i32) -> (v: SignalVerdict)
    ensures
        v == spec_classify(sig),
{
    if sig == SIGCHLD_SIGNO {
        SignalVerdict::ReapChildren
    } else {
        SignalVerdict::ForwardToChild { sig }
    }
}

/// Tests whether the given identity is among the collected ones.
pub fn contains_pid(pids: &Vec<i32>, pid: i32) -> (r: bool)
    ensures
        r == pids@.contains(pid),
{
    let n = pids.len();
    for i in 0..n
        invariant
            n == pids@.len(),
            forall|j: int| 0 <= j < i ==> pids@[j] != pid,
    {
        if pids[i] == pid {
            return true;
        }
    }
    false
}

/// A signal as the signal crate names it; opaque, carried from the
/// number parser to the delivery call.
#[verifier::external_type_specification]
#[verifier::external_body]
pub struct ExSignal(nix::sys::signal::Signal);

/// Relies on `Signal::try_from` on a raw signal number: succeeds
/// exactly for the numbers the signal crate names, and fails (with the
/// invalid-argument errno) for the rest, real-time signals included.
#[verifier::external_body]
fn signal_of_raw(sig: i32) -> Result<nix::sys::signal::Signal, i32> {
    nix::sys::signal::Signal::try_from(sig).map_err(|e| e as i32)
}

/// Relies on `nix::sys::signal::kill`: asks the kernel to deliver the
/// signal to the process.  Whether delivery succeeds depends on the
/// process table, so only the failure's errno is reported.
#[verifier::external_body]
fn kill_raw(pid: i32, sig: nix::sys::signal::Signal) -> Result<(), i32> {
    nix::sys::signal::kill(nix::unistd::Pid::from_raw(pid), sig).map_err(|e| e as i32)
}

/// Forwards the given signal, unmodified, to the given process.  A
/// failure is reported but is not fatal to supervision: the usual cause
/// is that the target already exited.
pub fn forward_signal(pid: i32, sig: i32) -> (r: Result<(), LoopError>)
    ensures
        r is Err ==> r->Err_0 is ForwardFailed,
{
    match signal_of_raw(sig) {
        Ok(signal) => match kill_raw(pid, signal) {
            Ok(()) => Ok(()),
            Err(errno) => Err(LoopError::ForwardFailed { errno }),
        },
        Err(errno) => Err(LoopError::ForwardFailed { errno }),
    }
}

/// What `process_signals` must return, given what the signal read
/// produced and, when it reaped, the sweep's outcome trace.
pub open spec fn dispatch_matches(
    pid1: i32,
    read: Result<i32, SignalReadError>,
    t: Seq<WaitOutcome>,
    r: Result<Vec<i32>, LoopError>,
) -> bool {
    match read {
        Err(SignalReadError::ReadFailed { errno }) => r == Err::<Vec<i32>, LoopError>(
            LoopError::SignalRead { errno },
        ),
        Err(SignalReadError::NoSignal) => r == Err::<Vec<i32>, LoopError>(LoopError::NoSignal),
        Ok(sig) => match spec_classify(sig) {
            SignalVerdict::ReapChildren => match r {
                Ok(v) => sweep_result(t, Ok(v)),
                Err(LoopError::Reap { errno }) => sweep_result(t, Err(ReapError { errno })),
                Err(_) => false,
            },
            SignalVerdict::ForwardToChild { .. } => match r {
                Ok(v) => v@ == Seq::<i32>::empty(),
                Err(e) => e is ForwardFailed,
            },
        },
    }
}

/// Reads one signal from the queue and handles it: on the
/// child-termination signal the terminated descendants are reaped and
/// their identities returned; on any other signal it is forwarded to
/// the primary child and the result is empty.  Every failure comes back
/// as a recoverable `LoopError`; nothing here panics or exits.
pub fn process_signals(pid1: i32, sfd: &mut SignalFd) -> (r: Result<Vec<i32>, LoopError>)
    ensures
        exists|read: Result<i32, SignalReadError>, t: Seq<WaitOutcome>|
            dispatch_matches(pid1, read, t, r),
{
    let read = next_signal(sfd);
    match read {
        Err(SignalReadError::ReadFailed { errno }) => {
            let r = Err::<Vec<i32>, LoopError>(LoopError::SignalRead { errno });
            proof {
                assert(dispatch_matches(pid1, read, Seq::<WaitOutcome>::empty(), r));
            }
            r
        },
        Err(SignalReadError::NoSignal) => {
            let r = Err::<Vec<i32>, LoopError>(LoopError::NoSignal);
            proof {
                assert(dispatch_matches(pid1, read, Seq::<WaitOutcome>::empty(), r));
            }
            r
        },
        Ok(sig) => match classify_signal(sig) {
            SignalVerdict::ReapChildren => match reap_zombies() {
                Ok(pids) => {
                    let r = Ok::<Vec<i32>, LoopError>(pids);
                    proof {
                        let t = choose|t: Seq<WaitOutcome>|
                            sweep_result(t, Ok(r->Ok_0));
                        assert(dispatch_matches(pid1, read, t, r));
                    }
                    r
                },
                Err(e) => {
                    let r = Err::<Vec<i32>, LoopError>(LoopError::Reap { errno: e.errno });
                    proof {
                        let t = choose|t: Seq<WaitOutcome>|
                            sweep_result(t, Err(ReapError { errno: e.errno }));
                        assert(dispatch_matches(pid1, read, t, r));
                    }
                    r
                },
            },
            SignalVerdict::ForwardToChild { sig } => {
                match forward_signal(pid1, sig) {
                    Ok(()) => {
                        let r = Ok::<Vec<i32>, LoopError>(Vec::new());
                        proof {
                            assert(dispatch_matches(pid1, read, Seq::<WaitOutcome>::empty(), r));
                        }
                        r
                    },
                    Err(e) => {
                        let r = Err::<Vec<i32>, LoopError>(e);
                        proof {
                            assert(dispatch_matches(pid1, read, Seq::<WaitOutcome>::empty(), r));
                        }
                        r
                    },
                }
            },
        },
    }
}

/// A trace that one live sweep can have produced: it ran to its stop or
/// failure, or — unreachably in practice — filled the poll limit.
pub open spec fn observable_trace(t: Seq<WaitOutcome>) -> bool {
    complete_trace(t) || (t.len() == usize::MAX && forall|i: int|
        0 <= i < t.len() ==> is_progress(t[i]))
}

/// One full iteration of the supervisor loop: wait for a signal,
/// dispatch it, and report whether supervision is over.  Recoverable
/// errors are absorbed here — an iteration never panics and never asks
/// the caller to stop.  It reports `true` only when a sweep actually
/// collected the primary child's identity.
pub fn supervise_once(primary: i32, sfd: &mut SignalFd) -> (done: bool)
    ensures
        done ==> exists|t: Seq<WaitOutcome>|
            observable_trace(t) && reaped_pids(t).contains(primary),
{
    match process_signals(primary, sfd) {
        Err(_) => false,
        Ok(pids) => {
            if contains_pid(&pids, primary) {
                proof {
                    let (read, t) = choose|read: Result<i32, SignalReadError>, t: Seq<
                        WaitOutcome,
                    >| dispatch_matches(primary, read, t, Ok(pids));
                    lemma_ok_dispatch_collects(primary, read, t, pids);
                }
                true
            } else {
                false
            }
        },
    }
}

/// When a dispatch returned identities, they are the collected pids of
/// an observable sweep trace — unless the dispatch was a forward, in
/// which case there are none.
proof fn lemma_ok_dispatch_collects(
    pid1: i32,
    read: Result<i32, SignalReadError>,
    t: Seq<WaitOutcome>,
    pids: Vec<i32>,
)
    requires
        dispatch_matches(pid1, read, t, Ok(pids)),
        pids@.len() > 0,
    ensures
        observable_trace(t) && reaped_pids(t) == pids@,
{
    match read {
        Ok(sig) => {
            if spec_classify(sig) is ReapChildren {
                if complete_trace(t) {
                    crate::reaper::lemma_sweep_of_complete(t);
                    assert(spec_sweep(t) == Ok::<Seq<i32>, ReapError>(pids@));
                    if t.last() is Failed {
                        assert(false);
                    }
                } else {
                    assert(t.len() == usize::MAX);
                }
            } else {
                assert(false);
            }
        },
        Err(_) => {
            assert(false);
        },
    }
}

/// An event on which the loop ends supervision: a reap that collected
/// the primary child's identity.
pub open spec fn is_exit_event(primary: i32, ev: IterationEvent) -> bool {
    match ev {
        IterationEvent::ChildEvent { reaped } => reaped@.contains(primary),
        _ => false,
    }
}

/// The step rule of the supervisor's state machine: an unrelated signal
/// is forwarded unmodified and supervision goes on; a reap ends
/// supervision exactly when the primary child's identity is among the
/// collected; a failed read or a failed sweep changes nothing.  A
/// terminated run stays terminated.
pub open spec fn spec_step(primary: i32, st: SupervisorState, ev: IterationEvent) -> (
    SupervisorState,
    Option<i32>,
) {
    if st is Terminated {
        (SupervisorState::Terminated, None)
    } else {
        match ev {
            IterationEvent::ReadFailed => (SupervisorState::Supervising, None),
            IterationEvent::Unrelated { sig } => (SupervisorState::Supervising, Some(sig)),
            IterationEvent::ChildEvent { reaped } => if reaped@.contains(primary) {
                (SupervisorState::Terminated, None)
            } else {
                (SupervisorState::Supervising, None)
            },
            IterationEvent::ChildEventFailed => (SupervisorState::Supervising, None),
        }
    }
}

/// Applies the step rule to one observed iteration event, returning the
/// next state and the signal to forward, if any.
pub fn supervise_step(primary: i32, st: SupervisorState, ev: &IterationEvent) -> (r: (
    SupervisorState,
    Option<i32>,
))
    ensures
        r == spec_step(primary, st, *ev),
{
    match st {
        SupervisorState::Terminated => (SupervisorState::Terminated, None),
        SupervisorState::Supervising => match ev {
            IterationEvent::ReadFailed => (SupervisorState::Supervising, None),
            IterationEvent::Unrelated { sig } => (SupervisorState::Supervising, Some(*sig)),
            IterationEvent::ChildEvent { reaped } => {
                if contains_pid(reaped, primary) {
                    (SupervisorState::Terminated, None)
                } else {
                    (SupervisorState::Supervising, None)
                }
            },
            IterationEvent::ChildEventFailed => (SupervisorState::Supervising, None),
        },
    }
}

/// The signals a forward decision emits, as a sequence.
pub open spec fn opt_signal(o: Option<i32>) -> Seq<i32> {
    match o {
        Some(sig) => seq![sig],
        None => Seq::empty(),
    }
}

/// A whole run of the step rule over a sequence of iteration events:
/// the final state and the signals forwarded along the way, in order.
pub open spec fn spec_run(primary: i32, st: SupervisorState, evs: Seq<IterationEvent>) -> (
    SupervisorState,
    Seq<i32>,
)
    decreases evs.len(),
{
    if evs.len() == 0 {
        (st, Seq::empty())
    } else {
        let head = spec_step(primary, st, evs.first());
        let rest = spec_run(primary, head.0, evs.drop_first());
        (rest.0, opt_signal(head.1) + rest.1)
    }
}

/// The unrelated signals among a sequence of events, in order.
pub open spec fn unrelated_signals(evs: Seq<IterationEvent>) -> Seq<i32>
    decreases evs.len(),
{
    if evs.len() == 0 {
        Seq::empty()
    } else {
        match evs.first() {
            IterationEvent::Unrelated { sig } => seq![sig] + unrelated_signals(evs.drop_first()),
            _ => unrelated_signals(evs.drop_first()),
        }
    }
}

/// A terminated run stays terminated and forwards nothing more.
proof fn lemma_run_absorbing(primary: i32, evs: Seq<IterationEvent>)
    ensures
        spec_run(primary, SupervisorState::Terminated, evs) == (
            SupervisorState::Terminated,
            Seq::<i32>::empty(),
        ),
    decreases evs.len(),
{
    if evs.len() > 0 {
        lemma_run_absorbing(primary, evs.drop_first());
        assert(opt_signal(None) + Seq::<i32>::empty() =~= Seq::<i32>::empty());
    }
}

/// As long as no reap collects the primary child's identity, the loop
/// keeps supervising and forwards exactly the unrelated signals, each
/// unmodified and in order of arrival.
pub proof fn lemma_run_forwards_unrelated(primary: i32, evs: Seq<IterationEvent>)
    requires
        forall|i: int| 0 <= i < evs.len() ==> !is_exit_event(primary, evs[i]),
    ensures
        spec_run(primary, SupervisorState::Supervising, evs).0 is Supervising,
        spec_run(primary, SupervisorState::Supervising, evs).1 == unrelated_signals(evs),
    decreases evs.len(),
{
    if evs.len() > 0 {
        assert(!is_exit_event(primary, evs.first()));
        let head = spec_step(primary, SupervisorState::Supervising, evs.first());
        assert(head.0 is Supervising);
        lemma_run_forwards_unrelated(primary, evs.drop_first());
        match evs.first() {
            IterationEvent::Unrelated { sig } => {},
            _ => {
                assert(opt_signal(head.1) + unrelated_signals(evs.drop_first())
                    =~= unrelated_signals(evs.drop_first()));
            },
        }
    }
}

/// The run reaches `Terminated` exactly when some reap along the way
/// collected the primary child's identity — never on an unrelated
/// signal, a failed read, a failed sweep, or a reap of other children.
pub proof fn lemma_run_terminates_iff_primary_reaped(primary: i32, evs: Seq<IterationEvent>)
    ensures
        spec_run(primary, SupervisorState::Supervising, evs).0 is Terminated <==> exists|i: int|
            0 <= i < evs.len() && is_exit_event(primary, #[trigger] evs[i]),
    decreases evs.len(),
{
    if evs.len() > 0 {
        let head = spec_step(primary, SupervisorState::Supervising, evs.first());
        lemma_run_terminates_iff_primary_reaped(primary, evs.drop_first());
        if is_exit_event(primary, evs.first()) {
            lemma_run_absorbing(primary, evs.drop_first());
            assert(is_exit_event(primary, evs[0]));
        } else {
            assert(head.0 is Supervising);
            if spec_run(primary, SupervisorState::Supervising, evs).0 is Terminated {
                let j = choose|j: int|
                    0 <= j < evs.drop_first().len() && is_exit_event(
                        primary,
                        #[trigger] evs.drop_first()[j],
                    );
                assert(evs.drop_first()[j] == evs[j + 1]);
                assert(is_exit_event(primary, evs[j + 1]));
            } else {
                if exists|i: int| 0 <= i < evs.len() && is_exit_event(primary, #[trigger] evs[i]) {
                    let i = choose|i: int|
                        0 <= i < evs.len() && is_exit_event(primary, #[trigger] evs[i]);
                    assert(i != 0);
                    assert(evs.drop_first()[i - 1] == evs[i]);
                    assert(false);
                }
            }
        }
    }
}

/// A run whose one exit event comes last: every earlier iteration left
/// the loop supervising, the unrelated signals before it were all
/// forwarded unmodified, and the final reap ends the run.
pub proof fn lemma_run_until_primary_reaped(primary: i32, evs: Seq<IterationEvent>)
    requires
        evs.len() > 0,
        forall|i: int| 0 <= i < evs.len() - 1 ==> !is_exit_event(primary, evs[i]),
        is_exit_event(primary, evs.last()),
    ensures
        spec_run(primary, SupervisorState::Supervising, evs).0 is Terminated,
        spec_run(primary, SupervisorState::Supervising, evs).1 == unrelated_signals(
            evs.drop_last(),
        ),
    decreases evs.len(),
{
    if evs.len() == 1 {
        lemma_run_absorbing(primary, evs.drop_first());
        assert(evs.drop_last() =~= Seq::<IterationEvent>::empty());
        assert(opt_signal(None) + Seq::<i32>::empty() =~= Seq::<i32>::empty());
    } else {
        assert(!is_exit_event(primary, evs[0]));
        let head = spec_step(primary, SupervisorState::Supervising, evs.first());
        assert(head.0 is Supervising);
        assert(evs.drop_first().last() == evs.last());
        assert(forall|i: int|
            0 <= i < evs.drop_first().len() - 1 ==> !is_exit_event(
                primary,
                #[trigger] evs.drop_first()[i],
            ));
        lemma_run_until_primary_reaped(primary, evs.drop_first());
        assert(evs.drop_first().drop_last() =~= evs.drop_last().drop_first());
        match evs.first() {
            IterationEvent::Unrelated { sig } => {
                assert(evs.drop_last().first() == evs.first());
                assert(unrelated_signals(evs.drop_last()) == seq![sig] + unrelated_signals(
                    evs.drop_last().drop_first(),
                ));
            },
            _ => {
                assert(opt_signal(head.1) + unrelated_signals(evs.drop_last().drop_first())
                    =~= unrelated_signals(evs.drop_last().drop_first()));
                assert(evs.drop_last().len() > 0);
                assert(evs.drop_last().first() == evs.first());
            },
        }
    }
}

} // verus!
