//! Reaping of terminated descendants: a non-blocking sweep that collects
//! every child the kernel currently reports as exited or killed.
//!
//! One kernel poll is a `WaitOutcome`; a sweep is a sequence of outcomes
//! ending in the first "nothing ready", "no children" or failure.  The
//! sweep's result is fixed by that sequence through `spec_sweep`, so the
//! deterministic part of the sweep is verified against it, both for the
//! live loop and for a recorded outcome sequence.

use vstd::prelude::*;

verus! {

/// What one non-blocking wait for any child reported.
#[derive(Clone, Copy, Debug, PartialEq, Eq, Structural)]
pub enum WaitOutcome {
    /// A descendant terminated (exited or was killed by a signal) and was
    /// collected; `pid` is its process identity.
    Reaped { pid: i32 },
    /// Children exist but none is currently terminated.
    NothingReady,
    /// The process has no children at all.  Deliberately treated exactly
    /// like `NothingReady`: the sweep ends without error and the caller
    /// keeps polling, even though no further child signal can arrive.
    NoChildren,
    /// A state change that is not a termination (for example a stopped
    /// child); noted and skipped without ending the sweep.
    OtherStatus,
    /// The wait itself failed with the given errno.
    Failed { errno: i32 },
}

/// The error a sweep surfaces when the underlying wait fails for any
/// reason other than having no children.
#[derive(Clone, Copy, Debug, PartialEq, Eq, Structural)]
pub struct ReapError {
    pub errno: i32,
}

/// Outcomes that keep a sweep going.
pub open spec fn is_progress(o: WaitOutcome) -> bool {
    o is Reaped || o is OtherStatus
}

/// Outcomes that end a sweep without error.
pub open spec fn is_stop(o: WaitOutcome) -> bool {
    o is NothingReady || o is NoChildren
}

/// A full sweep's worth of outcomes: every outcome but the last keeps the
/// sweep going, and the last one ends it (with or without error).
pub open spec fn complete_trace(t: Seq<WaitOutcome>) -> bool {
    &&& t.len() > 0
    &&& !is_progress(t.last())
    &&& forall|i: int| 0 <= i < t.len() - 1 ==> is_progress(t[i])
}

/// The identities collected from a sequence of outcomes, in order.
pub open spec fn reaped_pids(t: Seq<WaitOutcome>) -> Seq<i32>
    decreases t.len(),
{
    if t.len() == 0 {
        Seq::empty()
    } else {
        match t.first() {
            WaitOutcome::Reaped { pid } => seq![pid] + reaped_pids(t.drop_first()),
            _ => reaped_pids(t.drop_first()),
        }
    }
}

/// What a sweep returns for a given sequence of outcomes: the collected
/// identities up to the first stop, or the first failure's error.
pub open spec fn spec_sweep(t: Seq<WaitOutcome>) -> Result<Seq<i32>, ReapError>
    decreases t.len(),
{
    if t.len() == 0 {
        Ok(Seq::empty())
    } else {
        match t.first() {
            WaitOutcome::Reaped { pid } => match spec_sweep(t.drop_first()) {
                Ok(s) => Ok(seq![pid] + s),
                Err(e) => Err(e),
            },
            WaitOutcome::OtherStatus => spec_sweep(t.drop_first()),
            WaitOutcome::NothingReady => Ok(Seq::empty()),
            WaitOutcome::NoChildren => Ok(Seq::empty()),
            WaitOutcome::Failed { errno } => Err(ReapError { errno }),
        }
    }
}

/// A sweep result agrees with `spec_sweep` on some complete trace.
pub open spec fn sweep_matches(t: Seq<WaitOutcome>, r: Result<Vec<i32>, ReapError>) -> bool {
    &&& complete_trace(t)
    &&& match r {
        Ok(v) => spec_sweep(t) == Ok::<Seq<i32>, ReapError>(v@),
        Err(e) => spec_sweep(t) == Err::<Seq<i32>, ReapError>(e),
    }
}

/// A sweep cut off at the poll limit: every poll reported progress and
/// everything collected so far is returned.  One poll is one syscall, so
/// no real kernel reaches this case; it exists because the sweep loop
/// carries an explicit iteration bound.
pub open spec fn exhausted_sweep(t: Seq<WaitOutcome>, r: Result<Vec<i32>, ReapError>) -> bool {
    &&& t.len() == usize::MAX
    &&& forall|i: int| 0 <= i < t.len() ==> is_progress(t[i])
    &&& match r {
        Ok(v) => v@ == reaped_pids(t),
        Err(_) => false,
    }
}

/// What `reap_zombies` promises of its result: it is the sweep of the
/// complete trace of outcomes the kernel produced, or — unreachably in
/// practice — the collection of a sweep cut off at the poll limit.
pub open spec fn sweep_result(t: Seq<WaitOutcome>, r: Result<Vec<i32>, ReapError>) -> bool {
    sweep_matches(t, r) || exhausted_sweep(t, r)
}

/// Appending one outcome extends the collected identities by that
/// outcome's contribution.
proof fn lemma_reaped_pids_push(t: Seq<WaitOutcome>, o: WaitOutcome)
    ensures
        reaped_pids(t.push(o)) == match o {
            WaitOutcome::Reaped { pid } => reaped_pids(t).push(pid),
            _ => reaped_pids(t),
        },
    decreases t.len(),
{
    if t.len() == 0 {
        assert(t.push(o).first() == o);
        assert(t.push(o).drop_first() =~= Seq::<WaitOutcome>::empty());
        assert(reaped_pids(Seq::<WaitOutcome>::empty()) == Seq::<i32>::empty());
        match o {
            WaitOutcome::Reaped { pid } => {
                assert(reaped_pids(t.push(o)) == seq![pid] + Seq::<i32>::empty());
                assert(seq![pid] + Seq::<i32>::empty() =~= reaped_pids(t).push(pid));
            },
            _ => {},
        }
    } else {
        assert(t.push(o).first() == t.first());
        assert(t.push(o).drop_first() =~= t.drop_first().push(o));
        lemma_reaped_pids_push(t.drop_first(), o);
        match o {
            WaitOutcome::Reaped { pid } => {
                assert(reaped_pids(t.push(o)) =~= reaped_pids(t).push(pid));
            },
            _ => {},
        }
    }
}

/// On a complete trace, the sweep returns exactly the collected
/// identities, or the final outcome's failure.
pub proof fn lemma_sweep_of_complete(t: Seq<WaitOutcome>)
    requires
        complete_trace(t),
    ensures
        match t.last() {
            WaitOutcome::Failed { errno } => spec_sweep(t) == Err::<Seq<i32>, ReapError>(
                ReapError { errno },
            ),
            _ => spec_sweep(t) == Ok::<Seq<i32>, ReapError>(reaped_pids(t)),
        },
    decreases t.len(),
{
    if t.len() == 1 {
        assert(t.first() == t.last());
        assert(t.drop_first() =~= Seq::<WaitOutcome>::empty());
        assert(reaped_pids(Seq::<WaitOutcome>::empty()) == Seq::<i32>::empty());
        match t.last() {
            WaitOutcome::Failed { errno } => {},
            _ => {
                assert(!(t.first() is Reaped));
                assert(reaped_pids(t) == reaped_pids(t.drop_first()));
            },
        }
    } else {
        assert(is_progress(t.first()));
        let rest = t.drop_first();
        assert(rest.last() == t.last());
        assert(complete_trace(rest));
        lemma_sweep_of_complete(rest);
        match t.first() {
            WaitOutcome::Reaped { pid } => {
                match t.last() {
                    WaitOutcome::Failed { errno } => {},
                    _ => {
                        assert(spec_sweep(t) == Ok::<Seq<i32>, ReapError>(
                            seq![pid] + reaped_pids(rest),
                        ));
                        assert(reaped_pids(t) =~= seq![pid] + reaped_pids(rest));
                    },
                }
            },
            _ => {},
        }
    }
}

/// A sweep during which no descendant had terminated collects nothing:
/// its result is the empty sequence.  Calling it again under the same
/// circumstances returns the empty sequence again, so the sweep is
/// idempotent when nothing has died.
pub proof fn lemma_idle_sweep_is_empty(t: Seq<WaitOutcome>)
    requires
        complete_trace(t),
        forall|i: int| 0 <= i < t.len() ==> !(t[i] is Reaped),
        !(t.last() is Failed),
    ensures
        spec_sweep(t) == Ok::<Seq<i32>, ReapError>(Seq::empty()),
    decreases t.len(),
{
    lemma_sweep_of_complete(t);
    lemma_no_reaped_means_empty(t);
}

/// Without a `Reaped` outcome nothing is collected.
proof fn lemma_no_reaped_means_empty(t: Seq<WaitOutcome>)
    requires
        forall|i: int| 0 <= i < t.len() ==> !(t[i] is Reaped),
    ensures
        reaped_pids(t) == Seq::<i32>::empty(),
    decreases t.len(),
{
    if t.len() > 0 {
        lemma_no_reaped_means_empty(t.drop_first());
    }
}

/// Relies on `nix::sys::wait::waitpid` called for any child with
/// `WNOHANG`: reports one terminated descendant per call without
/// blocking, `StillAlive` when none is terminated, and `ECHILD` when the
/// process has no children.  The outcome depends on the state of the
/// process table, so nothing is promised about which variant comes back.
#[verifier::external_body]
fn wait_any_nohang() -> WaitOutcome {
    match nix::sys::wait::waitpid(
        None::<nix::unistd::Pid>,
        Some(nix::sys::wait::WaitPidFlag::WNOHANG),
    ) {
        Ok(nix::sys::wait::WaitStatus::Exited(pid, _)) => WaitOutcome::Reaped { pid: pid.as_raw() },
        Ok(nix::sys::wait::WaitStatus::Signaled(pid, _, _)) => WaitOutcome::Reaped {
            pid: pid.as_raw(),
        },
        Ok(nix::sys::wait::WaitStatus::StillAlive) => WaitOutcome::NothingReady,
        Err(nix::errno::Errno::ECHILD) => WaitOutcome::NoChildren,
        Ok(_) => WaitOutcome::OtherStatus,
        Err(e) => WaitOutcome::Failed { errno: e as i32 },
    }
}

/// Reaps every descendant the kernel currently reports as terminated,
/// returning their identities in the order they were collected.  Finding
/// nothing to reap — including having no children at all — is a normal
/// empty result, not an error; only an unexpected wait failure is.
///
/// The kernel chooses the outcomes, so the contract says the result is
/// the sweep of some complete outcome trace.
pub fn reap_zombies() -> (r: Result<Vec<i32>, ReapError>)
    ensures
        exists|t: Seq<WaitOutcome>| sweep_result(t, r),
{
    let mut pids: Vec<i32> = Vec::new();
    let ghost mut trace: Seq<WaitOutcome> = Seq::empty();
    let mut polls: usize = 0;
    while polls < usize::MAX
        invariant
            trace.len() == polls,
            forall|i: int| 0 <= i < trace.len() ==> is_progress(trace[i]),
            pids@ == reaped_pids(trace),
        decreases usize::MAX - polls,
    {
        let outcome = wait_any_nohang();
        match outcome {
            WaitOutcome::Reaped { pid } => {
                pids.push(pid);
                proof {
                    lemma_reaped_pids_push(trace, outcome);
                    trace = trace.push(outcome);
                }
            },
            WaitOutcome::OtherStatus => {
                proof {
                    lemma_reaped_pids_push(trace, outcome);
                    trace = trace.push(outcome);
                }
            },
            WaitOutcome::NothingReady | WaitOutcome::NoChildren => {
                let r: Result<Vec<i32>, ReapError> = Ok(pids);
                proof {
                    let t = trace.push(outcome);
                    assert(t.last() == outcome);
                    assert(forall|i: int| 0 <= i < t.len() - 1 ==> is_progress(#[trigger] t[i]));
                    lemma_reaped_pids_push(trace, outcome);
                    lemma_sweep_of_complete(t);
                    assert(sweep_result(t, r));
                }
                return r;
            },
            WaitOutcome::Failed { errno } => {
                let r: Result<Vec<i32>, ReapError> = Err(ReapError { errno });
                proof {
                    let t = trace.push(outcome);
                    assert(t.last() == outcome);
                    assert(forall|i: int| 0 <= i < t.len() - 1 ==> is_progress(#[trigger] t[i]));
                    lemma_sweep_of_complete(t);
                    assert(sweep_result(t, r));
                }
                return r;
            },
        }
        polls += 1;
    }
    let r: Result<Vec<i32>, ReapError> = Ok(pids);
    proof {
        assert(exhausted_sweep(trace, r));
        assert(sweep_result(trace, r));
    }
    r
}

/// Replays the sweep's decision rule over a recorded sequence of
/// outcomes: collect each termination, skip other status changes, stop at
/// the first "nothing ready" or "no children", fail on the first failure.
pub fn sweep_outcomes(outcomes: &Vec<WaitOutcome>) -> (r: Result<Vec<i32>, ReapError>)
    ensures
        match r {
            Ok(v) => spec_sweep(outcomes@) == Ok::<Seq<i32>, ReapError>(v@),
            Err(e) => spec_sweep(outcomes@) == Err::<Seq<i32>, ReapError>(e),
        },
{
    let r = sweep_outcomes_from(outcomes, 0);
    proof {
        assert(outcomes@.skip(0) =~= outcomes@);
    }
    r
}

/// The sweep decision rule over the outcomes from index `i` onwards.
fn sweep_outcomes_from(outcomes: &Vec<WaitOutcome>, i: usize) -> (r: Result<Vec<i32>, ReapError>)
    requires
        i <= outcomes@.len(),
    ensures
        match r {
            Ok(v) => spec_sweep(outcomes@.skip(i as int)) == Ok::<Seq<i32>, ReapError>(v@),
            Err(e) => spec_sweep(outcomes@.skip(i as int)) == Err::<Seq<i32>, ReapError>(e),
        },
    decreases outcomes@.len() - i,
{
    if i == outcomes.len() {
        proof {
            assert(outcomes@.skip(i as int) =~= Seq::<WaitOutcome>::empty());
        }
        return Ok(Vec::new());
    }
    proof {
        assert(outcomes@.skip(i as int).first() == outcomes@[i as int]);
        assert(outcomes@.skip(i as int).drop_first() =~= outcomes@.skip(i + 1));
    }
    match outcomes[i] {
        WaitOutcome::Reaped { pid } => {
            match sweep_outcomes_from(outcomes, i + 1) {
                Ok(mut v) => {
                    let ghost tail = v@;
                    v.insert(0, pid);
                    proof {
                        assert(v@ =~= seq![pid] + tail);
                    }
                    Ok(v)
                },
                Err(e) => Err(e),
            }
        },
        WaitOutcome::OtherStatus => sweep_outcomes_from(outcomes, i + 1),
        WaitOutcome::NothingReady | WaitOutcome::NoChildren => Ok(Vec::new()),
        WaitOutcome::Failed { errno } => Err(ReapError { errno }),
    }
}

} // verus!
