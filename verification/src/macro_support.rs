//! Execution wrappers: the orchestration routines that run a unit-of-work
//! body, capture its termination, map it to the published outcome, and hand
//! the termination back to the caller after publishing.
//!
//! Generated callers drive one unit of work by obtaining an [`Executor`]
//! instance, waiting once per dependency, and then running their own body
//! through one of the two wrappers here, depending on whether the body signals
//! failure through a typed result or only through abnormal termination.

use vstd::prelude::*;

use crate::{Continuation, Executor, Termination};

verus! {

/// Opaque marker published to dependents whenever a unit of work did not
/// complete successfully, whether by an explicit failure result or by
/// abnormal termination. Carries no detail: the original fault payload is
/// never stored in a cell, only handed back to the caller that ran the
/// failing body.
#[derive(Clone, Copy, Debug, PartialEq, Eq, Structural)]
pub struct TestFailedError;

/// What the no-result wrapper publishes and passes through for a body that
/// ended as `t`: a normal completion with value `v` publishes `Ok(v)` and
/// passes through normal completion, while an abnormal termination publishes
/// `Err(TestFailedError)` and passes the fault payload through unchanged.
pub open spec fn noresult_pair<T, F>(
    t: Termination<T, F>,
) -> (Result<T, TestFailedError>, Termination<(), F>) {
    match t {
        Termination::Normal(v) => (Ok(v), Termination::Normal(())),
        Termination::Fault(p) => (Err(TestFailedError), Termination::Fault(p)),
    }
}

/// What the result-bearing wrapper publishes and passes through for a body
/// that ended as `t`: `Ok(v)` publishes `Ok(v)`; an explicit failure `Err(e)`
/// publishes the opaque signal while the original error is preserved in the
/// pass-through; an abnormal termination publishes the signal and passes the
/// fault payload through unchanged.
pub open spec fn result_pair<T, E, F>(
    t: Termination<Result<T, E>, F>,
) -> (Result<T, TestFailedError>, Termination<Result<(), E>, F>) {
    match t {
        Termination::Normal(Ok(v)) => (Ok(v), Termination::Normal(Ok(()))),
        Termination::Normal(Err(e)) => (Err(TestFailedError), Termination::Normal(Err(e))),
        Termination::Fault(p) => (Err(TestFailedError), Termination::Fault(p)),
    }
}

/// Map one body termination to the pair that the no-result wrapper hands to
/// [`Executor::execute`]: the outcome to publish and the pass-through.
pub fn seal_noresult<T, F>(t: Termination<T, F>) -> (r: (
    Result<T, TestFailedError>,
    Termination<(), F>,
))
    ensures
        r == noresult_pair(t),
{
    match t {
        Termination::Normal(v) => (Ok(v), Termination::Normal(())),
        Termination::Fault(p) => (Err(TestFailedError), Termination::Fault(p)),
    }
}

/// Map one body termination to the pair that the result-bearing wrapper hands
/// to [`Executor::execute`]: the outcome to publish and the pass-through.
pub fn seal_result<T, E, F>(t: Termination<Result<T, E>, F>) -> (r: (
    Result<T, TestFailedError>,
    Termination<Result<(), E>, F>,
))
    ensures
        r == result_pair(t),
{
    match t {
        Termination::Normal(Ok(v)) => (Ok(v), Termination::Normal(Ok(()))),
        Termination::Normal(Err(e)) => (Err(TestFailedError), Termination::Normal(Err(e))),
        Termination::Fault(p) => (Err(TestFailedError), Termination::Fault(p)),
    }
}

/// Run a body that signals failure only through abnormal termination, publish
/// its outcome into `continuation`, and hand the body's termination back.
///
/// A body ending in `Normal(v)` publishes `Ok(v)` and completes normally; one
/// ending in `Fault(p)` publishes `Err(TestFailedError)` so dependents see a
/// definite failure instead of hanging, while the caller receives the same
/// fault payload to re-raise. Publication always happens before this function
/// returns.
pub fn exec_noresult<T: Clone, F, C, Ex, B>(
    executor: Ex,
    continuation: &C,
    body: B,
) -> (r: Termination<(), F>)
    where
        C: Continuation<Value = Result<T, TestFailedError>>,
        Ex: Executor<C>,
        B: FnOnce() -> Termination<T, F>,
    requires
        call_requires(body, ()),
    ensures
        exists|t: Termination<T, F>| call_ensures(body, (), t) && r == noresult_pair(t).1,
{
    let tester = (|| -> (out: (Result<T, TestFailedError>, Termination<(), F>))
        ensures
            exists|t: Termination<T, F>| call_ensures(body, (), t) && out == noresult_pair(t),
        {
            seal_noresult(body())
        });
    executor.execute(tester, continuation)
}

/// Run a body that signals failure through a typed result, publish its
/// outcome into `continuation`, and hand the body's termination back.
///
/// A body ending in `Normal(Ok(v))` publishes `Ok(v)` and the caller sees
/// `Normal(Ok(()))`; one ending in `Normal(Err(e))` publishes
/// `Err(TestFailedError)` while the caller receives the original error
/// untranslated; one ending in `Fault(p)` publishes `Err(TestFailedError)`
/// and the caller receives the same fault payload to re-raise. Publication
/// always happens before this function returns.
pub fn exec_result<T: Clone, E, F, C, Ex, B>(
    executor: Ex,
    continuation: &C,
    body: B,
) -> (r: Termination<Result<(), E>, F>)
    where
        C: Continuation<Value = Result<T, TestFailedError>>,
        Ex: Executor<C>,
        B: FnOnce() -> Termination<Result<T, E>, F>,
    requires
        call_requires(body, ()),
    ensures
        exists|t: Termination<Result<T, E>, F>|
            call_ensures(body, (), t) && r == result_pair(t).1,
{
    let tester = (|| -> (out: (Result<T, TestFailedError>, Termination<Result<(), E>, F>))
        ensures
            exists|t: Termination<Result<T, E>, F>|
                call_ensures(body, (), t) && out == result_pair(t),
        {
            seal_result(body())
        });
    executor.execute(tester, continuation)
}

} // verus!
