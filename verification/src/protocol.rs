//! The state machine of one continuation cell, and the laws that hold of it.
//!
//! Per cell the only transition is the single publish, from the empty slot to
//! a published outcome; both published shapes are terminal. The lemmas here
//! state the protocol-level guarantees over that machine and over the outcome
//! mapping of the execution wrappers.

use vstd::prelude::*;

use crate::Termination;
use crate::macro_support::{TestFailedError, noresult_pair, result_pair};

verus! {

/// The state of one continuation's slot: empty until the single publish,
/// then holding the published outcome forever.
pub enum SlotState<T> {
    /// Nothing published yet; every wait on the cell suspends.
    Empty,
    /// The outcome has been published; every wait returns a duplicate of it.
    Published(T),
}

/// The one transition of the protocol: publishing outcome `v` takes the empty
/// slot to `Published(v)`. No other transition exists.
pub open spec fn publish_step<T>(pre: SlotState<T>, v: T, post: SlotState<T>) -> bool {
    pre is Empty && post == SlotState::Published(v)
}

/// What a completed wait on a cell in state `s` observes: reading neither
/// mutates nor consumes the slot, so an observation is exactly the published
/// value.
pub open spec fn observes<T>(s: SlotState<T>, v: T) -> bool {
    s == SlotState::Published(v)
}

/// A wait can complete exactly when the slot is published; on an empty slot
/// it suspends instead.
pub open spec fn wait_enabled<T>(s: SlotState<T>) -> bool {
    s is Published
}

/// Single publish: a publish step starts only from the empty slot and leaves
/// it published, and no further step leaves a published slot, so the slot
/// holds exactly one value from the first publish on.
pub proof fn lemma_single_publish<T>(pre: SlotState<T>, v: T, post: SlotState<T>, w: T, later: SlotState<T>)
    requires
        publish_step(pre, v, post),
    ensures
        pre is Empty,
        post == SlotState::Published(v),
        !publish_step(post, w, later),
{
}

/// What one moment in a cell's life may do to the slot: leave it unchanged
/// (reads and idle time) or perform the single publish step.
pub open spec fn step_or_stutter<T>(pre: SlotState<T>, post: SlotState<T>) -> bool {
    post == pre || exists|v: T| publish_step(pre, v, post)
}

/// A possible history of one cell's slot: every adjacent pair of states is
/// either unchanged or one publish step.
pub open spec fn trace_ok<T>(tr: Seq<SlotState<T>>) -> bool {
    forall|i: int| 0 <= i && i + 1 < tr.len() ==> step_or_stutter(tr[i], #[trigger] tr[i + 1])
}

/// Single publish, over a whole history: once the slot is published, it holds
/// exactly that value at every later point of the history, so a published
/// cell keeps its one value for the remainder of the process.
pub proof fn lemma_published_forever<T>(tr: Seq<SlotState<T>>, i: int, j: int)
    requires
        trace_ok(tr),
        0 <= i <= j < tr.len(),
        tr[i] is Published,
    ensures
        tr[j] == tr[i],
    decreases j - i,
{
    if i < j {
        assert(step_or_stutter(tr[i], tr[i + 1]));
        assert(tr[i + 1] == tr[i]);
        lemma_published_forever(tr, i + 1, j);
    }
}

/// Reader agreement: all observations of one cell see the same value, however
/// many readers observe it and in whatever order, since the slot never
/// changes once published.
pub proof fn lemma_observations_agree<T>(s: SlotState<T>, v1: T, v2: T)
    requires
        observes(s, v1),
        observes(s, v2),
    ensures
        v1 == v2,
{
}

/// Immediate availability: on a published slot a wait is enabled, and it
/// observes exactly the published value, so a wait that arrives after the
/// publish completes without suspending.
pub proof fn lemma_immediate_availability<T>(v: T)
    ensures
        wait_enabled(SlotState::Published(v)),
        observes(SlotState::Published(v), v),
{
}

/// Success path of the no-result wrapper: a body that completes normally with
/// value `v` publishes `Ok(v)`, so every dependent's wait observes `Ok(v)`,
/// and the caller sees normal completion.
pub proof fn lemma_noresult_success<T, F>(t: Termination<T, F>, v: T, post: SlotState<Result<T, TestFailedError>>)
    requires
        t == Termination::<T, F>::Normal(v),
        publish_step(SlotState::Empty, noresult_pair(t).0, post),
    ensures
        observes(post, Ok(v)),
        noresult_pair(t).1 == Termination::<(), F>::Normal(()),
{
}

/// Failure propagation of the no-result wrapper: a body that terminates
/// abnormally with payload `p` publishes `Err(TestFailedError)`, so every
/// dependent's wait observes the opaque failure signal, while the caller
/// receives the same payload to re-raise.
pub proof fn lemma_noresult_failure<T, F>(t: Termination<T, F>, p: F, post: SlotState<Result<T, TestFailedError>>)
    requires
        t == Termination::<T, F>::Fault(p),
        publish_step(SlotState::Empty, noresult_pair(t).0, post),
    ensures
        observes(post, Err(TestFailedError)),
        noresult_pair(t).1 == Termination::<(), F>::Fault(p),
{
}

/// Failure propagation of the result-bearing wrapper: a body that completes
/// with `Err(e)` publishes `Err(TestFailedError)`, so dependents observe only
/// the opaque signal, while the caller receives the original error `e`
/// preserved, not replaced by the signal.
pub proof fn lemma_result_failure<T, E, F>(t: Termination<Result<T, E>, F>, e: E, post: SlotState<Result<T, TestFailedError>>)
    requires
        t == Termination::<Result<T, E>, F>::Normal(Err(e)),
        publish_step(SlotState::Empty, result_pair(t).0, post),
    ensures
        observes(post, Err(TestFailedError)),
        result_pair(t).1 == Termination::<Result<(), E>, F>::Normal(Err(e)),
{
}

/// Success path of the result-bearing wrapper: a body that completes with
/// `Ok(v)` publishes `Ok(v)`, so every dependent's wait observes `Ok(v)`,
/// and the caller sees normal completion with `Ok(())`.
pub proof fn lemma_result_success<T, E, F>(t: Termination<Result<T, E>, F>, v: T, post: SlotState<Result<T, TestFailedError>>)
    requires
        t == Termination::<Result<T, E>, F>::Normal(Ok(v)),
        publish_step(SlotState::Empty, result_pair(t).0, post),
    ensures
        observes(post, Ok(v)),
        result_pair(t).1 == Termination::<Result<(), E>, F>::Normal(Ok(())),
{
}

} // verus!
