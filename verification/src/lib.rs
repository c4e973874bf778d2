//! A synchronization runtime that lets independent units of work declare data
//! dependencies on each other and run concurrently while observing a correct
//! producer/consumer order.
//!
//! Each unit of work owns a [`Continuation`]: a write-once, multi-reader cell
//! that eventually holds the unit's outcome. A dependent unit blocks on the
//! cell until the outcome is published, then receives its own duplicate of the
//! value. The [`Executor`] protocol drives one unit's waits and its single
//! terminal publish; [`standard_executor`] implements it with a lock and a
//! condition variable per cell, and [`macro_support`] holds the wrappers that
//! run a unit's body, capture its termination, and publish the outcome exactly
//! once to all present and future waiters.

use vstd::prelude::*;

pub mod macro_support;
pub mod protocol;
pub mod standard_executor;

verus! {

/// How one run of a unit-of-work body ended: either it produced a value, or it
/// terminated abnormally with an opaque fault payload.
///
/// Abrupt termination is carried across the orchestration boundary as an
/// explicit tagged value rather than by stack unwinding, so publication of the
/// outcome can never be skipped by a non-local jump; the caller that receives
/// a [`Termination::Fault`] is expected to re-raise it locally.
#[derive(Clone, Copy, Debug, PartialEq, Eq)]
pub enum Termination<T, F> {
    /// The body ran to completion and produced this value.
    Normal(T),
    /// The body terminated abnormally; the payload describes the fault.
    Fault(F),
}

/// Test execution state holder: the write-once, multi-reader cell holding the
/// eventual outcome of one unit of work.
///
/// A cell starts empty and transitions at most once to holding a published
/// value; all access to the slot goes through the [`Executor`] protocol.
pub trait Continuation: Sized {
    /// The outcome type stored in the cell, duplicated to every reader.
    type Value: Clone;

    /// An empty cell, ready for use: not yet published, with no waiters.
    fn initial() -> Self;
}

/// Test executor: the protocol coordinating one unit of work's waits on its
/// dependencies and the single publish of its own outcome.
///
/// An instance is created fresh per unit-of-work invocation via [`init`],
/// consumed by a sequence of blocking reads ([`wait`]) and one terminal
/// publish ([`execute`]). Alternate implementations may be substituted for
/// [`standard_executor::StandardExecutor`] provided they honor the same
/// publish-once and ordering contracts.
///
/// [`init`]: Executor::init
/// [`wait`]: Executor::wait
/// [`execute`]: Executor::execute
pub trait Executor<C: Continuation>: Sized {
    /// Initialize the executor. Called exactly once per unit of work.
    fn init() -> Self;

    /// Block the calling thread until `continuation`'s slot is non-empty, then
    /// return a duplicate of the stored value.
    ///
    /// Called once per dependency. If the value is already available the call
    /// returns without blocking; if the cell's producer is never invoked the
    /// call blocks indefinitely (a usage error of the surrounding harness).
    /// The returned value is whatever some producer published: it comes from
    /// another thread, so nothing more can be promised of it here.
    fn wait(&mut self, continuation: &C) -> C::Value;

    /// Run `tester` to obtain an outcome value and a pass-through payload,
    /// publish the outcome into `continuation`'s slot, wake all current and
    /// future waiters, and hand the pass-through payload back to the caller.
    fn execute<P, F: FnOnce() -> (C::Value, P)>(
        self,
        tester: F,
        continuation: &C,
    ) -> (passed: P)
        requires
            call_requires(tester, ()),
        ensures
            exists|outcome: C::Value| call_ensures(tester, (), (outcome, passed)),
    ;
}

} // verus!
