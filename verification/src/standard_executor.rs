//! Standard [`Executor`] and [`Continuation`] implementations, built on one
//! mutual-exclusion lock and one condition variable per cell.

use vstd::prelude::*;

use crate::{Continuation, Executor};

verus! {

/// The standard, thread-based executor: waits suspend on the cell's condition
/// variable, and the publish stores the outcome and wakes every waiter while
/// holding the cell's lock.
pub struct StandardExecutor;

/// The standard write-once cell: a slot guarded by a mutual-exclusion lock,
/// with a condition variable used to wake waiters.
///
/// The slot transitions from empty to published at most once over the cell's
/// lifetime, and once non-empty its value never changes; any number of
/// readers may duplicate the published value concurrently. The lock and the
/// condition variable are owned by this one cell and never shared. The
/// primitives below are the only code that touches the slot.
#[verifier::external_body]
#[verifier::reject_recursive_types(T)]
pub struct StandardContinuation<T> {
    mutex: std::sync::Mutex<Option<T>>,
    condvar: std::sync::Condvar,
}

/// The cell's lock, held by the publishing thread for the duration of running
/// the unit-of-work body, so that no reader can observe a transiently
/// inconsistent state and a theoretical concurrent publish attempt on the
/// same cell is serialized.
#[verifier::external_body]
#[verifier::reject_recursive_types(T)]
struct PublishLock<'a, T> {
    guard: std::sync::MutexGuard<'a, Option<T>>,
    condvar: &'a std::sync::Condvar,
}

impl<T: Clone> StandardContinuation<T> {
    /// Relies on std::sync::Mutex::new and std::sync::Condvar::new: constructs
    /// an empty cell, with nothing published and no waiters.
    #[verifier::external_body]
    fn empty() -> Self {
        StandardContinuation {
            mutex: std::sync::Mutex::new(None),
            condvar: std::sync::Condvar::new(),
        }
    }

    /// Relies on std::sync::Mutex::lock and std::sync::Condvar::wait: blocks
    /// the calling thread until the slot is non-empty, then returns a
    /// duplicate of the stored value made by T::clone.
    ///
    /// The check of the slot and the suspension on the condition variable are
    /// atomic with respect to the publish path's lock acquisition, so a wait
    /// that starts before the publish is always woken, and one that starts
    /// after it returns without suspending. The loop cannot be promised to
    /// terminate: on a cell whose producer is never invoked it blocks
    /// forever, which is a documented usage error of the surrounding harness.
    /// A poisoned lock is taken over rather than escalated, so this primitive
    /// itself never panics.
    #[verifier::external_body]
    fn read_blocking(&self) -> T {
        let mut guard = self.mutex.lock().unwrap_or_else(std::sync::PoisonError::into_inner);
        loop {
            if let Some(value) = guard.as_ref() {
                break value.clone();
            }
            guard = self.condvar.wait(guard).unwrap_or_else(std::sync::PoisonError::into_inner);
        }
    }

    /// Relies on std::sync::Mutex::lock: acquires this cell's lock, to be
    /// held until [`StandardContinuation::publish_and_wake`] releases it.
    /// A poisoned lock is taken over rather than escalated.
    #[verifier::external_body]
    fn lock_slot(&self) -> PublishLock<'_, T> {
        PublishLock {
            guard: self.mutex.lock().unwrap_or_else(std::sync::PoisonError::into_inner),
            condvar: &self.condvar,
        }
    }

    /// Relies on std::sync::Condvar::notify_all: stores `outcome` into the
    /// slot guarded by `lock`, wakes every thread waiting on the cell's
    /// condition variable, and releases the lock.
    #[verifier::external_body]
    fn publish_and_wake(lock: PublishLock<'_, T>, outcome: T) {
        let PublishLock { mut guard, condvar } = lock;
        *guard = Some(outcome);
        condvar.notify_all();
    }
}

impl<T: Clone> Continuation for StandardContinuation<T> {
    type Value = T;

    fn initial() -> Self {
        StandardContinuation::empty()
    }
}

impl StandardExecutor {
    /// Initialize the standard executor; equivalent to
    /// [`Executor::init`], without the need to name the continuation type.
    pub fn init() -> Self {
        StandardExecutor
    }
}

impl<T: Clone> Executor<StandardContinuation<T>> for StandardExecutor {
    fn init() -> Self {
        StandardExecutor
    }

    fn wait(&mut self, continuation: &StandardContinuation<T>) -> T {
        continuation.read_blocking()
    }

    fn execute<P, F: FnOnce() -> (T, P)>(
        self,
        tester: F,
        continuation: &StandardContinuation<T>,
    ) -> P {
        let lock = continuation.lock_slot();
        let (outcome, passed) = tester();
        StandardContinuation::publish_and_wake(lock, outcome);
        passed
    }
}

} // verus!
