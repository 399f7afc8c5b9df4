//! Busy-wait mutual exclusion for normal-context callers.
//!
//! Acquisition is one atomic test-and-set observation: an attempt acquires
//! the lock exactly when it observes it free, and leaves it held either
//! way. On the single CPU this core runs on, spinning on a lock the
//! current context already holds could never terminate, so acquiring
//! requires the lock to be free; the contract of `lock` records the
//! test-and-set observation, and `lemma_spin_lock_mutual_exclusion` states
//! that two attempts never both observe the lock as free.

use vstd::prelude::*;

verus! {

/// One atomic test-and-set observation on a lock flag: the flag is left
/// set, and the attempt succeeds exactly when it observed the flag clear.
pub open spec fn test_and_set_step(pre_locked: bool, post_locked: bool, acquired: bool) -> bool {
    post_locked && (acquired <==> !pre_locked)
}

/// Mutual exclusion: of two test-and-set attempts on the same lock, one
/// after the other, never both observe the lock as free.
pub proof fn lemma_spin_lock_mutual_exclusion(
    locked0: bool,
    locked1: bool,
    locked2: bool,
    first_acquired: bool,
    second_acquired: bool,
)
    requires
        test_and_set_step(locked0, locked1, first_acquired),
        test_and_set_step(locked1, locked2, second_acquired),
    ensures
        !(first_acquired && second_acquired),
{
}

/// A test-and-set spinlock.
pub struct SpinLock {
    locked: bool,
}

/// Witness of a held `SpinLock`; releasing consumes it.
pub struct SpinLockGuard {
    held: (),
}

impl SpinLock {
    /// Whether the lock is held.
    pub closed spec fn is_locked(&self) -> bool {
        self.locked
    }

    /// A fresh, free lock.
    pub fn new() -> (r: SpinLock)
        ensures
            !r.is_locked(),
    {
        SpinLock { locked: false }
    }

    /// Acquires the lock: one successful test-and-set observation. The
    /// lock must be free — on a single CPU, spinning on a lock the caller
    /// already holds would never terminate.
    pub fn lock(&mut self) -> (guard: SpinLockGuard)
        requires
            !old(self).is_locked(),
        ensures
            final(self).is_locked(),
            test_and_set_step(old(self).is_locked(), final(self).is_locked(), true),
    {
        self.locked = true;
        SpinLockGuard { held: () }
    }

    /// Releases the lock, consuming the guard; this is what the guard
    /// going out of scope does on every exit path.
    pub fn unlock(&mut self, guard: SpinLockGuard)
        requires
            old(self).is_locked(),
        ensures
            !final(self).is_locked(),
    {
        let SpinLockGuard { held: () } = guard;
        self.locked = false;
    }
}

impl Default for SpinLock {
    fn default() -> (r: SpinLock)
        ensures
            !r.is_locked(),
    {
        SpinLock::new()
    }
}

} // verus!
