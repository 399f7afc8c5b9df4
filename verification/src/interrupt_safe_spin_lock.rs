//! Busy-wait mutual exclusion that additionally masks interrupts.
//!
//! Shared state that the scheduler heartbeat touches can be reached both
//! from normal kernel context and from the timer interrupt handler; on a
//! single CPU, concurrency means interrupt reentrancy. This lock disables
//! interrupts before spinning and re-enables them only when the lock is
//! released, so a handler of the very interrupt that drives the scheduler
//! cannot re-enter a critical section already held by the context it
//! preempted. The process-wide interrupt-enable flag enters the library
//! as a plain `&mut bool`; the interrupt controller behind it is an
//! external collaborator.

use vstd::prelude::*;

use crate::spin_lock::test_and_set_step;

verus! {

/// A test-and-set spinlock that owns the data it guards and masks
/// interrupts for the whole critical section.
pub struct InterruptSafeSpinLock<T> {
    locked: bool,
    data: T,
}

/// Witness of a held `InterruptSafeSpinLock`: it records the
/// interrupt-enable state found at acquisition, which release restores.
pub struct InterruptSafeSpinLockGuard {
    saved_interrupts_enabled: bool,
}

impl InterruptSafeSpinLockGuard {
    /// The interrupt-enable state found at acquisition.
    pub closed spec fn saved_interrupts_enabled(&self) -> bool {
        self.saved_interrupts_enabled
    }
}

/// Mutual exclusion under interrupt reentrancy: of two acquisition
/// attempts on the same lock — one from normal context and one from a
/// handler that preempted it, or any other interleaving that orders them
/// — never both observe the lock as free.
pub proof fn lemma_interrupt_safe_mutual_exclusion(
    locked0: bool,
    locked1: bool,
    locked2: bool,
    first_acquired: bool,
    second_acquired: bool,
)
    requires
        test_and_set_step(locked0, locked1, first_acquired),
        test_and_set_step(locked1, locked2, second_acquired),
    ensures
        !(first_acquired && second_acquired),
{
}

impl<T> InterruptSafeSpinLock<T> {
    /// Whether the lock is held.
    pub closed spec fn is_locked(&self) -> bool {
        self.locked
    }

    /// The guarded data.
    pub closed spec fn value(&self) -> T {
        self.data
    }

    /// A fresh, free lock guarding `data`.
    pub fn new(data: T) -> (r: InterruptSafeSpinLock<T>)
        ensures
            !r.is_locked(),
            r.value() == data,
    {
        InterruptSafeSpinLock { locked: false, data }
    }

    /// Acquires the lock: disables interrupts, then performs one
    /// successful test-and-set observation. The lock must be free — once
    /// interrupts are masked on the single CPU, nothing could ever
    /// release it. The guard records the interrupt-enable state found at
    /// acquisition.
    pub fn lock(&mut self, interrupts_enabled: &mut bool) -> (guard: InterruptSafeSpinLockGuard)
        requires
            !old(self).is_locked(),
        ensures
            final(self).is_locked(),
            final(self).value() == old(self).value(),
            test_and_set_step(old(self).is_locked(), final(self).is_locked(), true),
            *final(interrupts_enabled) == false,
            guard.saved_interrupts_enabled() == *old(interrupts_enabled),
    {
        let saved = *interrupts_enabled;
        *interrupts_enabled = false;
        self.locked = true;
        InterruptSafeSpinLockGuard { saved_interrupts_enabled: saved }
    }

    /// Releases the lock, consuming the guard, and restores the
    /// pre-acquisition interrupt-enable state; this is what the guard
    /// going out of scope does on every exit path.
    pub fn unlock(&mut self, interrupts_enabled: &mut bool, guard: InterruptSafeSpinLockGuard)
        requires
            old(self).is_locked(),
        ensures
            !final(self).is_locked(),
            final(self).value() == old(self).value(),
            *final(interrupts_enabled) == guard.saved_interrupts_enabled(),
    {
        self.locked = false;
        *interrupts_enabled = guard.saved_interrupts_enabled;
    }

    /// Reads the guarded data; only a holder of the lock may.
    pub fn borrow(&self) -> (r: &T)
        requires
            self.is_locked(),
        ensures
            *r == self.value(),
    {
        &self.data
    }

    /// Replaces the guarded data, handing the old value back; only a
    /// holder of the lock may.
    pub fn replace(&mut self, data: T) -> (r: T)
        requires
            old(self).is_locked(),
        ensures
            final(self).is_locked(),
            final(self).value() == data,
            r == old(self).value(),
    {
        let mut data = data;
        core::mem::swap(&mut self.data, &mut data);
        data
    }
}

} // verus!
