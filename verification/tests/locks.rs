use kernel_core::interrupt_safe_spin_lock::InterruptSafeSpinLock;
use kernel_core::spin_lock::SpinLock;

#[test]
fn spin_lock_can_be_taken_and_released_repeatedly() {
    let mut lock = SpinLock::new();
    let guard = lock.lock();
    lock.unlock(guard);
    let guard = lock.lock();
    lock.unlock(guard);
}

#[test]
fn default_spin_lock_starts_free() {
    let mut lock = SpinLock::default();
    let guard = lock.lock();
    lock.unlock(guard);
}

#[test]
fn interrupt_safe_lock_masks_interrupts_for_the_critical_section() {
    let mut interrupts_enabled = true;
    let mut lock = InterruptSafeSpinLock::new(5u64);

    let guard = lock.lock(&mut interrupts_enabled);
    assert!(!interrupts_enabled);
    assert_eq!(*lock.borrow(), 5);
    lock.unlock(&mut interrupts_enabled, guard);

    // release restores the pre-acquire interrupt-enable state
    assert!(interrupts_enabled);
}

#[test]
fn interrupt_safe_lock_restores_a_masked_state_too() {
    let mut interrupts_enabled = false;
    let mut lock = InterruptSafeSpinLock::new(0u64);

    let guard = lock.lock(&mut interrupts_enabled);
    assert!(!interrupts_enabled);
    lock.unlock(&mut interrupts_enabled, guard);

    // interrupts were off at acquisition, so they stay off
    assert!(!interrupts_enabled);
}

#[test]
fn interrupt_safe_lock_hands_its_data_to_the_holder() {
    let mut interrupts_enabled = true;
    let mut lock = InterruptSafeSpinLock::new(String::from("boot"));

    let guard = lock.lock(&mut interrupts_enabled);
    let old = lock.replace(String::from("running"));
    assert_eq!(old, "boot");
    assert_eq!(lock.borrow(), "running");
    lock.unlock(&mut interrupts_enabled, guard);
    assert!(interrupts_enabled);
}
