use kernel_core::memory_layout::{PAGE_FRAME_SIZE, THREAD_TABLE_SIZE, USER_STACK_TOP};
use kernel_core::physical_memory_manager::{
    PhysicalMemoryManager, PhysicalMemoryManagerAllocFrameError,
};
use kernel_core::scheduler::{Scheduler, SchedulerError, ThreadState};
use kernel_core::tasks::{Task, TaskState};
use kernel_core::virtual_memory_manager_context::VirtualMemoryManagerContext;
use kernel_core::virtual_page_address::VirtualPageAddress;

#[test]
fn fresh_scheduler_has_an_all_unused_table() {
    let s = Scheduler::new();
    assert_eq!(s.current_thread(), -1);
    assert!(!s.started());
    for i in 0..THREAD_TABLE_SIZE {
        assert_eq!(s.thread_state(i), ThreadState::Unused);
    }
    assert_eq!(s.current_kernel_stack_top(), None);
}

#[test]
fn heartbeat_before_start_is_a_no_op() {
    let mut s = Scheduler::new();
    s.create_kernel(TaskState(100), 0x1000).unwrap();
    let next = s.heartbeat(TaskState(7));
    assert_eq!(next, TaskState(7));
    assert_eq!(s.current_thread(), -1);
    assert_eq!(s.thread_state(0), ThreadState::Runnable);
}

#[test]
fn heartbeat_with_no_tasks_is_a_no_op() {
    let mut s = Scheduler::new();
    s.start();
    assert_eq!(s.heartbeat(TaskState(7)), TaskState(7));
    assert_eq!(s.current_thread(), -1);
}

#[test]
fn heartbeat_with_a_single_task_switches_once_then_idles() {
    let mut s = Scheduler::new();
    s.create_kernel(TaskState(100), 0x1000).unwrap();
    s.start();

    // the boot context hands off to the only task
    assert_eq!(s.heartbeat(TaskState(7)), TaskState(100));
    assert_eq!(s.current_thread(), 0);
    assert_eq!(s.thread_state(0), ThreadState::Running);

    // with exactly one task there is nothing to switch to
    assert_eq!(s.heartbeat(TaskState(8)), TaskState(8));
    assert_eq!(s.current_thread(), 0);
    assert_eq!(s.thread_state(0), ThreadState::Running);
}

#[test]
fn create_kernel_fills_the_first_unused_slot() {
    let mut s = Scheduler::new();
    assert_eq!(s.create_kernel(TaskState(100), 0x1000).unwrap(), 0);
    assert_eq!(s.create_kernel(TaskState(200), 0x2000).unwrap(), 1);
    assert_eq!(s.create_user(TaskState(300), 0x3000).unwrap(), 2);
    assert_eq!(s.thread_state(0), ThreadState::Runnable);
    assert_eq!(s.thread_state(1), ThreadState::Runnable);
    assert_eq!(s.thread_state(2), ThreadState::Runnable);
    assert_eq!(s.thread_state(3), ThreadState::Unused);
}

#[test]
fn a_full_table_refuses_the_next_task() {
    let mut s = Scheduler::new();
    for i in 0..THREAD_TABLE_SIZE {
        assert_eq!(s.create_kernel(TaskState(i as u64), 0x1000).unwrap(), i);
    }
    assert_eq!(
        s.create_kernel(TaskState(99), 0x1000),
        Err(SchedulerError::NoUnusedThread)
    );
}

#[test]
fn round_robin_rotates_through_three_tasks_with_wraparound() {
    let mut s = Scheduler::new();
    s.create_kernel(TaskState(100), 0xA000).unwrap(); // A at index 0
    s.create_kernel(TaskState(200), 0xB000).unwrap(); // B at index 1
    s.create_kernel(TaskState(300), 0xC000).unwrap(); // C at index 2
    s.start();

    // hand off from the boot context to A
    assert_eq!(s.heartbeat(TaskState(1)), TaskState(100));
    assert_eq!(s.current_thread(), 0);
    assert_eq!(s.current_kernel_stack_top(), Some(0xA000));

    // five consecutive ticks from A: A->B, B->C, C->A, A->B, B->C
    assert_eq!(s.heartbeat(TaskState(11)), TaskState(200));
    assert_eq!(s.current_thread(), 1);
    assert_eq!(s.heartbeat(TaskState(12)), TaskState(300));
    assert_eq!(s.current_thread(), 2);
    // wraparound at table position 2: the scan comes back to index 0,
    // resuming A exactly where tick one suspended it
    assert_eq!(s.heartbeat(TaskState(13)), TaskState(11));
    assert_eq!(s.current_thread(), 0);
    assert_eq!(s.heartbeat(TaskState(14)), TaskState(12));
    assert_eq!(s.current_thread(), 1);
    assert_eq!(s.heartbeat(TaskState(15)), TaskState(13));
    assert_eq!(s.current_thread(), 2);

    // the preempted task is demoted to Runnable, the chosen one runs
    assert_eq!(s.thread_state(1), ThreadState::Runnable);
    assert_eq!(s.thread_state(2), ThreadState::Running);
}

#[test]
fn exit_removes_the_slot_from_the_rotation() {
    let mut s = Scheduler::new();
    s.create_kernel(TaskState(100), 0xA000).unwrap();
    s.create_kernel(TaskState(200), 0xB000).unwrap();
    s.start();

    assert_eq!(s.heartbeat(TaskState(1)), TaskState(100));
    assert_eq!(s.current_thread(), 0);

    // task 0 exits: its slot goes Dead and the hand-off picks task 1
    assert_eq!(s.thread_exit(TaskState(11)), TaskState(200));
    assert_eq!(s.current_thread(), 1);
    assert_eq!(s.thread_state(0), ThreadState::Dead);

    // no later heartbeat ever selects the dead slot again
    for tick in 0..5u64 {
        assert_eq!(s.heartbeat(TaskState(20 + tick)), TaskState(20 + tick));
        assert_eq!(s.current_thread(), 1);
        assert_eq!(s.thread_state(0), ThreadState::Dead);
    }
}

#[test]
fn exit_of_the_last_task_returns_the_context_unchanged() {
    let mut s = Scheduler::new();
    s.create_kernel(TaskState(100), 0xA000).unwrap();
    s.start();
    assert_eq!(s.heartbeat(TaskState(1)), TaskState(100));
    assert_eq!(s.thread_exit(TaskState(2)), TaskState(2));
    assert_eq!(s.thread_state(0), ThreadState::Dead);
}

#[test]
fn kernel_task_carries_state_and_stack_top() {
    let mut t = Task::new_kernel(TaskState(42), 0xFEED_0000);
    assert_eq!(t.get_state(), TaskState(42));
    assert_eq!(t.prepare_switch(), 0xFEED_0000);
    assert!(t.user_context().is_none());

    t.set_state(TaskState(43));
    assert_eq!(t.get_state(), TaskState(43));
    assert_eq!(t.prepare_switch(), 0xFEED_0000);
}

#[test]
fn user_task_maps_its_stack_pages_into_the_shared_address_space() {
    let ctx = VirtualMemoryManagerContext::new();
    let mut source =
        PhysicalMemoryManager::new(vec![0x4000, 0x3000, 0x2000, 0x1000]);
    let task = Task::new_user(ctx, TaskState(7), 0xFEED_0000, &mut source).unwrap();

    assert_eq!(task.get_state(), TaskState(7));
    assert_eq!(task.prepare_switch(), 0xFEED_0000);
    assert_eq!(source.remaining(), 0);

    // four stack pages laid out downward from the top-of-stack constant,
    // backed by the frames in draw order (from the back of the supply)
    let mapped = task.user_context().unwrap();
    for (step, expected) in [(1u64, 0x1000u64), (2, 0x2000), (3, 0x3000), (4, 0x4000)] {
        let page =
            VirtualPageAddress::new(USER_STACK_TOP - step * PAGE_FRAME_SIZE).unwrap();
        assert_eq!(mapped.translate(page).unwrap().unwrap().inner(), expected);
    }

    // the page at the top-of-stack address itself stays unmapped
    let top = VirtualPageAddress::new(USER_STACK_TOP).unwrap();
    assert_eq!(mapped.translate(top).unwrap(), None);
}

#[test]
fn user_task_creation_fails_when_frames_run_out() {
    let ctx = VirtualMemoryManagerContext::new();
    let mut source = PhysicalMemoryManager::new(vec![0x2000, 0x1000]);
    let r = Task::new_user(ctx, TaskState(7), 0xFEED_0000, &mut source);
    assert_eq!(r.err().unwrap(), PhysicalMemoryManagerAllocFrameError::NoAvailablePages);
    assert_eq!(source.remaining(), 0);
}

#[test]
fn dead_slots_are_not_reused_by_creation() {
    let mut s = Scheduler::new();
    s.create_kernel(TaskState(100), 0xA000).unwrap();
    s.create_kernel(TaskState(200), 0xB000).unwrap();
    s.start();
    s.heartbeat(TaskState(1));
    s.thread_exit(TaskState(2));
    assert_eq!(s.thread_state(0), ThreadState::Dead);

    // the dead slot is terminal: a new task takes the next Unused slot
    assert_eq!(s.create_kernel(TaskState(300), 0xC000).unwrap(), 2);
    assert_eq!(s.thread_state(0), ThreadState::Dead);
}
