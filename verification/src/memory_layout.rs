//! Layout constants of the kernel's address space.

use vstd::prelude::*;

verus! {

/// Size in bytes of one page of virtual address space and of one physical
/// page frame.
pub const PAGE_FRAME_SIZE: u64 = 4096;

/// Total capacity of the kernel heap.
pub const KERNEL_HEAP_SIZE: u64 = 256 * 1024 * 1024;

/// First byte of the kernel heap.
pub const KERNEL_HEAP_BASE: u64 = 0xFFFF_C000_0000_0000;

/// Ceiling of the kernel heap: the heap may grow up to, and never past,
/// this address.
pub const KERNEL_HEAP_MAX: u64 = KERNEL_HEAP_BASE + KERNEL_HEAP_SIZE;

/// Highest canonical user-space address; everything between this address
/// and the start of the kernel half is the canonical hole.
pub const USER_SPACE_MAX: u64 = 0x0000_7FFF_FFFF_FFFF;

/// Top of the fixed user-mode stack region of a user task; its stack pages
/// are laid out downward from here.
pub const USER_STACK_TOP: u64 = 0x7FFF_FFFF_F000;

/// Number of pages mapped as the user-mode stack of a user task.
pub const USER_STACK_PAGES: u64 = 4;

/// Size in bytes of the kernel stack owned by every task.
pub const TASK_KERNEL_STACK_SIZE: u64 = 4 * PAGE_FRAME_SIZE;

/// Minimum alignment of heap allocations; every requested size is rounded
/// up to a multiple of this.
pub const MIN_ALLOCATION_ALIGN: u64 = 16;

/// Number of slots in the scheduler's fixed-capacity task table.
pub const THREAD_TABLE_SIZE: usize = 12;

} // verus!
