//! Scheduling and memory core of a small single-CPU multitasking kernel:
//! validated address types, an interrupt-safe locking discipline, a
//! per-address-space virtual-memory context, a typed physical-frame source,
//! the kernel's bump heap allocator, the task model and the round-robin
//! scheduler.
//!
//! Architecture-specific collaborators (the context-switch primitive, the
//! page-table walker, the interrupt controller, the raw frame free list) sit
//! behind narrow boundaries: their results enter the library as plain values,
//! and every decision taken on those values is verified.

pub mod allocator;
pub mod interrupt_safe_spin_lock;
pub mod memory_layout;
pub mod physical_memory_manager;
pub mod physical_page_frame;
pub mod scheduler;
pub mod spin_lock;
pub mod tasks;
pub mod virtual_address;
pub mod virtual_memory_manager_context;
pub mod virtual_page_address;
