//! Schedulable units of execution.
//!
//! A task owns a kernel stack, an opaque saved-context handle, and — for a
//! user task — the address space it runs in. The architecture-specific
//! context primitive that builds and consumes saved contexts is an
//! external collaborator: its handles enter the library as opaque
//! `TaskState` values that the core stores and threads through but never
//! interprets, and the kernel stack enters as the address of its top,
//! which the core hands back when a switch is prepared.

use vstd::prelude::*;

use crate::memory_layout::{PAGE_FRAME_SIZE, USER_STACK_PAGES, USER_STACK_TOP};
use crate::physical_memory_manager::{
    drawn_frames, draw_failure, frames_available, lemma_draw_prefix, supply_after_failed_draws,
    PhysicalMemoryManager, PhysicalMemoryManagerAllocFrameError,
};
use crate::physical_page_frame::frame_in_bounds;
use crate::virtual_memory_manager_context::{
    user_data_flags, PageMapping, VirtualMemoryManagerContext, VirtualMemoryMappingFlags,
};
use crate::virtual_page_address::VirtualPageAddress;

verus! {

/// An opaque saved-context handle: a pointer-sized value meaningful only
/// to the external context-switch primitive. The core stores and forwards
/// it, and never inspects its contents.
#[derive(Debug, Copy, Clone, PartialEq, Eq, Structural)]
pub struct TaskState(pub u64);

/// The mappings of a fresh user stack: `j` pages laid out downward from
/// `USER_STACK_TOP`, installed in ascending step order, page `j` backed by
/// the `j`-th drawn frame, all PRESENT, USER and WRITE.
pub open spec fn user_stack_extended(
    m: Map<u64, PageMapping>,
    raws: Seq<u64>,
    j: int,
) -> Map<u64, PageMapping>
    decreases j,
{
    if j <= 0 {
        m
    } else {
        user_stack_extended(m, raws, j - 1).insert(
            (USER_STACK_TOP - j * PAGE_FRAME_SIZE) as u64,
            PageMapping { frame: raws[j - 1], flags: user_data_flags() },
        )
    }
}

/// One schedulable unit: an optional owned address space (present for
/// user tasks), the top of the owned kernel stack, and the saved-context
/// handle of its point of suspension.
pub struct Task {
    user_ctx: Option<VirtualMemoryManagerContext>,
    kernel_stack_top: u64,
    state: TaskState,
}

impl Task {
    /// The saved-context handle.
    pub closed spec fn spec_state(&self) -> TaskState {
        self.state
    }

    /// The top of the owned kernel stack.
    pub closed spec fn spec_kernel_stack_top(&self) -> u64 {
        self.kernel_stack_top
    }

    /// The mappings of the owned address space, for a user task.
    pub closed spec fn user_mappings(&self) -> Option<Map<u64, PageMapping>> {
        match self.user_ctx {
            Some(ctx) => Some(ctx@),
            None => None,
        }
    }

    /// A kernel task: no address space of its own, a kernel stack with
    /// the given top, and the initial saved context that the external
    /// context primitive produced for its entry function.
    pub fn new_kernel(initial_state: TaskState, kernel_stack_top: u64) -> (r: Task)
        ensures
            r.spec_state() == initial_state,
            r.spec_kernel_stack_top() == kernel_stack_top,
            r.user_mappings() is None,
    {
        Task { user_ctx: None, kernel_stack_top, state: initial_state }
    }

    /// A user task: takes ownership of its address space, carves out and
    /// maps `USER_STACK_PAGES` pages of user stack laid out downward from
    /// `USER_STACK_TOP` — PRESENT, USER and WRITE, each backed by a frame
    /// drawn from `frame_source` — and records the initial saved context
    /// that the external context primitive produced for its user-mode
    /// entry point.
    #[verifier::loop_isolation(false)]
    pub fn new_user(
        user_ctx: VirtualMemoryManagerContext,
        initial_state: TaskState,
        kernel_stack_top: u64,
        frame_source: &mut PhysicalMemoryManager,
    ) -> (r: Result<Task, PhysicalMemoryManagerAllocFrameError>)
        ensures
            frames_available(old(frame_source)@, USER_STACK_PAGES as int) ==> (r matches Ok(task)
                && {
                &&& task.spec_state() == initial_state
                &&& task.spec_kernel_stack_top() == kernel_stack_top
                &&& task.user_mappings() == Some(
                    user_stack_extended(
                        user_ctx@,
                        drawn_frames(old(frame_source)@, USER_STACK_PAGES as int),
                        USER_STACK_PAGES as int,
                    ),
                )
                &&& final(frame_source)@ == old(frame_source)@.take(
                    old(frame_source)@.len() - USER_STACK_PAGES,
                )
            }),
            !frames_available(old(frame_source)@, USER_STACK_PAGES as int) ==> (r matches Err(e)
                && {
                &&& e == draw_failure(old(frame_source)@, USER_STACK_PAGES as int)
                &&& final(frame_source)@ == supply_after_failed_draws(
                    old(frame_source)@,
                    USER_STACK_PAGES as int,
                )
            }),
    {
        let ghost s0 = frame_source@;
        let ghost raws = drawn_frames(s0, USER_STACK_PAGES as int);
        let mut ctx = user_ctx;
        let mut i: u64 = 0;

        while i < USER_STACK_PAGES
            invariant
                0 <= i <= USER_STACK_PAGES,
                s0.len() >= i,
                frame_source@ == s0.take(s0.len() - i),
                forall|q: int| 0 <= q < i ==> frame_in_bounds(#[trigger] s0[s0.len() - 1 - q]),
                ctx@ == user_stack_extended(user_ctx@, raws, i as int),
            decreases USER_STACK_PAGES - i,
        {
            let ghost s_prev = frame_source@;
            let frame = match frame_source.alloc_frame() {
                Ok(frame) => frame,
                Err(e) => {
                    proof {
                        if s_prev.len() > 0 {
                            assert(s_prev.last() == s0[s0.len() - 1 - i]);
                        } else {
                            assert(s0.len() == i);
                        }
                        lemma_draw_prefix(s0, USER_STACK_PAGES as int, i as int);
                    }
                    return Err(e);
                },
            };
            proof {
                assert(s_prev.last() == s0[s0.len() - 1 - i]);
                assert(frame_source@ =~= s0.take(s0.len() - (i + 1)));
            }

            let page_address = USER_STACK_TOP - (i + 1) * PAGE_FRAME_SIZE;
            let vpage = match VirtualPageAddress::new(page_address) {
                Ok(vpage) => vpage,
                Err(_) => {
                    // cannot happen: the stack pages are page-aligned and
                    // lie in the canonical user half
                    return Err(PhysicalMemoryManagerAllocFrameError::NoAvailablePages);
                },
            };
            let _ = ctx.map_page(vpage, frame, VirtualMemoryMappingFlags::user_data());
            i = i + 1;
        }

        Ok(Task { user_ctx: Some(ctx), kernel_stack_top, state: initial_state })
    }

    /// The saved-context handle: where the task will resume.
    pub fn get_state(&self) -> (r: TaskState)
        ensures
            r == self.spec_state(),
    {
        self.state
    }

    /// Stores the saved-context handle of the task's new point of
    /// suspension.
    pub fn set_state(&mut self, state: TaskState)
        ensures
            final(self).spec_state() == state,
            final(self).spec_kernel_stack_top() == old(self).spec_kernel_stack_top(),
            final(self).user_mappings() == old(self).user_mappings(),
    {
        self.state = state;
    }

    /// The kernel stack top to prime as the privileged stack pointer
    /// before a switch commits; the external context primitive consumes
    /// it, so that a later trap lands on the kernel stack owned here, not
    /// on the previous one.
    pub fn prepare_switch(&self) -> (r: u64)
        ensures
            r == self.spec_kernel_stack_top(),
    {
        self.kernel_stack_top
    }

    /// The owned address space, for a user task.
    pub fn user_context(&self) -> (r: Option<&VirtualMemoryManagerContext>)
        ensures
            match r {
                Some(ctx) => self.user_mappings() == Some(ctx@),
                None => self.user_mappings() is None,
            },
    {
        self.user_ctx.as_ref()
    }
}

} // verus!
