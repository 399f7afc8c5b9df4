//! The kernel heap allocator: a monotonically growing bump allocator over
//! the kernel's virtual-memory context.
//!
//! State is `next_free_byte` (next unallocated address) and `mapped_end`
//! (exclusive end of the mapped virtual range). An allocation is satisfied
//! by bumping `next_free_byte`; when the mapped range is too short, the
//! allocator grows it page by page: it obtains physical frames, refuses
//! growth past `KERNEL_HEAP_MAX`, refuses a target page that the page
//! table already maps (which would mean the heap bookkeeping got out of
//! sync), and maps each page read/write. Deallocation is a deliberate
//! no-op: memory is never returned to the heap.

use vstd::prelude::*;

use vstd::arithmetic::div_mod::{lemma_fundamental_div_mod, lemma_mod_bound};

use crate::memory_layout::{
    KERNEL_HEAP_BASE, KERNEL_HEAP_MAX, KERNEL_HEAP_SIZE, MIN_ALLOCATION_ALIGN, PAGE_FRAME_SIZE,
};
use crate::physical_memory_manager::{
    drawn_frames, draw_failure, frames_available, lemma_draw_failure_kind, lemma_draw_prefix,
    supply_after_failed_draws, PhysicalMemoryManager, PhysicalMemoryManagerAllocFrameError,
};
use crate::physical_page_frame::{frame_in_bounds, PhysicalPageFrame};
use crate::virtual_address::{address_in_bounds, VirtualAddress};
use crate::virtual_memory_manager_context::{
    kernel_data_flags, PageMapping, VirtualMemoryManagerContext, VirtualMemoryMappingFlags,
};
use crate::virtual_page_address::VirtualPageAddress;

verus! {

/// Why an allocation failed.
#[derive(Debug, Copy, Clone, PartialEq, Eq, Structural)]
pub enum AllocError {
    /// The physical frame source is exhausted.
    NoAvailablePages,
    /// The physical frame source answered a value that is no valid frame.
    InvalidPageFrame,
    /// Growth would push the mapped range past `KERNEL_HEAP_MAX`.
    HeapExhausted,
    /// The target page of a growth step is already mapped: the heap
    /// bookkeeping is out of sync with the page table. While the
    /// allocator's invariant holds this is never returned.
    PageAlreadyMapped,
}

/// Mathematical state of the allocator: the two bump pointers and the
/// mappings installed in the kernel's virtual-memory context.
#[verifier::ext_equal]
pub struct AllocatorView {
    pub next_free_byte: u64,
    pub mapped_end: u64,
    pub mappings: Map<u64, PageMapping>,
}

/// Well-formedness of the allocator state: the bump pointers lie inside
/// the heap bounds in order, the mapped range ends on a page boundary, and
/// the context maps exactly the heap pages below `mapped_end`.
pub open spec fn heap_wf(v: AllocatorView) -> bool {
    &&& KERNEL_HEAP_BASE <= v.next_free_byte <= v.mapped_end <= KERNEL_HEAP_MAX
    &&& v.mapped_end % PAGE_FRAME_SIZE == 0
    &&& forall|p: u64|
        #[trigger] v.mappings.contains_key(p) <==> (KERNEL_HEAP_BASE <= p < v.mapped_end && p
            % PAGE_FRAME_SIZE == 0)
}

/// The requested size rounded up to the platform's minimum alignment.
pub open spec fn round_up_to_min_align(size: u64) -> int {
    ((size + MIN_ALLOCATION_ALIGN - 1) / (MIN_ALLOCATION_ALIGN as int)) * (
    MIN_ALLOCATION_ALIGN as int)
}

/// How many pages the mapped range must grow by to satisfy a request of
/// `rsize` bytes.
pub open spec fn pages_needed(next_free_byte: u64, mapped_end: u64, rsize: int) -> int {
    if next_free_byte + rsize <= mapped_end {
        0
    } else {
        (next_free_byte + rsize - mapped_end + PAGE_FRAME_SIZE - 1) / (PAGE_FRAME_SIZE as int)
    }
}

/// Where the mapped range ends after the growth that a request of `rsize`
/// bytes demands.
pub open spec fn grown_end(next_free_byte: u64, mapped_end: u64, rsize: int) -> int {
    mapped_end + pages_needed(next_free_byte, mapped_end, rsize) * PAGE_FRAME_SIZE
}

/// Which allocation error the first failing draw of `k` attempted draws
/// produces.
pub open spec fn draw_error(supply: Seq<u64>, k: int) -> AllocError {
    match draw_failure(supply, k) {
        PhysicalMemoryManagerAllocFrameError::NoAvailablePages => AllocError::NoAvailablePages,
        PhysicalMemoryManagerAllocFrameError::InvalidPageFrame(_) => AllocError::InvalidPageFrame,
    }
}

/// The mappings after installing the pages starting at `first_page`, one
/// per raw frame address of `raws`, in order, all read/write.
pub open spec fn extend_mappings(
    m: Map<u64, PageMapping>,
    first_page: int,
    raws: Seq<u64>,
) -> Map<u64, PageMapping>
    decreases raws.len(),
{
    if raws.len() == 0 {
        m
    } else {
        extend_mappings(
            m.insert(
                first_page as u64,
                PageMapping { frame: raws.first(), flags: kernel_data_flags() },
            ),
            first_page + PAGE_FRAME_SIZE,
            raws.drop_first(),
        )
    }
}

/// The whole behavior of one allocation request of `size` bytes from the
/// state `pre`, with the frame source holding `supply_pre`: either growth
/// would pass the heap ceiling and nothing changes; or the frame source
/// fails and nothing changes but the frames consumed; or the request
/// succeeds, returns the old bump pointer, advances it by the rounded
/// size, and maps exactly the missing pages with the drawn frames.
pub open spec fn alloc_transition(
    pre: AllocatorView,
    supply_pre: Seq<u64>,
    size: u64,
    post: AllocatorView,
    supply_post: Seq<u64>,
    r: Result<u64, AllocError>,
) -> bool {
    let rsize = round_up_to_min_align(size);
    let k = pages_needed(pre.next_free_byte, pre.mapped_end, rsize);
    let new_end = grown_end(pre.next_free_byte, pre.mapped_end, rsize);
    if new_end > KERNEL_HEAP_MAX {
        &&& r == Err::<u64, AllocError>(AllocError::HeapExhausted)
        &&& post == pre
        &&& supply_post == supply_pre
    } else if !frames_available(supply_pre, k) {
        &&& r == Err::<u64, AllocError>(draw_error(supply_pre, k))
        &&& post == pre
        &&& supply_post == supply_after_failed_draws(supply_pre, k)
    } else {
        &&& r == Ok::<u64, AllocError>(pre.next_free_byte)
        &&& post.next_free_byte == pre.next_free_byte + rsize
        &&& post.mapped_end == new_end
        &&& post.mappings == extend_mappings(
            pre.mappings,
            pre.mapped_end as int,
            drawn_frames(supply_pre, k),
        )
        &&& supply_post == supply_pre.take(supply_pre.len() - k)
    }
}

proof fn lemma_round_up_to_min_align_bounds(size: u64)
    ensures
        size <= round_up_to_min_align(size) < size + MIN_ALLOCATION_ALIGN,
{
    let x = size + MIN_ALLOCATION_ALIGN - 1;
    lemma_fundamental_div_mod(x, MIN_ALLOCATION_ALIGN as int);
    lemma_mod_bound(x, MIN_ALLOCATION_ALIGN as int);
}

proof fn lemma_pages_cover(d: int)
    requires
        d >= 1,
    ensures
        ((d + PAGE_FRAME_SIZE - 1) / (PAGE_FRAME_SIZE as int)) * PAGE_FRAME_SIZE >= d,
        ((d + PAGE_FRAME_SIZE - 1) / (PAGE_FRAME_SIZE as int)) * PAGE_FRAME_SIZE < d
            + PAGE_FRAME_SIZE,
        (d + PAGE_FRAME_SIZE - 1) / (PAGE_FRAME_SIZE as int) >= 1,
{
    let x = d + PAGE_FRAME_SIZE - 1;
    lemma_fundamental_div_mod(x, PAGE_FRAME_SIZE as int);
    lemma_mod_bound(x, PAGE_FRAME_SIZE as int);
}

/// Installing one more page appends one insertion at the end of the grown
/// range.
proof fn lemma_extend_mappings_push(
    m: Map<u64, PageMapping>,
    first_page: int,
    raws: Seq<u64>,
    x: u64,
)
    requires
        first_page >= 0,
        first_page + raws.len() * PAGE_FRAME_SIZE <= u64::MAX,
    ensures
        extend_mappings(m, first_page, raws.push(x)) == extend_mappings(
            m,
            first_page,
            raws,
        ).insert(
            (first_page + raws.len() * PAGE_FRAME_SIZE) as u64,
            PageMapping { frame: x, flags: kernel_data_flags() },
        ),
    decreases raws.len(),
{
    if raws.len() == 0 {
        assert(raws.push(x).drop_first() =~= Seq::<u64>::empty());
        assert(raws.push(x).first() == x);
        assert(extend_mappings(
            m.insert(first_page as u64, PageMapping { frame: x, flags: kernel_data_flags() }),
            first_page + PAGE_FRAME_SIZE,
            raws.push(x).drop_first(),
        ) == m.insert(first_page as u64, PageMapping { frame: x, flags: kernel_data_flags() }));
    } else {
        let m1 = m.insert(
            first_page as u64,
            PageMapping { frame: raws.first(), flags: kernel_data_flags() },
        );
        assert(raws.push(x).first() == raws.first());
        assert(raws.push(x).drop_first() =~= raws.drop_first().push(x));
        assert((first_page + PAGE_FRAME_SIZE) + raws.drop_first().len() * PAGE_FRAME_SIZE
            == first_page + raws.len() * PAGE_FRAME_SIZE) by (nonlinear_arith)
            requires
                raws.len() >= 1,
        ;
        lemma_extend_mappings_push(m1, first_page + PAGE_FRAME_SIZE, raws.drop_first(), x);
    }
}


/// Bump-allocator monotonicity: an allocation request never moves the bump
/// pointer backward; a successful request returns exactly the old bump
/// pointer and advances it by the rounded size, which covers the request.
pub proof fn lemma_bump_monotonic(
    pre: AllocatorView,
    supply_pre: Seq<u64>,
    size: u64,
    post: AllocatorView,
    supply_post: Seq<u64>,
    r: Result<u64, AllocError>,
)
    requires
        alloc_transition(pre, supply_pre, size, post, supply_post, r),
    ensures
        post.next_free_byte >= pre.next_free_byte,
        r matches Ok(a) ==> a == pre.next_free_byte && post.next_free_byte
            == pre.next_free_byte + round_up_to_min_align(size) && round_up_to_min_align(size)
            >= size,
{
    lemma_round_up_to_min_align_bounds(size);
}

/// Disjointness of returned ranges: when one successful allocation happens
/// before another — the bump pointer after the first is at most the bump
/// pointer before the second, which monotonicity guarantees for any
/// interleaving of requests — the first returned range ends at or before
/// the second begins, so the byte ranges `[a1, a1 + rounded size1)` and
/// `[a2, a2 + rounded size2)` are disjoint.
pub proof fn lemma_alloc_ranges_disjoint(
    pre1: AllocatorView,
    supply_pre1: Seq<u64>,
    size1: u64,
    post1: AllocatorView,
    supply_post1: Seq<u64>,
    a1: u64,
    pre2: AllocatorView,
    supply_pre2: Seq<u64>,
    size2: u64,
    post2: AllocatorView,
    supply_post2: Seq<u64>,
    a2: u64,
)
    requires
        alloc_transition(pre1, supply_pre1, size1, post1, supply_post1, Ok(a1)),
        alloc_transition(pre2, supply_pre2, size2, post2, supply_post2, Ok(a2)),
        post1.next_free_byte <= pre2.next_free_byte,
    ensures
        a1 + round_up_to_min_align(size1) <= a2,
{
    lemma_round_up_to_min_align_bounds(size1);
    lemma_round_up_to_min_align_bounds(size2);
}

/// Heap growth boundary: a request fails with `HeapExhausted` exactly when
/// satisfying it would push the end of the mapped range past
/// `KERNEL_HEAP_MAX`, and no request ever moves the mapped range past the
/// ceiling.
pub proof fn lemma_heap_growth_boundary(
    pre: AllocatorView,
    supply_pre: Seq<u64>,
    size: u64,
    post: AllocatorView,
    supply_post: Seq<u64>,
    r: Result<u64, AllocError>,
)
    requires
        heap_wf(pre),
        alloc_transition(pre, supply_pre, size, post, supply_post, r),
    ensures
        r == Err::<u64, AllocError>(AllocError::HeapExhausted) <==> grown_end(
            pre.next_free_byte,
            pre.mapped_end,
            round_up_to_min_align(size),
        ) > KERNEL_HEAP_MAX,
        post.mapped_end <= KERNEL_HEAP_MAX,
{
    lemma_draw_failure_kind(
        supply_pre,
        pages_needed(pre.next_free_byte, pre.mapped_end, round_up_to_min_align(size)),
    );
}

/// The kernel heap allocator.
pub struct Allocator {
    vmm_context: VirtualMemoryManagerContext,
    next_free_byte: u64,
    mapped_end: u64,
}

impl View for Allocator {
    type V = AllocatorView;

    closed spec fn view(&self) -> AllocatorView {
        AllocatorView {
            next_free_byte: self.next_free_byte,
            mapped_end: self.mapped_end,
            mappings: self.vmm_context@,
        }
    }
}

impl Allocator {
    /// A fresh heap: nothing allocated, nothing mapped, over a fresh
    /// kernel virtual-memory context.
    pub fn new() -> (r: Allocator)
        ensures
            r@.next_free_byte == KERNEL_HEAP_BASE,
            r@.mapped_end == KERNEL_HEAP_BASE,
            r@.mappings == Map::<u64, PageMapping>::empty(),
            heap_wf(r@),
    {
        Allocator {
            vmm_context: VirtualMemoryManagerContext::new(),
            next_free_byte: KERNEL_HEAP_BASE,
            mapped_end: KERNEL_HEAP_BASE,
        }
    }

    /// Next unallocated address.
    pub fn next_free_byte(&self) -> (r: u64)
        ensures
            r == self@.next_free_byte,
    {
        self.next_free_byte
    }

    /// Exclusive end of the mapped virtual range.
    pub fn mapped_end(&self) -> (r: u64)
        ensures
            r == self@.mapped_end,
    {
        self.mapped_end
    }

    /// The kernel virtual-memory context the heap lives in.
    pub fn vmm_context(&self) -> (r: &VirtualMemoryManagerContext)
        ensures
            r@ == self@.mappings,
    {
        &self.vmm_context
    }

    /// One allocation request of `size` bytes, drawing any frames that
    /// growth demands from `frame_source`. The whole behavior is
    /// `alloc_transition`; the bookkeeping desynchronization error is
    /// never returned, since the allocator's invariant keeps the heap
    /// bookkeeping and the page table in sync.
    #[verifier::loop_isolation(false)]
    pub fn allocate(&mut self, size: u64, frame_source: &mut PhysicalMemoryManager) -> (r: Result<
        VirtualAddress,
        AllocError,
    >)
        requires
            heap_wf(old(self)@),
        ensures
            heap_wf(final(self)@),
            alloc_transition(
                old(self)@,
                old(frame_source)@,
                size,
                final(self)@,
                final(frame_source)@,
                match r {
                    Ok(a) => Ok(a@),
                    Err(e) => Err(e),
                },
            ),
            !(r matches Err(AllocError::PageAlreadyMapped)),
            r matches Ok(a) ==> address_in_bounds(a@),
    {
        let ghost pre = self@;
        let ghost s0 = frame_source@;

        if size > KERNEL_HEAP_SIZE {
            proof {
                lemma_round_up_to_min_align_bounds(size);
                lemma_pages_cover(
                    pre.next_free_byte + round_up_to_min_align(size) - pre.mapped_end,
                );
            }
            return Err(AllocError::HeapExhausted);
        }

        let rsize: u64 = ((size + (MIN_ALLOCATION_ALIGN - 1)) / MIN_ALLOCATION_ALIGN)
            * MIN_ALLOCATION_ALIGN;
        proof {
            lemma_round_up_to_min_align_bounds(size);
        }
        let needed: u64 = self.next_free_byte + rsize;

        if needed > self.mapped_end {
            let k: u64 = (needed - self.mapped_end + (PAGE_FRAME_SIZE - 1)) / PAGE_FRAME_SIZE;
            proof {
                lemma_pages_cover(needed - self.mapped_end);
            }
            let new_end: u64 = self.mapped_end + k * PAGE_FRAME_SIZE;

            if new_end > KERNEL_HEAP_MAX {
                return Err(AllocError::HeapExhausted);
            }

            // Draw every frame the growth needs before touching the heap
            // state, so that a failing frame source leaves the heap as it
            // was.
            let mut drawn: Vec<PhysicalPageFrame> = Vec::new();
            let mut j: u64 = 0;
            while j < k
                invariant
                    0 <= j <= k,
                    s0.len() >= j,
                    frame_source@ == s0.take(s0.len() - j),
                    drawn@.len() == j,
                    forall|i: int|
                        0 <= i < j ==> frame_in_bounds(#[trigger] s0[s0.len() - 1 - i])
                            && drawn@[i]@ == s0[s0.len() - 1 - i],
                decreases k - j,
            {
                let ghost s_prev = frame_source@;
                match frame_source.alloc_frame() {
                    Ok(frame) => {
                        proof {
                            assert(s_prev.last() == s0[s0.len() - 1 - j]);
                            assert(frame_source@ =~= s0.take(s0.len() - (j + 1)));
                        }
                        drawn.push(frame);
                    },
                    Err(e) => {
                        proof {
                            if s_prev.len() > 0 {
                                assert(s_prev.last() == s0[s0.len() - 1 - j]);
                            } else {
                                assert(s0.len() == j);
                            }
                            lemma_draw_prefix(s0, k as int, j as int);
                        }
                        return Err(
                            match e {
                                PhysicalMemoryManagerAllocFrameError::NoAvailablePages => AllocError::NoAvailablePages,
                                PhysicalMemoryManagerAllocFrameError::InvalidPageFrame(
                                    _,
                                ) => AllocError::InvalidPageFrame,
                            },
                        );
                    },
                }
                j = j + 1;
            }

            // Map the drawn frames one page at a time, bumping the end of
            // the mapped range as each page is installed.
            let ghost m0 = self.vmm_context@;
            let ghost base0 = self.mapped_end;
            let ghost raws = drawn_frames(s0, k as int);
            let mut i: u64 = 0;
            while i < k
                invariant
                    0 <= i <= k,
                    self.next_free_byte == pre.next_free_byte,
                    self.mapped_end == base0 + i * PAGE_FRAME_SIZE,
                    heap_wf(self@),
                    self.vmm_context@ == extend_mappings(m0, base0 as int, raws.take(i as int)),
                decreases k - i,
            {
                let ghost view_prev = self@;
                let page = self.mapped_end;
                let vpage = match VirtualPageAddress::new(page) {
                    Ok(vpage) => vpage,
                    Err(_) => {
                        // cannot happen: the target page is page-aligned
                        // and inside the heap bounds
                        return Err(AllocError::HeapExhausted);
                    },
                };

                // Defensive desynchronization check: refuse to map a page
                // the page table already holds. The invariant makes this
                // branch unreachable.
                match self.vmm_context.translate(vpage) {
                    Ok(Some(_)) => {
                        proof {
                            assert(view_prev.mappings.contains_key(page));
                            assert(false);
                        }
                        return Err(AllocError::PageAlreadyMapped);
                    },
                    _ => {},
                }

                let ghost ctx_prev = self.vmm_context@;
                let frame = drawn[i as usize];
                let _ = self.vmm_context.map_page(
                    vpage,
                    frame,
                    VirtualMemoryMappingFlags::kernel_data(),
                );
                proof {
                    lemma_extend_mappings_push(
                        m0,
                        base0 as int,
                        raws.take(i as int),
                        raws[i as int],
                    );
                    assert(raws.take(i as int).push(raws[i as int]) =~= raws.take(i + 1));
                }
                self.mapped_end = page + PAGE_FRAME_SIZE;
                proof {
                    assert(self.vmm_context@ == ctx_prev.insert(
                        page,
                        PageMapping { frame: frame@, flags: kernel_data_flags() },
                    ));
                    assert forall|p: u64| #[trigger] self.vmm_context@.contains_key(p) <==> (
                    KERNEL_HEAP_BASE <= p < self.mapped_end && p % PAGE_FRAME_SIZE == 0) by {
                        assert(self.vmm_context@.contains_key(p) <==> p == page
                            || ctx_prev.contains_key(p));
                        assert(view_prev.mappings == ctx_prev);
                        assert(view_prev.mappings.contains_key(p) <==> (KERNEL_HEAP_BASE <= p
                            < page && p % PAGE_FRAME_SIZE == 0));
                        if p != page && page < p < page + PAGE_FRAME_SIZE && p % PAGE_FRAME_SIZE
                            == 0 {
                            assert(p >= page + PAGE_FRAME_SIZE) by (nonlinear_arith)
                                requires
                                    p % PAGE_FRAME_SIZE == 0,
                                    page % PAGE_FRAME_SIZE == 0,
                                    p > page,
                            ;
                        }
                    }
                }
                i = i + 1;
            }
            proof {
                assert(raws.take(k as int) =~= raws);
                assert(frame_source@ == s0.take(s0.len() - k));
            }
        } else {
            proof {
                assert(s0.take(s0.len() as int) =~= s0);
                assert(drawn_frames(s0, 0) =~= Seq::<u64>::empty());
            }
        }

        let ghost before_bump = self@;
        let a = self.next_free_byte;
        self.next_free_byte = a + rsize;
        proof {
            assert(heap_wf(before_bump));
            assert(self@.mappings == before_bump.mappings);
            assert(self@.mapped_end == before_bump.mapped_end);
            assert forall|p: u64| #[trigger] self@.mappings.contains_key(p) <==> (
            KERNEL_HEAP_BASE <= p < self@.mapped_end && p % PAGE_FRAME_SIZE == 0) by {
                assert(before_bump.mappings.contains_key(p) <==> (KERNEL_HEAP_BASE <= p
                    < before_bump.mapped_end && p % PAGE_FRAME_SIZE == 0));
            }
            assert(heap_wf(self@));
        }
        match VirtualAddress::new(a) {
            Ok(address) => Ok(address),
            Err(_) => {
                // cannot happen: the old bump pointer lies inside the heap
                Err(AllocError::HeapExhausted)
            },
        }
    }

    /// Deallocation is a deliberate no-op: the heap is bump-only and
    /// memory is never returned.
    pub fn deallocate(&mut self, _address: VirtualAddress, _size: u64)
        ensures
            final(self)@ == old(self)@,
    {
    }
}

} // verus!
