use kernel_core::allocator::{AllocError, Allocator};
use kernel_core::memory_layout::{
    KERNEL_HEAP_BASE, KERNEL_HEAP_MAX, KERNEL_HEAP_SIZE, PAGE_FRAME_SIZE,
};
use kernel_core::physical_memory_manager::{
    PhysicalMemoryManager, PhysicalMemoryManagerAllocFrameError,
};
use kernel_core::physical_page_frame::PhysicalPageFrameParseError;
use kernel_core::virtual_memory_manager_context::{
    VirtualMemoryManagerContext, VirtualMemoryMappingFlags,
};
use kernel_core::virtual_page_address::VirtualPageAddress;

fn frames(raw: &[u64]) -> PhysicalMemoryManager {
    PhysicalMemoryManager::new(raw.to_vec())
}

#[test]
fn frame_source_answers_from_the_back() {
    let mut source = frames(&[0x1000, 0x2000]);
    assert_eq!(source.remaining(), 2);
    assert_eq!(source.alloc_frame().unwrap().inner(), 0x2000);
    assert_eq!(source.alloc_frame().unwrap().inner(), 0x1000);
    assert_eq!(
        source.alloc_frame(),
        Err(PhysicalMemoryManagerAllocFrameError::NoAvailablePages)
    );
}

#[test]
fn frame_source_zero_means_exhausted() {
    let mut source = frames(&[0]);
    assert_eq!(
        source.alloc_frame(),
        Err(PhysicalMemoryManagerAllocFrameError::NoAvailablePages)
    );
    assert_eq!(source.remaining(), 0);
}

#[test]
fn frame_source_rejects_misaligned_answers() {
    let mut source = frames(&[0x2001]);
    assert_eq!(
        source.alloc_frame(),
        Err(PhysicalMemoryManagerAllocFrameError::InvalidPageFrame(
            PhysicalPageFrameParseError::NotAligned
        ))
    );
}

#[test]
fn context_translates_what_was_mapped() {
    let mut ctx = VirtualMemoryManagerContext::new();
    let page = VirtualPageAddress::new(KERNEL_HEAP_BASE).unwrap();
    let other = VirtualPageAddress::new(KERNEL_HEAP_BASE + PAGE_FRAME_SIZE).unwrap();
    let frame = kernel_core::physical_page_frame::PhysicalPageFrame::new(0x7000_0000).unwrap();

    assert_eq!(ctx.translate(page).unwrap(), None);
    ctx.map_page(page, frame, VirtualMemoryMappingFlags::kernel_data())
        .unwrap();
    assert_eq!(ctx.translate(page).unwrap().unwrap().inner(), 0x7000_0000);
    assert_eq!(ctx.translate(other).unwrap(), None);
}

#[test]
fn context_overwrites_an_existing_mapping() {
    let mut ctx = VirtualMemoryManagerContext::new();
    let page = VirtualPageAddress::new(0x1000).unwrap();
    let f1 = kernel_core::physical_page_frame::PhysicalPageFrame::new(0x1000).unwrap();
    let f2 = kernel_core::physical_page_frame::PhysicalPageFrame::new(0x2000).unwrap();

    ctx.map_page(page, f1, VirtualMemoryMappingFlags::user_data()).unwrap();
    ctx.map_page(page, f2, VirtualMemoryMappingFlags::user_data()).unwrap();
    assert_eq!(ctx.translate(page).unwrap().unwrap().inner(), 0x2000);
}

#[test]
fn first_allocation_grows_and_returns_the_heap_base() {
    let mut heap = Allocator::new();
    assert_eq!(heap.next_free_byte(), KERNEL_HEAP_BASE);
    assert_eq!(heap.mapped_end(), KERNEL_HEAP_BASE);

    let mut source = frames(&[0x9000]);
    let a = heap.allocate(16, &mut source).unwrap();
    assert_eq!(a.inner(), KERNEL_HEAP_BASE);
    assert_eq!(heap.next_free_byte(), KERNEL_HEAP_BASE + 16);
    assert_eq!(heap.mapped_end(), KERNEL_HEAP_BASE + PAGE_FRAME_SIZE);

    let first_page = VirtualPageAddress::new(KERNEL_HEAP_BASE).unwrap();
    let backing = heap.vmm_context().translate(first_page).unwrap().unwrap();
    assert_eq!(backing.inner(), 0x9000);
}

#[test]
fn sizes_are_rounded_to_the_minimum_alignment() {
    let mut heap = Allocator::new();
    let mut source = frames(&[0x9000]);
    let a = heap.allocate(1, &mut source).unwrap();
    let b = heap.allocate(1, &mut source).unwrap();
    assert_eq!(a.inner(), KERNEL_HEAP_BASE);
    assert_eq!(b.inner(), KERNEL_HEAP_BASE + 16);
    assert_eq!(heap.next_free_byte(), KERNEL_HEAP_BASE + 32);
    // both fit in the one page already mapped
    assert_eq!(source.remaining(), 0);
    assert_eq!(heap.mapped_end(), KERNEL_HEAP_BASE + PAGE_FRAME_SIZE);
}

#[test]
fn bump_pointer_is_monotone_and_ranges_are_disjoint() {
    let mut heap = Allocator::new();
    let mut source = frames(&[0x5000, 0x4000, 0x3000, 0x2000, 0x1000]);
    let mut previous_end = KERNEL_HEAP_BASE;
    for size in [24u64, 4096, 16, 1000] {
        let a = heap.allocate(size, &mut source).unwrap();
        // each returned range begins at or after the end of every earlier one
        assert!(a.inner() >= previous_end);
        previous_end = a.inner() + size.div_ceil(16) * 16;
        assert_eq!(heap.next_free_byte(), previous_end);
    }
}

#[test]
fn growth_spans_as_many_pages_as_the_request_needs() {
    let mut heap = Allocator::new();
    let mut source = frames(&[0x3000, 0x2000, 0x1000]);
    let a = heap.allocate(2 * PAGE_FRAME_SIZE + 8, &mut source).unwrap();
    assert_eq!(a.inner(), KERNEL_HEAP_BASE);
    assert_eq!(heap.mapped_end(), KERNEL_HEAP_BASE + 3 * PAGE_FRAME_SIZE);
    assert_eq!(source.remaining(), 0);

    // frames are drawn from the back of the supply and mapped in page order
    let ctx = heap.vmm_context();
    for (index, expected) in [(0u64, 0x1000u64), (1, 0x2000), (2, 0x3000)] {
        let page =
            VirtualPageAddress::new(KERNEL_HEAP_BASE + index * PAGE_FRAME_SIZE).unwrap();
        assert_eq!(ctx.translate(page).unwrap().unwrap().inner(), expected);
    }
}

#[test]
fn exhausted_frame_source_fails_the_growth_and_leaves_the_heap_unchanged() {
    let mut heap = Allocator::new();
    let mut source = frames(&[]);
    assert_eq!(heap.allocate(16, &mut source), Err(AllocError::NoAvailablePages));
    assert_eq!(heap.next_free_byte(), KERNEL_HEAP_BASE);
    assert_eq!(heap.mapped_end(), KERNEL_HEAP_BASE);

    let mut zero_source = frames(&[0]);
    assert_eq!(heap.allocate(16, &mut zero_source), Err(AllocError::NoAvailablePages));
    assert_eq!(zero_source.remaining(), 0);
}

#[test]
fn invalid_frame_answers_fail_the_growth() {
    let mut heap = Allocator::new();
    let mut source = frames(&[0x1001]);
    assert_eq!(heap.allocate(16, &mut source), Err(AllocError::InvalidPageFrame));
    assert_eq!(heap.next_free_byte(), KERNEL_HEAP_BASE);
}

#[test]
fn growth_past_the_ceiling_fails_without_touching_the_frame_source() {
    let mut heap = Allocator::new();
    let mut source = frames(&[0x1000]);
    assert_eq!(
        heap.allocate(KERNEL_HEAP_SIZE + 1, &mut source),
        Err(AllocError::HeapExhausted)
    );
    assert_eq!(source.remaining(), 1);
    assert_eq!(heap.next_free_byte(), KERNEL_HEAP_BASE);
}

#[test]
fn a_heap_sized_to_fit_fails_only_past_the_ceiling() {
    let mut heap = Allocator::new();
    let page_count = KERNEL_HEAP_SIZE / PAGE_FRAME_SIZE;
    let mut raw: Vec<u64> = Vec::new();
    for i in 0..page_count {
        raw.push((i + 1) * PAGE_FRAME_SIZE);
    }
    let mut source = PhysicalMemoryManager::new(raw);

    // the request that fills the heap exactly succeeds
    let a = heap.allocate(KERNEL_HEAP_SIZE, &mut source).unwrap();
    assert_eq!(a.inner(), KERNEL_HEAP_BASE);
    assert_eq!(heap.mapped_end(), KERNEL_HEAP_MAX);
    assert_eq!(heap.next_free_byte(), KERNEL_HEAP_MAX);
    assert_eq!(source.remaining(), 0);

    // any further request pushes past the ceiling
    let mut more = frames(&[0x1000]);
    assert_eq!(heap.allocate(16, &mut more), Err(AllocError::HeapExhausted));
    assert_eq!(more.remaining(), 1);
}

#[test]
fn deallocation_is_a_no_op() {
    let mut heap = Allocator::new();
    let mut source = frames(&[0x9000]);
    let a = heap.allocate(64, &mut source).unwrap();
    let next = heap.next_free_byte();
    heap.deallocate(a, 64);
    assert_eq!(heap.next_free_byte(), next);
    assert_eq!(heap.mapped_end(), KERNEL_HEAP_BASE + PAGE_FRAME_SIZE);
}

#[test]
fn a_request_ending_exactly_on_the_page_boundary_needs_no_extra_page() {
    let mut heap = Allocator::new();
    let mut source = frames(&[0x9000]);
    let a = heap.allocate(PAGE_FRAME_SIZE, &mut source).unwrap();
    assert_eq!(a.inner(), KERNEL_HEAP_BASE);
    assert_eq!(heap.mapped_end(), KERNEL_HEAP_BASE + PAGE_FRAME_SIZE);
    assert_eq!(heap.next_free_byte(), KERNEL_HEAP_BASE + PAGE_FRAME_SIZE);
    assert_eq!(source.remaining(), 0);
}
