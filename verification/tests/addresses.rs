use kernel_core::memory_layout::{
    KERNEL_HEAP_BASE, KERNEL_HEAP_MAX, PAGE_FRAME_SIZE, USER_SPACE_MAX,
};
use kernel_core::physical_page_frame::{PhysicalPageFrame, PhysicalPageFrameParseError};
use kernel_core::virtual_address::{VirtualAddress, VirtualAddressParseError};
use kernel_core::virtual_page_address::{VirtualPageAddress, VirtualPageAddressParseError};

#[test]
fn virtual_address_accepts_user_half() {
    let a = VirtualAddress::new(0).unwrap();
    assert_eq!(a.inner(), 0);
    let b = VirtualAddress::new(USER_SPACE_MAX).unwrap();
    assert_eq!(b.inner(), USER_SPACE_MAX);
}

#[test]
fn virtual_address_accepts_kernel_heap_range() {
    assert_eq!(VirtualAddress::new(KERNEL_HEAP_BASE).unwrap().inner(), KERNEL_HEAP_BASE);
    assert_eq!(VirtualAddress::new(KERNEL_HEAP_MAX).unwrap().inner(), KERNEL_HEAP_MAX);
}

#[test]
fn virtual_address_rejects_canonical_hole_and_out_of_heap() {
    assert_eq!(
        VirtualAddress::new(USER_SPACE_MAX + 1),
        Err(VirtualAddressParseError::NotInRange)
    );
    assert_eq!(
        VirtualAddress::new(KERNEL_HEAP_BASE - 1),
        Err(VirtualAddressParseError::NotInRange)
    );
    assert_eq!(
        VirtualAddress::new(KERNEL_HEAP_MAX + 1),
        Err(VirtualAddressParseError::NotInRange)
    );
    assert_eq!(VirtualAddress::new(u64::MAX), Err(VirtualAddressParseError::NotInRange));
}

#[test]
fn virtual_address_add_revalidates() {
    let a = VirtualAddress::new(KERNEL_HEAP_BASE).unwrap();
    let b = a.add(PAGE_FRAME_SIZE).unwrap();
    assert_eq!(b.inner(), KERNEL_HEAP_BASE + PAGE_FRAME_SIZE);

    let top = VirtualAddress::new(KERNEL_HEAP_MAX).unwrap();
    assert_eq!(top.add(1), Err(VirtualAddressParseError::NotInRange));
    assert_eq!(top.add(u64::MAX), Err(VirtualAddressParseError::NotInRange));
}

#[test]
fn virtual_page_address_requires_alignment_and_bounds() {
    let p = VirtualPageAddress::new(KERNEL_HEAP_BASE).unwrap();
    assert_eq!(p.inner(), KERNEL_HEAP_BASE);
    assert_eq!(p.start(), KERNEL_HEAP_BASE);
    assert_eq!(p.end(), KERNEL_HEAP_BASE + PAGE_FRAME_SIZE - 1);

    assert_eq!(
        VirtualPageAddress::new(KERNEL_HEAP_BASE + 1),
        Err(VirtualPageAddressParseError::NotAligned)
    );
    assert_eq!(
        VirtualPageAddress::new(0x0000_8000_0000_0000),
        Err(VirtualPageAddressParseError::InvalidAddress(
            VirtualAddressParseError::NotInRange
        ))
    );
}

#[test]
fn virtual_page_address_accepts_user_half_pages() {
    let p = VirtualPageAddress::new(0x1000).unwrap();
    assert_eq!(p.inner(), 0x1000);
    assert_eq!(p.end(), 0x1FFF);
}

#[test]
fn virtual_page_address_next_page_checks_the_range() {
    let p = VirtualPageAddress::new(KERNEL_HEAP_BASE).unwrap();
    let q = p.next_page().unwrap();
    assert_eq!(q.inner(), KERNEL_HEAP_BASE + PAGE_FRAME_SIZE);

    let top = VirtualPageAddress::new(KERNEL_HEAP_MAX).unwrap();
    assert_eq!(
        top.next_page(),
        Err(VirtualPageAddressParseError::InvalidAddress(
            VirtualAddressParseError::NotInRange
        ))
    );
}

#[test]
fn physical_page_frame_rejects_zero() {
    assert_eq!(
        PhysicalPageFrame::new(0),
        Err(PhysicalPageFrameParseError::NullPageFrame)
    );
}

#[test]
fn physical_page_frame_rejects_misaligned() {
    assert_eq!(
        PhysicalPageFrame::new(PAGE_FRAME_SIZE + 1),
        Err(PhysicalPageFrameParseError::NotAligned)
    );
    assert_eq!(PhysicalPageFrame::new(1), Err(PhysicalPageFrameParseError::NotAligned));
}

#[test]
fn physical_page_frame_keeps_aligned_nonzero_values() {
    let f = PhysicalPageFrame::new(PAGE_FRAME_SIZE).unwrap();
    assert_eq!(f.inner(), PAGE_FRAME_SIZE);
    assert_eq!(f.start(), PAGE_FRAME_SIZE);
    assert_eq!(f.end(), 2 * PAGE_FRAME_SIZE - 1);

    let top = PhysicalPageFrame::new(0xFFFF_FFFF_FFFF_F000).unwrap();
    assert_eq!(top.inner(), 0xFFFF_FFFF_FFFF_F000);
    assert_eq!(top.end(), u64::MAX);
}
