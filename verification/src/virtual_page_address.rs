//! Validated page-aligned virtual addresses.

use vstd::prelude::*;

use crate::memory_layout::PAGE_FRAME_SIZE;
use crate::virtual_address::{address_in_bounds, VirtualAddress, VirtualAddressParseError};

verus! {

/// A raw value is a well-formed page address when it is page-aligned and a
/// well-formed virtual address.
pub open spec fn page_address_in_bounds(value: u64) -> bool {
    value % PAGE_FRAME_SIZE == 0 && address_in_bounds(value)
}

/// A virtual address additionally known to be page-aligned.
#[derive(Debug, Copy, Clone, PartialEq, Eq, Structural)]
pub struct VirtualPageAddress(VirtualAddress);

/// Why a raw value was refused as a `VirtualPageAddress`.
#[derive(Debug, Copy, Clone, PartialEq, Eq, Structural)]
pub enum VirtualPageAddressParseError {
    /// The value is page-aligned but not a legal virtual address.
    InvalidAddress(VirtualAddressParseError),
    /// The value is not aligned to the page size.
    NotAligned,
}

impl View for VirtualPageAddress {
    type V = u64;

    closed spec fn view(&self) -> u64 {
        self.0@
    }
}

impl VirtualPageAddress {
    #[verifier::type_invariant]
    pub(crate) open spec fn type_inv(self) -> bool {
        self@ % PAGE_FRAME_SIZE == 0
    }

    /// Validating factory: total over all 64-bit inputs, accepting exactly
    /// the page-aligned well-formed addresses. Misalignment is reported
    /// before the range check, as the stricter of the two conditions.
    pub fn new(value: u64) -> (r: Result<
        VirtualPageAddress,
        VirtualPageAddressParseError,
    >)
        ensures
            match r {
                Ok(a) => page_address_in_bounds(value) && a@ == value,
                Err(e) => !page_address_in_bounds(value) && e == (
                if value % PAGE_FRAME_SIZE != 0 {
                    VirtualPageAddressParseError::NotAligned
                } else {
                    VirtualPageAddressParseError::InvalidAddress(
                        VirtualAddressParseError::NotInRange,
                    )
                }),
            },
    {
        if value % PAGE_FRAME_SIZE != 0 {
            return Err(VirtualPageAddressParseError::NotAligned);
        }

        match VirtualAddress::new(value) {
            Ok(virtual_address) => Ok(VirtualPageAddress(virtual_address)),
            Err(err) => Err(VirtualPageAddressParseError::InvalidAddress(err)),
        }
    }

    /// The raw 64-bit value of the page address.
    pub fn inner(&self) -> (r: u64)
        ensures
            r == self@,
            page_address_in_bounds(r),
    {
        proof {
            use_type_invariant(self);
        }
        self.0.inner()
    }

    /// First byte of the page.
    pub fn start(&self) -> (r: u64)
        ensures
            r == self@,
    {
        self.inner()
    }

    /// Last byte of the page (inclusive).
    pub fn end(&self) -> (r: u64)
        ensures
            r == self@ + PAGE_FRAME_SIZE - 1,
    {
        let inner = self.inner();
        inner + (PAGE_FRAME_SIZE - 1)
    }

    /// Address-range-checked successor page.
    pub fn next_page(&self) -> (r: Result<
        VirtualPageAddress,
        VirtualPageAddressParseError,
    >)
        ensures
            match r {
                Ok(a) => page_address_in_bounds((self@ + PAGE_FRAME_SIZE) as u64) && a@ == self@
                    + PAGE_FRAME_SIZE,
                Err(e) => {
                    &&& self@ + PAGE_FRAME_SIZE > u64::MAX || !page_address_in_bounds(
                        (self@ + PAGE_FRAME_SIZE) as u64,
                    )
                    &&& e == VirtualPageAddressParseError::InvalidAddress(
                        VirtualAddressParseError::NotInRange,
                    )
                },
            },
    {
        proof {
            use_type_invariant(self);
        }
        let inner = self.inner();
        if inner > u64::MAX - PAGE_FRAME_SIZE {
            return Err(
                VirtualPageAddressParseError::InvalidAddress(VirtualAddressParseError::NotInRange),
            );
        }

        VirtualPageAddress::new(inner + PAGE_FRAME_SIZE)
    }
}

} // verus!
