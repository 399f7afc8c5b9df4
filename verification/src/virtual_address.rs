//! Validated virtual addresses.
//!
//! A `VirtualAddress` can only be constructed through a validating factory,
//! so that "is this address legal" is a construction-time invariant rather
//! than a runtime check scattered through the kernel.

use vstd::prelude::*;

use crate::memory_layout::{KERNEL_HEAP_BASE, KERNEL_HEAP_MAX, USER_SPACE_MAX};

verus! {

/// A 64-bit address is well formed when it lies in the canonical user half
/// or inside the kernel heap range; addresses in the canonical hole and
/// kernel addresses outside the declared heap bounds are rejected.
pub open spec fn address_in_bounds(value: u64) -> bool {
    value <= USER_SPACE_MAX || KERNEL_HEAP_BASE <= value <= KERNEL_HEAP_MAX
}

/// A virtual address known to lie in the legal kernel/user ranges.
#[derive(Debug, Copy, Clone, PartialEq, Eq, Structural)]
pub struct VirtualAddress(u64);

/// Why a raw value was refused as a `VirtualAddress`.
#[derive(Debug, Copy, Clone, PartialEq, Eq, Structural)]
pub enum VirtualAddressParseError {
    /// The value lies in the canonical hole or outside the declared
    /// address-space bounds.
    NotInRange,
}

impl View for VirtualAddress {
    type V = u64;

    closed spec fn view(&self) -> u64 {
        self.0
    }
}

impl VirtualAddress {
    #[verifier::type_invariant]
    pub(crate) open spec fn type_inv(self) -> bool {
        address_in_bounds(self@)
    }

    /// Validating factory: total over all 64-bit inputs, accepting exactly
    /// the well-formed addresses.
    pub fn new(value: u64) -> (r: Result<VirtualAddress, VirtualAddressParseError>)
        ensures
            match r {
                Ok(a) => address_in_bounds(value) && a@ == value,
                Err(e) => !address_in_bounds(value) && e == VirtualAddressParseError::NotInRange,
            },
    {
        if value > USER_SPACE_MAX && (value < KERNEL_HEAP_BASE || value > KERNEL_HEAP_MAX) {
            return Err(VirtualAddressParseError::NotInRange);
        }

        Ok(VirtualAddress(value))
    }

    /// The raw 64-bit value of the address.
    pub fn inner(&self) -> (r: u64)
        ensures
            r == self@,
            address_in_bounds(r),
    {
        proof {
            use_type_invariant(self);
        }
        self.0
    }

    /// Address arithmetic re-validates: the sum is returned only when it is
    /// again a legal address.
    pub fn add(&self, offset: u64) -> (r: Result<VirtualAddress, VirtualAddressParseError>)
        ensures
            match r {
                Ok(a) => self@ + offset <= u64::MAX && address_in_bounds((self@ + offset) as u64)
                    && a@ == self@ + offset,
                Err(e) => (self@ + offset > u64::MAX || !address_in_bounds(
                    (self@ + offset) as u64,
                )) && e == VirtualAddressParseError::NotInRange,
            },
    {
        if offset > u64::MAX - self.0 {
            return Err(VirtualAddressParseError::NotInRange);
        }

        VirtualAddress::new(self.0 + offset)
    }
}

} // verus!
