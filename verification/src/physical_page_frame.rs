//! Validated physical page frames.
//!
//! A frame is an opaque, non-zero, page-aligned physical address handed out
//! by the frame source. Zero is reserved to mean "no frame" and is
//! structurally unrepresentable.

use vstd::prelude::*;

use crate::memory_layout::PAGE_FRAME_SIZE;

verus! {

/// A raw value is a well-formed frame when it is non-zero and page-aligned.
pub open spec fn frame_in_bounds(value: u64) -> bool {
    value != 0 && value % PAGE_FRAME_SIZE == 0
}

/// A non-zero, page-aligned physical address.
#[derive(Debug, Copy, Clone, PartialEq, Eq, Structural)]
pub struct PhysicalPageFrame(u64);

/// Why a raw value was refused as a `PhysicalPageFrame`.
#[derive(Debug, Copy, Clone, PartialEq, Eq, Structural)]
pub enum PhysicalPageFrameParseError {
    /// The value is not aligned to the page size.
    NotAligned,
    /// The value is zero, which stands for "no frame".
    NullPageFrame,
}

impl View for PhysicalPageFrame {
    type V = u64;

    closed spec fn view(&self) -> u64 {
        self.0
    }
}

impl PhysicalPageFrame {
    #[verifier::type_invariant]
    pub(crate) open spec fn type_inv(self) -> bool {
        frame_in_bounds(self@)
    }

    /// Validating factory: total over all 64-bit inputs, accepting exactly
    /// the non-zero page-aligned values.
    pub fn new(value: u64) -> (r: Result<PhysicalPageFrame, PhysicalPageFrameParseError>)
        ensures
            match r {
                Ok(f) => frame_in_bounds(value) && f@ == value,
                Err(e) => !frame_in_bounds(value) && e == (
                if value == 0 {
                    PhysicalPageFrameParseError::NullPageFrame
                } else {
                    PhysicalPageFrameParseError::NotAligned
                }),
            },
    {
        if value == 0 {
            return Err(PhysicalPageFrameParseError::NullPageFrame);
        }

        if value % PAGE_FRAME_SIZE != 0 {
            return Err(PhysicalPageFrameParseError::NotAligned);
        }

        Ok(PhysicalPageFrame(value))
    }

    /// The raw physical address of the frame.
    pub fn inner(&self) -> (r: u64)
        ensures
            r == self@,
            frame_in_bounds(r),
    {
        proof {
            use_type_invariant(self);
        }
        self.0
    }

    /// First byte of the frame.
    pub fn start(&self) -> (r: u64)
        ensures
            r == self@,
    {
        self.inner()
    }

    /// Last byte of the frame (inclusive).
    pub fn end(&self) -> (r: u64)
        ensures
            r == self@ + PAGE_FRAME_SIZE - 1,
    {
        let inner = self.inner();
        inner + (PAGE_FRAME_SIZE - 1)
    }
}

} // verus!
