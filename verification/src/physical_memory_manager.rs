//! Typed, fallible access to the physical frame source.
//!
//! The raw free-list implementation is an external collaborator; the core
//! only consumes "allocate one frame". Its answers enter the library as the
//! queue of raw 64-bit values it will hand out, where zero means exhausted;
//! `alloc_frame` consumes exactly one answer per invocation and turns it
//! into a validated `PhysicalPageFrame`.

use vstd::prelude::*;

use crate::physical_page_frame::{
    frame_in_bounds, PhysicalPageFrame, PhysicalPageFrameParseError,
};

verus! {

/// The queue of raw answers of the external frame source, consumed from the
/// back.
pub struct PhysicalMemoryManager {
    raw_frames: Vec<u64>,
}

/// Why no frame was produced.
#[derive(Debug, Copy, Clone, PartialEq, Eq, Structural)]
pub enum PhysicalMemoryManagerAllocFrameError {
    /// The frame source answered zero: no physical page frames are left.
    NoAvailablePages,
    /// The frame source answered a non-zero value that is no valid frame.
    InvalidPageFrame(PhysicalPageFrameParseError),
}

impl From<PhysicalPageFrameParseError> for PhysicalMemoryManagerAllocFrameError {
    fn from(value: PhysicalPageFrameParseError) -> (r: PhysicalMemoryManagerAllocFrameError)
    {
        PhysicalMemoryManagerAllocFrameError::InvalidPageFrame(value)
    }
}

impl vstd::std_specs::convert::FromSpecImpl<PhysicalPageFrameParseError> for PhysicalMemoryManagerAllocFrameError {
    open spec fn obeys_from_spec() -> bool {
        true
    }

    open spec fn from_spec(value: PhysicalPageFrameParseError) -> Self {
        PhysicalMemoryManagerAllocFrameError::InvalidPageFrame(value)
    }
}

impl View for PhysicalMemoryManager {
    type V = Seq<u64>;

    closed spec fn view(&self) -> Seq<u64> {
        self.raw_frames@
    }
}

impl PhysicalMemoryManager {
    /// A frame source that will answer with the given raw values, last
    /// element first.
    pub fn new(raw_frames: Vec<u64>) -> (r: PhysicalMemoryManager)
        ensures
            r@ == raw_frames@,
    {
        PhysicalMemoryManager { raw_frames }
    }

    /// How many answers the source still holds.
    pub fn remaining(&self) -> (r: usize)
        ensures
            r == self@.len(),
    {
        self.raw_frames.len()
    }

    /// Consumes the next answer of the frame source and validates it: an
    /// exhausted source or a zero answer is `NoAvailablePages`, a non-zero
    /// misaligned answer is `InvalidPageFrame`, and everything else is a
    /// frame carrying exactly the answered address.
    pub fn alloc_frame(&mut self) -> (r: Result<
        PhysicalPageFrame,
        PhysicalMemoryManagerAllocFrameError,
    >)
        ensures
            old(self)@.len() == 0 ==> final(self)@ == old(self)@ && r == Err::<
                PhysicalPageFrame,
                _,
            >(PhysicalMemoryManagerAllocFrameError::NoAvailablePages),
            old(self)@.len() > 0 ==> {
                let raw = old(self)@.last();
                &&& final(self)@ == old(self)@.drop_last()
                &&& match r {
                    Ok(f) => frame_in_bounds(raw) && f@ == raw,
                    Err(e) => !frame_in_bounds(raw) && e == (
                    if raw == 0 {
                        PhysicalMemoryManagerAllocFrameError::NoAvailablePages
                    } else {
                        PhysicalMemoryManagerAllocFrameError::InvalidPageFrame(
                            PhysicalPageFrameParseError::NotAligned,
                        )
                    }),
                }
            },
    {
        let raw = match self.raw_frames.pop() {
            None => {
                return Err(PhysicalMemoryManagerAllocFrameError::NoAvailablePages);
            },
            Some(raw) => raw,
        };

        if raw == 0 {
            return Err(PhysicalMemoryManagerAllocFrameError::NoAvailablePages);
        }

        match PhysicalPageFrame::new(raw) {
            Ok(frame) => Ok(frame),
            Err(err) => Err(PhysicalMemoryManagerAllocFrameError::from(err)),
        }
    }
}

/// The frame source can answer `k` draws in a row.
pub open spec fn frames_available(supply: Seq<u64>, k: int) -> bool {
    &&& supply.len() >= k
    &&& forall|i: int| 0 <= i < k ==> frame_in_bounds(#[trigger] supply[supply.len() - 1 - i])
}

/// The `k` raw frame addresses of the next `k` draws, in draw order.
pub open spec fn drawn_frames(supply: Seq<u64>, k: int) -> Seq<u64> {
    Seq::new(k as nat, |i: int| supply[supply.len() - 1 - i])
}

/// Which error the first failing draw of `k` attempted draws produces.
pub open spec fn draw_failure(supply: Seq<u64>, k: int) -> PhysicalMemoryManagerAllocFrameError
    decreases k,
{
    if k <= 0 {
        // never applied: only referred to when some draw fails
        PhysicalMemoryManagerAllocFrameError::NoAvailablePages
    } else if supply.len() == 0 || supply.last() == 0 {
        PhysicalMemoryManagerAllocFrameError::NoAvailablePages
    } else if !frame_in_bounds(supply.last()) {
        PhysicalMemoryManagerAllocFrameError::InvalidPageFrame(
            PhysicalPageFrameParseError::NotAligned,
        )
    } else {
        draw_failure(supply.drop_last(), k - 1)
    }
}

/// What is left of the frame source after `k` attempted draws of which
/// one failed: everything up to and including the failing draw is
/// consumed.
pub open spec fn supply_after_failed_draws(supply: Seq<u64>, k: int) -> Seq<u64>
    decreases k,
{
    if k <= 0 || supply.len() == 0 {
        supply
    } else if !frame_in_bounds(supply.last()) {
        supply.drop_last()
    } else {
        supply_after_failed_draws(supply.drop_last(), k - 1)
    }
}

/// A failing draw sequence only ever reports exhaustion or a misaligned
/// answer.
pub proof fn lemma_draw_failure_kind(s: Seq<u64>, k: int)
    ensures
        draw_failure(s, k) == PhysicalMemoryManagerAllocFrameError::NoAvailablePages
            || draw_failure(s, k) == PhysicalMemoryManagerAllocFrameError::InvalidPageFrame(
            PhysicalPageFrameParseError::NotAligned,
        ),
    decreases k,
{
    if k <= 0 || s.len() == 0 || s.last() == 0 || !frame_in_bounds(s.last()) {
    } else {
        lemma_draw_failure_kind(s.drop_last(), k - 1);
    }
}

/// After `j` successful draws, the error and the left-over supply of a
/// failing draw sequence are those of the remaining supply.
pub proof fn lemma_draw_prefix(s0: Seq<u64>, k: int, j: int)
    requires
        0 <= j < k,
        s0.len() >= j,
        forall|i: int| 0 <= i < j ==> frame_in_bounds(#[trigger] s0[s0.len() - 1 - i]),
    ensures
        draw_failure(s0, k) == draw_failure(s0.take(s0.len() - j), k - j),
        supply_after_failed_draws(s0, k) == supply_after_failed_draws(
            s0.take(s0.len() - j),
            k - j,
        ),
    decreases j,
{
    if j == 0 {
        assert(s0.take(s0.len() as int) =~= s0);
    } else {
        let i0: int = 0;
        assert(frame_in_bounds(s0[s0.len() - 1 - i0]));
        assert(s0.last() == s0[s0.len() - 1 - i0]);
        assert forall|i: int|
            0 <= i < j - 1 implies frame_in_bounds(
            #[trigger] s0.drop_last()[s0.drop_last().len() - 1 - i],
        ) by {
            let i1 = i + 1;
            assert(frame_in_bounds(s0[s0.len() - 1 - i1]));
            assert(s0.drop_last()[s0.drop_last().len() - 1 - i] == s0[s0.len() - 1 - i1]);
        }
        lemma_draw_prefix(s0.drop_last(), k - 1, j - 1);
        assert(s0.drop_last().take(s0.drop_last().len() - (j - 1)) =~= s0.take(s0.len() - j));
    }
}

} // verus!
