//! One address space's virtual-to-physical mappings.
//!
//! The page-table walker and TLB invalidation are external collaborators;
//! what the core relies on — and all that it relies on — is that after
//! `map_page` a `translate` of the same page reports the new frame. The
//! context therefore carries the installed association itself, keyed by
//! page address, and both operations are specified against the map of
//! installed mappings.

use vstd::prelude::*;

use std::collections::HashMap;

use crate::physical_page_frame::{PhysicalPageFrame, PhysicalPageFrameParseError};
use crate::virtual_page_address::VirtualPageAddress;

verus! {

broadcast use vstd::std_specs::hash::group_hash_axioms;

/// Permission flags of one page-table entry.
#[derive(Debug, Copy, Clone, PartialEq, Eq, Structural)]
pub struct VirtualMemoryMappingFlags {
    pub present: bool,
    pub write: bool,
    pub user: bool,
    pub executable: bool,
    pub device: bool,
    pub no_cache: bool,
}

/// Kernel-side read/write data mapping: PRESENT and WRITE.
pub open spec fn kernel_data_flags() -> VirtualMemoryMappingFlags {
    VirtualMemoryMappingFlags {
        present: true,
        write: true,
        user: false,
        executable: false,
        device: false,
        no_cache: false,
    }
}

/// User-mode read/write data mapping: PRESENT, USER and WRITE.
pub open spec fn user_data_flags() -> VirtualMemoryMappingFlags {
    VirtualMemoryMappingFlags {
        present: true,
        write: true,
        user: true,
        executable: false,
        device: false,
        no_cache: false,
    }
}

impl VirtualMemoryMappingFlags {
    /// Kernel-side read/write data mapping: PRESENT and WRITE.
    pub fn kernel_data() -> (r: VirtualMemoryMappingFlags)
        ensures
            r == kernel_data_flags(),
    {
        VirtualMemoryMappingFlags {
            present: true,
            write: true,
            user: false,
            executable: false,
            device: false,
            no_cache: false,
        }
    }

    /// User-mode read/write data mapping: PRESENT, USER and WRITE.
    pub fn user_data() -> (r: VirtualMemoryMappingFlags)
        ensures
            r == user_data_flags(),
    {
        VirtualMemoryMappingFlags {
            present: true,
            write: true,
            user: true,
            executable: false,
            device: false,
            no_cache: false,
        }
    }
}

/// What one installed page-table entry associates with a page: the backing
/// frame's address and the permission flags.
#[derive(Debug, Copy, Clone, PartialEq, Eq, Structural)]
pub struct PageMapping {
    pub frame: u64,
    pub flags: VirtualMemoryMappingFlags,
}

struct StoredMapping {
    frame: PhysicalPageFrame,
    flags: VirtualMemoryMappingFlags,
}

/// One address space's page-table root, viewed as the map of installed
/// mappings.
pub struct VirtualMemoryManagerContext {
    entries: HashMap<u64, StoredMapping>,
}

impl View for VirtualMemoryManagerContext {
    type V = Map<u64, PageMapping>;

    closed spec fn view(&self) -> Map<u64, PageMapping> {
        self.entries@.map_values(
            |stored: StoredMapping| PageMapping { frame: stored.frame@, flags: stored.flags },
        )
    }
}

impl VirtualMemoryManagerContext {
    /// A fresh address space with nothing mapped.
    pub fn new() -> (r: VirtualMemoryManagerContext)
        ensures
            r@ == Map::<u64, PageMapping>::empty(),
    {
        let r = VirtualMemoryManagerContext { entries: HashMap::new() };
        proof {
            assert(r@ =~= Map::<u64, PageMapping>::empty());
        }
        r
    }

    /// Installs or overwrites the entry for `vpage`: afterwards the
    /// context associates `vpage` with exactly `frame` and `flags`, and
    /// every other page is untouched.
    pub fn map_page(
        &mut self,
        vpage: VirtualPageAddress,
        frame: PhysicalPageFrame,
        flags: VirtualMemoryMappingFlags,
    ) -> (r: Result<(), ()>)
        ensures
            r == Ok::<(), ()>(()),
            final(self)@ == old(self)@.insert(vpage@, PageMapping { frame: frame@, flags }),
    {
        let key = vpage.inner();
        self.entries.insert(key, StoredMapping { frame, flags });
        proof {
            assert(final(self)@ =~= old(self)@.insert(
                vpage@,
                PageMapping { frame: frame@, flags },
            ));
        }
        Ok(())
    }

    /// Reports the frame backing `vpage`, or `None` when the page is
    /// unmapped. A zero answer of the underlying primitive means
    /// "unmapped", never frame zero, so the error path of frame
    /// validation is unreachable by construction.
    pub fn translate(&self, vpage: VirtualPageAddress) -> (r: Result<
        Option<PhysicalPageFrame>,
        PhysicalPageFrameParseError,
    >)
        ensures
            match r {
                Ok(Some(f)) => self@.contains_key(vpage@) && f@ == self@[vpage@].frame,
                Ok(None) => !self@.contains_key(vpage@),
                Err(_) => false,
            },
    {
        let key = vpage.inner();
        match self.entries.get(&key) {
            Some(stored) => {
                let frame = stored.frame;
                proof {
                    assert(self.entries@.contains_key(vpage@));
                    assert(self@.contains_key(vpage@));
                }
                Ok(Some(frame))
            },
            None => {
                proof {
                    assert(!self.entries@.contains_key(vpage@));
                    assert(!self@.contains_key(vpage@));
                }
                Ok(None)
            },
        }
    }
}

} // verus!
