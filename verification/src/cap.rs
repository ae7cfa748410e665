//! Capability metadata as read by this subsystem.
//!
//! The capability system owns these records; the virtual-memory core only
//! reads them to drive walks, mappings and root switches, and never mutates
//! them. Each variant carries the fields the corresponding capability kind
//! exposes to this subsystem.

use vstd::prelude::*;

use crate::structures::{asid_t, pptr_t, vptr_t};

verus! {

/// The kind tag of a capability.
#[derive(Clone, Copy, Debug, PartialEq, Eq, Structural)]
pub enum CapTag {
    CapNullCap,
    CapFrameCap,
    CapPageTableCap,
    CapPageDirectoryCap,
    CapPageUpperDirectoryCap,
    CapPageGlobalDirectoryCap,
    CapASIDPoolCap,
}

/// A capability record, with the fields this subsystem reads.
#[derive(Clone, Copy, Debug, PartialEq, Eq, Structural)]
pub enum cap_t {
    NullCap,
    /// A physical frame: its base address in the kernel window, its size
    /// class, its declared rights word, and where (if anywhere) it is mapped.
    FrameCap {
        base_ptr: pptr_t,
        size: u64,
        rights: u64,
        is_device: u64,
        mapped_asid: asid_t,
        mapped_address: vptr_t,
    },
    /// A last-level page table (3-level scheme: any table level).
    PageTableCap { base_ptr: pptr_t, is_mapped: u64, mapped_asid: asid_t, mapped_address: vptr_t },
    /// A second-level directory of the 4-level scheme.
    PageDirectoryCap {
        base_ptr: pptr_t,
        is_mapped: u64,
        mapped_asid: asid_t,
        mapped_address: vptr_t,
    },
    /// A third-from-top directory of the 4-level scheme.
    PageUpperDirectoryCap {
        base_ptr: pptr_t,
        is_mapped: u64,
        mapped_asid: asid_t,
        mapped_address: vptr_t,
    },
    /// The top-level table of one address space (4-level scheme).
    PageGlobalDirectoryCap { base_ptr: pptr_t, is_mapped: u64, mapped_asid: asid_t },
    /// An ASID pool object and the base ASID of its range.
    ASIDPoolCap { asid_base: asid_t, pool_ptr: pptr_t },
}

impl cap_t {
    /// The kind tag of this capability.
    pub fn get_cap_type(&self) -> (r: CapTag)
        ensures
            r == self.spec_cap_type(),
    {
        match self {
            cap_t::NullCap => CapTag::CapNullCap,
            cap_t::FrameCap { .. } => CapTag::CapFrameCap,
            cap_t::PageTableCap { .. } => CapTag::CapPageTableCap,
            cap_t::PageDirectoryCap { .. } => CapTag::CapPageDirectoryCap,
            cap_t::PageUpperDirectoryCap { .. } => CapTag::CapPageUpperDirectoryCap,
            cap_t::PageGlobalDirectoryCap { .. } => CapTag::CapPageGlobalDirectoryCap,
            cap_t::ASIDPoolCap { .. } => CapTag::CapASIDPoolCap,
        }
    }

    pub open spec fn spec_cap_type(&self) -> CapTag {
        match self {
            cap_t::NullCap => CapTag::CapNullCap,
            cap_t::FrameCap { .. } => CapTag::CapFrameCap,
            cap_t::PageTableCap { .. } => CapTag::CapPageTableCap,
            cap_t::PageDirectoryCap { .. } => CapTag::CapPageDirectoryCap,
            cap_t::PageUpperDirectoryCap { .. } => CapTag::CapPageUpperDirectoryCap,
            cap_t::PageGlobalDirectoryCap { .. } => CapTag::CapPageGlobalDirectoryCap,
            cap_t::ASIDPoolCap { .. } => CapTag::CapASIDPoolCap,
        }
    }

    /// The object base address any non-null capability points at.
    pub open spec fn spec_cap_ptr(&self) -> pptr_t {
        match self {
            cap_t::NullCap => 0,
            cap_t::FrameCap { base_ptr, .. } => *base_ptr,
            cap_t::PageTableCap { base_ptr, .. } => *base_ptr,
            cap_t::PageDirectoryCap { base_ptr, .. } => *base_ptr,
            cap_t::PageUpperDirectoryCap { base_ptr, .. } => *base_ptr,
            cap_t::PageGlobalDirectoryCap { base_ptr, .. } => *base_ptr,
            cap_t::ASIDPoolCap { pool_ptr, .. } => *pool_ptr,
        }
    }

    pub fn get_cap_ptr(&self) -> (r: pptr_t)
        ensures
            r == self.spec_cap_ptr(),
    {
        match self {
            cap_t::NullCap => 0,
            cap_t::FrameCap { base_ptr, .. } => *base_ptr,
            cap_t::PageTableCap { base_ptr, .. } => *base_ptr,
            cap_t::PageDirectoryCap { base_ptr, .. } => *base_ptr,
            cap_t::PageUpperDirectoryCap { base_ptr, .. } => *base_ptr,
            cap_t::PageGlobalDirectoryCap { base_ptr, .. } => *base_ptr,
            cap_t::ASIDPoolCap { pool_ptr, .. } => *pool_ptr,
        }
    }

    pub fn get_pt_base_ptr(&self) -> (r: pptr_t)
        requires
            self is PageTableCap,
        ensures
            r == self->PageTableCap_base_ptr,
    {
        match self {
            cap_t::PageTableCap { base_ptr, .. } => *base_ptr,
            _ => 0,
        }
    }

    pub fn get_pt_mapped_asid(&self) -> (r: asid_t)
        requires
            self is PageTableCap,
        ensures
            r == self->PageTableCap_mapped_asid,
    {
        match self {
            cap_t::PageTableCap { mapped_asid, .. } => *mapped_asid,
            _ => 0,
        }
    }

    pub fn get_pt_mapped_address(&self) -> (r: vptr_t)
        requires
            self is PageTableCap,
        ensures
            r == self->PageTableCap_mapped_address,
    {
        match self {
            cap_t::PageTableCap { mapped_address, .. } => *mapped_address,
            _ => 0,
        }
    }

    pub fn get_frame_mapped_address(&self) -> (r: vptr_t)
        requires
            self is FrameCap,
        ensures
            r == self->FrameCap_mapped_address,
    {
        match self {
            cap_t::FrameCap { mapped_address, .. } => *mapped_address,
            _ => 0,
        }
    }

    pub fn get_frame_base_ptr(&self) -> (r: pptr_t)
        requires
            self is FrameCap,
        ensures
            r == self->FrameCap_base_ptr,
    {
        match self {
            cap_t::FrameCap { base_ptr, .. } => *base_ptr,
            _ => 0,
        }
    }

    pub fn get_pgd_base_ptr(&self) -> (r: pptr_t)
        requires
            self is PageGlobalDirectoryCap,
        ensures
            r == self->PageGlobalDirectoryCap_base_ptr,
    {
        match self {
            cap_t::PageGlobalDirectoryCap { base_ptr, .. } => *base_ptr,
            _ => 0,
        }
    }

    pub fn get_pgd_mapped_asid(&self) -> (r: asid_t)
        requires
            self is PageGlobalDirectoryCap,
        ensures
            r == self->PageGlobalDirectoryCap_mapped_asid,
    {
        match self {
            cap_t::PageGlobalDirectoryCap { mapped_asid, .. } => *mapped_asid,
            _ => 0,
        }
    }

    pub fn get_pgd_is_mapped(&self) -> (r: u64)
        requires
            self is PageGlobalDirectoryCap,
        ensures
            r == self->PageGlobalDirectoryCap_is_mapped,
    {
        match self {
            cap_t::PageGlobalDirectoryCap { is_mapped, .. } => *is_mapped,
            _ => 0,
        }
    }

    pub fn get_pd_base_ptr(&self) -> (r: pptr_t)
        requires
            self is PageDirectoryCap,
        ensures
            r == self->PageDirectoryCap_base_ptr,
    {
        match self {
            cap_t::PageDirectoryCap { base_ptr, .. } => *base_ptr,
            _ => 0,
        }
    }

    pub fn get_pd_mapped_address(&self) -> (r: vptr_t)
        requires
            self is PageDirectoryCap,
        ensures
            r == self->PageDirectoryCap_mapped_address,
    {
        match self {
            cap_t::PageDirectoryCap { mapped_address, .. } => *mapped_address,
            _ => 0,
        }
    }

    pub fn get_pd_is_mapped(&self) -> (r: u64)
        requires
            self is PageDirectoryCap,
        ensures
            r == self->PageDirectoryCap_is_mapped,
    {
        match self {
            cap_t::PageDirectoryCap { is_mapped, .. } => *is_mapped,
            _ => 0,
        }
    }

    pub fn get_pud_base_ptr(&self) -> (r: pptr_t)
        requires
            self is PageUpperDirectoryCap,
        ensures
            r == self->PageUpperDirectoryCap_base_ptr,
    {
        match self {
            cap_t::PageUpperDirectoryCap { base_ptr, .. } => *base_ptr,
            _ => 0,
        }
    }

    pub fn get_pud_mapped_address(&self) -> (r: vptr_t)
        requires
            self is PageUpperDirectoryCap,
        ensures
            r == self->PageUpperDirectoryCap_mapped_address,
    {
        match self {
            cap_t::PageUpperDirectoryCap { mapped_address, .. } => *mapped_address,
            _ => 0,
        }
    }

    pub fn get_pud_is_mapped(&self) -> (r: u64)
        requires
            self is PageUpperDirectoryCap,
        ensures
            r == self->PageUpperDirectoryCap_is_mapped,
    {
        match self {
            cap_t::PageUpperDirectoryCap { is_mapped, .. } => *is_mapped,
            _ => 0,
        }
    }

    pub fn get_asid_base(&self) -> (r: asid_t)
        requires
            self is ASIDPoolCap,
        ensures
            r == self->ASIDPoolCap_asid_base,
    {
        match self {
            cap_t::ASIDPoolCap { asid_base, .. } => *asid_base,
            _ => 0,
        }
    }

    pub fn get_asid_pool(&self) -> (r: pptr_t)
        requires
            self is ASIDPoolCap,
        ensures
            r == self->ASIDPoolCap_pool_ptr,
    {
        match self {
            cap_t::ASIDPoolCap { pool_ptr, .. } => *pool_ptr,
            _ => 0,
        }
    }

    pub fn new_page_table_cap(asid: asid_t, pptr: pptr_t, is_mapped: u64, vptr: vptr_t) -> (r:
        cap_t)
        ensures
            r == (cap_t::PageTableCap {
                base_ptr: pptr,
                is_mapped,
                mapped_asid: asid,
                mapped_address: vptr,
            }),
    {
        cap_t::PageTableCap { base_ptr: pptr, is_mapped, mapped_asid: asid, mapped_address: vptr }
    }

    pub fn new_page_directory_cap(asid: asid_t, pptr: pptr_t, is_mapped: u64, vptr: vptr_t) -> (r:
        cap_t)
        ensures
            r == (cap_t::PageDirectoryCap {
                base_ptr: pptr,
                is_mapped,
                mapped_asid: asid,
                mapped_address: vptr,
            }),
    {
        cap_t::PageDirectoryCap {
            base_ptr: pptr,
            is_mapped,
            mapped_asid: asid,
            mapped_address: vptr,
        }
    }

    pub fn new_page_upper_directory_cap(
        asid: asid_t,
        pptr: pptr_t,
        is_mapped: u64,
        vptr: vptr_t,
    ) -> (r: cap_t)
        ensures
            r == (cap_t::PageUpperDirectoryCap {
                base_ptr: pptr,
                is_mapped,
                mapped_asid: asid,
                mapped_address: vptr,
            }),
    {
        cap_t::PageUpperDirectoryCap {
            base_ptr: pptr,
            is_mapped,
            mapped_asid: asid,
            mapped_address: vptr,
        }
    }

    pub fn new_page_global_directory_cap(asid: asid_t, pptr: pptr_t, is_mapped: u64) -> (r: cap_t)
        ensures
            r == (cap_t::PageGlobalDirectoryCap { base_ptr: pptr, is_mapped, mapped_asid: asid }),
    {
        cap_t::PageGlobalDirectoryCap { base_ptr: pptr, is_mapped, mapped_asid: asid }
    }

    pub fn new_frame_cap(
        asid: asid_t,
        pptr: pptr_t,
        size: u64,
        rights: u64,
        is_device: u64,
        vptr: vptr_t,
    ) -> (r: cap_t)
        ensures
            r == (cap_t::FrameCap {
                base_ptr: pptr,
                size,
                rights,
                is_device,
                mapped_asid: asid,
                mapped_address: vptr,
            }),
    {
        cap_t::FrameCap {
            base_ptr: pptr,
            size,
            rights,
            is_device,
            mapped_asid: asid,
            mapped_address: vptr,
        }
    }

    pub fn new_asid_pool_cap(asid_base: asid_t, pool_ptr: pptr_t) -> (r: cap_t)
        ensures
            r == (cap_t::ASIDPoolCap { asid_base, pool_ptr }),
    {
        cap_t::ASIDPoolCap { asid_base, pool_ptr }
    }
}

/// Access rights a caller's capability grants, as a packed word: allow-write
/// is bit 0, allow-read is bit 1, allow-grant is bit 2, allow-grant-reply is
/// bit 3.
#[derive(Clone, Copy, Debug, PartialEq, Eq, Structural)]
pub struct seL4_CapRights_t {
    pub word: u64,
}

impl seL4_CapRights_t {
    pub fn new(allow_grant_reply: u64, allow_grant: u64, allow_read: u64, allow_write: u64) -> (r:
        Self)
        ensures
            r.word == ((allow_grant_reply & 1) << 3) | ((allow_grant & 1) << 2) | ((allow_read & 1)
                << 1) | (allow_write & 1),
    {
        Self {
            word: ((allow_grant_reply & 1) << 3) | ((allow_grant & 1) << 2) | ((allow_read & 1)
                << 1) | (allow_write & 1),
        }
    }

    pub fn get_allow_read(&self) -> (r: u64)
        ensures
            r == (self.word >> 1) & 1,
    {
        (self.word >> 1) & 1
    }

    pub fn get_allow_write(&self) -> (r: u64)
        ensures
            r == self.word & 1,
    {
        self.word & 1
    }
}

} // verus!
