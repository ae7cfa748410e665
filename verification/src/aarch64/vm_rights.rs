//! Mapping rights of the 4-level scheme, and the masking rule intersecting a
//! request's rights with a frame capability's rights.

use vstd::prelude::*;

use crate::cap::seL4_CapRights_t;

verus! {

/// The three mapping rights a page can carry.
#[derive(Clone, Copy, Debug, PartialEq, Eq, Structural)]
pub enum vm_rights_t {
    VMKernelOnly,
    VMReadWrite,
    VMReadOnly,
}

impl vm_rights_t {
    /// The numeric value of this right in capability words.
    pub open spec fn spec_to_word(&self) -> u64 {
        match self {
            vm_rights_t::VMKernelOnly => 0,
            vm_rights_t::VMReadWrite => 1,
            vm_rights_t::VMReadOnly => 3,
        }
    }

    /// The numeric value of this right in capability words.
    pub fn to_word(&self) -> (r: u64)
        ensures
            r == self.spec_to_word(),
    {
        match self {
            vm_rights_t::VMKernelOnly => 0,
            vm_rights_t::VMReadWrite => 1,
            vm_rights_t::VMReadOnly => 3,
        }
    }
}

/// The rights actually mapped: the intersection of the requested rights and
/// the rights the capability grants. Read-only wins over read-write when the
/// capability does not allow writing; no read grant leaves the page
/// kernel-only.
pub open spec fn spec_maskVMRights(vm_rights: vm_rights_t, rights: seL4_CapRights_t) -> vm_rights_t {
    if vm_rights is VMReadOnly && (rights.word >> 1) & 1 != 0 {
        vm_rights_t::VMReadOnly
    } else if vm_rights is VMReadWrite && (rights.word >> 1) & 1 != 0 {
        if rights.word & 1 != 0 {
            vm_rights_t::VMReadWrite
        } else {
            vm_rights_t::VMReadOnly
        }
    } else {
        vm_rights_t::VMKernelOnly
    }
}

/// Intersect requested rights with granted rights (see [`spec_maskVMRights`]).
pub fn maskVMRights(vm_rights: vm_rights_t, rights: seL4_CapRights_t) -> (r: vm_rights_t)
    ensures
        r == spec_maskVMRights(vm_rights, rights),
{
    if matches!(vm_rights, vm_rights_t::VMReadOnly) && rights.get_allow_read() != 0 {
        return vm_rights_t::VMReadOnly;
    }
    if matches!(vm_rights, vm_rights_t::VMReadWrite) && rights.get_allow_read() != 0 {
        if rights.get_allow_write() != 0 {
            return vm_rights_t::VMReadWrite;
        } else {
            return vm_rights_t::VMReadOnly;
        }
    }
    vm_rights_t::VMKernelOnly
}

} // verus!
