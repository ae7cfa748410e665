//! Mapping rights of the 3-level scheme, and the masking rule intersecting a
//! request's rights with a frame capability's rights.

use vstd::prelude::*;

use crate::cap::seL4_CapRights_t;

verus! {

/// The three mapping rights a page can carry.
#[derive(Clone, Copy, Debug, PartialEq, Eq, Structural)]
pub enum vm_rights_t {
    VMKernelOnly,
    VMReadOnly,
    VMReadWrite,
}

/// Whether a mapping request with these rights asks for a writable page.
pub fn RISCVGetWriteFromVMRights(vm_rights: &vm_rights_t) -> (r: bool)
    ensures
        r == (vm_rights is VMReadWrite),
{
    matches!(vm_rights, vm_rights_t::VMReadWrite)
}

/// Whether a mapping request with these rights asks for a readable page.
pub fn RISCVGetReadFromVMRights(vm_rights: &vm_rights_t) -> (r: bool)
    ensures
        r == !(vm_rights is VMKernelOnly),
{
    !matches!(vm_rights, vm_rights_t::VMKernelOnly)
}

/// The rights actually mapped: the intersection of the requested rights and
/// the rights the capability grants. Read-only wins over read-write when the
/// capability does not allow writing; no read grant leaves the page
/// kernel-only.
pub open spec fn spec_maskVMRights(vm_rights: vm_rights_t, rights: seL4_CapRights_t) -> vm_rights_t {
    if vm_rights is VMReadOnly && (rights.word >> 1) & 1 != 0 {
        vm_rights_t::VMReadOnly
    } else if vm_rights is VMReadWrite && (rights.word >> 1) & 1 != 0 {
        if rights.word & 1 == 0 {
            vm_rights_t::VMReadOnly
        } else {
            vm_rights_t::VMReadWrite
        }
    } else {
        vm_rights_t::VMKernelOnly
    }
}

/// Intersect requested rights with granted rights (see [`spec_maskVMRights`]).
pub fn maskVMRights(vm_rights: vm_rights_t, rights: seL4_CapRights_t) -> (r: vm_rights_t)
    ensures
        r == spec_maskVMRights(vm_rights, rights),
{
    if matches!(vm_rights, vm_rights_t::VMReadOnly) && rights.get_allow_read() != 0 {
        return vm_rights_t::VMReadOnly;
    }
    if matches!(vm_rights, vm_rights_t::VMReadWrite) && rights.get_allow_read() != 0 {
        return if rights.get_allow_write() == 0 {
            vm_rights_t::VMReadOnly
        } else {
            vm_rights_t::VMReadWrite
        };
    }
    vm_rights_t::VMKernelOnly
}

} // verus!
