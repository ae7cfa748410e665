//! Mapping rights as plain words, and the masking rule that intersects the
//! rights a caller asks for with the rights its frame capability grants.

use vstd::prelude::*;

use crate::cap::seL4_CapRights_t;

verus! {

pub const VMKernelOnly: u64 = 1;

pub const VMReadOnly: u64 = 2;

pub const VMReadWrite: u64 = 3;

/// Whether a mapping request with these rights asks for a writable page.
pub fn RISCVGetWriteFromVMRights(vm_rights: u64) -> (r: bool)
    ensures
        r == (vm_rights == VMReadWrite),
{
    vm_rights == VMReadWrite
}

/// Whether a mapping request with these rights asks for a readable page.
pub fn RISCVGetReadFromVMRights(vm_rights: u64) -> (r: bool)
    ensures
        r == (vm_rights != VMKernelOnly),
{
    vm_rights != VMKernelOnly
}

/// The rights actually mapped: the intersection of what the request asks for
/// (`vm_rights`) and what the capability grants (`rights`). Read-only wins
/// over read-write when the capability does not allow writing; no read access
/// on either side leaves the page kernel-only.
pub open spec fn spec_maskVMRights(vm_rights: u64, rights: seL4_CapRights_t) -> u64 {
    if vm_rights == VMReadOnly && (rights.word >> 1) & 1 != 0 {
        VMReadOnly
    } else if vm_rights == VMReadWrite && (rights.word >> 1) & 1 != 0 {
        if rights.word & 1 == 0 {
            VMReadOnly
        } else {
            VMReadWrite
        }
    } else {
        VMKernelOnly
    }
}

/// Intersect requested rights with granted rights (see [`spec_maskVMRights`]).
pub fn maskVMRights(vm_rights: u64, rights: seL4_CapRights_t) -> (r: u64)
    ensures
        r == spec_maskVMRights(vm_rights, rights),
{
    if vm_rights == VMReadOnly && rights.get_allow_read() != 0 {
        return VMReadOnly;
    }
    if vm_rights == VMReadWrite && rights.get_allow_read() != 0 {
        return if rights.get_allow_write() == 0 {
            VMReadOnly
        } else {
            VMReadWrite
        };
    }
    VMKernelOnly
}

} // verus!
