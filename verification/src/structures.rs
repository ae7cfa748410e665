//! Shared value types: lookup status and faults, virtual/physical address
//! newtypes, and the caller-supplied page attribute word.

use vstd::prelude::*;

verus! {

/// Virtual pointer into the kernel's direct physical-memory window.
pub type pptr_t = u64;

/// Virtual pointer in a user address space.
pub type vptr_t = u64;

/// Address-space identifier.
pub type asid_t = u64;

/// Outcome status of a lookup: either it resolved, or a lookup fault carries
/// the reason.
#[derive(Clone, Copy, Debug, PartialEq, Eq, Structural)]
pub enum exception_t {
    EXCEPTION_NONE,
    EXCEPTION_FAULT,
    EXCEPTION_LOOKUP_FAULT,
}

/// Why an address-translation or ASID lookup did not resolve.
#[derive(Clone, Copy, Debug, PartialEq, Eq, Structural)]
pub enum lookup_fault_t {
    /// No pool registered for the ASID, or the pool entry was empty.
    InvalidRoot,
    /// An intermediate table on the walk was absent; `bits_left` is the number
    /// of virtual-address bits not yet translated when the walk stopped.
    MissingCapability { bits_left: u64 },
}

impl lookup_fault_t {
    /// The fault reported when the ASID resolves to no live root.
    pub fn new_root_invalid() -> (r: lookup_fault_t)
        ensures
            r == lookup_fault_t::InvalidRoot,
    {
        lookup_fault_t::InvalidRoot
    }

    /// The fault reported when a table level is missing, carrying the
    /// untranslated bit count.
    pub fn new_missing_cap(bits_left: u64) -> (r: lookup_fault_t)
        ensures
            r == (lookup_fault_t::MissingCapability { bits_left }),
    {
        lookup_fault_t::MissingCapability { bits_left }
    }
}

/// Result of resolving an ASID to its VSpace root: the root's kernel-window
/// address when the ASID is live, otherwise the fault.
#[derive(Clone, Copy, Debug, PartialEq, Eq, Structural)]
pub struct findVSpaceForASID_ret {
    pub status: exception_t,
    pub vspace_root: Option<pptr_t>,
    pub lookup_fault: Option<lookup_fault_t>,
}

/// Page attribute word passed by a caller when mapping: bit 0 requests a
/// cacheable page, bit 2 requests an execute-never page (4-level scheme).
#[derive(Clone, Copy, Debug, PartialEq, Eq, Structural)]
pub struct vm_attributes_t(pub u64);

impl vm_attributes_t {
    pub fn new(value: u64) -> (r: Self)
        ensures
            r.0 == value,
    {
        Self(value)
    }

    pub fn from_word(w: u64) -> (r: Self)
        ensures
            r.0 == w,
    {
        Self::new(w)
    }

    /// Execute-never request as stored in bit 0 of the word (3-level scheme).
    pub fn get_execute_never(&self) -> (r: u64)
        ensures
            r == self.0 & 1,
    {
        self.0 & 0x1u64
    }

    pub fn set_execute_never(&mut self, v64: u64)
        ensures
            final(self).0 == old(self).0 & !1u64 | (v64 & 1),
    {
        self.0 = self.0 & !0x1u64;
        self.0 = self.0 | (v64 & 0x1u64);
    }

    /// Cacheability request: bit 0 of the word.
    pub fn get_page_cacheable(&self) -> (r: u64)
        ensures
            r == self.0 & 1,
    {
        self.0 & 0x1
    }
}

/// A physical address.
#[derive(Clone, Copy, Debug, PartialEq, Eq, Structural)]
pub struct paddr_t(pub u64);

impl paddr_t {
    pub fn addr(&self) -> (r: u64)
        ensures
            r == self.0,
    {
        self.0
    }
}

impl From<u64> for paddr_t {
    fn from(value: u64) -> (r: Self) {
        Self(value)
    }
}

impl vstd::std_specs::convert::FromSpecImpl<u64> for paddr_t {
    open spec fn obeys_from_spec() -> bool {
        true
    }

    open spec fn from_spec(value: u64) -> Self {
        paddr_t(value)
    }
}

/// A virtual address, exposing the per-level table indices of the 4-level
/// scheme as fixed bit-field slices.
#[derive(Clone, Copy, Debug, PartialEq, Eq, Structural)]
pub struct VAddr(pub u64);

impl From<u64> for VAddr {
    fn from(value: u64) -> (r: Self) {
        VAddr(value)
    }
}

impl vstd::std_specs::convert::FromSpecImpl<u64> for VAddr {
    open spec fn obeys_from_spec() -> bool {
        true
    }

    open spec fn from_spec(value: u64) -> Self {
        VAddr(value)
    }
}

} // verus!
