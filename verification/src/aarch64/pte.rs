//! Leaf-level entry codec of the 4-level scheme.
//!
//! An entry word holds a valid bit (bit 0), a "not a block" bit (bit 1, set
//! for tables and last-level pages), a three-bit memory-attribute index (bits
//! 2..5), access permissions (bits 6..8), shareability (bits 8..10), the
//! access flag (bit 10), the not-global bit (bit 11), the output address
//! (bits 12..48) and the execute-never bits (bits 53..55). At the lowest
//! level the two tag bits distinguish a 4 KiB page (both set) from an invalid
//! entry.

use vstd::prelude::*;

use crate::aarch64::vm_rights::vm_rights_t;
use crate::aarch64::utils::PTE;
use crate::structures::vm_attributes_t;

verus! {

/// Valid descriptor.
pub const PTEFLAG_VALID: u64 = 0x1;

/// Table or last-level page (not a block).
pub const PTEFLAG_NON_BLOCK: u64 = 0x2;

/// Attribute index selecting normal write-back memory.
pub const PTEFLAG_NORMAL: u64 = 0x10;

/// Attribute index selecting normal non-cacheable memory.
pub const PTEFLAG_NORMAL_NONCACHE: u64 = 0x8;

/// Access permitted to user mode.
pub const PTEFLAG_AP_EL0: u64 = 0x40;

/// Access is read-only.
pub const PTEFLAG_AP_RO: u64 = 0x80;

/// Access flag.
pub const PTEFLAG_AF: u64 = 0x400;

/// Not-global mapping, tagged with the live ASID.
pub const PTEFLAG_NG: u64 = 0x800;

/// Privileged execute-never.
pub const PTEFLAG_PXN: u64 = 0x20_0000_0000_0000;

/// Execute-never (unprivileged).
pub const PTEFLAG_UXN: u64 = 0x40_0000_0000_0000;

/// A set of entry flag bits.
#[derive(Clone, Copy, Debug, PartialEq, Eq, Structural)]
pub struct PTEFlags(pub u64);

/// Size classes of mappable frames.
#[derive(Clone, Copy, Debug, PartialEq, Eq, Structural)]
pub enum VMPageSize {
    ARMSmallPage,
    ARMLargePage,
    ARMHugePage,
}

impl VMPageSize {
    /// The numeric size class.
    pub open spec fn spec_to_word(&self) -> u64 {
        match self {
            VMPageSize::ARMSmallPage => 0,
            VMPageSize::ARMLargePage => 1,
            VMPageSize::ARMHugePage => 2,
        }
    }

    /// The numeric size class.
    pub fn to_word(&self) -> (r: u64)
        ensures
            r == self.spec_to_word(),
    {
        match self {
            VMPageSize::ARMSmallPage => 0,
            VMPageSize::ARMLargePage => 1,
            VMPageSize::ARMHugePage => 2,
        }
    }

    /// The size class a numeric value names, if any.
    pub fn try_from_usize(value: u64) -> (r: Option<VMPageSize>)
        ensures
            value == 0 ==> r == Some(VMPageSize::ARMSmallPage),
            value == 1 ==> r == Some(VMPageSize::ARMLargePage),
            value == 2 ==> r == Some(VMPageSize::ARMHugePage),
            value > 2 ==> r is None,
    {
        if value == 0 {
            Some(VMPageSize::ARMSmallPage)
        } else if value == 1 {
            Some(VMPageSize::ARMLargePage)
        } else if value == 2 {
            Some(VMPageSize::ARMHugePage)
        } else {
            None
        }
    }
}

/// The access-permission bits a mapping right encodes: kernel-only leaves
/// both clear, read-write grants user access, read-only adds the read-only
/// bit.
pub open spec fn spec_ap_from_vm_rights_t(rights: vm_rights_t) -> u64 {
    match rights {
        vm_rights_t::VMKernelOnly => 0,
        vm_rights_t::VMReadWrite => PTEFLAG_AP_EL0,
        vm_rights_t::VMReadOnly => PTEFLAG_AP_EL0 | PTEFLAG_AP_RO,
    }
}

/// The flag word of a user leaf: not-global, cacheability from the attribute
/// word, execute-never on request, and the rights' permission bits.
pub open spec fn spec_user_flag_bits(rights: vm_rights_t, attr: vm_attributes_t) -> u64 {
    (PTEFLAG_NG | (if attr.0 & 4 != 0 {
        PTEFLAG_UXN
    } else {
        0
    })) | (if attr.0 & 1 != 0 {
        PTEFLAG_NORMAL
    } else {
        0
    }) | spec_ap_from_vm_rights_t(rights)
}

/// The encoding of a user leaf of the given size class: a block at the large
/// and huge classes, a tagged 4 KiB page at the small class.
pub open spec fn spec_make_user_pte(
    paddr: u64,
    rights: vm_rights_t,
    attr: vm_attributes_t,
    page_size: u64,
) -> u64 {
    if page_size == 0 {
        (paddr & 0xffff_ffff_f000) | spec_user_flag_bits(rights, attr) | 0x400_0000_0000_0003
    } else {
        (paddr & 0xffff_ffff_f000) | spec_user_flag_bits(rights, attr)
    }
}

/// The encoding the low-level entry constructor produces from its raw fields.
pub open spec fn spec_pte_new(
    UXN: u64,
    page_base_address: u64,
    nG: u64,
    AF: u64,
    SH: u64,
    AP: u64,
    AttrIndx: u64,
    reserved: u64,
) -> u64 {
    ((UXN & 1) << 54) | (page_base_address & 0xffff_ffff_f000) | ((nG & 1) << 11) | ((AF & 1)
        << 10) | ((SH & 3) << 8) | ((AP & 3) << 6) | ((AttrIndx & 7) << 2) | (reserved & 3)
}


impl PTE {
    /// An entry from a page-aligned address and a flag word.
    pub fn new(addr: u64, flags: PTEFlags) -> (r: Self)
        ensures
            r.0 == (addr & 0xffff_ffff_f000) | flags.0,
    {
        Self((addr & 0xffff_ffff_f000) | flags.0)
    }

    /// A kernel-window entry pointing at the next table level.
    pub fn pte_next_table(addr: u64, _is_leaf: bool) -> (r: Self)
        ensures
            r.0 == (addr & 0xffff_ffff_f000) | 3,
    {
        proof {
            assert((addr & 0xffff_ffff_f000) | (1u64 | 2) == ((addr & 0xffff_ffff_f000) | 3))
                by (bit_vector);
        }
        Self::new(addr, PTEFlags(PTEFLAG_VALID | PTEFLAG_NON_BLOCK))
    }

    /// A tagged 4 KiB page entry.
    fn new_4k_page(addr: u64, flags: PTEFlags) -> (r: Self)
        ensures
            r.0 == (addr & 0xffff_ffff_f000) | flags.0 | 0x400_0000_0000_0003,
    {
        Self((addr & 0xffff_ffff_f000) | flags.0 | 0x400_0000_0000_0003)
    }

    /// The page number of this entry's address field.
    pub fn get_ppn(&self) -> (r: u64)
        ensures
            r == (self.0 & 0xffff_ffff_f000) >> 12,
    {
        (self.0 & 0xffff_ffff_f000) >> 12
    }

    /// This entry's word read as a top-level entry.
    pub fn as_pgde(&self) -> (r: crate::aarch64::utils::PGDE)
        ensures
            r.0 == self.0,
    {
        crate::aarch64::utils::PGDE::new_from_pte(self.0)
    }

    /// This entry's word read as a second-level entry.
    pub fn as_pude(&self) -> (r: crate::aarch64::utils::PUDE)
        ensures
            r.0 == self.0,
    {
        crate::aarch64::utils::PUDE::new_from_pte(self.0)
    }

    /// This entry's word read as a third-level entry.
    pub fn as_pde(&self) -> (r: crate::aarch64::utils::PDE)
        ensures
            r.0 == self.0,
    {
        crate::aarch64::utils::PDE::new_from_pte(self.0)
    }

    /// Whether this word carries the table-descriptor tag (both tag bits
    /// set at a non-leaf level).
    pub fn is_pte_table(&self) -> (r: bool)
        ensures
            r == (self.0 & 3 == 3),
    {
        proof {
            let w = self.0;
            assert(w & 3 <= 3) by (bit_vector);
        }
        self.0 & 3 == 3
    }

    /// Whether this entry is anything but the invalid encoding: 1 when any
    /// tag bit is set.
    pub fn get_valid(&self) -> (r: u64)
        ensures
            r == (if self.0 & 3 != 0 {
                1u64
            } else {
                0
            }),
    {
        if self.0 & 0x3 != 0 {
            1
        } else {
            0
        }
    }

    /// Whether this word carries the table-descriptor tag.
    pub fn pte_table_get_present(&self) -> (r: bool)
        ensures
            r == (self.0 & 3 == 3),
    {
        self.is_pte_table()
    }

    /// The permission flag bits of a mapping right.
    pub fn ap_from_vm_rights_t(rights: vm_rights_t) -> (r: PTEFlags)
        ensures
            r.0 == spec_ap_from_vm_rights_t(rights),
    {
        match rights {
            vm_rights_t::VMKernelOnly => PTEFlags(0),
            vm_rights_t::VMReadWrite => PTEFlags(PTEFLAG_AP_EL0),
            vm_rights_t::VMReadOnly => PTEFlags(PTEFLAG_AP_EL0 | PTEFLAG_AP_RO),
        }
    }

    /// A user leaf of the given size class: not-global, cacheable on request,
    /// execute-never on request, permissions from the masked rights; tagged
    /// as a 4 KiB page at the small class and as a block otherwise.
    pub fn make_user_pte(
        paddr: u64,
        rights: vm_rights_t,
        attr: vm_attributes_t,
        page_size: u64,
    ) -> (r: Self)
        ensures
            r.0 == spec_make_user_pte(paddr, rights, attr, page_size),
    {
        let nonexecutable = attr.get_armExecuteNever();
        let cacheable = attr.get_armPageCacheable();
        let ux: u64 = if nonexecutable {
            PTEFLAG_UXN
        } else {
            0
        };
        let ca: u64 = if cacheable {
            PTEFLAG_NORMAL
        } else {
            0
        };
        let flags = (PTEFLAG_NG | ux) | ca | Self::ap_from_vm_rights_t(rights).0;
        if page_size == 0 {
            PTE::new_4k_page(paddr, PTEFlags(flags))
        } else {
            PTE::new(paddr, PTEFlags(flags))
        }
    }

    /// Build a last-level entry from its raw fields.
    pub fn pte_new(
        UXN: u64,
        page_base_address: u64,
        nG: u64,
        AF: u64,
        SH: u64,
        AP: u64,
        AttrIndx: u64,
        reserved: u64,
    ) -> (r: PTE)
        ensures
            r.0 == spec_pte_new(UXN, page_base_address, nG, AF, SH, AP, AttrIndx, reserved),
    {
        let val = ((UXN & 0x1) << 54) | (page_base_address & 0xffff_ffff_f000) | ((nG & 0x1) << 11)
            | ((AF & 0x1) << 10) | ((SH & 0x3) << 8) | ((AP & 0x3) << 6) | ((AttrIndx & 0x7) << 2)
            | (reserved & 0x3);
        PTE(val)
    }
}

/// Decoding inverts encoding for the raw last-level constructor: every field
/// of an entry built by [`spec_pte_new`] reads back exactly from its bit
/// range.
pub proof fn lemma_pte_new_round_trip(
    UXN: u64,
    pba: u64,
    nG: u64,
    AF: u64,
    SH: u64,
    AP: u64,
    AttrIndx: u64,
    reserved: u64,
)
    ensures
        ({
            let w = spec_pte_new(UXN, pba, nG, AF, SH, AP, AttrIndx, reserved);
            &&& (w >> 54) & 1 == UXN & 1
            &&& w & 0xffff_ffff_f000 == pba & 0xffff_ffff_f000
            &&& (w >> 11) & 1 == nG & 1
            &&& (w >> 10) & 1 == AF & 1
            &&& (w >> 8) & 3 == SH & 3
            &&& (w >> 6) & 3 == AP & 3
            &&& (w >> 2) & 7 == AttrIndx & 7
            &&& w & 3 == reserved & 3
        }),
{
    let w = spec_pte_new(UXN, pba, nG, AF, SH, AP, AttrIndx, reserved);
    assert({
        let v = ((UXN & 1) << 54) | (pba & 0xffff_ffff_f000) | ((nG & 1) << 11) | ((AF & 1) << 10)
            | ((SH & 3) << 8) | ((AP & 3) << 6) | ((AttrIndx & 7) << 2) | (reserved & 3);
        &&& (v >> 54) & 1 == UXN & 1
        &&& v & 0xffff_ffff_f000 == pba & 0xffff_ffff_f000
        &&& (v >> 11) & 1 == nG & 1
        &&& (v >> 10) & 1 == AF & 1
        &&& (v >> 8) & 3 == SH & 3
        &&& (v >> 6) & 3 == AP & 3
        &&& (v >> 2) & 7 == AttrIndx & 7
        &&& v & 3 == reserved & 3
    }) by (bit_vector);
}

/// Decoding inverts encoding for user leaves: a small-class entry reads back
/// as a present 4 KiB page at its base address, and a rights request beyond
/// what the frame grants never widens the decoded permission bits.
pub proof fn lemma_user_pte_round_trip(
    paddr: u64,
    rights: vm_rights_t,
    attr: vm_attributes_t,
    page_size: u64,
)
    ensures
        ({
            let w = spec_make_user_pte(paddr, rights, attr, page_size);
            &&& page_size == 0 ==> w & 3 == 3 && w & 0xffff_ffff_f000 == paddr & 0xffff_ffff_f000
            &&& page_size != 0 ==> w & 0xffff_ffff_f000 == paddr & 0xffff_ffff_f000
            &&& (w >> 6) & 3 == (spec_ap_from_vm_rights_t(rights) >> 6) & 3
            &&& ((w >> 54) & 1 == 1) == (attr.0 & 4 != 0)
            &&& (w >> 11) & 1 == 1
        }),
{
    let fl = spec_user_flag_bits(rights, attr);
    let ux: u64 = if attr.0 & 4 != 0 { 0x40_0000_0000_0000u64 } else { 0 };
    let ca: u64 = if attr.0 & 1 != 0 { 0x10u64 } else { 0 };
    let ap: u64 = spec_ap_from_vm_rights_t(rights);
    assert(0x40u64 | 0x80 == 0xc0) by (bit_vector);
    assert(ap == 0 || ap == 0x40 || ap == 0xc0);
    assert(fl == (0x800u64 | ux) | ca | ap);
    assert({
        let f = (0x800u64 | ux) | ca | ap;
        let w4 = (paddr & 0xffff_ffff_f000) | f | 0x400_0000_0000_0003u64;
        let wb = (paddr & 0xffff_ffff_f000) | f;
        &&& w4 & 3 == 3
        &&& w4 & 0xffff_ffff_f000 == paddr & 0xffff_ffff_f000
        &&& wb & 0xffff_ffff_f000 == paddr & 0xffff_ffff_f000
        &&& (w4 >> 6) & 3 == (ap >> 6) & 3
        &&& (wb >> 6) & 3 == (ap >> 6) & 3
        &&& ((w4 >> 54) & 1 == 1) == (ux != 0)
        &&& ((wb >> 54) & 1 == 1) == (ux != 0)
        &&& (w4 >> 11) & 1 == 1
        &&& (wb >> 11) & 1 == 1
    }) by (bit_vector)
        requires
            (ux == 0 || ux == 0x40_0000_0000_0000u64) && (ca == 0 || ca == 0x10) && (ap == 0 || ap
                == 0x40 || ap == 0xc0),
    ;
}

} // verus!
