//! Address-space layout, per-level table indices, entry word types and the
//! chained slot lookups of the 4-level scheme.
//!
//! Each level has a structurally distinct entry encoding, so each level has
//! its own lookup, composed by explicit chaining: a missing table at any step
//! stops the walk with a fault carrying the number of address bits not yet
//! translated.

use vstd::prelude::*;

use crate::pool::{PtPool, SlotRef};
use crate::structures::{exception_t, lookup_fault_t, vptr_t, VAddr};

verus! {

/// Start of the kernel's direct window over physical memory.
pub const PPTR_BASE: u64 = 0xFFFF_FF80_0000_0000;

/// First physical address covered by the direct window.
pub const PADDR_BASE: u64 = 0;

/// Direct-window offset: pptr == paddr + PPTR_BASE_OFFSET.
pub const PPTR_BASE_OFFSET: u64 = PPTR_BASE - PADDR_BASE;

/// End of the kernel's direct window.
pub const PPTR_TOP: u64 = 0xFFFF_FFFF_C000_0000;

/// Last physical address (exclusive) covered by the direct window.
pub const PADDR_TOP: u64 = PPTR_TOP - PPTR_BASE_OFFSET;

/// Link-time virtual base of the kernel image.
pub const KERNEL_ELF_BASE: u64 = 0xFFFF_FFFF_E000_0000;

/// Physical load address of the kernel image.
pub const KERNEL_ELF_PADDR_BASE: u64 = 0x6000_0000;

/// Kernel-image offset: kernel pptr == paddr + KERNEL_ELF_BASE_OFFSET.
pub const KERNEL_ELF_BASE_OFFSET: u64 = KERNEL_ELF_BASE - KERNEL_ELF_PADDR_BASE;

/// Number of translation levels.
pub const KPT_LEVELS: u64 = 4;

/// Bits of a virtual address one top-level slot spans.
pub const seL4_VSpaceIndexBits: u64 = 9;

/// Size classes of mappable frames.
pub const ARM_Small_Page: u64 = 0;

pub const ARM_Large_Page: u64 = 1;

pub const ARM_Huge_Page: u64 = 2;

/// The last-level table index of an address (bits 12..21).
pub fn GET_PT_INDEX(addr: u64) -> (r: u64)
    ensures
        r == (addr >> 12) & 0x1ff,
        r < 512,
{
    proof {
        crate::bits::lemma_index9(addr, 12);
    }
    (addr >> 12) & 0x1ff
}

/// The third-level table index of an address (bits 21..30).
pub fn GET_PD_INDEX(addr: u64) -> (r: u64)
    ensures
        r == (addr >> 21) & 0x1ff,
        r < 512,
{
    proof {
        crate::bits::lemma_index9(addr, 21);
    }
    (addr >> 21) & 0x1ff
}

/// The second-level table index of a user address (bits 30..39).
pub fn GET_UPUD_INDEX(addr: u64) -> (r: u64)
    ensures
        r == (addr >> 30) & 0x1ff,
        r < 512,
{
    proof {
        crate::bits::lemma_index9(addr, 30);
    }
    (addr >> 30) & 0x1ff
}

/// The second-level table index of an address (bits 30..39).
pub fn GET_PUD_INDEX(addr: u64) -> (r: u64)
    ensures
        r == (addr >> 30) & 0x1ff,
        r < 512,
{
    proof {
        crate::bits::lemma_index9(addr, 30);
    }
    (addr >> 30) & 0x1ff
}

/// The top-level table index of an address (bits 39..48).
pub fn GET_PGD_INDEX(addr: u64) -> (r: u64)
    ensures
        r == (addr >> 39) & 0x1ff,
        r < 512,
{
    proof {
        crate::bits::lemma_index9(addr, 39);
    }
    (addr >> 39) & 0x1ff
}

/// The table index an address takes at level `n` of the kernel window walk.
pub fn GET_KPT_INDEX(addr: u64, n: u64) -> (r: u64)
    requires
        n < 4,
    ensures
        r == (addr >> ((9 * (3 - n) + 12) as u64)) & 0x1ff,
        r < 512,
{
    let shift = 9 * (3 - n) + 12;
    proof {
        crate::bits::lemma_index9(addr, shift);
    }
    (addr >> shift) & 0x1ff
}

/// The table index an address takes at level `n` of a user-space walk.
pub fn GET_UPT_INDEX(addr: u64, n: u64) -> (r: u64)
    requires
        n < 4,
    ensures
        r == (addr >> ((9 * (3 - n) + 12) as u64)) & 0x1ff,
        r < 512,
{
    GET_KPT_INDEX(addr, n)
}

/// Physical address of a kernel-image virtual address.
pub fn kpptr_to_paddr(x: u64) -> (r: u64)
    requires
        x >= KERNEL_ELF_BASE_OFFSET,
    ensures
        r == x - KERNEL_ELF_BASE_OFFSET,
{
    x - KERNEL_ELF_BASE_OFFSET
}

/// Physical address of a direct-window virtual address.
pub fn pptr_to_paddr(x: u64) -> (r: u64)
    requires
        x >= PPTR_BASE_OFFSET,
    ensures
        r == x - PPTR_BASE_OFFSET,
{
    x - PPTR_BASE_OFFSET
}

/// Direct-window virtual address of a physical address.
pub fn paddr_to_pptr(x: u64) -> (r: u64)
    requires
        x + PPTR_BASE_OFFSET <= u64::MAX,
    ensures
        r == x + PPTR_BASE_OFFSET,
{
    x + PPTR_BASE_OFFSET
}

/// The arena page number of a table recorded as a direct-window address.
pub open spec fn spec_root_ppn(root: u64) -> u64 {
    ((root - PPTR_BASE_OFFSET) as u64) >> 12
}

/// Bits of address one frame of the given size class covers.
pub open spec fn spec_pageBitsForSize(page_size: u64) -> u64 {
    if page_size == ARM_Small_Page {
        12
    } else if page_size == ARM_Large_Page {
        21
    } else {
        30
    }
}

/// Bits of address one frame of the given size class covers.
pub fn pageBitsForSize(page_size: u64) -> (r: u64)
    requires
        page_size == ARM_Small_Page || page_size == ARM_Large_Page || page_size == ARM_Huge_Page,
    ensures
        r == spec_pageBitsForSize(page_size),
{
    if page_size == ARM_Small_Page {
        12
    } else if page_size == ARM_Large_Page {
        21
    } else {
        30
    }
}

/// The numeric permission value a mapping right takes in an entry's
/// access-permission field.
pub fn ap_from_vm_rights(rights: crate::aarch64::vm_rights::vm_rights_t) -> (r: u64)
    ensures
        r == rights.spec_to_word(),
{
    rights.to_word()
}

impl VAddr {
    /// The last-level table index (bits 12..21).
    pub fn pt_index(&self) -> (r: u64)
        ensures
            r == (self.0 >> 12) & 0x1ff,
            r < 512,
    {
        proof {
            crate::bits::lemma_index9(self.0, 12);
        }
        (self.0 >> 12) & 0x1ff
    }

    /// The third-level table index (bits 21..30).
    pub fn pd_index(&self) -> (r: u64)
        ensures
            r == (self.0 >> 21) & 0x1ff,
            r < 512,
    {
        proof {
            crate::bits::lemma_index9(self.0, 21);
        }
        (self.0 >> 21) & 0x1ff
    }

    /// The second-level table index (bits 30..39).
    pub fn pud_index(&self) -> (r: u64)
        ensures
            r == (self.0 >> 30) & 0x1ff,
            r < 512,
    {
        proof {
            crate::bits::lemma_index9(self.0, 30);
        }
        (self.0 >> 30) & 0x1ff
    }

    /// The top-level table index (bits 39..48).
    pub fn pgd_index(&self) -> (r: u64)
        ensures
            r == (self.0 >> 39) & 0x1ff,
            r < 512,
    {
        proof {
            crate::bits::lemma_index9(self.0, 39);
        }
        (self.0 >> 39) & 0x1ff
    }
}

/// A top-level entry word (or, held by value, a top-level table's address
/// used as the starting point of lookups).
#[derive(Clone, Copy, Debug, PartialEq, Eq, Structural)]
pub struct PGDE(pub u64);

/// A second-level entry word: either a 1 GiB block or a pointer to a
/// third-level table.
#[derive(Clone, Copy, Debug, PartialEq, Eq, Structural)]
pub struct PUDE(pub u64);

/// A third-level entry word: either a 2 MiB block or a pointer to a
/// last-level table.
#[derive(Clone, Copy, Debug, PartialEq, Eq, Structural)]
pub struct PDE(pub u64);

/// A last-level entry word: a 4 KiB page or invalid (in the kernel window,
/// also used for table and block entries).
#[derive(Clone, Copy, Debug, PartialEq, Eq, Structural)]
pub struct PTE(pub u64);

impl PGDE {
    /// The two tag bits.
    pub fn get_pgde_type(&self) -> (r: u64)
        ensures
            r == self.0 & 3,
    {
        self.0 & 0x3
    }

    /// Whether this entry holds a pointer to a second-level table.
    pub fn get_present(&self) -> (r: bool)
        ensures
            r == (self.0 & 3 == 3),
    {
        proof {
            crate::bits::lemma_tag2(self.0);
        }
        self.get_pgde_type() == 3
    }

    /// The second-level table address this entry points at.
    pub fn get_pud_base_address(&self) -> (r: u64)
        ensures
            r == self.0 & 0xffff_ffff_f000,
    {
        self.0 & 0xffff_ffff_f000
    }

    /// Re-interpret a word (or a root address) as a top-level entry.
    pub fn new_from_pte(word: u64) -> (r: Self)
        ensures
            r.0 == word,
    {
        PGDE(word)
    }

    /// The top-level slot for an address under this root: top-level lookups
    /// cannot fail.
    pub fn lookup_pgd_slot(&self, vptr: vptr_t) -> (r: lookupPGDSlot_ret_t)
        requires
            self.0 >= PPTR_BASE_OFFSET,
        ensures
            r == spec_lookup_pgd_slot(self.0, vptr),
    {
        let pgdIndex = GET_PGD_INDEX(vptr);
        lookupPGDSlot_ret_t {
            status: exception_t::EXCEPTION_NONE,
            pgdSlot: SlotRef { ppn: (self.0 - PPTR_BASE_OFFSET) >> 12, index: pgdIndex },
            lookup_fault: None,
        }
    }

    /// The second-level slot for an address under this root, or the fault
    /// naming the untranslated bits if the top-level entry holds no live
    /// table.
    pub fn lookup_pud_slot(&self, pool: &PtPool, vptr: vptr_t) -> (r: lookupPUDSlot_ret_t)
        requires
            pool.wf(),
            self.0 >= PPTR_BASE_OFFSET,
            pool.has_node(spec_root_ppn(self.0)),
        ensures
            r == spec_lookup_pud_slot(*pool, self.0, vptr),
            r.status is EXCEPTION_NONE ==> pool.has_node(r.pudSlot.ppn) && r.pudSlot.index < 512,
    {
        let pgd_ppn = (self.0 - PPTR_BASE_OFFSET) >> 12;
        let pgdIndex = GET_PGD_INDEX(vptr);
        let w = pool.read_entry(pgd_ppn, pgdIndex);
        let pgde = PGDE(w);
        let next = pgde.get_pud_base_address() >> 12;
        if pgde.get_present() && pool.contains_node(next) {
            lookupPUDSlot_ret_t {
                status: exception_t::EXCEPTION_NONE,
                pudSlot: SlotRef { ppn: next, index: GET_UPUD_INDEX(vptr) },
                lookup_fault: None,
            }
        } else {
            lookupPUDSlot_ret_t {
                status: exception_t::EXCEPTION_LOOKUP_FAULT,
                pudSlot: SlotRef { ppn: 0, index: 0 },
                lookup_fault: Some(lookup_fault_t::new_missing_cap(39)),
            }
        }
    }

    /// The third-level slot for an address under this root, or the fault
    /// naming the untranslated bits at the step that stopped the walk.
    pub fn lookup_pd_slot(&self, pool: &PtPool, vptr: vptr_t) -> (r: lookupPDSlot_ret_t)
        requires
            pool.wf(),
            self.0 >= PPTR_BASE_OFFSET,
            pool.has_node(spec_root_ppn(self.0)),
        ensures
            r == spec_lookup_pd_slot(*pool, self.0, vptr),
            r.status is EXCEPTION_NONE ==> pool.has_node(r.pdSlot.ppn) && r.pdSlot.index < 512,
    {
        let pudSlot = self.lookup_pud_slot(pool, vptr);
        if pudSlot.status != exception_t::EXCEPTION_NONE {
            return lookupPDSlot_ret_t {
                status: pudSlot.status,
                pdSlot: SlotRef { ppn: 0, index: 0 },
                lookup_fault: pudSlot.lookup_fault,
            };
        }
        let w = pool.read_entry(pudSlot.pudSlot.ppn, pudSlot.pudSlot.index);
        let pude = PUDE(w);
        let next = pude.get_pd_base_address() >> 12;
        if pude.get_present() && pool.contains_node(next) {
            lookupPDSlot_ret_t {
                status: exception_t::EXCEPTION_NONE,
                pdSlot: SlotRef { ppn: next, index: GET_PD_INDEX(vptr) },
                lookup_fault: None,
            }
        } else {
            lookupPDSlot_ret_t {
                status: exception_t::EXCEPTION_LOOKUP_FAULT,
                pdSlot: SlotRef { ppn: 0, index: 0 },
                lookup_fault: Some(lookup_fault_t::new_missing_cap(30)),
            }
        }
    }

    /// The last-level slot for an address under this root, or the fault
    /// naming the untranslated bits at the step that stopped the walk.
    pub fn lookup_pt_slot(&self, pool: &PtPool, vptr: vptr_t) -> (r: lookupPTSlot_ret_t)
        requires
            pool.wf(),
            self.0 >= PPTR_BASE_OFFSET,
            pool.has_node(spec_root_ppn(self.0)),
        ensures
            r == spec_lookup_pt_slot(*pool, self.0, vptr),
            r.status is EXCEPTION_NONE ==> pool.has_node(r.ptSlot.ppn) && r.ptSlot.index < 512,
    {
        let pdSlot = self.lookup_pd_slot(pool, vptr);
        if pdSlot.status != exception_t::EXCEPTION_NONE {
            return lookupPTSlot_ret_t {
                status: pdSlot.status,
                ptSlot: SlotRef { ppn: 0, index: 0 },
                lookup_fault: pdSlot.lookup_fault,
            };
        }
        let w = pool.read_entry(pdSlot.pdSlot.ppn, pdSlot.pdSlot.index);
        let pde = PDE(w);
        let next = pde.get_pt_base_address() >> 12;
        if pde.get_present() && pool.contains_node(next) {
            lookupPTSlot_ret_t {
                status: exception_t::EXCEPTION_NONE,
                ptSlot: SlotRef { ppn: next, index: GET_PT_INDEX(vptr) },
                lookup_fault: None,
            }
        } else {
            lookupPTSlot_ret_t {
                status: exception_t::EXCEPTION_LOOKUP_FAULT,
                ptSlot: SlotRef { ppn: 0, index: 0 },
                lookup_fault: Some(lookup_fault_t::new_missing_cap(21)),
            }
        }
    }

    /// The present leaf translating an address under this root, at whichever
    /// level holds one: its base physical address and size class; not valid
    /// when no level holds a present leaf.
    pub fn lookup_frame(&self, pool: &PtPool, vptr: vptr_t) -> (r: lookupFrame_ret_t)
        requires
            pool.wf(),
            self.0 >= PPTR_BASE_OFFSET,
            pool.has_node(spec_root_ppn(self.0)),
        ensures
            r == spec_lookup_frame(*pool, self.0, vptr),
    {
        let invalid = lookupFrame_ret_t { frameBase: 0, frameSize: 0, valid: false };
        let pudSlot = self.lookup_pud_slot(pool, vptr);
        if pudSlot.status != exception_t::EXCEPTION_NONE {
            return invalid;
        }
        let w = pool.read_entry(pudSlot.pudSlot.ppn, pudSlot.pudSlot.index);
        let pude = PUDE(w);
        proof {
            crate::bits::lemma_tag2(w);
        }
        if pude.is_1g_page() {
            return lookupFrame_ret_t {
                frameBase: pude.pude_1g_ptr_get_page_base_address(),
                frameSize: ARM_Huge_Page,
                valid: true,
            };
        }
        let pd = pude.get_pd_base_address() >> 12;
        if !(pude.get_present() && pool.contains_node(pd)) {
            return invalid;
        }
        let pdw = pool.read_entry(pd, GET_PD_INDEX(vptr));
        let pde = PDE(pdw);
        proof {
            crate::bits::lemma_tag2(pdw);
        }
        if pde.get_pde_type() == 1 {
            return lookupFrame_ret_t {
                frameBase: pde.pde_large_ptr_get_page_base_address(),
                frameSize: ARM_Large_Page,
                valid: true,
            };
        }
        let pt = pde.get_pt_base_address() >> 12;
        if !(pde.get_present() && pool.contains_node(pt)) {
            return invalid;
        }
        let ptw = pool.read_entry(pt, GET_PT_INDEX(vptr));
        let pte = PTE(ptw);
        if pte.pte_ptr_get_present() {
            return lookupFrame_ret_t {
                frameBase: pte.pte_ptr_get_page_base_address(),
                frameSize: ARM_Small_Page,
                valid: true,
            };
        }
        invalid
    }
}

impl PUDE {
    /// A 1 GiB block entry from its fields.
    pub fn new_1g(
        uxn: bool,
        page_base_address: u64,
        ng: u64,
        af: u64,
        sh: u64,
        ap: u64,
        attr_index: crate::aarch64::machine::mair_types,
    ) -> (r: Self)
        ensures
            r.0 == ((if uxn {
                1u64
            } else {
                0
            }) << 54) | (page_base_address & 0xffff_c000_0000) | ((ng & 1) << 11) | ((af & 1)
                << 10) | ((sh & 1) << 8) | ((ap & 1) << 6) | ((attr_index.spec_to_word() & 7) << 2)
                | 1,
    {
        let u: u64 = if uxn {
            1
        } else {
            0
        };
        PUDE(
            (u << 54) | (page_base_address & 0xffff_c000_0000) | ((ng & 1) << 11) | ((af & 1)
                << 10) | ((sh & 1) << 8) | ((ap & 1) << 6) | ((attr_index.to_word() & 7) << 2) | 1,
        )
    }

    /// The two tag bits.
    pub fn get_pude_type(&self) -> (r: u64)
        ensures
            r == self.0 & 3,
    {
        self.0 & 0x3
    }

    /// Whether this entry is a 1 GiB block.
    pub fn is_1g_page(&self) -> (r: bool)
        ensures
            r == (self.0 & 3 == 1),
    {
        self.0 & 0x3 == 1
    }

    /// Whether this entry holds a pointer to a third-level table.
    pub fn get_present(&self) -> (r: bool)
        ensures
            r == (self.0 & 3 == 3),
    {
        proof {
            crate::bits::lemma_tag2(self.0);
        }
        self.get_pude_type() == 3
    }

    /// The block base address of a 1 GiB entry.
    pub fn pude_1g_ptr_get_page_base_address(&self) -> (r: u64)
        ensures
            r == self.0 & 0xffff_c000_0000,
    {
        self.0 & 0xffff_c000_0000
    }

    /// The third-level table address this entry points at.
    pub fn get_pd_base_address(&self) -> (r: u64)
        ensures
            r == self.0 & 0xffff_ffff_f000,
    {
        self.0 & 0xffff_ffff_f000
    }

    /// Re-interpret a word as a second-level entry.
    pub fn new_from_pte(word: u64) -> (r: Self)
        ensures
            r.0 == word,
    {
        PUDE(word)
    }

    /// Clear this entry.
    pub fn invalidate(&mut self)
        ensures
            final(self).0 == 0,
    {
        self.0 = 0;
    }
}

impl PDE {
    /// A 2 MiB block entry from its fields.
    pub fn new_large(
        uxn: bool,
        page_base_address: u64,
        ng: u64,
        af: u64,
        sh: u64,
        ap: u64,
        attr_index: crate::aarch64::machine::mair_types,
    ) -> (r: Self)
        ensures
            r.0 == ((if uxn {
                1u64
            } else {
                0
            }) << 54) | (page_base_address & 0xffff_ffe0_0000) | ((ng & 1) << 11) | ((af & 1)
                << 10) | ((sh & 1) << 8) | ((ap & 1) << 6) | ((attr_index.spec_to_word() & 7) << 2)
                | 1,
    {
        let u: u64 = if uxn {
            1
        } else {
            0
        };
        PDE(
            (u << 54) | (page_base_address & 0xffff_ffe0_0000) | ((ng & 1) << 11) | ((af & 1)
                << 10) | ((sh & 1) << 8) | ((ap & 1) << 6) | ((attr_index.to_word() & 7) << 2) | 1,
        )
    }

    /// A pointer to a last-level table.
    pub fn new_small(pt_base_address: u64) -> (r: Self)
        ensures
            r.0 == (pt_base_address & 0xffff_ffff_f000) | 3,
    {
        PDE((pt_base_address & 0xffff_ffff_f000) | 3)
    }

    /// The two tag bits.
    pub fn get_pde_type(&self) -> (r: u64)
        ensures
            r == self.0 & 3,
    {
        self.0 & 0x3
    }

    /// Whether this entry holds a pointer to a last-level table.
    pub fn get_present(&self) -> (r: bool)
        ensures
            r == (self.0 & 3 == 3),
    {
        proof {
            crate::bits::lemma_tag2(self.0);
        }
        self.get_pde_type() == 3
    }

    /// Whether this entry is a 2 MiB block.
    pub fn is_larger_page(&self) -> (r: bool)
        ensures
            r == (self.0 & 3 == 1),
    {
        proof {
            crate::bits::lemma_tag2(self.0);
        }
        self.get_pde_type() == 1
    }

    /// The block base address of a 2 MiB entry.
    pub fn pde_large_ptr_get_page_base_address(&self) -> (r: u64)
        ensures
            r == self.0 & 0xffff_ffe0_0000,
    {
        self.0 & 0xffff_ffe0_0000
    }

    /// The last-level table address this entry points at.
    pub fn get_pt_base_address(&self) -> (r: u64)
        ensures
            r == self.0 & 0xffff_ffff_f000,
    {
        self.0 & 0xffff_ffff_f000
    }

    /// Re-interpret a word as a third-level entry.
    pub fn new_from_pte(word: u64) -> (r: Self)
        ensures
            r.0 == word,
    {
        PDE(word)
    }

    /// Clear this entry.
    pub fn invalidate(&mut self)
        ensures
            final(self).0 == 0,
    {
        self.0 = 0;
    }
}

impl PTE {
    /// The two tag bits of a last-level entry.
    pub fn get_reserved(&self) -> (r: u64)
        ensures
            r == self.0 & 3,
    {
        self.0 & 0x3
    }

    /// Whether this last-level entry is a present 4 KiB page (both tag bits
    /// set).
    pub fn pte_ptr_get_present(&self) -> (r: bool)
        ensures
            r == (self.0 & 3 == 3),
    {
        proof {
            crate::bits::lemma_tag2(self.0);
        }
        self.get_reserved() == 0x3
    }

    /// The page base address of a last-level entry.
    pub fn pte_ptr_get_page_base_address(&self) -> (r: u64)
        ensures
            r == self.0 & 0xffff_ffff_f000,
    {
        self.0 & 0xffff_ffff_f000
    }
}

/// Result of a top-level slot lookup.
#[derive(Clone, Copy, Debug, PartialEq, Eq, Structural)]
pub struct lookupPGDSlot_ret_t {
    pub status: exception_t,
    pub pgdSlot: SlotRef,
    pub lookup_fault: Option<lookup_fault_t>,
}

/// Result of a second-level slot lookup.
#[derive(Clone, Copy, Debug, PartialEq, Eq, Structural)]
pub struct lookupPUDSlot_ret_t {
    pub status: exception_t,
    pub pudSlot: SlotRef,
    pub lookup_fault: Option<lookup_fault_t>,
}

/// Result of a third-level slot lookup.
#[derive(Clone, Copy, Debug, PartialEq, Eq, Structural)]
pub struct lookupPDSlot_ret_t {
    pub status: exception_t,
    pub pdSlot: SlotRef,
    pub lookup_fault: Option<lookup_fault_t>,
}

/// Result of a last-level slot lookup.
#[derive(Clone, Copy, Debug, PartialEq, Eq, Structural)]
pub struct lookupPTSlot_ret_t {
    pub status: exception_t,
    pub ptSlot: SlotRef,
    pub lookup_fault: Option<lookup_fault_t>,
}

/// Result of a frame lookup: the base physical address and size class of the
/// present leaf that translates the address, if any level holds one.
#[derive(Clone, Copy, Debug, PartialEq, Eq, Structural)]
pub struct lookupFrame_ret_t {
    pub frameBase: u64,
    pub frameSize: u64,
    pub valid: bool,
}

/// The top-level slot for an address under a root.
pub open spec fn spec_lookup_pgd_slot(root: u64, vptr: u64) -> lookupPGDSlot_ret_t {
    lookupPGDSlot_ret_t {
        status: exception_t::EXCEPTION_NONE,
        pgdSlot: SlotRef { ppn: spec_root_ppn(root), index: (vptr >> 39) & 0x1ff },
        lookup_fault: None,
    }
}

/// The second-level slot for an address, or the fault with 39 bits left when
/// the top-level entry holds no live table.
pub open spec fn spec_lookup_pud_slot(pool: PtPool, root: u64, vptr: u64) -> lookupPUDSlot_ret_t {
    let w = pool.entry_at(spec_root_ppn(root), (vptr >> 39) & 0x1ff);
    if w & 3 == 3 && pool.has_node((w & 0xffff_ffff_f000) >> 12) {
        lookupPUDSlot_ret_t {
            status: exception_t::EXCEPTION_NONE,
            pudSlot: SlotRef { ppn: (w & 0xffff_ffff_f000) >> 12, index: (vptr >> 30) & 0x1ff },
            lookup_fault: None,
        }
    } else {
        lookupPUDSlot_ret_t {
            status: exception_t::EXCEPTION_LOOKUP_FAULT,
            pudSlot: SlotRef { ppn: 0, index: 0 },
            lookup_fault: Some(lookup_fault_t::MissingCapability { bits_left: 39 }),
        }
    }
}

/// The third-level slot for an address, or the fault at the step that stopped
/// the walk (39 bits left at the top level, 30 one level down).
pub open spec fn spec_lookup_pd_slot(pool: PtPool, root: u64, vptr: u64) -> lookupPDSlot_ret_t {
    let pud = spec_lookup_pud_slot(pool, root, vptr);
    if !(pud.status is EXCEPTION_NONE) {
        lookupPDSlot_ret_t {
            status: pud.status,
            pdSlot: SlotRef { ppn: 0, index: 0 },
            lookup_fault: pud.lookup_fault,
        }
    } else {
        let w = pool.entry_at(pud.pudSlot.ppn, pud.pudSlot.index);
        if w & 3 == 3 && pool.has_node((w & 0xffff_ffff_f000) >> 12) {
            lookupPDSlot_ret_t {
                status: exception_t::EXCEPTION_NONE,
                pdSlot: SlotRef { ppn: (w & 0xffff_ffff_f000) >> 12, index: (vptr >> 21) & 0x1ff },
                lookup_fault: None,
            }
        } else {
            lookupPDSlot_ret_t {
                status: exception_t::EXCEPTION_LOOKUP_FAULT,
                pdSlot: SlotRef { ppn: 0, index: 0 },
                lookup_fault: Some(lookup_fault_t::MissingCapability { bits_left: 30 }),
            }
        }
    }
}

/// The last-level slot for an address, or the fault at the step that stopped
/// the walk (21 bits left when only the last level was missing).
pub open spec fn spec_lookup_pt_slot(pool: PtPool, root: u64, vptr: u64) -> lookupPTSlot_ret_t {
    let pd = spec_lookup_pd_slot(pool, root, vptr);
    if !(pd.status is EXCEPTION_NONE) {
        lookupPTSlot_ret_t {
            status: pd.status,
            ptSlot: SlotRef { ppn: 0, index: 0 },
            lookup_fault: pd.lookup_fault,
        }
    } else {
        let w = pool.entry_at(pd.pdSlot.ppn, pd.pdSlot.index);
        if w & 3 == 3 && pool.has_node((w & 0xffff_ffff_f000) >> 12) {
            lookupPTSlot_ret_t {
                status: exception_t::EXCEPTION_NONE,
                ptSlot: SlotRef { ppn: (w & 0xffff_ffff_f000) >> 12, index: (vptr >> 12) & 0x1ff },
                lookup_fault: None,
            }
        } else {
            lookupPTSlot_ret_t {
                status: exception_t::EXCEPTION_LOOKUP_FAULT,
                ptSlot: SlotRef { ppn: 0, index: 0 },
                lookup_fault: Some(lookup_fault_t::MissingCapability { bits_left: 21 }),
            }
        }
    }
}

/// The present leaf translating an address, at whichever level holds one: a
/// 1 GiB block at the second level, a 2 MiB block at the third, or a 4 KiB
/// page at the last; not valid when no level holds a present leaf.
pub open spec fn spec_lookup_frame(pool: PtPool, root: u64, vptr: u64) -> lookupFrame_ret_t {
    let invalid = lookupFrame_ret_t { frameBase: 0, frameSize: 0, valid: false };
    let pud = spec_lookup_pud_slot(pool, root, vptr);
    if !(pud.status is EXCEPTION_NONE) {
        invalid
    } else {
        let w = pool.entry_at(pud.pudSlot.ppn, pud.pudSlot.index);
        if w & 3 == 1 {
            lookupFrame_ret_t {
                frameBase: w & 0xffff_c000_0000,
                frameSize: ARM_Huge_Page,
                valid: true,
            }
        } else if w & 3 == 3 && pool.has_node((w & 0xffff_ffff_f000) >> 12) {
            let pdw = pool.entry_at((w & 0xffff_ffff_f000) >> 12, (vptr >> 21) & 0x1ff);
            if pdw & 3 == 1 {
                lookupFrame_ret_t {
                    frameBase: pdw & 0xffff_ffe0_0000,
                    frameSize: ARM_Large_Page,
                    valid: true,
                }
            } else if pdw & 3 == 3 && pool.has_node((pdw & 0xffff_ffff_f000) >> 12) {
                let ptw = pool.entry_at((pdw & 0xffff_ffff_f000) >> 12, (vptr >> 12) & 0x1ff);
                if ptw & 3 == 3 {
                    lookupFrame_ret_t {
                        frameBase: ptw & 0xffff_ffff_f000,
                        frameSize: ARM_Small_Page,
                        valid: true,
                    }
                } else {
                    invalid
                }
            } else {
                invalid
            }
        } else {
            invalid
        }
    }
}

} // verus!
