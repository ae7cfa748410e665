//! Root switching, mapping/unmapping and activation of the 4-level scheme.
//!
//! A candidate root capability is programmed into the user root register only
//! after its recorded ASID is confirmed to still resolve to exactly that
//! root; on any validation failure the reserved empty user root is installed
//! instead, so a stale or revoked root is never handed to the hardware.
//! Unmapping is verify-then-clear: the owning slot is re-resolved from the
//! ASID and address recorded at map time and cleared only if it still holds
//! exactly the object being unmapped, followed by a cache-line clean of the
//! slot and a TLB invalidation for the affected ASID.

use vstd::prelude::*;

use crate::aarch64::machine::{
    clean_by_va_pou, invalidate_local_tlb, invalidate_local_tlb_asid, invalidate_local_tlb_va_asid,
    setCurrentKernelVSpaceRoot, setCurrentUserVSpaceRoot, spec_l1_cache_ops, ttbr_new,
    clean_invalidate_l1_caches,
};
use crate::aarch64::pte::spec_pte_new;
use crate::aarch64::structures::VmState;
use crate::aarch64::utils::{
    kpptr_to_paddr, pptr_to_paddr, spec_lookup_pd_slot, spec_lookup_pgd_slot, spec_lookup_pt_slot,
    spec_lookup_pud_slot, PGDE, ARM_Huge_Page, ARM_Large_Page, ARM_Small_Page,
    KERNEL_ELF_BASE_OFFSET, PPTR_BASE_OFFSET, PDE, PTE, PUDE,
};
use crate::aarch64::vm_rights::vm_rights_t;
use crate::cap::{cap_t, CapTag};
use crate::config::ASID_LIMIT;
use crate::hw::HwOp;
use crate::pool::SlotRef;
use crate::structures::{asid_t, exception_t, lookup_fault_t, pptr_t, vm_attributes_t, vptr_t};

verus! {

/// The tagged root-register word (spec form of `ttbr_new`).
pub open spec fn spec_ttbr(asid: u64, addr: u64) -> u64 {
    ((asid & 0xffff) << 48) | (addr & 0xffff_ffff_ffffu64)
}

/// Whether a candidate capability even names a mapped address-space root.
pub open spec fn spec_root_cap_valid(cap: cap_t) -> bool {
    cap is PageGlobalDirectoryCap && cap->PageGlobalDirectoryCap_is_mapped == 1
}

/// The operations `set_vm_root` emits in a given state: the candidate root
/// tagged with its ASID when validation passes, the reserved empty user root
/// otherwise, each followed by the invalidation-and-barrier sequence of the
/// user-root switch.
pub open spec fn spec_set_vm_root_st_ops(st: VmState, cap: cap_t) -> Seq<HwOp> {
    let fallback = seq![
        HwOp::SetUserRoot {
            val: spec_ttbr(0, (st.user_vspace_base - KERNEL_ELF_BASE_OFFSET) as u64),
        },
        HwOp::TlbiAll,
        HwOp::Dsb,
        HwOp::Isb,
    ];
    if !spec_root_cap_valid(cap) {
        fallback
    } else {
        let base = cap->PageGlobalDirectoryCap_base_ptr;
        let asid = cap->PageGlobalDirectoryCap_mapped_asid;
        if st.spec_vspace_root(asid) == base && base != 0 {
            seq![
                HwOp::SetUserRoot { val: spec_ttbr(asid, (base - PPTR_BASE_OFFSET) as u64) },
                HwOp::TlbiAll,
                HwOp::Dsb,
                HwOp::Isb,
            ]
        } else {
            fallback
        }
    }
}

/// Whether `set_vm_root` succeeds in a given state: an unmapped or non-root
/// capability falls back successfully; a mapped root capability succeeds
/// exactly when its recorded ASID still resolves to its own root.
pub open spec fn spec_set_vm_root_ok(st: VmState, cap: cap_t) -> bool {
    !spec_root_cap_valid(cap) || (st.spec_vspace_root(cap->PageGlobalDirectoryCap_mapped_asid)
        == cap->PageGlobalDirectoryCap_base_ptr && cap->PageGlobalDirectoryCap_base_ptr != 0)
}

/// The exact result `set_vm_root` returns in a given state.
pub open spec fn spec_set_vm_root_result(st: VmState, cap: cap_t) -> Result<(), lookup_fault_t> {
    if spec_set_vm_root_ok(st, cap) {
        Ok(())
    } else {
        Err(lookup_fault_t::InvalidRoot)
    }
}

/// Program the hardware user root from a candidate root capability.
///
/// The candidate's address reaches the hardware only when the capability is a
/// mapped address-space root whose recorded ASID still resolves to exactly
/// that root; otherwise the reserved empty user root is installed, and a
/// stale candidate surfaces the root-invalid fault.
pub fn set_vm_root(st: &mut VmState, vspace_root: &cap_t) -> (r: Result<(), lookup_fault_t>)
    requires
        old(st).wf(),
        vspace_root is PageGlobalDirectoryCap
            ==> vspace_root->PageGlobalDirectoryCap_mapped_asid < ASID_LIMIT,
    ensures
        final(st).wf(),
        final(st).asid_pool_bases == old(st).asid_pool_bases,
        final(st).asid_roots == old(st).asid_roots,
        final(st).pool == old(st).pool,
        final(st).armKSGlobalKernelPGD == old(st).armKSGlobalKernelPGD,
        final(st).armKSGlobalKernelPUD == old(st).armKSGlobalKernelPUD,
        final(st).armKSGlobalKernelPDs == old(st).armKSGlobalKernelPDs,
        final(st).armKSGlobalKernelPT == old(st).armKSGlobalKernelPT,
        final(st).armKSGlobalUserVSpace == old(st).armKSGlobalUserVSpace,
        final(st).kernel_pgd_base == old(st).kernel_pgd_base,
        final(st).kernel_pud_base == old(st).kernel_pud_base,
        final(st).kernel_pds_base == old(st).kernel_pds_base,
        final(st).kernel_pt_base == old(st).kernel_pt_base,
        final(st).user_vspace_base == old(st).user_vspace_base,
        final(st).hw@ == old(st).hw@ + spec_set_vm_root_st_ops(*old(st), *vspace_root),
        r == spec_set_vm_root_result(*old(st), *vspace_root),
{
    let is_root = vspace_root.get_cap_type() == CapTag::CapPageGlobalDirectoryCap;
    if !is_root || vspace_root.get_pgd_is_mapped() != 1 {
        let fb = kpptr_to_paddr(st.user_vspace_base);
        let val = ttbr_new(0, fb);
        setCurrentUserVSpaceRoot(&mut st.hw, val);
        proof {
            assert(st.hw@ =~= old(st).hw@ + spec_set_vm_root_st_ops(*old(st), *vspace_root));
        }
        return Ok(());
    }
    let base = vspace_root.get_pgd_base_ptr();
    let asid = vspace_root.get_pgd_mapped_asid();
    let find_ret = crate::aarch64::asid::find_vspace_for_asid(st, asid);
    let ok = match find_ret.vspace_root {
        Some(root) => root == base,
        None => false,
    };
    if !ok {
        let fb = kpptr_to_paddr(st.user_vspace_base);
        let val = ttbr_new(0, fb);
        setCurrentUserVSpaceRoot(&mut st.hw, val);
        proof {
            assert(st.hw@ =~= old(st).hw@ + spec_set_vm_root_st_ops(*old(st), *vspace_root));
        }
        return Err(lookup_fault_t::new_root_invalid());
    }
    let paddr = pptr_to_paddr(base);
    let val = ttbr_new(asid, paddr);
    setCurrentUserVSpaceRoot(&mut st.hw, val);
    proof {
        assert(st.hw@ =~= old(st).hw@ + spec_set_vm_root_st_ops(*old(st), *vspace_root));
    }
    Ok(())
}

/// Invalidate all translations tagged with one ASID.
pub fn invalidate_tlb_by_asid(hw: &mut Vec<HwOp>, asid: asid_t)
    requires
        asid < ASID_LIMIT,
    ensures
        final(hw)@ == old(hw)@.push(HwOp::Dsb).push(HwOp::TlbiAsid { asid }).push(HwOp::Dsb).push(
            HwOp::Isb,
        ),
{
    invalidate_local_tlb_asid(hw, asid);
}

/// Invalidate the translation of one page in one ASID.
pub fn invalidate_tlb_by_asid_va(hw: &mut Vec<HwOp>, asid: asid_t, vaddr: vptr_t)
    ensures
        final(hw)@ == old(hw)@.push(HwOp::Dsb).push(
            HwOp::TlbiVaAsid { mva_plus_asid: (asid << 48) | (vaddr >> 12) },
        ).push(HwOp::Dsb).push(HwOp::Isb),
{
    invalidate_local_tlb_va_asid(hw, (asid << 48) | (vaddr >> 12));
}

/// Activate the kernel's own address space: clean and invalidate the local
/// caches (given the cache identification words), program the kernel root and
/// the reserved empty user root, and invalidate all local translations.
pub fn activate_kernel_vspace(st: &mut VmState, clid: u64, lsizes: &Vec<u64>)
    requires
        old(st).wf(),
        lsizes@.len() >= 7,
    ensures
        final(st).wf(),
        final(st).hw@ == old(st).hw@ + spec_l1_cache_ops(clid, lsizes@) + seq![
            HwOp::SetKernelRoot {
                val: spec_ttbr(0, (old(st).kernel_pgd_base - KERNEL_ELF_BASE_OFFSET) as u64),
            },
            HwOp::SetUserRoot {
                val: spec_ttbr(0, (old(st).user_vspace_base - KERNEL_ELF_BASE_OFFSET) as u64),
            },
            HwOp::TlbiAll,
            HwOp::Dsb,
            HwOp::Isb,
            HwOp::Dsb,
            HwOp::TlbiAll,
            HwOp::Dsb,
            HwOp::Isb,
        ],
        final(st).asid_pool_bases == old(st).asid_pool_bases,
        final(st).asid_roots == old(st).asid_roots,
        final(st).pool == old(st).pool,
{
    clean_invalidate_l1_caches(&mut st.hw, clid, lsizes);
    let kroot = kpptr_to_paddr(st.kernel_pgd_base);
    setCurrentKernelVSpaceRoot(&mut st.hw, ttbr_new(0, kroot));
    let uroot = kpptr_to_paddr(st.user_vspace_base);
    setCurrentUserVSpaceRoot(&mut st.hw, ttbr_new(0, uroot));
    invalidate_local_tlb(&mut st.hw);
    proof {
        assert(st.hw@ =~= old(st).hw@ + spec_l1_cache_ops(clid, lsizes@) + seq![
            HwOp::SetKernelRoot {
                val: spec_ttbr(0, (old(st).kernel_pgd_base - KERNEL_ELF_BASE_OFFSET) as u64),
            },
            HwOp::SetUserRoot {
                val: spec_ttbr(0, (old(st).user_vspace_base - KERNEL_ELF_BASE_OFFSET) as u64),
            },
            HwOp::TlbiAll,
            HwOp::Dsb,
            HwOp::Isb,
            HwOp::Dsb,
            HwOp::TlbiAll,
            HwOp::Dsb,
            HwOp::Isb,
        ]);
    }
}

/// A 1 GiB user leaf from a mapping request.
pub fn make_user_1st_level(
    paddr: pptr_t,
    vm_rights: vm_rights_t,
    attributes: vm_attributes_t,
) -> (r: PUDE)
    ensures
        r.0 == ((if attributes.0 & 4 != 0 {
            1u64
        } else {
            0
        }) << 54) | (paddr & 0xffff_c000_0000) | 0x800 | 0x400 | ((vm_rights.spec_to_word() & 1)
            << 6) | (((if attributes.0 & 1 != 0 {
            4u64
        } else {
            0
        }) & 7) << 2) | 1,
{
    let r = PUDE::new_1g(
        attributes.get_armExecuteNever(),
        paddr,
        1,
        1,
        0,
        crate::aarch64::utils::ap_from_vm_rights(vm_rights),
        attributes.get_attr_index(),
    );
    proof {
        let u: u64 = if attributes.0 & 4 != 0 {
            1
        } else {
            0
        };
        let ai: u64 = if attributes.0 & 1 != 0 {
            4
        } else {
            0
        };
        assert((1u64 & 1) << 11 == 0x800 && (1u64 & 1) << 10 == 0x400 && (0u64 & 1) << 8 == 0)
            by (bit_vector);
        assert((u << 54) | (paddr & 0xffff_c000_0000) | 0x800 | 0x400 | 0 | ((vm_rights.spec_to_word()
            & 1) << 6) | ((ai & 7) << 2) | 1 == (u << 54) | (paddr & 0xffff_c000_0000) | 0x800
            | 0x400 | ((vm_rights.spec_to_word() & 1) << 6) | ((ai & 7) << 2) | 1) by (bit_vector);
    }
    r
}

/// A 2 MiB user leaf from a mapping request.
pub fn make_user_2nd_level(
    paddr: pptr_t,
    vm_rights: vm_rights_t,
    attributes: vm_attributes_t,
) -> (r: PDE)
    ensures
        r.0 == ((if attributes.0 & 4 != 0 {
            1u64
        } else {
            0
        }) << 54) | (paddr & 0xffff_ffe0_0000) | 0x800 | 0x400 | ((vm_rights.spec_to_word() & 1)
            << 6) | (((if attributes.0 & 1 != 0 {
            4u64
        } else {
            0
        }) & 7) << 2) | 1,
{
    let r = PDE::new_large(
        attributes.get_armExecuteNever(),
        paddr,
        1,
        1,
        0,
        crate::aarch64::utils::ap_from_vm_rights(vm_rights),
        attributes.get_attr_index(),
    );
    proof {
        let u: u64 = if attributes.0 & 4 != 0 {
            1
        } else {
            0
        };
        let ai: u64 = if attributes.0 & 1 != 0 {
            4
        } else {
            0
        };
        assert((1u64 & 1) << 11 == 0x800 && (1u64 & 1) << 10 == 0x400 && (0u64 & 1) << 8 == 0)
            by (bit_vector);
        assert((u << 54) | (paddr & 0xffff_ffe0_0000) | 0x800 | 0x400 | 0 | ((vm_rights.spec_to_word()
            & 1) << 6) | ((ai & 7) << 2) | 1 == (u << 54) | (paddr & 0xffff_ffe0_0000) | 0x800
            | 0x400 | ((vm_rights.spec_to_word() & 1) << 6) | ((ai & 7) << 2) | 1) by (bit_vector);
    }
    r
}

/// A 4 KiB user leaf from a mapping request.
pub fn makeUser3rdLevel(paddr: pptr_t, vm_rights: vm_rights_t, attributes: vm_attributes_t) -> (r:
    PTE)
    ensures
        r.0 == spec_pte_new(
            if attributes.0 & 4 != 0 {
                1u64
            } else {
                0
            },
            paddr,
            1,
            1,
            0,
            vm_rights.spec_to_word(),
            if attributes.0 & 1 != 0 {
                4u64
            } else {
                0
            },
            3,
        ),
{
    let uxn: u64 = if attributes.get_armExecuteNever() {
        1
    } else {
        0
    };
    PTE::pte_new(
        uxn,
        paddr,
        1,
        1,
        0,
        crate::aarch64::utils::ap_from_vm_rights(vm_rights),
        attributes.get_attr_index().to_word(),
        3,
    )
}

/// Switch the user root for a flush operation unless the thread's own root
/// capability already names exactly the given address space; reports whether
/// a switch was programmed.
pub fn set_vm_root_for_flush_with_thread_root(
    st: &mut VmState,
    vspace: pptr_t,
    asid: asid_t,
    thread_root: &cap_t,
) -> (r: bool)
    requires
        old(st).wf(),
        vspace >= PPTR_BASE_OFFSET,
    ensures
        final(st).wf(),
        final(st).asid_pool_bases == old(st).asid_pool_bases,
        final(st).asid_roots == old(st).asid_roots,
        final(st).pool == old(st).pool,
        r == !(thread_root is PageGlobalDirectoryCap
            && thread_root->PageGlobalDirectoryCap_is_mapped != 0
            && thread_root->PageGlobalDirectoryCap_base_ptr == vspace),
        !r ==> final(st).hw@ == old(st).hw@,
        r ==> final(st).hw@ == old(st).hw@ + seq![
            HwOp::SetUserRoot { val: spec_ttbr(asid, (vspace - PPTR_BASE_OFFSET) as u64) },
            HwOp::TlbiAll,
            HwOp::Dsb,
            HwOp::Isb,
        ],
{
    let is_root = thread_root.get_cap_type() == CapTag::CapPageGlobalDirectoryCap;
    if is_root {
        if thread_root.get_pgd_is_mapped() != 0 && thread_root.get_pgd_base_ptr() == vspace {
            return false;
        }
    }
    let val = ttbr_new(asid, pptr_to_paddr(vspace));
    setCurrentUserVSpaceRoot(&mut st.hw, val);
    proof {
        assert(st.hw@ =~= old(st).hw@ + seq![
            HwOp::SetUserRoot { val: spec_ttbr(asid, (vspace - PPTR_BASE_OFFSET) as u64) },
            HwOp::TlbiAll,
            HwOp::Dsb,
            HwOp::Isb,
        ]);
    }
    true
}

/// The direct-window address of a slot (for cache maintenance by address).
pub open spec fn spec_slot_vaddr(slot: SlotRef) -> u64 {
    ((slot.ppn << 12) + slot.index * 8 + PPTR_BASE_OFFSET) as u64
}

/// The physical address of a slot.
pub open spec fn spec_slot_paddr(slot: SlotRef) -> u64 {
    ((slot.ppn << 12) + slot.index * 8) as u64
}

/// The top-level slot that holds the pointer to the second-level table at
/// `pud`, if the recorded `(asid, vaddr)` still resolves to exactly it.
pub open spec fn spec_page_upper_directory_mapped(
    st: VmState,
    asid: u64,
    vaddr: u64,
    pud: u64,
) -> Option<SlotRef> {
    let root = st.spec_vspace_root(asid);
    if root == 0 {
        None
    } else {
        let lu = spec_lookup_pgd_slot(root, vaddr);
        let w = st.pool.entry_at(lu.pgdSlot.ppn, lu.pgdSlot.index);
        if w & 3 == 3 && w & 0xffff_ffff_f000 == ((pud - PPTR_BASE_OFFSET) as u64) {
            Some(lu.pgdSlot)
        } else {
            None
        }
    }
}

/// The second-level slot that holds the pointer to the third-level table at
/// `pd`, if the recorded `(asid, vaddr)` still resolves to exactly it.
pub open spec fn spec_page_directory_mapped(st: VmState, asid: u64, vaddr: u64, pd: u64) -> Option<
    SlotRef,
> {
    let root = st.spec_vspace_root(asid);
    if root == 0 {
        None
    } else {
        let lu = spec_lookup_pud_slot(st.pool, root, vaddr);
        if !(lu.status is EXCEPTION_NONE) {
            None
        } else {
            let w = st.pool.entry_at(lu.pudSlot.ppn, lu.pudSlot.index);
            if w & 3 == 3 && w & 0xffff_ffff_f000 == ((pd - PPTR_BASE_OFFSET) as u64) {
                Some(lu.pudSlot)
            } else {
                None
            }
        }
    }
}

/// The third-level slot that holds the pointer to the last-level table at
/// `pt`, if the recorded `(asid, vaddr)` still resolves to exactly it.
pub open spec fn spec_page_table_mapped(st: VmState, asid: u64, vaddr: u64, pt: u64) -> Option<
    SlotRef,
> {
    let root = st.spec_vspace_root(asid);
    if root == 0 {
        None
    } else {
        let lu = spec_lookup_pd_slot(st.pool, root, vaddr);
        if !(lu.status is EXCEPTION_NONE) {
            None
        } else {
            let w = st.pool.entry_at(lu.pdSlot.ppn, lu.pdSlot.index);
            if w & 3 == 3 && w & 0xffff_ffff_f000 == ((pt - PPTR_BASE_OFFSET) as u64) {
                Some(lu.pdSlot)
            } else {
                None
            }
        }
    }
}

/// Locate the top-level slot still pointing at the second-level table at
/// `pud` under the recorded `(asid, vaddr)`, if any.
pub fn page_upper_directory_mapped(st: &VmState, asid: asid_t, vaddr: vptr_t, pud: pptr_t) -> (r:
    Option<SlotRef>)
    requires
        st.wf(),
        asid < ASID_LIMIT,
        pud >= PPTR_BASE_OFFSET,
    ensures
        r == spec_page_upper_directory_mapped(*st, asid, vaddr, pud),
        r is Some ==> st.pool.has_node(r->Some_0.ppn) && r->Some_0.index < 512,
{
    let find_ret = crate::aarch64::asid::find_vspace_for_asid(st, asid);
    match find_ret.vspace_root {
        Some(root) => {
            let pgde = PGDE::new_from_pte(root);
            let lookup_ret = pgde.lookup_pgd_slot(vaddr);
            proof {
                crate::bits::lemma_index9(vaddr, 39);
            }
            let w = st.pool.read_entry(lookup_ret.pgdSlot.ppn, lookup_ret.pgdSlot.index);
            let slot = PGDE::new_from_pte(w);
            if slot.get_present() && slot.get_pud_base_address() == pud - PPTR_BASE_OFFSET {
                Some(lookup_ret.pgdSlot)
            } else {
                None
            }
        },
        None => None,
    }
}

/// Locate the second-level slot still pointing at the third-level table at
/// `pd` under the recorded `(asid, vaddr)`, if any.
pub fn page_directory_mapped(st: &VmState, asid: asid_t, vaddr: vptr_t, pd: pptr_t) -> (r: Option<
    SlotRef,
>)
    requires
        st.wf(),
        asid < ASID_LIMIT,
        pd >= PPTR_BASE_OFFSET,
    ensures
        r == spec_page_directory_mapped(*st, asid, vaddr, pd),
        r is Some ==> st.pool.has_node(r->Some_0.ppn) && r->Some_0.index < 512,
{
    let find_ret = crate::aarch64::asid::find_vspace_for_asid(st, asid);
    match find_ret.vspace_root {
        Some(root) => {
            let pgde = PGDE::new_from_pte(root);
            let lookup_ret = pgde.lookup_pud_slot(&st.pool, vaddr);
            if lookup_ret.status != exception_t::EXCEPTION_NONE {
                return None;
            }
            let w = st.pool.read_entry(lookup_ret.pudSlot.ppn, lookup_ret.pudSlot.index);
            let slot = PUDE::new_from_pte(w);
            if slot.get_present() && slot.get_pd_base_address() == pd - PPTR_BASE_OFFSET {
                Some(lookup_ret.pudSlot)
            } else {
                None
            }
        },
        None => None,
    }
}

/// Locate the third-level slot still pointing at the last-level table at `pt`
/// under the recorded `(asid, vaddr)`, if any.
pub fn page_table_mapped(st: &VmState, asid: asid_t, vaddr: vptr_t, pt: pptr_t) -> (r: Option<
    SlotRef,
>)
    requires
        st.wf(),
        asid < ASID_LIMIT,
        pt >= PPTR_BASE_OFFSET,
    ensures
        r == spec_page_table_mapped(*st, asid, vaddr, pt),
        r is Some ==> st.pool.has_node(r->Some_0.ppn) && r->Some_0.index < 512,
{
    let find_ret = crate::aarch64::asid::find_vspace_for_asid(st, asid);
    match find_ret.vspace_root {
        Some(root) => {
            let pgde = PGDE::new_from_pte(root);
            let lookup_ret = pgde.lookup_pd_slot(&st.pool, vaddr);
            if lookup_ret.status != exception_t::EXCEPTION_NONE {
                return None;
            }
            let w = st.pool.read_entry(lookup_ret.pdSlot.ppn, lookup_ret.pdSlot.index);
            let slot = PDE::new_from_pte(w);
            if slot.get_present() && slot.get_pt_base_address() == pt - PPTR_BASE_OFFSET {
                Some(lookup_ret.pdSlot)
            } else {
                None
            }
        },
        None => None,
    }
}


/// Remove the second-level table at `pud` from the address space of `asid`,
/// verify-then-clear: the top-level slot is cleared only if it still points
/// exactly there, then the slot's line is cleaned and the ASID's translations
/// are invalidated.
pub fn unmap_page_upper_directory(st: &mut VmState, asid: asid_t, vaddr: vptr_t, pud: pptr_t)
    requires
        old(st).wf(),
        asid < ASID_LIMIT,
        pud >= PPTR_BASE_OFFSET,
    ensures
        final(st).wf(),
        spec_page_upper_directory_mapped(*old(st), asid, vaddr, pud) is None ==> *final(st) == *old(
            st,
        ),
        spec_page_upper_directory_mapped(*old(st), asid, vaddr, pud) is Some ==> {
            let slot = spec_page_upper_directory_mapped(*old(st), asid, vaddr, pud)->Some_0;
            &&& final(st).pool.ppns@ == old(st).pool.ppns@
            &&& final(st).pool.node_at(slot.ppn) == old(st).pool.node_at(slot.ppn).update(
                slot.index as int,
                0u64,
            )
            &&& (forall|q: u64|
                old(st).pool.has_node(q) && q != slot.ppn ==> final(st).pool.node_at(q) == old(
                    st,
                ).pool.node_at(q))
            &&& final(st).asid_pool_bases == old(st).asid_pool_bases
            &&& final(st).asid_roots == old(st).asid_roots
            &&& final(st).hw@ == old(st).hw@ + seq![
                HwOp::CleanByVaPou {
                    vaddr: spec_slot_vaddr(slot),
                    paddr: spec_slot_paddr(slot),
                },
                HwOp::Dmb,
                HwOp::Dsb,
                HwOp::TlbiAsid { asid },
                HwOp::Dsb,
                HwOp::Isb,
            ]
        },
{
    match page_upper_directory_mapped(st, asid, vaddr, pud) {
        Some(slot) => {
            let sp = slot.ppn;
            proof {
                st.lemma_node_ppn_bound(sp);
                crate::bits::lemma_window_slot_addr(sp);
            }
            st.pool.write_entry(slot.ppn, slot.index, 0);
            let pa = (slot.ppn << 12) + slot.index * 8;
            clean_by_va_pou(&mut st.hw, pa + PPTR_BASE_OFFSET, pa);
            invalidate_tlb_by_asid(&mut st.hw, asid);
            proof {
                assert(st.hw@ =~= old(st).hw@ + seq![
                    HwOp::CleanByVaPou {
                        vaddr: spec_slot_vaddr(slot),
                        paddr: spec_slot_paddr(slot),
                    },
                    HwOp::Dmb,
                    HwOp::Dsb,
                    HwOp::TlbiAsid { asid },
                    HwOp::Dsb,
                    HwOp::Isb,
                ]);
            }
        },
        None => {},
    }
}

/// Remove the third-level table at `pd` from the address space of `asid`,
/// verify-then-clear, with the slot clean and ASID invalidation.
pub fn unmap_page_directory(st: &mut VmState, asid: asid_t, vaddr: vptr_t, pd: pptr_t)
    requires
        old(st).wf(),
        asid < ASID_LIMIT,
        pd >= PPTR_BASE_OFFSET,
    ensures
        final(st).wf(),
        spec_page_directory_mapped(*old(st), asid, vaddr, pd) is None ==> *final(st) == *old(st),
        spec_page_directory_mapped(*old(st), asid, vaddr, pd) is Some ==> {
            let slot = spec_page_directory_mapped(*old(st), asid, vaddr, pd)->Some_0;
            &&& final(st).pool.ppns@ == old(st).pool.ppns@
            &&& final(st).pool.node_at(slot.ppn) == old(st).pool.node_at(slot.ppn).update(
                slot.index as int,
                0u64,
            )
            &&& (forall|q: u64|
                old(st).pool.has_node(q) && q != slot.ppn ==> final(st).pool.node_at(q) == old(
                    st,
                ).pool.node_at(q))
            &&& final(st).asid_pool_bases == old(st).asid_pool_bases
            &&& final(st).asid_roots == old(st).asid_roots
            &&& final(st).hw@ == old(st).hw@ + seq![
                HwOp::CleanByVaPou {
                    vaddr: spec_slot_vaddr(slot),
                    paddr: spec_slot_paddr(slot),
                },
                HwOp::Dmb,
                HwOp::Dsb,
                HwOp::TlbiAsid { asid },
                HwOp::Dsb,
                HwOp::Isb,
            ]
        },
{
    match page_directory_mapped(st, asid, vaddr, pd) {
        Some(slot) => {
            let sp = slot.ppn;
            proof {
                st.lemma_node_ppn_bound(sp);
                crate::bits::lemma_window_slot_addr(sp);
            }
            st.pool.write_entry(slot.ppn, slot.index, 0);
            let pa = (slot.ppn << 12) + slot.index * 8;
            clean_by_va_pou(&mut st.hw, pa + PPTR_BASE_OFFSET, pa);
            invalidate_tlb_by_asid(&mut st.hw, asid);
            proof {
                assert(st.hw@ =~= old(st).hw@ + seq![
                    HwOp::CleanByVaPou {
                        vaddr: spec_slot_vaddr(slot),
                        paddr: spec_slot_paddr(slot),
                    },
                    HwOp::Dmb,
                    HwOp::Dsb,
                    HwOp::TlbiAsid { asid },
                    HwOp::Dsb,
                    HwOp::Isb,
                ]);
            }
        },
        None => {},
    }
}

/// Remove the last-level table at `pt` from the address space of `asid`,
/// verify-then-clear, with the slot clean and ASID invalidation.
pub fn unmap_page_table(st: &mut VmState, asid: asid_t, vaddr: vptr_t, pt: pptr_t)
    requires
        old(st).wf(),
        asid < ASID_LIMIT,
        pt >= PPTR_BASE_OFFSET,
    ensures
        final(st).wf(),
        spec_page_table_mapped(*old(st), asid, vaddr, pt) is None ==> *final(st) == *old(st),
        spec_page_table_mapped(*old(st), asid, vaddr, pt) is Some ==> {
            let slot = spec_page_table_mapped(*old(st), asid, vaddr, pt)->Some_0;
            &&& final(st).pool.ppns@ == old(st).pool.ppns@
            &&& final(st).pool.node_at(slot.ppn) == old(st).pool.node_at(slot.ppn).update(
                slot.index as int,
                0u64,
            )
            &&& (forall|q: u64|
                old(st).pool.has_node(q) && q != slot.ppn ==> final(st).pool.node_at(q) == old(
                    st,
                ).pool.node_at(q))
            &&& final(st).asid_pool_bases == old(st).asid_pool_bases
            &&& final(st).asid_roots == old(st).asid_roots
            &&& final(st).hw@ == old(st).hw@ + seq![
                HwOp::CleanByVaPou {
                    vaddr: spec_slot_vaddr(slot),
                    paddr: spec_slot_paddr(slot),
                },
                HwOp::Dmb,
                HwOp::Dsb,
                HwOp::TlbiAsid { asid },
                HwOp::Dsb,
                HwOp::Isb,
            ]
        },
{
    match page_table_mapped(st, asid, vaddr, pt) {
        Some(slot) => {
            let sp = slot.ppn;
            proof {
                st.lemma_node_ppn_bound(sp);
                crate::bits::lemma_window_slot_addr(sp);
            }
            st.pool.write_entry(slot.ppn, slot.index, 0);
            let pa = (slot.ppn << 12) + slot.index * 8;
            clean_by_va_pou(&mut st.hw, pa + PPTR_BASE_OFFSET, pa);
            invalidate_tlb_by_asid(&mut st.hw, asid);
            proof {
                assert(st.hw@ =~= old(st).hw@ + seq![
                    HwOp::CleanByVaPou {
                        vaddr: spec_slot_vaddr(slot),
                        paddr: spec_slot_paddr(slot),
                    },
                    HwOp::Dmb,
                    HwOp::Dsb,
                    HwOp::TlbiAsid { asid },
                    HwOp::Dsb,
                    HwOp::Isb,
                ]);
            }
        },
        None => {},
    }
}

/// The slot an unmap request would clear, per size class: the last-level slot
/// holding a present 4 KiB page, the third-level slot holding a 2 MiB block,
/// or the second-level slot holding a 1 GiB block, each required to map
/// exactly the frame being unmapped.
pub open spec fn spec_unmap_slot(
    st: VmState,
    page_size: u64,
    asid: u64,
    vptr: u64,
    pptr: u64,
) -> Option<SlotRef> {
    let root = st.spec_vspace_root(asid);
    if root == 0 {
        None
    } else {
        let addr = (pptr - PPTR_BASE_OFFSET) as u64;
        if page_size == ARM_Small_Page {
            let lu = spec_lookup_pt_slot(st.pool, root, vptr);
            if lu.status is EXCEPTION_NONE && st.pool.entry_at(lu.ptSlot.ppn, lu.ptSlot.index) & 3
                == 3 && st.pool.entry_at(lu.ptSlot.ppn, lu.ptSlot.index) & 0xffff_ffff_f000
                == addr {
                Some(lu.ptSlot)
            } else {
                None
            }
        } else if page_size == ARM_Large_Page {
            let lu = spec_lookup_pd_slot(st.pool, root, vptr);
            if lu.status is EXCEPTION_NONE && st.pool.entry_at(lu.pdSlot.ppn, lu.pdSlot.index) & 3
                == 1 && st.pool.entry_at(lu.pdSlot.ppn, lu.pdSlot.index) & 0xffff_ffe0_0000
                == addr {
                Some(lu.pdSlot)
            } else {
                None
            }
        } else {
            let lu = spec_lookup_pud_slot(st.pool, root, vptr);
            if lu.status is EXCEPTION_NONE && st.pool.entry_at(lu.pudSlot.ppn, lu.pudSlot.index)
                & 3 == 1 && st.pool.entry_at(lu.pudSlot.ppn, lu.pudSlot.index) & 0xffff_c000_0000
                == addr {
                Some(lu.pudSlot)
            } else {
                None
            }
        }
    }
}

/// Remove the leaf mapping recorded as `(asid, vptr, pptr)` at the given size
/// class, verify-then-clear: the slot at the class's level is re-resolved and
/// cleared only if it still maps exactly the frame at `pptr`; any stale or
/// superseded request is a successful no-op. On a clear, the slot's line is
/// cleaned and the page's translation in the ASID is invalidated.
pub fn unmapPage(
    st: &mut VmState,
    page_size: u64,
    asid: asid_t,
    vptr: vptr_t,
    pptr: pptr_t,
) -> (r: Result<(), lookup_fault_t>)
    requires
        old(st).wf(),
        asid < ASID_LIMIT,
        page_size == ARM_Small_Page || page_size == ARM_Large_Page || page_size == ARM_Huge_Page,
        pptr >= PPTR_BASE_OFFSET,
    ensures
        final(st).wf(),
        r is Ok,
        spec_unmap_slot(*old(st), page_size, asid, vptr, pptr) is None ==> *final(st) == *old(st),
        spec_unmap_slot(*old(st), page_size, asid, vptr, pptr) is Some ==> {
            let slot = spec_unmap_slot(*old(st), page_size, asid, vptr, pptr)->Some_0;
            &&& final(st).pool.ppns@ == old(st).pool.ppns@
            &&& final(st).pool.node_at(slot.ppn) == old(st).pool.node_at(slot.ppn).update(
                slot.index as int,
                0u64,
            )
            &&& (forall|q: u64|
                old(st).pool.has_node(q) && q != slot.ppn ==> final(st).pool.node_at(q) == old(
                    st,
                ).pool.node_at(q))
            &&& final(st).asid_pool_bases == old(st).asid_pool_bases
            &&& final(st).asid_roots == old(st).asid_roots
            &&& final(st).hw@ == old(st).hw@ + seq![
                HwOp::CleanByVaPou {
                    vaddr: spec_slot_vaddr(slot),
                    paddr: spec_slot_paddr(slot),
                },
                HwOp::Dmb,
                HwOp::Dsb,
                HwOp::TlbiVaAsid { mva_plus_asid: (asid << 48) | (vptr >> 12) },
                HwOp::Dsb,
                HwOp::Isb,
            ]
        },
{
    let addr = pptr - PPTR_BASE_OFFSET;
    let find_ret = crate::aarch64::asid::find_vspace_for_asid(st, asid);
    if find_ret.status != exception_t::EXCEPTION_NONE {
        return Ok(());
    }
    let root = find_ret.vspace_root.unwrap();
    let pgde = PGDE::new_from_pte(root);
    let slot: Option<SlotRef> = if page_size == ARM_Small_Page {
        let lu = pgde.lookup_pt_slot(&st.pool, vptr);
        if lu.status != exception_t::EXCEPTION_NONE {
            None
        } else {
            let w = st.pool.read_entry(lu.ptSlot.ppn, lu.ptSlot.index);
            let pte = PTE(w);
            if pte.pte_ptr_get_present() && pte.pte_ptr_get_page_base_address() == addr {
                Some(lu.ptSlot)
            } else {
                None
            }
        }
    } else if page_size == ARM_Large_Page {
        let lu = pgde.lookup_pd_slot(&st.pool, vptr);
        if lu.status != exception_t::EXCEPTION_NONE {
            None
        } else {
            let w = st.pool.read_entry(lu.pdSlot.ppn, lu.pdSlot.index);
            let pde = PDE::new_from_pte(w);
            if pde.is_larger_page() && pde.pde_large_ptr_get_page_base_address() == addr {
                Some(lu.pdSlot)
            } else {
                None
            }
        }
    } else {
        let lu = pgde.lookup_pud_slot(&st.pool, vptr);
        if lu.status != exception_t::EXCEPTION_NONE {
            None
        } else {
            let w = st.pool.read_entry(lu.pudSlot.ppn, lu.pudSlot.index);
            let pude = PUDE::new_from_pte(w);
            if pude.is_1g_page() && pude.pude_1g_ptr_get_page_base_address() == addr {
                Some(lu.pudSlot)
            } else {
                None
            }
        }
    };
    match slot {
        Some(s) => {
            let sp = s.ppn;
            proof {
                st.lemma_node_ppn_bound(sp);
                crate::bits::lemma_window_slot_addr(sp);
            }
            st.pool.write_entry(s.ppn, s.index, 0);
            let pa = (s.ppn << 12) + s.index * 8;
            clean_by_va_pou(&mut st.hw, pa + PPTR_BASE_OFFSET, pa);
            invalidate_tlb_by_asid_va(&mut st.hw, asid, vptr);
            proof {
                assert(st.hw@ =~= old(st).hw@ + seq![
                    HwOp::CleanByVaPou {
                        vaddr: spec_slot_vaddr(s),
                        paddr: spec_slot_paddr(s),
                    },
                    HwOp::Dmb,
                    HwOp::Dsb,
                    HwOp::TlbiVaAsid { mva_plus_asid: (asid << 48) | (vptr >> 12) },
                    HwOp::Dsb,
                    HwOp::Isb,
                ]);
            }
        },
        None => {},
    }
    Ok(())
}

} // verus!
