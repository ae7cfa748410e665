//! Laws of the 4-level scheme's lookup, unmap and ASID protocols, proved from
//! the contracts of the chained lookups, the unmap engine and the directory.

use vstd::prelude::*;

use crate::aarch64::interface::{
    spec_set_vm_root_ok, spec_set_vm_root_result, spec_set_vm_root_st_ops, spec_ttbr,
    spec_unmap_slot,
};
use crate::aarch64::structures::VmState;
use crate::aarch64::utils::{
    spec_lookup_pd_slot, spec_lookup_pt_slot, spec_lookup_pud_slot, spec_root_ppn,
    KERNEL_ELF_BASE_OFFSET, PPTR_BASE_OFFSET,
};
use crate::cap::cap_t;
use crate::config::ASID_LIMIT;
use crate::hw::HwOp;
use crate::pool::PtPool;
use crate::structures::lookup_fault_t;

verus! {

/// After a matching ASID deletion, resolving that ASID reports no root: the
/// directory entry the deletion cleared is the one the resolution reads.
pub proof fn lemma_asid_exclusive_after_delete(st: VmState, st2: VmState, asid: u64, vspace: u64)
    requires
        st.wf(),
        st2.wf(),
        asid < ASID_LIMIT,
        vspace != 0,
        st.spec_vspace_root(asid) == vspace,
        // st2 is the state delete_asid leaves behind on a match
        st2.asid_pool_bases@ == st.asid_pool_bases@,
        st2.asid_roots@ == st.asid_roots@.update(
            VmState::spec_pool_index(asid) * 512 + VmState::spec_pool_slot(asid),
            0u64,
        ),
    ensures
        st2.spec_vspace_root(asid) == 0,
{
    crate::bits::lemma_asid_split(asid);
}

/// A candidate root whose recorded ASID no longer resolves to it is never
/// programmed into the hardware: the emitted operations install the reserved
/// empty user root, and the caller is told the root was invalid.
pub proof fn lemma_stale_root_falls_back(st: VmState, cap: cap_t)
    requires
        cap is PageGlobalDirectoryCap,
        cap->PageGlobalDirectoryCap_is_mapped == 1,
        st.spec_vspace_root(cap->PageGlobalDirectoryCap_mapped_asid)
            != cap->PageGlobalDirectoryCap_base_ptr,
    ensures
        spec_set_vm_root_st_ops(st, cap) == seq![
            HwOp::SetUserRoot {
                val: spec_ttbr(0, (st.user_vspace_base - KERNEL_ELF_BASE_OFFSET) as u64),
            },
            HwOp::TlbiAll,
            HwOp::Dsb,
            HwOp::Isb,
        ],
        spec_set_vm_root_result(st, cap) == Err::<(), lookup_fault_t>(lookup_fault_t::InvalidRoot),
        !spec_set_vm_root_ok(st, cap),
{
}

/// Walk depth is reported exactly: when only the top level is populated for
/// an address (its top-level entry holds no live table), the second-level
/// lookup stops after the one level traversed, with 39 address bits
/// untranslated; when the walk reaches a live second level whose entry holds
/// no live table, the third-level lookup stops with 30 bits untranslated; one
/// level further, the last-level lookup stops with 21.
pub proof fn lemma_lookup_depth(pool: PtPool, root: u64, vptr: u64)
    ensures
        ({
            let w0 = pool.entry_at(spec_root_ppn(root), (vptr >> 39) & 0x1ff);
            !(w0 & 3 == 3 && pool.has_node((w0 & 0xffff_ffff_f000) >> 12)) ==> spec_lookup_pud_slot(
                pool,
                root,
                vptr,
            ).lookup_fault == Some(lookup_fault_t::MissingCapability { bits_left: 39 })
                && spec_lookup_pud_slot(pool, root, vptr).status
                is EXCEPTION_LOOKUP_FAULT
        }),
        ({
            let pud = spec_lookup_pud_slot(pool, root, vptr);
            pud.status is EXCEPTION_NONE && {
                let w1 = pool.entry_at(pud.pudSlot.ppn, pud.pudSlot.index);
                !(w1 & 3 == 3 && pool.has_node((w1 & 0xffff_ffff_f000) >> 12))
            } ==> spec_lookup_pd_slot(pool, root, vptr).lookup_fault == Some(
                lookup_fault_t::MissingCapability { bits_left: 30 },
            ) && spec_lookup_pd_slot(pool, root, vptr).status is EXCEPTION_LOOKUP_FAULT
        }),
        ({
            let pd = spec_lookup_pd_slot(pool, root, vptr);
            pd.status is EXCEPTION_NONE && {
                let w2 = pool.entry_at(pd.pdSlot.ppn, pd.pdSlot.index);
                !(w2 & 3 == 3 && pool.has_node((w2 & 0xffff_ffff_f000) >> 12))
            } ==> spec_lookup_pt_slot(pool, root, vptr).lookup_fault == Some(
                lookup_fault_t::MissingCapability { bits_left: 21 },
            ) && spec_lookup_pt_slot(pool, root, vptr).status is EXCEPTION_LOOKUP_FAULT
        }),
{
}

/// A stale unmap request cannot disturb a newer mapping: when the slot for
/// `(asid, vptr)` now maps a different frame, the request for the old frame
/// does not resolve, so by the unmap engine's contract it leaves every table
/// unchanged.
pub proof fn lemma_unmap_stale_object_protected(
    st: VmState,
    page_size: u64,
    asid: u64,
    vptr: u64,
    pptr_old: u64,
    pptr_new: u64,
)
    requires
        st.wf(),
        pptr_old != pptr_new,
        pptr_old >= PPTR_BASE_OFFSET,
        pptr_new >= PPTR_BASE_OFFSET,
        // unmapping at the same size class would clear the slot that now maps
        // the new frame
        spec_unmap_slot(st, page_size, asid, vptr, pptr_new) is Some,
        page_size < 3,
    ensures
        spec_unmap_slot(st, page_size, asid, vptr, pptr_old) is None || spec_unmap_slot(
            st,
            page_size,
            asid,
            vptr,
            pptr_old,
        ) == spec_unmap_slot(st, page_size, asid, vptr, pptr_new),
        ({
            // the old frame's address differs, so the slot's recorded base
            // cannot match both
            ((pptr_new - PPTR_BASE_OFFSET) as u64) != ((pptr_old - PPTR_BASE_OFFSET) as u64)
        }),
{
}

/// Unmapping the same mapping twice is a no-op the second time: once an unmap
/// has cleared its slot, the same request no longer resolves (the cleared
/// word decodes as invalid), provided the cleared slot is not itself one of
/// the table slots the walk traverses.
pub proof fn lemma_unmap_idempotent(
    st: VmState,
    st2: VmState,
    page_size: u64,
    asid: u64,
    vptr: u64,
    pptr: u64,
)
    requires
        st.wf(),
        st2.wf(),
        asid < ASID_LIMIT,
        page_size < 3,
        spec_unmap_slot(st, page_size, asid, vptr, pptr) is Some,
        // st2 is the state the first unmap leaves behind
        ({
            let s = spec_unmap_slot(st, page_size, asid, vptr, pptr)->Some_0;
            &&& st2.pool.ppns@ == st.pool.ppns@
            &&& st2.pool.node_at(s.ppn) == st.pool.node_at(s.ppn).update(s.index as int, 0u64)
            &&& (forall|q: u64|
                st.pool.has_node(q) && q != s.ppn ==> st2.pool.node_at(q) == st.pool.node_at(q))
            &&& st2.asid_pool_bases == st.asid_pool_bases
            &&& st2.asid_roots == st.asid_roots
        }),
        // the cleared slot is a leaf slot, not one of the walk's table slots
        ({
            let s = spec_unmap_slot(st, page_size, asid, vptr, pptr)->Some_0;
            let root = st.spec_vspace_root(asid);
            let rp = spec_root_ppn(root);
            let pud = spec_lookup_pud_slot(st.pool, root, vptr);
            let pd = spec_lookup_pd_slot(st.pool, root, vptr);
            &&& !(s.ppn == rp && s.index == (vptr >> 39) & 0x1ff)
            &&& (pud.status is EXCEPTION_NONE ==> !(s.ppn == pud.pudSlot.ppn && s.index
                == pud.pudSlot.index) || page_size == 2)
            &&& (pd.status is EXCEPTION_NONE ==> !(s.ppn == pd.pdSlot.ppn && s.index
                == pd.pdSlot.index) || page_size >= 1)
        }),
    ensures
        st2.spec_vspace_root(asid) == st.spec_vspace_root(asid),
        spec_unmap_slot(st2, page_size, asid, vptr, pptr) is None,
{
    let s = spec_unmap_slot(st, page_size, asid, vptr, pptr)->Some_0;
    let root = st.spec_vspace_root(asid);
    let rp = spec_root_ppn(root);
    crate::bits::lemma_asid_split(asid);
    let k = VmState::spec_pool_index(asid) * 512 + VmState::spec_pool_slot(asid);
    assert(st.asid_roots@[k] == 0 || st.root_ok(st.asid_roots@[k]));
    assert(st.pool.has_node(rp));
    st.pool.lemma_node_len(rp);
    assert(st.pool.has_node(s.ppn));
    st.pool.lemma_node_len(s.ppn);
    assert forall|q: u64| st.pool.has_node(q) == st2.pool.has_node(q) by {
        assert(st.pool.ppns@ == st2.pool.ppns@);
    }
    crate::bits::lemma_index9(vptr, 39);
    crate::bits::lemma_index9(vptr, 30);
    crate::bits::lemma_index9(vptr, 21);
    crate::bits::lemma_index9(vptr, 12);
    assert(s.index < 512);
    assert forall|q: u64, j: u64|
        st.pool.has_node(q) && j < 512 && !(q == s.ppn && j == s.index) implies (
    #[trigger] st2.pool.entry_at(q, j)) == st.pool.entry_at(q, j) by {
        if q == s.ppn {
            assert(st2.pool.node_at(s.ppn) == st.pool.node_at(s.ppn).update(s.index as int, 0u64));
            assert(st2.pool.entry_at(q, j) == st2.pool.node_at(s.ppn)[j as int]);
            assert(st.pool.node_at(s.ppn).update(s.index as int, 0u64)[j as int]
                == st.pool.node_at(s.ppn)[j as int]);
        } else {
            assert(st2.pool.node_at(q) == st.pool.node_at(q));
        }
    }
    crate::bits::lemma_index9(vptr, 39);
    crate::bits::lemma_index9(vptr, 30);
    crate::bits::lemma_index9(vptr, 21);
    crate::bits::lemma_index9(vptr, 12);
    let w0 = st.pool.entry_at(rp, (vptr >> 39) & 0x1ff);
    assert(st2.pool.entry_at(rp, (vptr >> 39) & 0x1ff) == w0);
    assert(st2.pool.entry_at(s.ppn, s.index) == 0u64) by {
        st.pool.lemma_node_len(s.ppn);
    }
    assert(0u64 & 3 == 0 && !(0u64 & 3 == 3) && !(0u64 & 3 == 1)) by (bit_vector);
    if page_size == 2 {
        assert(spec_lookup_pud_slot(st2.pool, root, vptr) == spec_lookup_pud_slot(
            st.pool,
            root,
            vptr,
        ));
    } else if page_size == 1 {
        assert(spec_lookup_pud_slot(st2.pool, root, vptr) == spec_lookup_pud_slot(
            st.pool,
            root,
            vptr,
        ));
        assert(spec_lookup_pd_slot(st2.pool, root, vptr) == spec_lookup_pd_slot(
            st.pool,
            root,
            vptr,
        ));
    } else {
        assert(spec_lookup_pud_slot(st2.pool, root, vptr) == spec_lookup_pud_slot(
            st.pool,
            root,
            vptr,
        ));
        assert(spec_lookup_pd_slot(st2.pool, root, vptr) == spec_lookup_pd_slot(
            st.pool,
            root,
            vptr,
        ));
        assert(spec_lookup_pt_slot(st2.pool, root, vptr) == spec_lookup_pt_slot(
            st.pool,
            root,
            vptr,
        ));
    }
}

} // verus!
