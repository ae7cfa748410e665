//! Laws of the 3-level scheme's unmap and ASID protocols, proved from the
//! contracts of the walker, the unmap engine and the directory.

use vstd::prelude::*;

use crate::cap::cap_t;
use crate::config::ASID_LIMIT;
use crate::hw::HwOp;
use crate::pool::PtPool;
use crate::riscv64::interface::{
    spec_set_vm_root_ok, spec_set_vm_root_result, spec_set_vm_root_st_ops,
};
use crate::riscv64::pagetable::{
    lemma_walk_props, spec_root_ppn, spec_unmap_hits, spec_unmap_slot, spec_walk,
};
use crate::riscv64::pte::{spec_get_ppn, spec_is_pte_table};
use crate::riscv64::structures::VmState;
use crate::riscv64::utils::PPTR_BASE_OFFSET;
use crate::structures::lookup_fault_t;

verus! {

/// Walks cannot see a change to a slot that holds no table pointer before or
/// after the change: every path decision reads either an unchanged entry or
/// that slot, and stops there in both cases.
pub proof fn lemma_walk_unchanged_by_leaf_write(
    pool: PtPool,
    pool2: PtPool,
    ppn: u64,
    vptr: u64,
    bits_left: u64,
    cp: u64,
    ci: u64,
)
    requires
        pool.has_node(ppn),
        forall|p: u64| pool.has_node(p) == pool2.has_node(p),
        forall|p: u64, i: u64|
            pool.has_node(p) && i < 512 && !(p == cp && i == ci) ==> (#[trigger] pool2.entry_at(
                p,
                i,
            )) == pool.entry_at(p, i),
        !spec_is_pte_table(pool.entry_at(cp, ci)),
        !spec_is_pte_table(pool2.entry_at(cp, ci)),
    ensures
        spec_walk(pool2, ppn, vptr, bits_left) == spec_walk(pool, ppn, vptr, bits_left),
    decreases bits_left,
{
    if bits_left >= 21 {
        let bl = (bits_left - 9) as u64;
        let idx = (vptr >> bl) & 0x1ff;
        crate::bits::lemma_index9(vptr, bl);
        if !(ppn == cp && idx == ci) {
            assert(pool2.entry_at(ppn, idx) == pool.entry_at(ppn, idx));
            let word = pool.entry_at(ppn, idx);
            if spec_is_pte_table(word) && bl > 12 && pool.has_node(spec_get_ppn(word)) {
                lemma_walk_unchanged_by_leaf_write(
                    pool,
                    pool2,
                    spec_get_ppn(word),
                    vptr,
                    bl,
                    cp,
                    ci,
                );
            }
        }
    }
}

/// A live recorded root is a live arena node (from the state invariant).
pub proof fn lemma_live_root_ok(st: VmState, asid: u64)
    requires
        st.wf(),
        asid < ASID_LIMIT,
        st.spec_vspace_root(asid) != 0,
    ensures
        st.root_ok(st.spec_vspace_root(asid)),
        st.pool.has_node(spec_root_ppn(st.spec_vspace_root(asid))),
{
    crate::bits::lemma_asid_split(asid);
    let k = VmState::spec_pool_index(asid) * 512 + VmState::spec_pool_slot(asid);
    assert(st.asid_roots@[k] == 0 || st.root_ok(st.asid_roots@[k]));
}

/// Unmapping the same mapping twice is a no-op the second time: once an unmap
/// has cleared its slot, the same request no longer resolves, so by the unmap
/// engine's contract a repeated call leaves the state unchanged and still
/// succeeds.
pub proof fn lemma_unmap_idempotent(
    st: VmState,
    st2: VmState,
    page_size: u64,
    asid: u64,
    vptr: u64,
    pptr: u64,
)
    requires
        st.wf(),
        st2.wf(),
        asid < ASID_LIMIT,
        spec_unmap_hits(st, page_size, asid, vptr, pptr),
        // st2 is the state the first unmap leaves behind
        ({
            let (p, i, b) = spec_unmap_slot(st, asid, vptr);
            &&& st2.pool.ppns@ == st.pool.ppns@
            &&& st2.pool.node_at(p) == st.pool.node_at(p).update(i as int, 0u64)
            &&& forall|q: u64|
                st.pool.has_node(q) && q != p ==> st2.pool.node_at(q) == st.pool.node_at(q)
            &&& st2.asid_pool_bases == st.asid_pool_bases
            &&& st2.asid_roots == st.asid_roots
        }),
    ensures
        st2.spec_vspace_root(asid) == st.spec_vspace_root(asid),
        st2.spec_vspace_root(asid) != 0,
        !spec_unmap_hits(st2, page_size, asid, vptr, pptr),
{
    let root = st.spec_vspace_root(asid);
    lemma_live_root_ok(st, asid);
    lemma_walk_props(st.pool, spec_root_ppn(root), vptr, 39);
    let (p, i, b) = spec_unmap_slot(st, asid, vptr);
    let w = st.pool.entry_at(p, i);
    st.pool.lemma_node_len(p);
    assert(st2.pool.entry_at(p, i) == 0u64);
    assert(0u64 & 1 == 0 && 0u64 & 2 == 0 && 0u64 & 4 == 0 && 0u64 & 8 == 0) by (bit_vector);
    assert(!spec_is_pte_table(0u64));
    assert forall|q: u64| st.pool.has_node(q) == st2.pool.has_node(q) by {
        assert(st.pool.ppns@ == st2.pool.ppns@);
    }
    assert forall|q: u64, j: u64|
        st.pool.has_node(q) && j < 512 && !(q == p && j == i) implies (#[trigger] st2.pool.entry_at(
        q,
        j,
    )) == st.pool.entry_at(q, j) by {
        if q == p {
            assert(st2.pool.node_at(p) == st.pool.node_at(p).update(i as int, 0u64));
        }
    }
    lemma_walk_unchanged_by_leaf_write(st.pool, st2.pool, spec_root_ppn(root), vptr, 39, p, i);
    assert(spec_unmap_slot(st2, asid, vptr) == (p, i, b));
    assert(st2.pool.entry_at(p, i) & 1 == 0);
}

/// A stale unmap request cannot disturb a newer mapping: when the slot for
/// `(asid, vptr)` now maps a different frame, the request for the old frame
/// does not resolve, so by the unmap engine's contract it leaves every table
/// unchanged.
pub proof fn lemma_unmap_stale_object_protected(
    st: VmState,
    page_size: u64,
    asid: u64,
    vptr: u64,
    pptr_old: u64,
    pptr_new: u64,
)
    requires
        st.wf(),
        pptr_old != pptr_new,
        pptr_old >= PPTR_BASE_OFFSET,
        pptr_new >= PPTR_BASE_OFFSET,
        // the slot currently maps the new frame
        spec_unmap_hits(st, page_size, asid, vptr, pptr_new),
    ensures
        !spec_unmap_hits(st, page_size, asid, vptr, pptr_old),
{
    let (p, i, b) = spec_unmap_slot(st, asid, vptr);
    let w = st.pool.entry_at(p, i);
    assert(spec_get_ppn(w) << 12 == ((pptr_new - PPTR_BASE_OFFSET) as u64));
    assert(((pptr_new - PPTR_BASE_OFFSET) as u64) != ((pptr_old - PPTR_BASE_OFFSET) as u64));
}

/// After a matching ASID deletion, resolving that ASID reports no root: the
/// directory entry the deletion cleared is the one the resolution reads.
pub proof fn lemma_asid_exclusive_after_delete(st: VmState, st2: VmState, asid: u64, vspace: u64)
    requires
        st.wf(),
        st2.wf(),
        asid < ASID_LIMIT,
        vspace != 0,
        st.spec_vspace_root(asid) == vspace,
        // st2 is the state delete_asid leaves behind on a match
        st2.asid_pool_bases@ == st.asid_pool_bases@,
        st2.asid_roots@ == st.asid_roots@.update(
            VmState::spec_pool_index(asid) * 512 + VmState::spec_pool_slot(asid),
            0u64,
        ),
    ensures
        st2.spec_vspace_root(asid) == 0,
{
    crate::bits::lemma_asid_split(asid);
}

/// A candidate root whose recorded ASID no longer resolves to it is never
/// programmed into the hardware: the emitted operations install the kernel
/// root with ASID 0, and the caller is told the root was invalid.
pub proof fn lemma_stale_root_falls_back(st: VmState, cap: cap_t)
    requires
        cap is PageTableCap,
        st.spec_vspace_root(cap->PageTableCap_mapped_asid) != cap->PageTableCap_base_ptr,
    ensures
        spec_set_vm_root_st_ops(st, cap) == seq![
            HwOp::SetSatp { asid: 0, ppn: st.spec_kernel_root_ppn() },
            HwOp::SfenceAll,
        ],
        spec_set_vm_root_result(st, cap) == Err::<(), lookup_fault_t>(lookup_fault_t::InvalidRoot),
        !spec_set_vm_root_ok(st, cap),
{
}

/// For a root whose top-level entry for the address holds no table pointer,
/// the walk stops at the root itself with the full non-root address span
/// untranslated: the depth reported counts exactly the one level traversed.
pub proof fn lemma_walk_depth_top_only(pool: PtPool, root: u64, vptr: u64)
    requires
        pool.wf(),
        pool.has_node(root),
        !spec_is_pte_table(pool.entry_at(root, (vptr >> 30) & 0x1ff)),
    ensures
        spec_walk(pool, root, vptr, 39) == (root, (vptr >> 30) & 0x1ff, 30u64),
{
}

} // verus!
