//! Page-table walker, mapping/unmapping engine and kernel window of the
//! 3-level scheme.
//!
//! One variable-depth walk serves every level: it descends from the root
//! while the current entry is a table pointer whose target is a live arena
//! node, and reports the slot where it stopped together with the number of
//! virtual-address bits still untranslated. Unmapping is verify-then-clear:
//! the owning slot is re-resolved from the ASID and address recorded at map
//! time, and cleared only if it still holds exactly the object being
//! unmapped, so a stale unmap can never disturb a newer mapping.

use vstd::prelude::*;

use crate::config::ASID_LIMIT;
use crate::hw::HwOp;
use crate::pool::{PtPool, SlotRef};
use crate::riscv64::asid::find_vspace_for_asid;
use crate::riscv64::pte::{pte_t, spec_get_ppn, spec_is_pte_table, spec_pte_next_table};
use crate::riscv64::satp::{setVSpaceRoot, sfence};
use crate::riscv64::structures::{lookupPTSlot_ret_t, VmState};
use crate::riscv64::utils::{
    kpptr_to_paddr, pageBitsForSize, spec_pageBitsForSize, KERNEL_ELF_BASE_OFFSET, PPTR_BASE,
    PPTR_BASE_OFFSET, RISCV_4K_Page, RISCV_GET_PT_INDEX, RISCV_Giga_Page, RISCV_Mega_Page,
};
use crate::structures::{asid_t, exception_t, lookup_fault_t, pptr_t, vptr_t};

verus! {

/// The slot a walk from `ppn` reaches for `vptr` with `bits_left` bits still
/// untranslated: descends while the entry is a table pointer to a live arena
/// node and more than one page of bits remains; returns (node, index,
/// bits left after indexing).
pub open spec fn spec_walk(pool: PtPool, ppn: u64, vptr: u64, bits_left: u64) -> (u64, u64, u64)
    decreases bits_left,
{
    if bits_left < 21 {
        (ppn, (vptr >> 12) & 0x1ff, 12)
    } else {
        let bl = (bits_left - 9) as u64;
        let idx = (vptr >> bl) & 0x1ff;
        let word = pool.entry_at(ppn, idx);
        if spec_is_pte_table(word) && bl > 12 && pool.has_node(spec_get_ppn(word)) {
            spec_walk(pool, spec_get_ppn(word), vptr, bl)
        } else {
            (ppn, idx, bl)
        }
    }
}

/// The arena page number of a root recorded as a direct-window address.
pub open spec fn spec_root_ppn(root: u64) -> u64 {
    ((root - PPTR_BASE_OFFSET) as u64) >> 12
}

/// A full walk from a root keeps to live nodes, in-range indices and the
/// three possible depths.
pub proof fn lemma_walk_props(pool: PtPool, ppn: u64, vptr: u64, bits_left: u64)
    requires
        pool.wf(),
        pool.has_node(ppn),
        bits_left == 21 || bits_left == 30 || bits_left == 39,
    ensures
        ({
            let (p, i, b) = spec_walk(pool, ppn, vptr, bits_left);
            pool.has_node(p) && i < 512 && (b == 12 || b == 21 || b == 30) && b < bits_left
        }),
    decreases bits_left,
{
    let bl = (bits_left - 9) as u64;
    crate::bits::lemma_index9(vptr, bl);
    let idx = (vptr >> bl) & 0x1ff;
    let word = pool.entry_at(ppn, idx);
    if spec_is_pte_table(word) && bl > 12 && pool.has_node(spec_get_ppn(word)) {
        lemma_walk_props(pool, spec_get_ppn(word), vptr, bl);
    }
}

/// Locate the slot holding the translation of `vptr` under the root at
/// `lvl1pt`, reporting how many address bits were still untranslated when the
/// walk stopped (12 means a leaf-level slot was reached).
pub fn lookup_pt_slot(pool: &PtPool, lvl1pt: pptr_t, vptr: vptr_t) -> (r: lookupPTSlot_ret_t)
    requires
        pool.wf(),
        lvl1pt >= PPTR_BASE_OFFSET,
        pool.has_node(spec_root_ppn(lvl1pt)),
    ensures
        ({
            let (p, i, b) = spec_walk(*pool, spec_root_ppn(lvl1pt), vptr, 39);
            r.ptSlot.ppn == p && r.ptSlot.index == i && r.ptBitsLeft == b
        }),
        pool.has_node(r.ptSlot.ppn),
        r.ptSlot.index < 512,
        r.ptBitsLeft == 12 || r.ptBitsLeft == 21 || r.ptBitsLeft == 30,
{
    let root_ppn = (lvl1pt - PPTR_BASE_OFFSET) >> 12;
    let ghost target = spec_walk(*pool, root_ppn, vptr, 39);
    proof {
        lemma_walk_props(*pool, root_ppn, vptr, 39);
    }
    let mut pt: u64 = root_ppn;
    let mut bits_left: u64 = 39;
    loop
        invariant
            pool.wf(),
            pool.has_node(pt),
            bits_left == 21 || bits_left == 30 || bits_left == 39,
            spec_walk(*pool, pt, vptr, bits_left) == target,
            root_ppn == spec_root_ppn(lvl1pt),
            target == spec_walk(*pool, spec_root_ppn(lvl1pt), vptr, 39),
            ({
                let (p, i, b) = target;
                pool.has_node(p) && i < 512 && (b == 12 || b == 21 || b == 30)
            }),
        decreases bits_left,
    {
        let bl = bits_left - 9;
        let idx = (vptr >> bl) & 0x1ff;
        proof {
            crate::bits::lemma_index9(vptr, bl);
        }
        let word = pool.read_entry(pt, idx);
        let pte = pte_t(word);
        let next_ppn = pte.get_ppn();
        if pte.is_pte_table() && bl > 12 && pool.contains_node(next_ppn) {
            pt = next_ppn;
            bits_left = bl;
        } else {
            proof {
                assert(spec_walk(*pool, pt, vptr, bits_left) == (pt, idx, bl));
            }
            return lookupPTSlot_ret_t { ptSlot: SlotRef { ppn: pt, index: idx }, ptBitsLeft: bl };
        }
    }
}

/// Whether an unmap request resolves: the ASID still has a root, the walk for
/// the recorded address bottoms out at exactly the requested size class, and
/// the slot holds a present leaf whose physical address is exactly the frame
/// being unmapped.
pub open spec fn spec_unmap_hits(
    st: VmState,
    page_size: u64,
    asid: u64,
    vptr: u64,
    pptr: u64,
) -> bool {
    let root = st.spec_vspace_root(asid);
    root != 0 && {
        let (p, i, b) = spec_walk(st.pool, spec_root_ppn(root), vptr, 39);
        let w = st.pool.entry_at(p, i);
        &&& b == spec_pageBitsForSize(page_size)
        &&& w & 1 == 1
        &&& !spec_is_pte_table(w)
        &&& spec_get_ppn(w) << 12 == ((pptr - PPTR_BASE_OFFSET) as u64)
    }
}

/// The slot an unmap request would clear.
pub open spec fn spec_unmap_slot(st: VmState, asid: u64, vptr: u64) -> (u64, u64, u64) {
    spec_walk(st.pool, spec_root_ppn(st.spec_vspace_root(asid)), vptr, 39)
}

/// Remove the leaf mapping recorded as `(asid, vptr, pptr)`, verify-then-
/// clear: the slot is re-resolved and cleared only if it still maps exactly
/// the frame at `pptr` at exactly the requested size class; any stale or
/// superseded request, including an ASID that no longer resolves to any root,
/// is a successful no-op that changes nothing.
pub fn unmapPage(
    st: &mut VmState,
    page_size: u64,
    asid: asid_t,
    vptr: vptr_t,
    pptr: pptr_t,
) -> (r: Result<(), lookup_fault_t>)
    requires
        old(st).wf(),
        asid < ASID_LIMIT,
        page_size == RISCV_4K_Page || page_size == RISCV_Mega_Page || page_size == RISCV_Giga_Page,
        pptr >= PPTR_BASE_OFFSET,
    ensures
        final(st).wf(),
        r is Ok,
        !spec_unmap_hits(*old(st), page_size, asid, vptr, pptr) ==> *final(st) == *old(st),
        spec_unmap_hits(*old(st), page_size, asid, vptr, pptr) ==> {
            let (p, i, b) = spec_unmap_slot(*old(st), asid, vptr);
            &&& final(st).pool.ppns@ == old(st).pool.ppns@
            &&& final(st).pool.node_at(p) == old(st).pool.node_at(p).update(i as int, 0u64)
            &&& forall|q: u64|
                old(st).pool.has_node(q) && q != p ==> final(st).pool.node_at(q) == old(
                    st,
                ).pool.node_at(q)
            &&& final(st).asid_pool_bases == old(st).asid_pool_bases
            &&& final(st).asid_roots == old(st).asid_roots
            &&& final(st).kernel_root == old(st).kernel_root
            &&& final(st).kernel_image_level2 == old(st).kernel_image_level2
            &&& final(st).hw@ == old(st).hw@.push(HwOp::SfenceAll)
        },
{
    let find_ret = find_vspace_for_asid(st, asid);
    if find_ret.status != exception_t::EXCEPTION_NONE {
        return Ok(());
    }
    let root = find_ret.vspace_root.unwrap();
    let lu_ret = lookup_pt_slot(&st.pool, root, vptr);
    if lu_ret.ptBitsLeft != pageBitsForSize(page_size) {
        return Ok(());
    }
    let word = st.pool.read_entry(lu_ret.ptSlot.ppn, lu_ret.ptSlot.index);
    let slot = pte_t(word);
    proof {
        assert(word & 1 == 0 || word & 1 == 1) by (bit_vector);
    }
    if slot.get_valid() == 0 || slot.is_pte_table() || slot.get_ppn() << 12 != pptr
        - PPTR_BASE_OFFSET {
        return Ok(());
    }
    st.pool.write_entry(lu_ret.ptSlot.ppn, lu_ret.ptSlot.index, 0);
    sfence(&mut st.hw);
    Ok(())
}

/// The slot that holds the table pointer to `target_ppn` on the walk for
/// `vptr`, if the walk from the root finds one within the non-leaf levels.
pub open spec fn spec_find_pt_slot(
    pool: PtPool,
    root_ppn: u64,
    vptr: u64,
    target_ppn: u64,
) -> Option<(u64, u64)> {
    let i0 = (vptr >> 30) & 0x1ff;
    let w0 = pool.entry_at(root_ppn, i0);
    if !spec_is_pte_table(w0) {
        None
    } else if spec_get_ppn(w0) == target_ppn {
        Some((root_ppn, i0))
    } else if !pool.has_node(spec_get_ppn(w0)) {
        None
    } else {
        let p1 = spec_get_ppn(w0);
        let i1 = (vptr >> 21) & 0x1ff;
        let w1 = pool.entry_at(p1, i1);
        if spec_is_pte_table(w1) && spec_get_ppn(w1) == target_ppn {
            Some((p1, i1))
        } else {
            None
        }
    }
}

/// Remove the table at `target_pt` from the address space of `asid`,
/// verify-then-clear: the slot pointing at it is re-resolved from the
/// recorded address and cleared only if it still points exactly there; a
/// stale request changes nothing.
pub fn unmap_page_table(st: &mut VmState, asid: asid_t, vptr: vptr_t, target_pt: pptr_t)
    requires
        old(st).wf(),
        asid < ASID_LIMIT,
        target_pt >= PPTR_BASE_OFFSET,
        old(st).spec_vspace_root(asid) != target_pt,
    ensures
        final(st).wf(),
        old(st).spec_vspace_root(asid) == 0 ==> *final(st) == *old(st),
        old(st).spec_vspace_root(asid) != 0 && spec_find_pt_slot(
            old(st).pool,
            spec_root_ppn(old(st).spec_vspace_root(asid)),
            vptr,
            spec_root_ppn(target_pt),
        ) is None ==> *final(st) == *old(st),
        old(st).spec_vspace_root(asid) != 0 && spec_find_pt_slot(
            old(st).pool,
            spec_root_ppn(old(st).spec_vspace_root(asid)),
            vptr,
            spec_root_ppn(target_pt),
        ) is Some ==> {
            let (p, i) = spec_find_pt_slot(
                old(st).pool,
                spec_root_ppn(old(st).spec_vspace_root(asid)),
                vptr,
                spec_root_ppn(target_pt),
            )->Some_0;
            &&& final(st).pool.ppns@ == old(st).pool.ppns@
            &&& final(st).pool.node_at(p) == old(st).pool.node_at(p).update(i as int, 0u64)
            &&& forall|q: u64|
                old(st).pool.has_node(q) && q != p ==> final(st).pool.node_at(q) == old(
                    st,
                ).pool.node_at(q)
            &&& final(st).asid_pool_bases == old(st).asid_pool_bases
            &&& final(st).asid_roots == old(st).asid_roots
            &&& final(st).kernel_root == old(st).kernel_root
            &&& final(st).kernel_image_level2 == old(st).kernel_image_level2
            &&& final(st).hw@ == old(st).hw@.push(HwOp::SfenceAll)
        },
{
    let find_ret = find_vspace_for_asid(st, asid);
    if find_ret.status != exception_t::EXCEPTION_NONE {
        return ;
    }
    let root = find_ret.vspace_root.unwrap();
    let root_ppn = (root - PPTR_BASE_OFFSET) >> 12;
    let target_ppn = (target_pt - PPTR_BASE_OFFSET) >> 12;
    let i0 = RISCV_GET_PT_INDEX(vptr, 0);
    proof {
        crate::bits::lemma_index9(vptr, 30);
    }
    let w0 = st.pool.read_entry(root_ppn, i0);
    let pte0 = pte_t(w0);
    if !pte0.is_pte_table() {
        return ;
    }
    if pte0.get_ppn() == target_ppn {
        st.pool.write_entry(root_ppn, i0, 0);
        sfence(&mut st.hw);
        return ;
    }
    let p1 = pte0.get_ppn();
    if !st.pool.contains_node(p1) {
        return ;
    }
    let i1 = RISCV_GET_PT_INDEX(vptr, 1);
    proof {
        crate::bits::lemma_index9(vptr, 21);
    }
    let w1 = st.pool.read_entry(p1, i1);
    let pte1 = pte_t(w1);
    if pte1.is_pte_table() && pte1.get_ppn() == target_ppn {
        st.pool.write_entry(p1, i1, 0);
        sfence(&mut st.hw);
        return ;
    }
}

/// Copy the kernel's global mappings (the upper half of the kernel root
/// table) into a new address space's root node, as every new address space
/// must contain the kernel window.
pub fn copyGlobalMappings(st: &mut VmState, Lvl1pt: pptr_t)
    requires
        old(st).wf(),
        Lvl1pt >= PPTR_BASE_OFFSET,
        old(st).pool.has_node(spec_root_ppn(Lvl1pt)),
    ensures
        final(st).wf(),
        final(st).pool.ppns@ == old(st).pool.ppns@,
        ({
            let p = spec_root_ppn(Lvl1pt);
            &&& final(st).pool.node_at(p).len() == 512
            &&& forall|m: int|
                0 <= m < 512 ==> final(st).pool.node_at(p)[m] == (if 2 <= m {
                    old(st).kernel_root.entries@[m]
                } else {
                    old(st).pool.node_at(p)[m]
                })
            &&& forall|q: u64|
                old(st).pool.has_node(q) && q != p ==> final(st).pool.node_at(q) == old(
                    st,
                ).pool.node_at(q)
        }),
        final(st).asid_pool_bases == old(st).asid_pool_bases,
        final(st).asid_roots == old(st).asid_roots,
        final(st).kernel_root == old(st).kernel_root,
        final(st).kernel_image_level2 == old(st).kernel_image_level2,
        final(st).hw == old(st).hw,
{
    let dst = (Lvl1pt - PPTR_BASE_OFFSET) >> 12;
    let i_start = RISCV_GET_PT_INDEX(0x80000000, 0);
    proof {
        assert((0x80000000u64 >> 30) & 0x1ff == 2) by (bit_vector);
        old(st).pool.lemma_node_len(dst);
    }
    let mut i: u64 = i_start;
    while i < 512
        invariant
            old(st).wf(),
            st.pool.wf(),
            2 <= i <= 512,
            dst == spec_root_ppn(Lvl1pt),
            st.pool.has_node(dst),
            st.pool.ppns@ == old(st).pool.ppns@,
            st.pool.node_at(dst).len() == 512,
            forall|m: int|
                0 <= m < 512 ==> st.pool.node_at(dst)[m] == (if 2 <= m < i {
                    old(st).kernel_root.entries@[m]
                } else {
                    old(st).pool.node_at(dst)[m]
                }),
            forall|q: u64|
                old(st).pool.has_node(q) && q != dst ==> st.pool.node_at(q) == old(
                    st,
                ).pool.node_at(q),
            st.asid_pool_bases == old(st).asid_pool_bases,
            st.asid_roots == old(st).asid_roots,
            st.kernel_root == old(st).kernel_root,
            st.kernel_image_level2 == old(st).kernel_image_level2,
            st.hw == old(st).hw,
        decreases 512 - i,
    {
        let word = st.kernel_root.entries[i as usize];
        st.pool.write_entry(dst, i, word);
        i = i + 1;
    }
    proof {
        assert forall|k: int|
            0 <= k < 65536 implies (#[trigger] st.asid_roots@[k] == 0 || st.root_ok(
            st.asid_roots@[k],
        )) by {
            assert(old(st).asid_roots@[k] == 0 || old(st).root_ok(old(st).asid_roots@[k]));
        }
    }
}

/// Activate the kernel's own address space: program the root register with
/// the kernel root table and no ASID, and fence.
pub fn activate_kernel_vspace(st: &mut VmState)
    requires
        old(st).wf(),
    ensures
        final(st).wf(),
        final(st).hw@ == old(st).hw@.push(
            HwOp::SetSatp { asid: 0, ppn: old(st).spec_kernel_root_ppn() },
        ).push(HwOp::SfenceAll),
        final(st).asid_pool_bases == old(st).asid_pool_bases,
        final(st).asid_roots == old(st).asid_roots,
        final(st).pool == old(st).pool,
        final(st).kernel_root == old(st).kernel_root,
        final(st).kernel_image_level2 == old(st).kernel_image_level2,
{
    let kroot = kpptr_to_paddr(st.kernel_root.base());
    setVSpaceRoot(&mut st.hw, kroot, 0);
}

/// Build the kernel window: map all of physical memory at the direct-window
/// base with giant leaf entries, and map the kernel image's own region again
/// through the second-level table, which the root table points at from both
/// the direct-window alias and the link-time address of the image.
pub fn rust_map_kernel_window(st: &mut VmState)
    requires
        old(st).wf(),
        old(st).kernel_image_level2.base.0 >= KERNEL_ELF_BASE_OFFSET,
    ensures
        final(st).wf(),
        forall|m: int|
            256 <= m < 510 && m != 258 ==> #[trigger] final(st).kernel_root.entries@[m]
                == spec_pte_next_table(((m - 256) * 0x40000000) as u64, true),
        final(st).kernel_root.entries@[258] == spec_pte_next_table(
            (old(st).kernel_image_level2.base.0 - KERNEL_ELF_BASE_OFFSET) as u64,
            false,
        ),
        final(st).kernel_root.entries@[510] == spec_pte_next_table(
            (old(st).kernel_image_level2.base.0 - KERNEL_ELF_BASE_OFFSET) as u64,
            false,
        ),
        forall|m: int|
            0 <= m < 256 || m == 511 ==> final(st).kernel_root.entries@[m] == old(
                st,
            ).kernel_root.entries@[m],
        forall|i: int|
            0 <= i < 512 ==> final(st).kernel_image_level2.entries@[i] == spec_pte_next_table(
                (0x80000000 + i * 0x200000) as u64,
                true,
            ),
        final(st).kernel_root.base == old(st).kernel_root.base,
        final(st).kernel_image_level2.base == old(st).kernel_image_level2.base,
        final(st).asid_pool_bases == old(st).asid_pool_bases,
        final(st).asid_roots == old(st).asid_roots,
        final(st).pool == old(st).pool,
        final(st).hw == old(st).hw,
{
    let mut j: u64 = 0;
    while j < 254
        invariant
            old(st).wf(),
            st.kernel_root.wf(),
            j <= 254,
            forall|m: int|
                0 <= m < 512 && !(256 <= m < 256 + j) ==> st.kernel_root.entries@[m] == old(
                    st,
                ).kernel_root.entries@[m],
            forall|m: int|
                256 <= m < 256 + j ==> #[trigger] st.kernel_root.entries@[m]
                    == spec_pte_next_table(((m - 256) * 0x40000000) as u64, true),
            st.kernel_root.base == old(st).kernel_root.base,
            st.kernel_image_level2 == old(st).kernel_image_level2,
            st.asid_pool_bases == old(st).asid_pool_bases,
            st.asid_roots == old(st).asid_roots,
            st.pool == old(st).pool,
            st.hw == old(st).hw,
        decreases 254 - j,
    {
        let pptr = PPTR_BASE + j * 0x40000000;
        let paddr = j * 0x40000000;
        let idx = RISCV_GET_PT_INDEX(pptr, 0);
        proof {
            assert((((0xFFFF_FFC0_0000_0000u64 + j * 0x40000000) as u64) >> 30) & 0x1ff == 256 + j)
                by (bit_vector)
                requires
                    j < 254,
            ;
        }
        st.kernel_root.map_next_table(idx, paddr, true);
        j = j + 1;
    }
    let l2_paddr = kpptr_to_paddr(st.kernel_image_level2.base());
    let idx_alias = RISCV_GET_PT_INDEX(0x8400_0000 + PPTR_BASE_OFFSET, 0);
    proof {
        assert((((0x8400_0000u64 + 0xFFFF_FFC0_0000_0000u64) as u64) >> 30) & 0x1ff == 258) by (bit_vector);
        assert((0xFFFF_FFFF_8000_0000u64 >> 30) & 0x1ff == 510) by (bit_vector);
    }
    st.kernel_root.map_next_table(idx_alias, l2_paddr, false);
    let idx_elf = RISCV_GET_PT_INDEX(0xFFFF_FFFF_8000_0000, 0);
    st.kernel_root.map_next_table(idx_elf, l2_paddr, false);
    let mut i: u64 = 0;
    while i < 512
        invariant
            old(st).wf(),
            st.kernel_image_level2.wf(),
            i <= 512,
            l2_paddr == old(st).kernel_image_level2.base.0 - KERNEL_ELF_BASE_OFFSET,
            forall|m: int|
                0 <= m < i ==> st.kernel_image_level2.entries@[m] == spec_pte_next_table(
                    (0x80000000 + m * 0x200000) as u64,
                    true,
                ),
            forall|m: int|
                i <= m < 512 ==> st.kernel_image_level2.entries@[m] == old(
                    st,
                ).kernel_image_level2.entries@[m],
            st.kernel_root.wf(),
            forall|m: int|
                256 <= m < 510 && m != 258 ==> #[trigger] st.kernel_root.entries@[m]
                    == spec_pte_next_table(((m - 256) * 0x40000000) as u64, true),
            st.kernel_root.entries@[258] == spec_pte_next_table(l2_paddr, false),
            st.kernel_root.entries@[510] == spec_pte_next_table(l2_paddr, false),
            forall|m: int|
                0 <= m < 256 || m == 511 ==> st.kernel_root.entries@[m] == old(
                    st,
                ).kernel_root.entries@[m],
            st.kernel_root.base == old(st).kernel_root.base,
            st.kernel_image_level2.base == old(st).kernel_image_level2.base,
            st.asid_pool_bases == old(st).asid_pool_bases,
            st.asid_roots == old(st).asid_roots,
            st.pool == old(st).pool,
            st.hw == old(st).hw,
        decreases 512 - i,
    {
        let paddr = 0x80000000 + i * 0x200000;
        st.kernel_image_level2.map_next_table(i, paddr, true);
        i = i + 1;
    }
}

} // verus!
