//! Boot-time mappings of the 3-level scheme: installing the initial thread's
//! page tables and frames, and minting the matching capabilities.

use vstd::prelude::*;

use crate::cap::cap_t;
use crate::hw::HwOp;
use crate::riscv64::pagetable::{lookup_pt_slot, spec_root_ppn, spec_walk};
use crate::riscv64::pte::{pte_t, spec_pte_new, PTEFlags};
use crate::riscv64::satp::sfence;
use crate::riscv64::structures::VmState;
use crate::riscv64::utils::{RISCV_4K_Page, RISCV_Mega_Page, PPTR_BASE_OFFSET};
use crate::structures::{asid_t, pptr_t, vptr_t};
use crate::vm_rights::VMReadWrite;

verus! {

/// The entry a boot-time table installation writes: a valid table pointer to
/// the page at `pt`.
pub open spec fn spec_it_pt_entry(pt: u64) -> u64 {
    spec_pte_new(
        ((pt - PPTR_BASE_OFFSET) as u64) >> 12,
        PTEFlags { v: true, r: false, w: false, x: false, u: false, g: false, a: false, d: false },
    )
}

/// The entry a boot-time frame installation writes: a user leaf with full
/// rights, accessed and dirty.
pub open spec fn spec_it_frame_entry(frame: u64) -> u64 {
    spec_pte_new(
        ((frame - PPTR_BASE_OFFSET) as u64) >> 12,
        PTEFlags { v: true, r: true, w: true, x: true, u: true, g: false, a: true, d: true },
    )
}

/// Install the initial thread's page table at the slot the walk for its
/// recorded address reaches, and fence.
pub fn map_it_pt_cap(st: &mut VmState, vspace_cap: &cap_t, pt_cap: &cap_t)
    requires
        old(st).wf(),
        pt_cap is PageTableCap,
        old(st).root_ok(vspace_cap.spec_cap_ptr()),
        pt_cap->PageTableCap_base_ptr >= PPTR_BASE_OFFSET,
    ensures
        final(st).wf(),
        ({
            let (p, i, b) = spec_walk(
                old(st).pool,
                spec_root_ppn(vspace_cap.spec_cap_ptr()),
                pt_cap->PageTableCap_mapped_address,
                39,
            );
            &&& final(st).pool.ppns@ == old(st).pool.ppns@
            &&& final(st).pool.node_at(p) == old(st).pool.node_at(p).update(
                i as int,
                spec_it_pt_entry(pt_cap->PageTableCap_base_ptr),
            )
            &&& forall|q: u64|
                old(st).pool.has_node(q) && q != p ==> final(st).pool.node_at(q) == old(
                    st,
                ).pool.node_at(q)
        }),
        final(st).asid_pool_bases == old(st).asid_pool_bases,
        final(st).asid_roots == old(st).asid_roots,
        final(st).kernel_root == old(st).kernel_root,
        final(st).kernel_image_level2 == old(st).kernel_image_level2,
        final(st).hw@ == old(st).hw@.push(HwOp::SfenceAll),
{
    let vptr = pt_cap.get_pt_mapped_address();
    let lvl1pt = vspace_cap.get_cap_ptr();
    let pt = pt_cap.get_pt_base_ptr();
    let pt_ret = lookup_pt_slot(&st.pool, lvl1pt, vptr);
    let entry = pte_t::new(
        (pt - PPTR_BASE_OFFSET) >> 12,
        PTEFlags { v: true, r: false, w: false, x: false, u: false, g: false, a: false, d: false },
    );
    st.pool.write_entry(pt_ret.ptSlot.ppn, pt_ret.ptSlot.index, entry.0);
    sfence(&mut st.hw);
}

/// Install the initial thread's frame at the slot the walk for its recorded
/// address reaches, with full user rights, and fence.
pub fn map_it_frame_cap(st: &mut VmState, vspace_cap: &cap_t, frame_cap: &cap_t)
    requires
        old(st).wf(),
        frame_cap is FrameCap,
        old(st).root_ok(vspace_cap.spec_cap_ptr()),
        frame_cap->FrameCap_base_ptr >= PPTR_BASE_OFFSET,
    ensures
        final(st).wf(),
        ({
            let (p, i, b) = spec_walk(
                old(st).pool,
                spec_root_ppn(vspace_cap.spec_cap_ptr()),
                frame_cap->FrameCap_mapped_address,
                39,
            );
            &&& final(st).pool.ppns@ == old(st).pool.ppns@
            &&& final(st).pool.node_at(p) == old(st).pool.node_at(p).update(
                i as int,
                spec_it_frame_entry(frame_cap->FrameCap_base_ptr),
            )
            &&& forall|q: u64|
                old(st).pool.has_node(q) && q != p ==> final(st).pool.node_at(q) == old(
                    st,
                ).pool.node_at(q)
        }),
        final(st).asid_pool_bases == old(st).asid_pool_bases,
        final(st).asid_roots == old(st).asid_roots,
        final(st).kernel_root == old(st).kernel_root,
        final(st).kernel_image_level2 == old(st).kernel_image_level2,
        final(st).hw@ == old(st).hw@.push(HwOp::SfenceAll),
{
    let vptr = frame_cap.get_frame_mapped_address();
    let lvl1pt = vspace_cap.get_cap_ptr();
    let frame_pptr = frame_cap.get_frame_base_ptr();
    let pt_ret = lookup_pt_slot(&st.pool, lvl1pt, vptr);
    let entry = pte_t::new(
        (frame_pptr - PPTR_BASE_OFFSET) >> 12,
        PTEFlags { v: true, r: true, w: true, x: true, u: true, g: false, a: true, d: true },
    );
    st.pool.write_entry(pt_ret.ptSlot.ppn, pt_ret.ptSlot.index, entry.0);
    sfence(&mut st.hw);
}

/// Mint the initial thread's page-table capability and install the table.
pub fn create_it_pt_cap(
    st: &mut VmState,
    vspace_cap: &cap_t,
    pptr: pptr_t,
    vptr: vptr_t,
    asid: asid_t,
) -> (r: cap_t)
    requires
        old(st).wf(),
        old(st).root_ok(vspace_cap.spec_cap_ptr()),
        pptr >= PPTR_BASE_OFFSET,
    ensures
        final(st).wf(),
        r == (cap_t::PageTableCap {
            base_ptr: pptr,
            is_mapped: 1,
            mapped_asid: asid,
            mapped_address: vptr,
        }),
        ({
            let (p, i, b) = spec_walk(
                old(st).pool,
                spec_root_ppn(vspace_cap.spec_cap_ptr()),
                vptr,
                39,
            );
            &&& final(st).pool.ppns@ == old(st).pool.ppns@
            &&& final(st).pool.node_at(p) == old(st).pool.node_at(p).update(
                i as int,
                spec_it_pt_entry(pptr),
            )
            &&& forall|q: u64|
                old(st).pool.has_node(q) && q != p ==> final(st).pool.node_at(q) == old(
                    st,
                ).pool.node_at(q)
        }),
        final(st).asid_pool_bases == old(st).asid_pool_bases,
        final(st).asid_roots == old(st).asid_roots,
        final(st).kernel_root == old(st).kernel_root,
        final(st).kernel_image_level2 == old(st).kernel_image_level2,
        final(st).hw@ == old(st).hw@.push(HwOp::SfenceAll),
{
    let cap = cap_t::new_page_table_cap(asid, pptr, 1, vptr);
    map_it_pt_cap(st, vspace_cap, &cap);
    cap
}

/// Mint the initial thread's frame capability and install the frame.
pub fn create_mapped_it_frame_cap(
    st: &mut VmState,
    pd_cap: &cap_t,
    pptr: pptr_t,
    vptr: vptr_t,
    asid: asid_t,
    use_large: bool,
    _exec: bool,
) -> (r: cap_t)
    requires
        old(st).wf(),
        old(st).root_ok(pd_cap.spec_cap_ptr()),
        pptr >= PPTR_BASE_OFFSET,
    ensures
        final(st).wf(),
        r == (cap_t::FrameCap {
            base_ptr: pptr,
            size: if use_large {
                RISCV_Mega_Page
            } else {
                RISCV_4K_Page
            },
            rights: VMReadWrite,
            is_device: 0,
            mapped_asid: asid,
            mapped_address: vptr,
        }),
        ({
            let (p, i, b) = spec_walk(old(st).pool, spec_root_ppn(pd_cap.spec_cap_ptr()), vptr, 39);
            &&& final(st).pool.ppns@ == old(st).pool.ppns@
            &&& final(st).pool.node_at(p) == old(st).pool.node_at(p).update(
                i as int,
                spec_it_frame_entry(pptr),
            )
            &&& forall|q: u64|
                old(st).pool.has_node(q) && q != p ==> final(st).pool.node_at(q) == old(
                    st,
                ).pool.node_at(q)
        }),
        final(st).asid_pool_bases == old(st).asid_pool_bases,
        final(st).asid_roots == old(st).asid_roots,
        final(st).kernel_root == old(st).kernel_root,
        final(st).kernel_image_level2 == old(st).kernel_image_level2,
        final(st).hw@ == old(st).hw@.push(HwOp::SfenceAll),
{
    let frame_size: u64 = if use_large {
        RISCV_Mega_Page
    } else {
        RISCV_4K_Page
    };
    let cap = cap_t::new_frame_cap(asid, pptr, frame_size, VMReadWrite, 0, vptr);
    map_it_frame_cap(st, pd_cap, &cap);
    cap
}

/// Mint a frame capability that is not mapped anywhere.
pub fn create_unmapped_it_frame_cap(pptr: pptr_t, _use_large: bool) -> (r: cap_t)
    ensures
        r == (cap_t::FrameCap {
            base_ptr: pptr,
            size: 0,
            rights: 0,
            is_device: 0,
            mapped_asid: 0,
            mapped_address: 0,
        }),
{
    cap_t::new_frame_cap(0, pptr, 0, 0, 0, 0)
}

} // verus!
