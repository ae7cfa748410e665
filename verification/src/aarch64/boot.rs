//! Boot-time construction of the 4-level scheme: the kernel window, kernel
//! device frames, and installation of the initial thread's tables and frames
//! with their capabilities.

use vstd::prelude::*;

use crate::aarch64::pte::{spec_ap_from_vm_rights_t, spec_pte_new, PTEFlags};
use crate::aarch64::structures::VmState;
use crate::aarch64::utils::{
    kpptr_to_paddr, spec_root_ppn, GET_KPT_INDEX, GET_PT_INDEX, ARM_Large_Page, ARM_Small_Page,
    KERNEL_ELF_BASE_OFFSET, PPTR_BASE, PPTR_BASE_OFFSET, PTE,
};
use crate::aarch64::vm_rights::vm_rights_t;
use crate::cap::cap_t;
use crate::pool::SlotRef;
use crate::structures::{asid_t, pptr_t, vm_attributes_t, vptr_t};

verus! {

/// The arena node an entry word points at.
pub open spec fn spec_next_ppn(w: u64) -> u64 {
    (w & 0xffff_ffff_f000) >> 12
}

/// The kernel window's block flags: execute-never, accessed, normal memory.
pub const KERNEL_BLOCK_FLAGS: u64 = 0x40_0000_0000_0410;

/// Build the kernel window: the top-level entry for the window points at the
/// kernel's second-level table; every second-level slot points at one
/// third-level table page; the third-level tables map all of physical memory
/// with 2 MiB blocks; and the very last third-level slot points at the
/// kernel's last-level table for device frames.
pub fn rust_map_kernel_window(st: &mut VmState)
    requires
        old(st).wf(),
    ensures
        final(st).wf(),
        final(st).armKSGlobalKernelPGD.arr@ == old(st).armKSGlobalKernelPGD.arr@.update(
            511,
            ((old(st).kernel_pud_base - KERNEL_ELF_BASE_OFFSET) as u64 & 0xffff_ffff_f000) | 3,
        ),
        forall|i: int|
            0 <= i < 512 ==> final(st).armKSGlobalKernelPUD.arr@[i] == (((old(st).kernel_pds_base
                - KERNEL_ELF_BASE_OFFSET) + i * 4096) as u64 & 0xffff_ffff_f000) | 3,
        forall|k: int|
            0 <= k < 0x3fe00 ==> final(st).armKSGlobalKernelPDs@[k] == ((k * 0x200000) as u64
                & 0xffff_ffff_f000) | KERNEL_BLOCK_FLAGS,
        final(st).armKSGlobalKernelPDs@[0x3ffff] == ((old(st).kernel_pt_base
            - KERNEL_ELF_BASE_OFFSET) as u64 & 0xffff_ffff_f000) | 3,
        forall|k: int|
            0x3fe00 <= k < 0x3ffff ==> final(st).armKSGlobalKernelPDs@[k] == old(
                st,
            ).armKSGlobalKernelPDs@[k],
        final(st).armKSGlobalKernelPT == old(st).armKSGlobalKernelPT,
        final(st).asid_pool_bases == old(st).asid_pool_bases,
        final(st).asid_roots == old(st).asid_roots,
        final(st).pool == old(st).pool,
        final(st).hw == old(st).hw,
        final(st).kernel_pgd_base == old(st).kernel_pgd_base,
        final(st).kernel_pud_base == old(st).kernel_pud_base,
        final(st).kernel_pds_base == old(st).kernel_pds_base,
        final(st).kernel_pt_base == old(st).kernel_pt_base,
        final(st).user_vspace_base == old(st).user_vspace_base,
{
    let idx_pgd = GET_KPT_INDEX(PPTR_BASE, 0);
    proof {
        assert((0xFFFF_FF80_0000_0000u64 >> 39) & 0x1ff == 511) by (bit_vector);
    }
    let pud_paddr = kpptr_to_paddr(st.kernel_pud_base);
    let e = PTE::pte_next_table(pud_paddr, true);
    st.armKSGlobalKernelPGD.set(idx_pgd, e.0);
    let mut idx: u64 = 0;
    while idx < 512
        invariant
            old(st).wf(),
            st.armKSGlobalKernelPUD.wf(),
            idx <= 512,
            forall|i: int|
                0 <= i < idx ==> st.armKSGlobalKernelPUD.arr@[i] == (((old(st).kernel_pds_base
                    - KERNEL_ELF_BASE_OFFSET) + i * 4096) as u64 & 0xffff_ffff_f000) | 3,
            forall|i: int|
                idx <= i < 512 ==> st.armKSGlobalKernelPUD.arr@[i] == old(
                    st,
                ).armKSGlobalKernelPUD.arr@[i],
            st.armKSGlobalKernelPGD.arr@ == old(st).armKSGlobalKernelPGD.arr@.update(
                511,
                ((old(st).kernel_pud_base - KERNEL_ELF_BASE_OFFSET) as u64 & 0xffff_ffff_f000) | 3,
            ),
            st.armKSGlobalKernelPDs == old(st).armKSGlobalKernelPDs,
            st.armKSGlobalKernelPT == old(st).armKSGlobalKernelPT,
            st.asid_pool_bases == old(st).asid_pool_bases,
            st.asid_roots == old(st).asid_roots,
            st.pool == old(st).pool,
            st.hw == old(st).hw,
            st.kernel_pgd_base == old(st).kernel_pgd_base,
            st.kernel_pud_base == old(st).kernel_pud_base,
            st.kernel_pds_base == old(st).kernel_pds_base,
            st.kernel_pt_base == old(st).kernel_pt_base,
            st.user_vspace_base == old(st).user_vspace_base,
            st.armKSGlobalUserVSpace == old(st).armKSGlobalUserVSpace,
        decreases 512 - idx,
    {
        let pd_page = kpptr_to_paddr(st.kernel_pds_base) + idx * 4096;
        let e2 = PTE::pte_next_table(pd_page, true);
        st.armKSGlobalKernelPUD.set(idx, e2.0);
        idx = idx + 1;
    }
    let mut k: u64 = 0;
    while k < 0x3fe00
        invariant
            old(st).wf(),
            st.armKSGlobalKernelPDs@.len() == 0x40000,
            k <= 0x3fe00,
            forall|i: int|
                0 <= i < k ==> st.armKSGlobalKernelPDs@[i] == ((i * 0x200000) as u64
                    & 0xffff_ffff_f000) | KERNEL_BLOCK_FLAGS,
            forall|i: int|
                k <= i < 0x40000 ==> st.armKSGlobalKernelPDs@[i] == old(
                    st,
                ).armKSGlobalKernelPDs@[i],
            st.armKSGlobalKernelPUD.wf(),
            forall|i: int|
                0 <= i < 512 ==> st.armKSGlobalKernelPUD.arr@[i] == (((old(st).kernel_pds_base
                    - KERNEL_ELF_BASE_OFFSET) + i * 4096) as u64 & 0xffff_ffff_f000) | 3,
            st.armKSGlobalKernelPGD.arr@ == old(st).armKSGlobalKernelPGD.arr@.update(
                511,
                ((old(st).kernel_pud_base - KERNEL_ELF_BASE_OFFSET) as u64 & 0xffff_ffff_f000) | 3,
            ),
            st.armKSGlobalKernelPT == old(st).armKSGlobalKernelPT,
            st.asid_pool_bases == old(st).asid_pool_bases,
            st.asid_roots == old(st).asid_roots,
            st.pool == old(st).pool,
            st.hw == old(st).hw,
            st.kernel_pgd_base == old(st).kernel_pgd_base,
            st.kernel_pud_base == old(st).kernel_pud_base,
            st.kernel_pds_base == old(st).kernel_pds_base,
            st.kernel_pt_base == old(st).kernel_pt_base,
            st.user_vspace_base == old(st).user_vspace_base,
            st.armKSGlobalUserVSpace == old(st).armKSGlobalUserVSpace,
        decreases 0x3fe00 - k,
    {
        let vaddr = PPTR_BASE + k * 0x200000;
        let paddr = k * 0x200000;
        let idx1 = GET_KPT_INDEX(vaddr, 1);
        let idx2 = GET_KPT_INDEX(vaddr, 2);
        proof {
            assert((((0xFFFF_FF80_0000_0000u64 + k * 0x200000) as u64) >> 30) & 0x1ff == k >> 9
                && (((0xFFFF_FF80_0000_0000u64 + k * 0x200000) as u64) >> 21) & 0x1ff == k & 0x1ff
                && (k >> 9) * 512 + (k & 0x1ff) == k && k >> 9 < 512 && (k & 0x1ff) < 512)
                by (bit_vector)
                requires
                    k < 0x3fe00u64,
        ;
        }
        let flat = (idx1 as usize) * 512 + (idx2 as usize);
        let e3 = PTE::new(paddr, PTEFlags(KERNEL_BLOCK_FLAGS));
        st.armKSGlobalKernelPDs.set(flat, e3.0);
        k = k + 1;
    }
    let pt_paddr = kpptr_to_paddr(st.kernel_pt_base);
    let e4 = PTE::pte_next_table(pt_paddr, true);
    st.armKSGlobalKernelPDs.set(511 * 512 + 511, e4.0);
}

/// Map one kernel device frame into the kernel's last-level table:
/// execute-never, accessed, global, read-only to user never (kernel rights),
/// cacheable on request.
pub fn map_kernel_frame(
    st: &mut VmState,
    paddr: u64,
    vaddr: u64,
    vm_rights: vm_rights_t,
    attributes: vm_attributes_t,
)
    requires
        old(st).wf(),
    ensures
        final(st).wf(),
        final(st).armKSGlobalKernelPT.arr@ == old(st).armKSGlobalKernelPT.arr@.update(
            ((vaddr >> 12) & 0x1ff) as int,
            spec_pte_new(
                1,
                paddr,
                0,
                1,
                0,
                spec_ap_from_vm_rights_t(vm_rights) >> 6,
                if attributes.0 & 1 != 0 {
                    4u64
                } else {
                    0
                },
                3,
            ),
        ),
        final(st).asid_pool_bases == old(st).asid_pool_bases,
        final(st).asid_roots == old(st).asid_roots,
        final(st).pool == old(st).pool,
        final(st).hw == old(st).hw,
{
    let attr_index: u64 = if attributes.get_page_cacheable() != 0 {
        4
    } else {
        0
    };
    let shareable: u64 = 0;
    let idx = GET_PT_INDEX(vaddr);
    let ap = PTE::ap_from_vm_rights_t(vm_rights).0 >> 6;
    let e = PTE::pte_new(1, paddr, 0, 1, shareable, ap, attr_index, 3);
    st.armKSGlobalKernelPT.set(idx, e.0);
}

/// The slot of the third-level entry the boot walk reaches for an address
/// (where a last-level table pointer is installed).
pub open spec fn spec_boot_pd_slot(
    pool: crate::pool::PtPool,
    root: u64,
    vptr: u64,
) -> SlotRef {
    let rp = spec_root_ppn(root);
    let pud = spec_next_ppn(pool.entry_at(rp, (vptr >> 39) & 0x1ff));
    let pd = spec_next_ppn(pool.entry_at(pud, (vptr >> 30) & 0x1ff));
    SlotRef { ppn: pd, index: (vptr >> 21) & 0x1ff }
}

/// The slot of the last-level entry the boot walk reaches for an address
/// (where a frame is installed).
pub open spec fn spec_boot_pt_slot(
    pool: crate::pool::PtPool,
    root: u64,
    vptr: u64,
) -> SlotRef {
    let pds = spec_boot_pd_slot(pool, root, vptr);
    let pt = spec_next_ppn(pool.entry_at(pds.ppn, pds.index));
    SlotRef { ppn: pt, index: (vptr >> 12) & 0x1ff }
}

/// Whether the boot walk for an address can reach the third level: every
/// traversed node is live in the arena.
pub open spec fn spec_boot_pd_path_ok(pool: crate::pool::PtPool, root: u64, vptr: u64) -> bool {
    let rp = spec_root_ppn(root);
    let pud = spec_next_ppn(pool.entry_at(rp, (vptr >> 39) & 0x1ff));
    &&& pool.has_node(rp)
    &&& pool.has_node(pud)
    &&& pool.has_node(spec_next_ppn(pool.entry_at(pud, (vptr >> 30) & 0x1ff)))
}

/// Whether the boot walk for an address can reach the last level.
pub open spec fn spec_boot_pt_path_ok(pool: crate::pool::PtPool, root: u64, vptr: u64) -> bool {
    spec_boot_pd_path_ok(pool, root, vptr) && pool.has_node(
        spec_next_ppn(pool.entry_at(spec_boot_pd_slot(pool, root, vptr).ppn, spec_boot_pd_slot(pool, root, vptr).index)),
    )
}

/// Walk the boot path to the third-level slot for an address.
fn boot_pd_slot(st: &VmState, vspace_root: pptr_t, vptr: vptr_t) -> (r: SlotRef)
    requires
        st.wf(),
        vspace_root >= PPTR_BASE_OFFSET,
        spec_boot_pd_path_ok(st.pool, vspace_root, vptr),
    ensures
        r == spec_boot_pd_slot(st.pool, vspace_root, vptr),
        st.pool.has_node(r.ppn),
        r.index < 512,
{
    let rp = (vspace_root - PPTR_BASE_OFFSET) >> 12;
    proof {
        crate::bits::lemma_index9(vptr, 39);
        crate::bits::lemma_index9(vptr, 30);
        crate::bits::lemma_index9(vptr, 21);
    }
    let w0 = st.pool.read_entry(rp, (vptr >> 39) & 0x1ff);
    let pud = (w0 & 0xffff_ffff_f000) >> 12;
    let w1 = st.pool.read_entry(pud, (vptr >> 30) & 0x1ff);
    let pd = (w1 & 0xffff_ffff_f000) >> 12;
    SlotRef { ppn: pd, index: (vptr >> 21) & 0x1ff }
}

/// Install the initial thread's last-level table: write the third-level slot
/// the boot walk reaches with a pointer to the table.
pub fn map_it_pt_cap(st: &mut VmState, vspace_cap: &cap_t, pt_cap: &cap_t)
    requires
        old(st).wf(),
        pt_cap is PageTableCap,
        vspace_cap.spec_cap_ptr() >= PPTR_BASE_OFFSET,
        pt_cap->PageTableCap_base_ptr >= PPTR_BASE_OFFSET,
        spec_boot_pd_path_ok(
            old(st).pool,
            vspace_cap.spec_cap_ptr(),
            pt_cap->PageTableCap_mapped_address,
        ),
    ensures
        final(st).wf(),
        ({
            let slot = spec_boot_pd_slot(
                old(st).pool,
                vspace_cap.spec_cap_ptr(),
                pt_cap->PageTableCap_mapped_address,
            );
            &&& final(st).pool.ppns@ == old(st).pool.ppns@
            &&& final(st).pool.node_at(slot.ppn) == old(st).pool.node_at(slot.ppn).update(
                slot.index as int,
                (((pt_cap->PageTableCap_base_ptr - PPTR_BASE_OFFSET) as u64) & 0xffff_ffff_f000)
                    | 3,
            )
            &&& (forall|q: u64|
                old(st).pool.has_node(q) && q != slot.ppn ==> final(st).pool.node_at(q) == old(
                    st,
                ).pool.node_at(q))
        }),
        final(st).asid_pool_bases == old(st).asid_pool_bases,
        final(st).asid_roots == old(st).asid_roots,
        final(st).hw == old(st).hw,
{
    let vptr = pt_cap.get_pt_mapped_address();
    let root = vspace_cap.get_cap_ptr();
    let pt = pt_cap.get_pt_base_ptr();
    let slot = boot_pd_slot(st, root, vptr);
    let entry = ((pt - PPTR_BASE_OFFSET) & 0xffff_ffff_f000) | 3;
    st.pool.write_entry(slot.ppn, slot.index, entry);
}

/// Install the initial thread's frame: write the last-level slot the boot
/// walk reaches with a page entry for the frame (executable on request).
pub fn map_it_frame_cap(st: &mut VmState, vspace_cap: &cap_t, frame_cap: &cap_t, exec: bool)
    requires
        old(st).wf(),
        frame_cap is FrameCap,
        vspace_cap.spec_cap_ptr() >= PPTR_BASE_OFFSET,
        frame_cap->FrameCap_base_ptr >= PPTR_BASE_OFFSET,
        spec_boot_pt_path_ok(
            old(st).pool,
            vspace_cap.spec_cap_ptr(),
            frame_cap->FrameCap_mapped_address,
        ),
    ensures
        final(st).wf(),
        ({
            let slot = spec_boot_pt_slot(
                old(st).pool,
                vspace_cap.spec_cap_ptr(),
                frame_cap->FrameCap_mapped_address,
            );
            &&& final(st).pool.ppns@ == old(st).pool.ppns@
            &&& final(st).pool.node_at(slot.ppn) == old(st).pool.node_at(slot.ppn).update(
                slot.index as int,
                (((frame_cap->FrameCap_base_ptr - PPTR_BASE_OFFSET) as u64) & 0xffff_ffff_f000) | (
                spec_pte_new(
                    if exec {
                        0u64
                    } else {
                        1u64
                    },
                    0,
                    1,
                    1,
                    0,
                    1,
                    0,
                    3,
                ) & 0xffff_0000_0000_0fffu64),
            )
            &&& (forall|q: u64|
                old(st).pool.has_node(q) && q != slot.ppn ==> final(st).pool.node_at(q) == old(
                    st,
                ).pool.node_at(q))
        }),
        final(st).asid_pool_bases == old(st).asid_pool_bases,
        final(st).asid_roots == old(st).asid_roots,
        final(st).hw == old(st).hw,
{
    let vptr = frame_cap.get_frame_mapped_address();
    let root = vspace_cap.get_cap_ptr();
    let frame = frame_cap.get_frame_base_ptr();
    let pds = boot_pd_slot(st, root, vptr);
    proof {
        crate::bits::lemma_index9(vptr, 12);
    }
    let w2 = st.pool.read_entry(pds.ppn, pds.index);
    let pt = (w2 & 0xffff_ffff_f000) >> 12;
    let slot = SlotRef { ppn: pt, index: (vptr >> 12) & 0x1ff };
    let uxn: u64 = if exec {
        0
    } else {
        1
    };
    let attr = PTE::pte_new(uxn, 0, 1, 1, 0, 1, 0, 3);
    let entry = ((frame - PPTR_BASE_OFFSET) & 0xffff_ffff_f000) | (attr.0
        & 0xffff_0000_0000_0fffu64);
    st.pool.write_entry(slot.ppn, slot.index, entry);
}

/// Install the initial thread's third-level directory: write the second-level
/// slot under the root with a pointer to it.
pub fn map_it_pd_cap(st: &mut VmState, vspace_cap: &cap_t, pd_cap: &cap_t)
    requires
        old(st).wf(),
        pd_cap is PageDirectoryCap,
        pd_cap->PageDirectoryCap_is_mapped == 1,
        vspace_cap.spec_cap_ptr() >= PPTR_BASE_OFFSET,
        pd_cap->PageDirectoryCap_base_ptr >= PPTR_BASE_OFFSET,
        old(st).pool.has_node(spec_root_ppn(vspace_cap.spec_cap_ptr())),
        old(st).pool.has_node(
            spec_next_ppn(
                old(st).pool.entry_at(
                    spec_root_ppn(vspace_cap.spec_cap_ptr()),
                    (pd_cap->PageDirectoryCap_mapped_address >> 39) & 0x1ff,
                ),
            ),
        ),
    ensures
        final(st).wf(),
        ({
            let rp = spec_root_ppn(vspace_cap.spec_cap_ptr());
            let vptr = pd_cap->PageDirectoryCap_mapped_address;
            let pud = spec_next_ppn(old(st).pool.entry_at(rp, (vptr >> 39) & 0x1ff));
            let idx = (vptr >> 30) & 0x1ff;
            &&& final(st).pool.ppns@ == old(st).pool.ppns@
            &&& final(st).pool.node_at(pud) == old(st).pool.node_at(pud).update(
                idx as int,
                (((pd_cap->PageDirectoryCap_base_ptr - PPTR_BASE_OFFSET) as u64)
                    & 0xffff_ffff_f000) | 3,
            )
            &&& (forall|q: u64|
                old(st).pool.has_node(q) && q != pud ==> final(st).pool.node_at(q) == old(
                    st,
                ).pool.node_at(q))
        }),
        final(st).asid_pool_bases == old(st).asid_pool_bases,
        final(st).asid_roots == old(st).asid_roots,
        final(st).hw == old(st).hw,
{
    let vptr = pd_cap.get_pd_mapped_address();
    let root = vspace_cap.get_cap_ptr();
    let pd_addr = pd_cap.get_pd_base_ptr();
    let rp = (root - PPTR_BASE_OFFSET) >> 12;
    proof {
        crate::bits::lemma_index9(vptr, 39);
        crate::bits::lemma_index9(vptr, 30);
    }
    let w0 = st.pool.read_entry(rp, (vptr >> 39) & 0x1ff);
    let pud = (w0 & 0xffff_ffff_f000) >> 12;
    let entry = ((pd_addr - PPTR_BASE_OFFSET) & 0xffff_ffff_f000) | 3;
    st.pool.write_entry(pud, (vptr >> 30) & 0x1ff, entry);
}

/// Install the initial thread's second-level directory: write the top-level
/// slot of the root with a pointer to it.
pub fn map_it_pud_cap(st: &mut VmState, vspace_cap: &cap_t, pud_cap: &cap_t)
    requires
        old(st).wf(),
        pud_cap is PageUpperDirectoryCap,
        pud_cap->PageUpperDirectoryCap_is_mapped == 1,
        vspace_cap.spec_cap_ptr() >= PPTR_BASE_OFFSET,
        pud_cap->PageUpperDirectoryCap_base_ptr >= PPTR_BASE_OFFSET,
        old(st).pool.has_node(spec_root_ppn(vspace_cap.spec_cap_ptr())),
    ensures
        final(st).wf(),
        ({
            let rp = spec_root_ppn(vspace_cap.spec_cap_ptr());
            let idx = (pud_cap->PageUpperDirectoryCap_mapped_address >> 39) & 0x1ff;
            &&& final(st).pool.ppns@ == old(st).pool.ppns@
            &&& final(st).pool.node_at(rp) == old(st).pool.node_at(rp).update(
                idx as int,
                (((pud_cap->PageUpperDirectoryCap_base_ptr - PPTR_BASE_OFFSET) as u64)
                    & 0xffff_ffff_f000) | 3,
            )
            &&& (forall|q: u64|
                old(st).pool.has_node(q) && q != rp ==> final(st).pool.node_at(q) == old(
                    st,
                ).pool.node_at(q))
        }),
        final(st).asid_pool_bases == old(st).asid_pool_bases,
        final(st).asid_roots == old(st).asid_roots,
        final(st).hw == old(st).hw,
{
    let vptr = pud_cap.get_pud_mapped_address();
    let root = vspace_cap.get_cap_ptr();
    let pud_addr = pud_cap.get_pud_base_ptr();
    let rp = (root - PPTR_BASE_OFFSET) >> 12;
    proof {
        crate::bits::lemma_index9(vptr, 39);
    }
    let entry = ((pud_addr - PPTR_BASE_OFFSET) & 0xffff_ffff_f000) | 3;
    st.pool.write_entry(rp, (vptr >> 39) & 0x1ff, entry);
}

/// Mint the initial thread's third-level directory capability and install it.
pub fn create_it_pd_cap(
    st: &mut VmState,
    vspace_cap: &cap_t,
    pptr: pptr_t,
    vptr: vptr_t,
    asid: asid_t,
) -> (r: cap_t)
    requires
        old(st).wf(),
        vspace_cap.spec_cap_ptr() >= PPTR_BASE_OFFSET,
        pptr >= PPTR_BASE_OFFSET,
        old(st).pool.has_node(spec_root_ppn(vspace_cap.spec_cap_ptr())),
        old(st).pool.has_node(
            spec_next_ppn(
                old(st).pool.entry_at(
                    spec_root_ppn(vspace_cap.spec_cap_ptr()),
                    (vptr >> 39) & 0x1ff,
                ),
            ),
        ),
    ensures
        final(st).wf(),
        r == (cap_t::PageDirectoryCap {
            base_ptr: pptr,
            is_mapped: 1,
            mapped_asid: asid,
            mapped_address: vptr,
        }),
        final(st).asid_pool_bases == old(st).asid_pool_bases,
        final(st).asid_roots == old(st).asid_roots,
        final(st).hw == old(st).hw,
{
    let cap = cap_t::new_page_directory_cap(asid, pptr, 1, vptr);
    map_it_pd_cap(st, vspace_cap, &cap);
    cap
}

/// Mint the initial thread's second-level directory capability and install
/// it.
pub fn create_it_pud_cap(
    st: &mut VmState,
    vspace_cap: &cap_t,
    pptr: pptr_t,
    vptr: vptr_t,
    asid: asid_t,
) -> (r: cap_t)
    requires
        old(st).wf(),
        vspace_cap.spec_cap_ptr() >= PPTR_BASE_OFFSET,
        pptr >= PPTR_BASE_OFFSET,
        old(st).pool.has_node(spec_root_ppn(vspace_cap.spec_cap_ptr())),
    ensures
        final(st).wf(),
        r == (cap_t::PageUpperDirectoryCap {
            base_ptr: pptr,
            is_mapped: 1,
            mapped_asid: asid,
            mapped_address: vptr,
        }),
        final(st).asid_pool_bases == old(st).asid_pool_bases,
        final(st).asid_roots == old(st).asid_roots,
        final(st).hw == old(st).hw,
{
    let cap = cap_t::new_page_upper_directory_cap(asid, pptr, 1, vptr);
    map_it_pud_cap(st, vspace_cap, &cap);
    cap
}

/// Mint a frame capability for the initial thread's address space.
pub fn create_it_frame_cap(pptr: pptr_t, vptr: vptr_t, asid: asid_t, use_large: bool) -> (r: cap_t)
    ensures
        r == (cap_t::FrameCap {
            base_ptr: pptr,
            size: if use_large {
                ARM_Large_Page
            } else {
                ARM_Small_Page
            },
            rights: 1,
            is_device: 0,
            mapped_asid: asid,
            mapped_address: vptr,
        }),
{
    let frame_size: u64 = if use_large {
        ARM_Large_Page
    } else {
        ARM_Small_Page
    };
    cap_t::new_frame_cap(asid, pptr, frame_size, 1, 0, vptr)
}

/// Mint a frame capability that is not mapped anywhere.
pub fn create_unmapped_it_frame_cap(pptr: pptr_t, use_large: bool) -> (r: cap_t)
    ensures
        r == (cap_t::FrameCap {
            base_ptr: pptr,
            size: if use_large {
                ARM_Large_Page
            } else {
                ARM_Small_Page
            },
            rights: 1,
            is_device: 0,
            mapped_asid: 0,
            mapped_address: 0,
        }),
{
    create_it_frame_cap(pptr, 0, 0, use_large)
}

/// Mint the initial thread's frame capability and install the frame.
pub fn create_mapped_it_frame_cap(
    st: &mut VmState,
    pd_cap: &cap_t,
    pptr: pptr_t,
    vptr: vptr_t,
    asid: asid_t,
    use_large: bool,
    exec: bool,
) -> (r: cap_t)
    requires
        old(st).wf(),
        pd_cap.spec_cap_ptr() >= PPTR_BASE_OFFSET,
        pptr >= PPTR_BASE_OFFSET,
        spec_boot_pt_path_ok(old(st).pool, pd_cap.spec_cap_ptr(), vptr),
    ensures
        final(st).wf(),
        r == (cap_t::FrameCap {
            base_ptr: pptr,
            size: if use_large {
                ARM_Large_Page
            } else {
                ARM_Small_Page
            },
            rights: 1,
            is_device: 0,
            mapped_asid: asid,
            mapped_address: vptr,
        }),
        final(st).asid_pool_bases == old(st).asid_pool_bases,
        final(st).asid_roots == old(st).asid_roots,
        final(st).hw == old(st).hw,
{
    let cap = create_it_frame_cap(pptr, vptr, asid, use_large);
    map_it_frame_cap(st, pd_cap, &cap, exec);
    cap
}

} // verus!
