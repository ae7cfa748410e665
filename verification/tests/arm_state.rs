//! State-level tests of the 4-level scheme: chained lookups, frame lookup,
//! verify-then-clear unmapping, root switching, cache walks and the kernel
//! window.

use vspace::aarch64::asid::{
    delete_asid, delete_asid_pool, find_map_for_asid, find_vspace_for_asid,
    get_asid_pool_by_index, set_asid_pool_by_index, write_it_asid_pool,
};
use vspace::aarch64::boot::{map_kernel_frame, rust_map_kernel_window};
use vspace::aarch64::interface::{
    activate_kernel_vspace, make_user_1st_level, make_user_2nd_level, makeUser3rdLevel,
    page_table_mapped, set_vm_root, set_vm_root_for_flush_with_thread_root, unmapPage,
    unmap_page_table,
};
use vspace::aarch64::machine::{
    clean_invalidate_d_by_level, clean_invalidate_l1_caches, ttbr_new,
};
use vspace::aarch64::structures::{asid_map_t, asid_pool_t, VmState};
use vspace::aarch64::utils::{PGDE, PTE};
use vspace::aarch64::vm_rights::vm_rights_t;
use vspace::cap::cap_t;
use vspace::hw::HwOp;
use vspace::structures::{exception_t, lookup_fault_t, vm_attributes_t};

const PPTR_BASE: u64 = 0xFFFF_FF80_0000_0000;
const KB: u64 = 0xFFFF_FFFF_E000_0000;

fn fresh_state() -> VmState {
    VmState::new(KB, KB + 0x1000, KB + 0x2000, KB + 0x202000, KB + 0x203000)
}

/// A state with one address space: top-level node at ppn 1, second level at
/// ppn 2, third at ppn 3, last at ppn 4, a 4 KiB page at vaddr 0x4000 ->
/// paddr 0x6000, and the root registered for ASID 5.
fn state_with_mapping() -> (VmState, u64) {
    let mut st = fresh_state();
    for p in 1..=4u64 {
        st.pool.install_node(p);
    }
    let root = PPTR_BASE + 0x1000;
    st.pool.write_entry(1, 0, 0x2000 | 3);
    st.pool.write_entry(2, 0, 0x3000 | 3);
    st.pool.write_entry(3, 0, 0x4000 | 3);
    let leaf = PTE::make_user_pte(0x6000, vm_rights_t::VMReadWrite, vm_attributes_t::new(1), 0);
    st.pool.write_entry(4, 4, leaf.0);
    let mut pool = asid_pool_t::new_empty(PPTR_BASE + 0x8000);
    pool.set_asid_map(5, &asid_map_t::new_vspace(root));
    set_asid_pool_by_index(&mut st, 0, Some(&pool));
    (st, root)
}

#[test]
fn arm_chained_lookup_reaches_leaf() {
    let (st, root) = state_with_mapping();
    let pgde = PGDE::new_from_pte(root);
    let lu = pgde.lookup_pt_slot(&st.pool, 0x4000);
    assert_eq!(lu.status, exception_t::EXCEPTION_NONE);
    assert_eq!(lu.ptSlot.ppn, 4);
    assert_eq!(lu.ptSlot.index, 4);
    let w = st.pool.read_entry(4, 4);
    assert!(PTE(w).pte_ptr_get_present());
    assert_eq!(PTE(w).pte_ptr_get_page_base_address(), 0x6000);
}

#[test]
fn arm_lookup_depth_reports_missing_level() {
    let mut st = fresh_state();
    st.pool.install_node(1);
    let root = PPTR_BASE + 0x1000;
    let pgde = PGDE::new_from_pte(root);
    // only the top level is populated: one level traversed, 39 bits left
    let pud = pgde.lookup_pud_slot(&st.pool, 0x4000);
    assert_eq!(pud.status, exception_t::EXCEPTION_LOOKUP_FAULT);
    assert_eq!(pud.lookup_fault, Some(lookup_fault_t::MissingCapability { bits_left: 39 }));
    // two levels populated: the third-level lookup stops with 30 bits left
    st.pool.install_node(2);
    st.pool.write_entry(1, 0, 0x2000 | 3);
    let pd = pgde.lookup_pd_slot(&st.pool, 0x4000);
    assert_eq!(pd.status, exception_t::EXCEPTION_LOOKUP_FAULT);
    assert_eq!(pd.lookup_fault, Some(lookup_fault_t::MissingCapability { bits_left: 30 }));
    // three levels populated: the last-level lookup stops with 21 bits left
    st.pool.install_node(3);
    st.pool.write_entry(2, 0, 0x3000 | 3);
    let pt = pgde.lookup_pt_slot(&st.pool, 0x4000);
    assert_eq!(pt.status, exception_t::EXCEPTION_LOOKUP_FAULT);
    assert_eq!(pt.lookup_fault, Some(lookup_fault_t::MissingCapability { bits_left: 21 }));
}

#[test]
fn arm_lookup_frame_finds_each_size() {
    let (st, root) = state_with_mapping();
    let pgde = PGDE::new_from_pte(root);
    let small = pgde.lookup_frame(&st.pool, 0x4000);
    assert!(small.valid);
    assert_eq!(small.frameBase, 0x6000);
    assert_eq!(small.frameSize, 0);
    // a 1 GiB block one slot over
    let mut st2 = st;
    let huge = vspace::aarch64::utils::PUDE::new_1g(
        false,
        0x4000_0000,
        1,
        1,
        0,
        1,
        vspace::aarch64::machine::mair_types::NORMAL,
    );
    st2.pool.write_entry(2, 1, huge.0);
    let r = pgde.lookup_frame(&st2.pool, 0x4000_0000);
    assert!(r.valid);
    assert_eq!(r.frameBase, 0x4000_0000);
    assert_eq!(r.frameSize, 2);
    // an address nothing maps
    let miss = pgde.lookup_frame(&st2.pool, 0x8000_0000);
    assert!(!miss.valid);
}

#[test]
fn arm_unmap_small_page_clears_cleans_and_invalidates() {
    let (mut st, _root) = state_with_mapping();
    let hw0 = st.hw.len();
    let r = unmapPage(&mut st, 0, 5, 0x4000, PPTR_BASE + 0x6000);
    assert!(r.is_ok());
    assert_eq!(st.pool.read_entry(4, 4), 0);
    // clean of the slot's line, then a targeted invalidation, each fenced
    let slot_paddr = (4u64 << 12) + 4 * 8;
    assert_eq!(
        st.hw[hw0..].to_vec(),
        vec![
            HwOp::CleanByVaPou { vaddr: slot_paddr + PPTR_BASE, paddr: slot_paddr },
            HwOp::Dmb,
            HwOp::Dsb,
            HwOp::TlbiVaAsid { mva_plus_asid: (5u64 << 48) | (0x4000 >> 12) },
            HwOp::Dsb,
            HwOp::Isb,
        ]
    );
}

#[test]
fn arm_unmap_twice_is_noop_second_time() {
    let (mut st, _root) = state_with_mapping();
    unmapPage(&mut st, 0, 5, 0x4000, PPTR_BASE + 0x6000).unwrap();
    let hw1 = st.hw.len();
    let r = unmapPage(&mut st, 0, 5, 0x4000, PPTR_BASE + 0x6000);
    assert!(r.is_ok());
    assert_eq!(st.hw.len(), hw1);
    assert_eq!(st.pool.read_entry(4, 4), 0);
}

#[test]
fn arm_stale_unmap_does_not_disturb_new_mapping() {
    let (mut st, _root) = state_with_mapping();
    unmapPage(&mut st, 0, 5, 0x4000, PPTR_BASE + 0x6000).unwrap();
    let newleaf = PTE::make_user_pte(0x7000, vm_rights_t::VMReadOnly, vm_attributes_t::new(1), 0);
    st.pool.write_entry(4, 4, newleaf.0);
    let r = unmapPage(&mut st, 0, 5, 0x4000, PPTR_BASE + 0x6000);
    assert!(r.is_ok());
    assert_eq!(st.pool.read_entry(4, 4), newleaf.0);
}

#[test]
fn arm_unmap_huge_block() {
    let (mut st, _root) = state_with_mapping();
    let huge = vspace::aarch64::utils::PUDE::new_1g(
        false,
        0x4000_0000,
        1,
        1,
        0,
        1,
        vspace::aarch64::machine::mair_types::NORMAL,
    );
    st.pool.write_entry(2, 1, huge.0);
    let r = unmapPage(&mut st, 2, 5, 0x4000_0000, PPTR_BASE + 0x4000_0000);
    assert!(r.is_ok());
    assert_eq!(st.pool.read_entry(2, 1), 0);
}

#[test]
fn arm_set_vm_root_stale_installs_fallback() {
    let (mut st, root) = state_with_mapping();
    // a capability whose recorded ASID no longer names its root
    let cap = cap_t::new_page_global_directory_cap(5, root + 0x1000, 1);
    let r = set_vm_root(&mut st, &cap);
    assert_eq!(r, Err(lookup_fault_t::InvalidRoot));
    let fallback_paddr = (KB + 0x203000) - 0xFFFF_FFFF_8000_0000;
    assert_eq!(st.hw[0], HwOp::SetUserRoot { val: ttbr_new(0, fallback_paddr) });
    // the candidate's address never reached the hardware
    let candidate = ttbr_new(5, (root + 0x1000) - PPTR_BASE);
    assert!(!st.hw.iter().any(|op| *op == HwOp::SetUserRoot { val: candidate }));
}

#[test]
fn arm_set_vm_root_programs_validated_root() {
    let (mut st, root) = state_with_mapping();
    let cap = cap_t::new_page_global_directory_cap(5, root, 1);
    let r = set_vm_root(&mut st, &cap);
    assert!(r.is_ok());
    assert_eq!(st.hw[0], HwOp::SetUserRoot { val: ttbr_new(5, root - PPTR_BASE) });
    assert_eq!(st.hw[1..].to_vec(), vec![HwOp::TlbiAll, HwOp::Dsb, HwOp::Isb]);
}

#[test]
fn arm_find_map_and_delete_asid() {
    let (mut st, root) = state_with_mapping();
    assert_eq!(find_map_for_asid(&st, 5), Some(asid_map_t::asid_map_vspace { vspace_root: root }));
    assert_eq!(find_map_for_asid(&st, 6), Some(asid_map_t::asid_map_none));
    assert_eq!(find_map_for_asid(&st, 0x400), None);
    let r = delete_asid(&mut st, 5, root, &cap_t::NullCap);
    assert!(r.is_ok());
    assert_eq!(find_vspace_for_asid(&st, 5).status, exception_t::EXCEPTION_LOOKUP_FAULT);
    assert!(st.hw.iter().any(|op| *op == HwOp::TlbiAsid { asid: 5 }));
}

#[test]
fn arm_delete_asid_pool_invalidates_each_mapped_asid() {
    let (mut st, _root) = state_with_mapping();
    let pool = get_asid_pool_by_index(&st, 0).unwrap();
    let r = delete_asid_pool(&mut st, 0, &pool, &cap_t::NullCap);
    assert!(r.is_ok());
    assert_eq!(find_vspace_for_asid(&st, 5).status, exception_t::EXCEPTION_LOOKUP_FAULT);
    assert!(st.hw.iter().any(|op| *op == HwOp::TlbiAsid { asid: 5 }));
}

#[test]
fn arm_write_it_asid_pool_installs_initial_root() {
    let (mut st, root) = state_with_mapping();
    let ap_cap = cap_t::new_asid_pool_cap(0, PPTR_BASE + 0x9000);
    let vcap = cap_t::new_page_global_directory_cap(1, root, 1);
    write_it_asid_pool(&mut st, &ap_cap, &vcap);
    assert_eq!(find_vspace_for_asid(&st, 1).vspace_root, Some(root));
}

#[test]
fn arm_unmap_page_table_verify_then_clear() {
    let (mut st, _root) = state_with_mapping();
    // the third-level slot (ppn 3, index 0) points at the table at 0x4000
    assert!(page_table_mapped(&st, 5, 0x4000, PPTR_BASE + 0x4000).is_some());
    unmap_page_table(&mut st, 5, 0x4000, PPTR_BASE + 0x4000);
    assert_eq!(st.pool.read_entry(3, 0), 0);
    // a repeat finds nothing to clear
    let hw1 = st.hw.len();
    unmap_page_table(&mut st, 5, 0x4000, PPTR_BASE + 0x4000);
    assert_eq!(st.hw.len(), hw1);
    // a request for a different table never matched
    let (mut st2, _) = state_with_mapping();
    unmap_page_table(&mut st2, 5, 0x4000, PPTR_BASE + 0x5000);
    assert_ne!(st2.pool.read_entry(3, 0), 0);
}

#[test]
fn arm_make_user_levels_encode_rights_and_attrs() {
    let attr = vm_attributes_t::new(1);
    let pude = make_user_1st_level(0x4000_0000, vm_rights_t::VMReadWrite, attr);
    assert!(pude.is_1g_page());
    assert_eq!(pude.pude_1g_ptr_get_page_base_address(), 0x4000_0000);
    let pde = make_user_2nd_level(0x20_0000, vm_rights_t::VMReadWrite, attr);
    assert!(pde.is_larger_page());
    assert_eq!(pde.pde_large_ptr_get_page_base_address(), 0x20_0000);
    let pte = makeUser3rdLevel(0x6000, vm_rights_t::VMReadWrite, attr);
    assert!(pte.pte_ptr_get_present());
    assert_eq!(pte.pte_ptr_get_page_base_address(), 0x6000);
    assert_eq!((pte.0 >> 6) & 3, 1);
}

#[test]
fn arm_kernel_window_layout() {
    let mut st = fresh_state();
    rust_map_kernel_window(&mut st);
    // the top-level window entry points at the kernel's second-level table
    let pud_paddr = (KB + 0x1000) - 0xFFFF_FFFF_8000_0000;
    assert_eq!(st.armKSGlobalKernelPGD.arr[511], pud_paddr | 3);
    // every second-level slot points at one third-level table page
    let pds_paddr = (KB + 0x2000) - 0xFFFF_FFFF_8000_0000;
    assert_eq!(st.armKSGlobalKernelPUD.arr[0], pds_paddr | 3);
    assert_eq!(st.armKSGlobalKernelPUD.arr[511], (pds_paddr + 511 * 4096) | 3);
    // the third-level tables map physical memory with 2 MiB blocks
    assert_eq!(st.armKSGlobalKernelPDs[0] & 0xffff_ffff_f000, 0);
    assert_eq!(st.armKSGlobalKernelPDs[1] & 0xffff_ffff_f000, 0x20_0000);
    // the very last slot points at the kernel's device-frame table
    let pt_paddr = (KB + 0x202000) - 0xFFFF_FFFF_8000_0000;
    assert_eq!(st.armKSGlobalKernelPDs[0x3ffff], pt_paddr | 3);
}

#[test]
fn arm_map_kernel_frame_writes_device_slot() {
    let mut st = fresh_state();
    map_kernel_frame(
        &mut st,
        0x900_0000,
        0xFFFF_FFFF_FFE0_5000,
        vm_rights_t::VMKernelOnly,
        vm_attributes_t::new(0),
    );
    let w = st.armKSGlobalKernelPT.arr[5];
    assert_eq!(w & 0xffff_ffff_f000, 0x900_0000);
    assert_eq!(w & 3, 3);
    assert_eq!((w >> 54) & 1, 1);
}

#[test]
fn arm_cache_walk_emits_every_set_and_way() {
    let mut hw: Vec<HwOp> = Vec::new();
    // a level-size word with one way and one set and 16-byte lines
    clean_invalidate_d_by_level(&mut hw, 0, 0);
    assert_eq!(hw, vec![HwOp::DcCisw { wsl: 0 }]);
    // two ways, two sets
    let lsize = (1u64 << 3) | (1u64 << 13);
    let mut hw2: Vec<HwOp> = Vec::new();
    clean_invalidate_d_by_level(&mut hw2, 1, lsize);
    assert_eq!(hw2.len(), 4);
    assert_eq!(hw2[0], HwOp::DcCisw { wsl: 0 | (1 << 1) });
    assert_eq!(hw2[1], HwOp::DcCisw { wsl: (1 << 4) | (1 << 1) });
    assert_eq!(hw2[2], HwOp::DcCisw { wsl: (1u64 << 31) | (1 << 1) });
    assert_eq!(hw2[3], HwOp::DcCisw { wsl: (1u64 << 31) | (1 << 4) | (1 << 1) });
}

#[test]
fn arm_l1_clean_brackets_walk_with_barriers() {
    let mut hw: Vec<HwOp> = Vec::new();
    // one data cache at level 0 (type 2), level of coherence 1
    let clid = (1u64 << 24) | 2;
    let lsizes = vec![0u64; 7];
    clean_invalidate_l1_caches(&mut hw, clid, &lsizes);
    assert_eq!(
        hw,
        vec![
            HwOp::Dsb,
            HwOp::DcCisw { wsl: 0 },
            HwOp::Dsb,
            HwOp::IcIallu,
            HwOp::Isb,
            HwOp::Dsb,
        ]
    );
}

#[test]
fn arm_activate_kernel_vspace_sequences_roots_and_flushes() {
    let mut st = fresh_state();
    let clid = (1u64 << 24) | 2;
    let lsizes = vec![0u64; 7];
    activate_kernel_vspace(&mut st, clid, &lsizes);
    let n = st.hw.len();
    assert_eq!(st.hw[n - 4..].to_vec(), vec![HwOp::Dsb, HwOp::TlbiAll, HwOp::Dsb, HwOp::Isb]);
    assert!(st.hw.iter().any(|op| matches!(op, HwOp::SetKernelRoot { .. })));
    assert!(st.hw.iter().any(|op| matches!(op, HwOp::SetUserRoot { .. })));
}

#[test]
fn arm_flush_root_switch_skips_current_root() {
    let (mut st, root) = state_with_mapping();
    let own = cap_t::new_page_global_directory_cap(5, root, 1);
    assert!(!set_vm_root_for_flush_with_thread_root(&mut st, root, 5, &own));
    assert!(st.hw.is_empty());
    let other = cap_t::new_page_global_directory_cap(5, root + 0x1000, 1);
    assert!(set_vm_root_for_flush_with_thread_root(&mut st, root, 5, &other));
    assert_eq!(st.hw[0], HwOp::SetUserRoot { val: ttbr_new(5, root - PPTR_BASE) });
}
