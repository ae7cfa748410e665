//! State-level tests of the 3-level scheme: ASID directory, walker,
//! verify-then-clear unmapping, root switching and the kernel window.

use vspace::cap::cap_t;
use vspace::hw::HwOp;
use vspace::riscv64::asid::{
    delete_asid, delete_asid_pool, find_vspace_for_asid, get_asid_pool_by_index, hwASIDFlush,
    set_asid_pool_by_index, write_it_asid_pool,
};
use vspace::riscv64::boot::{create_it_pt_cap, create_mapped_it_frame_cap};
use vspace::riscv64::interface::set_vm_root;
use vspace::riscv64::pagetable::{
    activate_kernel_vspace, copyGlobalMappings, lookup_pt_slot, rust_map_kernel_window, unmapPage,
    unmap_page_table,
};
use vspace::riscv64::pte::{pte_t, PTEFlags};
use vspace::riscv64::structures::{asid_pool_t, VmState};
use vspace::structures::{exception_t, lookup_fault_t};

const PPTR_BASE: u64 = 0xFFFF_FFC0_0000_0000;
const KROOT: u64 = 0xFFFF_FFFF_8400_0000;
const KL2: u64 = 0xFFFF_FFFF_8400_1000;

fn table_flags() -> PTEFlags {
    PTEFlags { v: true, r: false, w: false, x: false, u: false, g: false, a: false, d: false }
}

/// A state with one address space: root node at ppn 1, mid table at ppn 2,
/// leaf table at ppn 3, a 4 KiB page at vaddr 0x4000 -> paddr 0x6000, and the
/// root registered for ASID 5 in pool slot 0.
fn state_with_mapping() -> (VmState, u64) {
    let mut st = VmState::new(KROOT, KL2);
    st.pool.install_node(1);
    st.pool.install_node(2);
    st.pool.install_node(3);
    let root = PPTR_BASE + 0x1000;
    // 0x4000 takes index 0 at the top two levels and index 4 at the leaf level
    st.pool.write_entry(1, 0, pte_t::new(2, table_flags()).0);
    st.pool.write_entry(2, 0, pte_t::new(3, table_flags()).0);
    let leaf = pte_t::make_user_pte(0x6000, false, vspace::riscv64::vm_rights::vm_rights_t::VMReadWrite);
    st.pool.write_entry(3, 4, leaf.0);
    let mut pool = asid_pool_t::new_empty(PPTR_BASE + 0x5000);
    pool.set_vspace_by_index(5, root);
    set_asid_pool_by_index(&mut st, 0, &pool);
    (st, root)
}

#[test]
fn find_vspace_resolves_registered_asid() {
    let (st, root) = state_with_mapping();
    let r = find_vspace_for_asid(&st, 5);
    assert_eq!(r.status, exception_t::EXCEPTION_NONE);
    assert_eq!(r.vspace_root, Some(root));
    assert_eq!(r.lookup_fault, None);
}

#[test]
fn find_vspace_faults_without_pool_or_entry() {
    let (st, _) = state_with_mapping();
    // empty entry in a registered pool
    let r = find_vspace_for_asid(&st, 6);
    assert_eq!(r.status, exception_t::EXCEPTION_LOOKUP_FAULT);
    assert_eq!(r.lookup_fault, Some(lookup_fault_t::InvalidRoot));
    // no pool registered at that directory slot
    let r2 = find_vspace_for_asid(&st, 0x999);
    assert_eq!(r2.status, exception_t::EXCEPTION_LOOKUP_FAULT);
    assert_eq!(r2.vspace_root, None);
}

#[test]
fn walk_reaches_leaf_slot() {
    let (st, root) = state_with_mapping();
    let lu = lookup_pt_slot(&st.pool, root, 0x4000);
    assert_eq!(lu.ptBitsLeft, 12);
    assert_eq!(lu.ptSlot.ppn, 3);
    assert_eq!(lu.ptSlot.index, 4);
    let w = st.pool.read_entry(lu.ptSlot.ppn, lu.ptSlot.index);
    let pte = pte_t(w);
    assert_eq!(pte.get_valid(), 1);
    assert!(!pte.is_pte_table());
    assert_eq!(pte.get_ppn() << 12, 0x6000);
}

#[test]
fn walk_depth_counts_traversed_levels() {
    let mut st = VmState::new(KROOT, KL2);
    st.pool.install_node(1);
    let root = PPTR_BASE + 0x1000;
    // only the top level is populated: the walk stops after one level with
    // thirty bits untranslated
    let lu = lookup_pt_slot(&st.pool, root, 0x4000);
    assert_eq!(lu.ptBitsLeft, 30);
    assert_eq!(lu.ptSlot.ppn, 1);
    assert_eq!(lu.ptSlot.index, 0);
    // with one more level populated the walk stops with twenty-one bits left
    st.pool.install_node(2);
    st.pool.write_entry(1, 0, pte_t::new(2, table_flags()).0);
    let lu2 = lookup_pt_slot(&st.pool, root, 0x4000);
    assert_eq!(lu2.ptBitsLeft, 21);
    assert_eq!(lu2.ptSlot.ppn, 2);
}

#[test]
fn unmap_page_clears_and_fences() {
    let (mut st, _root) = state_with_mapping();
    let hw0 = st.hw.len();
    let r = unmapPage(&mut st, 0, 5, 0x4000, PPTR_BASE + 0x6000);
    assert!(r.is_ok());
    assert_eq!(st.pool.read_entry(3, 4), 0);
    assert_eq!(st.hw.len(), hw0 + 1);
    assert_eq!(st.hw[hw0], HwOp::SfenceAll);
}

#[test]
fn unmap_twice_is_noop_second_time() {
    let (mut st, _root) = state_with_mapping();
    unmapPage(&mut st, 0, 5, 0x4000, PPTR_BASE + 0x6000).unwrap();
    let hw1 = st.hw.len();
    let r = unmapPage(&mut st, 0, 5, 0x4000, PPTR_BASE + 0x6000);
    assert!(r.is_ok());
    assert_eq!(st.pool.read_entry(3, 4), 0);
    // the second call changed nothing and fenced nothing
    assert_eq!(st.hw.len(), hw1);
}

#[test]
fn stale_unmap_does_not_disturb_new_mapping() {
    let (mut st, _root) = state_with_mapping();
    unmapPage(&mut st, 0, 5, 0x4000, PPTR_BASE + 0x6000).unwrap();
    // a new object is mapped at the same (asid, vaddr)
    let newleaf =
        pte_t::make_user_pte(0x7000, false, vspace::riscv64::vm_rights::vm_rights_t::VMReadWrite);
    st.pool.write_entry(3, 4, newleaf.0);
    // retrying the unmap of the old object must not touch it
    let r = unmapPage(&mut st, 0, 5, 0x4000, PPTR_BASE + 0x6000);
    assert!(r.is_ok());
    assert_eq!(st.pool.read_entry(3, 4), newleaf.0);
}

#[test]
fn unmap_wrong_size_is_noop() {
    let (mut st, _root) = state_with_mapping();
    let r = unmapPage(&mut st, 1, 5, 0x4000, PPTR_BASE + 0x6000);
    assert!(r.is_ok());
    assert_ne!(st.pool.read_entry(3, 4), 0);
}

#[test]
fn unmap_unknown_asid_is_successful_noop() {
    let (mut st, _root) = state_with_mapping();
    let r = unmapPage(&mut st, 0, 0x999, 0x4000, PPTR_BASE + 0x6000);
    assert!(r.is_ok());
    assert_ne!(st.pool.read_entry(3, 4), 0);
    assert_eq!(st.hw.len(), 0);
}

#[test]
fn asid_pool_scenario_register_find_delete() {
    // allocate a pool at high-index 1, register a root at asid (1 << 9) | 3
    let mut st = VmState::new(KROOT, KL2);
    st.pool.install_node(2);
    let root = PPTR_BASE + 0x2000;
    let mut pool = asid_pool_t::new_empty(PPTR_BASE + 0x8000);
    pool.set_vspace_by_index(3, root);
    set_asid_pool_by_index(&mut st, 1, &pool);
    let asid = (1u64 << 9) | 3;
    let found = find_vspace_for_asid(&st, asid);
    assert_eq!(found.status, exception_t::EXCEPTION_NONE);
    assert_eq!(found.vspace_root, Some(root));
    let r = delete_asid(&mut st, asid, root, &cap_t::NullCap);
    assert!(r.is_ok());
    let after = find_vspace_for_asid(&st, asid);
    assert_eq!(after.status, exception_t::EXCEPTION_LOOKUP_FAULT);
    assert_eq!(after.lookup_fault, Some(lookup_fault_t::InvalidRoot));
    // the deletion fenced the ASID before switching roots
    assert!(st.hw.iter().any(|op| *op == HwOp::SfenceAsid { asid }));
}

#[test]
fn delete_asid_mismatched_root_is_noop() {
    let (mut st, root) = state_with_mapping();
    let r = delete_asid(&mut st, 5, root + 0x1000, &cap_t::NullCap);
    assert!(r.is_ok());
    let still = find_vspace_for_asid(&st, 5);
    assert_eq!(still.vspace_root, Some(root));
    assert_eq!(st.hw.len(), 0);
}

#[test]
fn delete_asid_pool_clears_registration() {
    let (mut st, root) = state_with_mapping();
    let pool = get_asid_pool_by_index(&st, 0).unwrap();
    assert_eq!(pool.get_vspace_by_index(5), Some(root));
    let r = delete_asid_pool(&mut st, 0, &pool, &cap_t::NullCap);
    assert!(r.is_ok());
    assert_eq!(find_vspace_for_asid(&st, 5).status, exception_t::EXCEPTION_LOOKUP_FAULT);
    assert!(get_asid_pool_by_index(&st, 0).is_none());
    // one fence per mapped entry of the pool
    assert!(st.hw.iter().any(|op| *op == HwOp::SfenceAsid { asid: 5 }));
}

#[test]
fn set_vm_root_programs_validated_root() {
    let (mut st, root) = state_with_mapping();
    let cap = cap_t::new_page_table_cap(5, root, 1, 0);
    let r = set_vm_root(&mut st, &cap);
    assert!(r.is_ok());
    assert_eq!(st.hw[0], HwOp::SetSatp { asid: 5, ppn: 1 });
    assert_eq!(st.hw[1], HwOp::SfenceAll);
}

#[test]
fn set_vm_root_stale_falls_back_to_kernel() {
    let (mut st, root) = state_with_mapping();
    // the recorded ASID no longer names this root
    let cap = cap_t::new_page_table_cap(5, root + 0x1000, 1, 0);
    let r = set_vm_root(&mut st, &cap);
    assert_eq!(r, Err(lookup_fault_t::InvalidRoot));
    let kroot_ppn = (KROOT - 0xFFFF_FFFF_0000_0000) >> 12;
    assert_eq!(st.hw[0], HwOp::SetSatp { asid: 0, ppn: kroot_ppn });
    // the candidate's address never reached the hardware
    assert!(!st.hw.iter().any(|op| matches!(op, HwOp::SetSatp { asid: 5, .. })));
}

#[test]
fn write_it_asid_pool_installs_initial_root() {
    let (mut st, root) = state_with_mapping();
    let ap_cap = cap_t::new_asid_pool_cap(0, PPTR_BASE + 0x9000);
    let vcap = cap_t::new_page_table_cap(1, root, 1, 0);
    write_it_asid_pool(&mut st, &ap_cap, &vcap);
    let r = find_vspace_for_asid(&st, 1);
    assert_eq!(r.vspace_root, Some(root));
    // the bootstrap pool replaced what slot 0 held
    assert_eq!(find_vspace_for_asid(&st, 5).status, exception_t::EXCEPTION_LOOKUP_FAULT);
}

#[test]
fn unmap_page_table_verify_then_clear() {
    let (mut st, _root) = state_with_mapping();
    // the mid-level table at ppn 2 is pointed at by root slot 0
    unmap_page_table(&mut st, 5, 0x4000, PPTR_BASE + 0x2000);
    assert_eq!(st.pool.read_entry(1, 0), 0);
    // a repeat is a no-op: the slot no longer points there
    let hw1 = st.hw.len();
    unmap_page_table(&mut st, 5, 0x4000, PPTR_BASE + 0x2000);
    assert_eq!(st.hw.len(), hw1);
}

#[test]
fn kernel_window_layout() {
    let mut st = VmState::new(KROOT, KL2);
    rust_map_kernel_window(&mut st);
    // direct window: giant leaf blocks from index 256
    let e256 = pte_t(st.kernel_root.entries[256]);
    assert_eq!(e256.get_valid(), 1);
    assert!(!e256.is_pte_table());
    assert_eq!(e256.get_ppn(), 0);
    let e257 = pte_t(st.kernel_root.entries[257]);
    assert_eq!(e257.get_ppn() << 12, 0x4000_0000);
    // the kernel image's region points at the second-level table, twice
    let l2_paddr = KL2 - 0xFFFF_FFFF_0000_0000;
    let e258 = pte_t(st.kernel_root.entries[258]);
    assert!(e258.is_pte_table());
    assert_eq!(e258.get_ppn() << 12, l2_paddr);
    let e510 = pte_t(st.kernel_root.entries[510]);
    assert!(e510.is_pte_table());
    assert_eq!(e510.get_ppn() << 12, l2_paddr);
    // the second-level table maps the image with 2 MiB leaves
    let l0 = pte_t(st.kernel_image_level2.entries[0]);
    assert_eq!(l0.get_ppn() << 12, 0x8000_0000);
    let l511 = pte_t(st.kernel_image_level2.entries[511]);
    assert_eq!(l511.get_ppn() << 12, 0x8000_0000 + 511 * 0x20_0000);
}

#[test]
fn copy_global_mappings_copies_kernel_half() {
    let mut st = VmState::new(KROOT, KL2);
    rust_map_kernel_window(&mut st);
    st.pool.install_node(7);
    copyGlobalMappings(&mut st, PPTR_BASE + 0x7000);
    assert_eq!(st.pool.read_entry(7, 256), st.kernel_root.entries[256]);
    assert_eq!(st.pool.read_entry(7, 510), st.kernel_root.entries[510]);
    assert_eq!(st.pool.read_entry(7, 0), 0);
}

#[test]
fn activate_kernel_vspace_programs_kernel_root() {
    let mut st = VmState::new(KROOT, KL2);
    activate_kernel_vspace(&mut st);
    let kroot_ppn = (KROOT - 0xFFFF_FFFF_0000_0000) >> 12;
    assert_eq!(st.hw, vec![HwOp::SetSatp { asid: 0, ppn: kroot_ppn }, HwOp::SfenceAll]);
}

#[test]
fn boot_mappings_install_entries() {
    let mut st = VmState::new(KROOT, KL2);
    st.pool.install_node(1);
    st.pool.install_node(2);
    st.pool.install_node(3);
    let root = PPTR_BASE + 0x1000;
    st.pool.write_entry(1, 0, pte_t::new(2, table_flags()).0);
    st.pool.write_entry(2, 0, pte_t::new(3, table_flags()).0);
    let vspace_cap = cap_t::new_page_table_cap(1, root, 1, 0);
    // install a fresh table over the leaf-level slot for 0x20_0000
    let pt_cap = create_it_pt_cap(&mut st, &vspace_cap, PPTR_BASE + 0x4000, 0x20_0000, 1);
    match pt_cap {
        cap_t::PageTableCap { base_ptr, .. } => assert_eq!(base_ptr, PPTR_BASE + 0x4000),
        _ => panic!("expected a page-table capability"),
    }
    // 0x20_0000 has mid-level index 1: the walk stopped at ppn 2, slot 1
    let w = st.pool.read_entry(2, 1);
    assert!(pte_t(w).is_pte_table());
    assert_eq!(pte_t(w).get_ppn(), 4);
    // install the initial frame through the same path
    let fcap = create_mapped_it_frame_cap(&mut st, &vspace_cap, PPTR_BASE + 0x6000, 0x4000, 1, false, false);
    match fcap {
        cap_t::FrameCap { mapped_address, .. } => assert_eq!(mapped_address, 0x4000),
        _ => panic!("expected a frame capability"),
    }
    let leaf = pte_t(st.pool.read_entry(3, 4));
    assert_eq!(leaf.get_valid(), 1);
    assert_eq!(leaf.get_ppn() << 12, 0x6000);
}

#[test]
fn hw_asid_flush_appends_fence() {
    let mut hw: Vec<HwOp> = Vec::new();
    hwASIDFlush(&mut hw, 7);
    assert_eq!(hw, vec![HwOp::SfenceAsid { asid: 7 }]);
}
