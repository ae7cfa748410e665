//! Component-level tests: the node arena, the kernel-owned table type, the
//! boot-time installation paths of the 4-level scheme, and the maintenance
//! helpers.

use vspace::aarch64::boot::{create_it_pd_cap, create_it_pud_cap, create_mapped_it_frame_cap};
use vspace::aarch64::machine::{
    assoc, clean_cache_range_ram, ctype, line_bits, loc, nsets, setCurrentKernelVSpaceRoot,
};
use vspace::aarch64::structures::{PageAligned, VmState as ArmVmState};
use vspace::aarch64::utils::{GET_KPT_INDEX, PGDE, PTE};
use vspace::cap::{cap_t, CapTag};
use vspace::hw::HwOp;
use vspace::pagetable::PageTable;
use vspace::pool::PtPool;
use vspace::riscv64::pte::{pte_t, PTEFlags};
use vspace::riscv64::satp::{setVSpaceRoot, sfence};
use vspace::structures::paddr_t;

const PPTR_BASE_ARM: u64 = 0xFFFF_FF80_0000_0000;
const KB: u64 = 0xFFFF_FFFF_E000_0000;

#[test]
fn pool_install_read_write() {
    let mut pool = PtPool::new();
    assert!(!pool.contains_node(7));
    pool.install_node(7);
    assert!(pool.contains_node(7));
    assert_eq!(pool.read_entry(7, 0), 0);
    assert_eq!(pool.read_entry(7, 511), 0);
    pool.write_entry(7, 3, 0xdead);
    assert_eq!(pool.read_entry(7, 3), 0xdead);
    assert_eq!(pool.read_entry(7, 2), 0);
    pool.install_node(9);
    assert_eq!(pool.read_entry(9, 3), 0);
    assert_eq!(pool.read_entry(7, 3), 0xdead);
    assert_eq!(pool.find_node(9), Some(1));
    assert_eq!(pool.find_node(8), None);
}

#[test]
fn page_table_node_operations() {
    let mut pt = PageTable::new(paddr_t(0x8400_0000));
    assert_eq!(pt.base(), 0x8400_0000);
    pt.set(0x8400_2000);
    assert_eq!(pt.base(), 0x8400_2000);
    pt.map_next_table(7, 0x8000_0000, false);
    let list = pt.get_pte_list();
    assert_eq!(list.len(), 512);
    assert!(list[7].is_pte_table());
    assert_eq!(list[7].get_ppn(), 0x8000_0000 >> 12);
    assert_eq!(list[6].0, 0);
}

#[test]
fn pte_update_fences() {
    let mut hw: Vec<HwOp> = Vec::new();
    let mut e = pte_t(0);
    e.update(pte_t::pte_next_table(0x8000_0000, false), &mut hw);
    assert_eq!(e.get_ppn(), 0x8000_0000 >> 12);
    assert_eq!(hw, vec![HwOp::SfenceAll]);
}

#[test]
fn riscv_root_register_helpers() {
    let mut hw: Vec<HwOp> = Vec::new();
    setVSpaceRoot(&mut hw, 0x8400_0000, 3);
    sfence(&mut hw);
    assert_eq!(
        hw,
        vec![
            HwOp::SetSatp { asid: 3, ppn: 0x8400_0000 >> 12 },
            HwOp::SfenceAll,
            HwOp::SfenceAll,
        ]
    );
}

#[test]
fn arm_kernel_root_register_helper() {
    let mut hw: Vec<HwOp> = Vec::new();
    setCurrentKernelVSpaceRoot(&mut hw, 0x42);
    assert_eq!(hw, vec![HwOp::SetKernelRoot { val: 0x42 }]);
}

#[test]
fn cache_size_fields_decode() {
    // a level word: line bits 4 + 2, 4 ways, 128 sets
    let s = 2u64 | (3 << 3) | (127 << 13);
    assert_eq!(line_bits(s), 6);
    assert_eq!(assoc(s), 4);
    assert_eq!(nsets(s), 128);
    let clid = (2u64 << 24) | 2 | (4 << 3);
    assert_eq!(loc(clid), 2);
    assert_eq!(ctype(clid, 0), 2);
    assert_eq!(ctype(clid, 1), 4);
}

#[test]
fn clean_range_is_one_barrier() {
    let mut hw: Vec<HwOp> = Vec::new();
    clean_cache_range_ram(&mut hw, 0x1000, 0x2000, 0x8000_1000);
    assert_eq!(hw, vec![HwOp::Dsb]);
}

#[test]
fn page_aligned_storage() {
    let mut t: PageAligned<u64> = PageAligned::new(5);
    assert_eq!(t.get(0), 5);
    assert_eq!(t.get(511), 5);
    t.set(9, 7);
    assert_eq!(t.get(9), 7);
    assert_eq!(t.get(10), 5);
}

#[test]
fn kpt_index_slices() {
    assert_eq!(GET_KPT_INDEX(PPTR_BASE_ARM, 0), 511);
    assert_eq!(GET_KPT_INDEX(PPTR_BASE_ARM, 1), 0);
    assert_eq!(GET_KPT_INDEX(0x4000_0000, 1), 1);
    assert_eq!(GET_KPT_INDEX(0x20_0000, 2), 1);
    assert_eq!(GET_KPT_INDEX(0x4000, 3), 4);
}

#[test]
fn arm_boot_installation_path() {
    let mut st = ArmVmState::new(KB, KB + 0x1000, KB + 0x2000, KB + 0x202000, KB + 0x203000);
    st.pool.install_node(1);
    st.pool.install_node(2);
    st.pool.install_node(3);
    st.pool.install_node(4);
    let root = PPTR_BASE_ARM + 0x1000;
    let vspace_cap = cap_t::new_page_global_directory_cap(1, root, 1);
    // top level: install the second-level table at ppn 2
    let pud_cap = create_it_pud_cap(&mut st, &vspace_cap, PPTR_BASE_ARM + 0x2000, 0x4000, 1);
    assert_eq!(pud_cap.get_cap_type(), CapTag::CapPageUpperDirectoryCap);
    assert_eq!(st.pool.read_entry(1, 0), 0x2000 | 3);
    // second level: install the third-level table at ppn 3
    let pd_cap = create_it_pd_cap(&mut st, &vspace_cap, PPTR_BASE_ARM + 0x3000, 0x4000, 1);
    assert_eq!(pd_cap.get_cap_type(), CapTag::CapPageDirectoryCap);
    assert_eq!(st.pool.read_entry(2, 0), 0x3000 | 3);
    // third level: install the last-level table at ppn 4
    vspace::aarch64::boot::map_it_pt_cap(
        &mut st,
        &vspace_cap,
        &cap_t::new_page_table_cap(1, PPTR_BASE_ARM + 0x4000, 1, 0x4000),
    );
    assert_eq!(st.pool.read_entry(3, 0), 0x4000 | 3);
    // last level: install the initial frame, executable
    let fcap = create_mapped_it_frame_cap(
        &mut st,
        &vspace_cap,
        PPTR_BASE_ARM + 0x6000,
        0x4000,
        1,
        false,
        true,
    );
    assert_eq!(fcap.get_cap_type(), CapTag::CapFrameCap);
    let w = st.pool.read_entry(4, 4);
    let pte = PTE(w);
    assert!(pte.pte_ptr_get_present());
    assert_eq!(pte.pte_ptr_get_page_base_address(), 0x6000);
    // executable: the execute-never bit is clear
    assert_eq!((w >> 54) & 1, 0);
    // and the frame is found by the walk
    let lu = PGDE::new_from_pte(root).lookup_frame(&st.pool, 0x4000);
    assert!(lu.valid);
    assert_eq!(lu.frameBase, 0x6000);
}

#[test]
fn riscv_pool_object_accessors() {
    let mut pool = vspace::riscv64::structures::asid_pool_t::new_empty(0xFFFF_FFC0_0000_5000);
    assert_eq!(pool.get_ptr(), 0xFFFF_FFC0_0000_5000);
    assert_eq!(pool.get_vspace_by_index(3), None);
    pool.set_vspace_by_index(3, 0xFFFF_FFC0_0000_2000);
    assert_eq!(pool.get_vspace_by_index(3), Some(0xFFFF_FFC0_0000_2000));
}

#[test]
fn riscv_unmapped_frame_cap() {
    let cap = vspace::riscv64::boot::create_unmapped_it_frame_cap(0xFFFF_FFC0_0000_6000, false);
    match cap {
        cap_t::FrameCap { base_ptr, mapped_asid, .. } => {
            assert_eq!(base_ptr, 0xFFFF_FFC0_0000_6000);
            assert_eq!(mapped_asid, 0);
        },
        _ => panic!("expected a frame capability"),
    }
}
