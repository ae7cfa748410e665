//! Entry-codec and plain-value tests for both paging schemes.

use vspace::aarch64::machine::{mair_types, ttbr_new};
use vspace::aarch64::pte::{PTEFlags as ArmPTEFlags, VMPageSize, PTEFLAG_AF, PTEFLAG_UXN};
use vspace::aarch64::utils::{PDE, PGDE, PTE, PUDE};
use vspace::aarch64::vm_rights::vm_rights_t as arm_rights;
use vspace::cap::seL4_CapRights_t;
use vspace::riscv64::pte::{pte_t, PTEFlags};
use vspace::riscv64::satp::satp_t;
use vspace::riscv64::utils::{checkVPAlignment, pageBitsForSize, RISCV_GET_PT_INDEX};
use vspace::riscv64::vm_rights::vm_rights_t;
use vspace::structures::vm_attributes_t;
use vspace::vm_rights::{maskVMRights, VMKernelOnly, VMReadOnly, VMReadWrite};

fn all_flags(v: bool, r: bool, w: bool, x: bool, u: bool, g: bool, a: bool, d: bool) -> PTEFlags {
    PTEFlags { v, r, w, x, u, g, a, d }
}

#[test]
fn riscv_pte_round_trip_all_fields() {
    let flags = all_flags(true, true, false, true, true, false, true, true);
    let pte = pte_t::new(0x1234_5678, flags);
    assert_eq!(pte.get_valid(), 1);
    assert_eq!(pte.get_read(), 1);
    assert_eq!(pte.get_write(), 0);
    assert_eq!(pte.get_execute(), 1);
    assert_eq!(pte.get_ppn(), 0x1234_5678);
    assert!(!pte.is_pte_table());
}

#[test]
fn riscv_pte_table_encoding() {
    let pte = pte_t::pte_next_table(0x8020_0000, false);
    assert_eq!(pte.get_valid(), 1);
    assert_eq!(pte.get_read(), 0);
    assert_eq!(pte.get_write(), 0);
    assert_eq!(pte.get_execute(), 0);
    assert!(pte.is_pte_table());
    assert_eq!(pte.get_ppn(), 0x8020_0000 >> 12);
    let leaf = pte_t::pte_next_table(0x8020_0000, true);
    assert!(!leaf.is_pte_table());
    assert_eq!(leaf.get_valid(), 1);
}

#[test]
fn riscv_no_rights_encodes_invalid() {
    let pte = pte_t::make_user_pte(0x8000_1000, false, vm_rights_t::VMKernelOnly);
    assert_eq!(pte.0, 0);
    assert_eq!(pte.get_valid(), 0);
}

#[test]
fn riscv_user_pte_rights() {
    let rw = pte_t::make_user_pte(0x8000_1000, false, vm_rights_t::VMReadWrite);
    assert_eq!(rw.get_valid(), 1);
    assert_eq!(rw.get_read(), 1);
    assert_eq!(rw.get_write(), 1);
    assert_eq!(rw.get_execute(), 0);
    assert_eq!(rw.get_ppn(), 0x8000_1000 >> 12);
    let ro = pte_t::make_user_pte(0x8000_1000, false, vm_rights_t::VMReadOnly);
    assert_eq!(ro.get_read(), 1);
    assert_eq!(ro.get_write(), 0);
    let xo = pte_t::make_user_pte(0x8000_1000, true, vm_rights_t::VMKernelOnly);
    assert_eq!(xo.get_valid(), 1);
    assert_eq!(xo.get_execute(), 1);
    assert_eq!(xo.get_read(), 0);
}

#[test]
fn mask_vm_rights_intersects() {
    let rw = seL4_CapRights_t::new(0, 0, 1, 1);
    let ro = seL4_CapRights_t::new(0, 0, 1, 0);
    let none = seL4_CapRights_t::new(0, 0, 0, 0);
    assert_eq!(maskVMRights(VMReadWrite, rw), VMReadWrite);
    assert_eq!(maskVMRights(VMReadWrite, ro), VMReadOnly);
    assert_eq!(maskVMRights(VMReadOnly, rw), VMReadOnly);
    assert_eq!(maskVMRights(VMReadOnly, none), VMKernelOnly);
    assert_eq!(maskVMRights(VMKernelOnly, rw), VMKernelOnly);
}

#[test]
fn arm_mask_vm_rights_intersects() {
    let rw = seL4_CapRights_t::new(0, 0, 1, 1);
    let ro = seL4_CapRights_t::new(0, 0, 1, 0);
    assert_eq!(
        vspace::aarch64::vm_rights::maskVMRights(arm_rights::VMReadWrite, rw),
        arm_rights::VMReadWrite
    );
    assert_eq!(
        vspace::aarch64::vm_rights::maskVMRights(arm_rights::VMReadWrite, ro),
        arm_rights::VMReadOnly
    );
    assert_eq!(
        vspace::aarch64::vm_rights::maskVMRights(arm_rights::VMKernelOnly, rw),
        arm_rights::VMKernelOnly
    );
}

#[test]
fn satp_word_layout() {
    let s = satp_t::new(8, 0x42, 0x8765_4321);
    assert_eq!(s.words, (8u64 << 60) | (0x42u64 << 44) | 0x8765_4321);
}

#[test]
fn ttbr_word_layout() {
    assert_eq!(ttbr_new(0x42, 0x8000_0000), (0x42u64 << 48) | 0x8000_0000);
    // the ASID is clipped to sixteen bits, the address to forty-eight
    assert_eq!(ttbr_new(0x1_0005, 0x1_0000_0000_0000), (5u64 << 48));
}

#[test]
fn riscv_index_and_alignment_helpers() {
    assert_eq!(RISCV_GET_PT_INDEX(0x4000, 2), 4);
    assert_eq!(RISCV_GET_PT_INDEX(0x4000, 1), 0);
    assert_eq!(RISCV_GET_PT_INDEX(0x8020_0000, 1), 1);
    assert_eq!(pageBitsForSize(0), 12);
    assert_eq!(pageBitsForSize(1), 21);
    assert_eq!(pageBitsForSize(2), 30);
    assert!(checkVPAlignment(0, 0x4000));
    assert!(!checkVPAlignment(1, 0x4000));
    assert!(checkVPAlignment(1, 0x20_0000));
}

#[test]
fn vm_page_size_from_value() {
    assert_eq!(VMPageSize::try_from_usize(0), Some(VMPageSize::ARMSmallPage));
    assert_eq!(VMPageSize::try_from_usize(1), Some(VMPageSize::ARMLargePage));
    assert_eq!(VMPageSize::try_from_usize(2), Some(VMPageSize::ARMHugePage));
    assert_eq!(VMPageSize::try_from_usize(3), None);
}

#[test]
fn attributes_decode() {
    let a = vm_attributes_t::new(5);
    assert!(a.get_armExecuteNever());
    assert!(a.get_armPageCacheable());
    assert_eq!(a.get_attr_index(), mair_types::NORMAL);
    let b = vm_attributes_t::from_word(0);
    assert!(!b.get_armExecuteNever());
    assert_eq!(b.get_attr_index(), mair_types::DEVICE_nGnRnE);
    let mut c = vm_attributes_t::new(0);
    c.set_execute_never(1);
    assert_eq!(c.get_execute_never(), 1);
}

#[test]
fn arm_pte_new_round_trip() {
    let w = PTE::pte_new(1, 0x8123_4000, 1, 1, 0, 3, 4, 3).0;
    assert_eq!((w >> 54) & 1, 1);
    assert_eq!(w & 0xffff_ffff_f000, 0x8123_4000);
    assert_eq!((w >> 11) & 1, 1);
    assert_eq!((w >> 10) & 1, 1);
    assert_eq!((w >> 8) & 3, 0);
    assert_eq!((w >> 6) & 3, 3);
    assert_eq!((w >> 2) & 7, 4);
    assert_eq!(w & 3, 3);
    let pte = PTE(w);
    assert!(pte.pte_ptr_get_present());
    assert_eq!(pte.pte_ptr_get_page_base_address(), 0x8123_4000);
}

#[test]
fn arm_block_entries_round_trip() {
    let pude = PUDE::new_1g(true, 0x1_4000_0000, 1, 1, 0, 1, mair_types::NORMAL);
    assert!(pude.is_1g_page());
    assert!(!pude.get_present());
    assert_eq!(pude.pude_1g_ptr_get_page_base_address(), 0x1_4000_0000);
    let pde = PDE::new_large(false, 0x8060_0000, 1, 1, 0, 1, mair_types::NORMAL);
    assert!(pde.is_larger_page());
    assert!(!pde.get_present());
    assert_eq!(pde.pde_large_ptr_get_page_base_address(), 0x8060_0000);
    let small = PDE::new_small(0x8123_4000);
    assert!(small.get_present());
    assert_eq!(small.get_pt_base_address(), 0x8123_4000);
    let table = PGDE::new_from_pte((0x8123_4000) | 3);
    assert!(table.get_present());
    assert_eq!(table.get_pud_base_address(), 0x8123_4000);
}

#[test]
fn arm_user_pte_small_is_tagged_page() {
    let attr = vm_attributes_t::new(1);
    let w = PTE::make_user_pte(0x8123_4000, arm_rights::VMReadWrite, attr, 0).0;
    assert_eq!(w & 3, 3);
    assert_eq!(w & 0xffff_ffff_f000, 0x8123_4000);
    assert_eq!((w >> 6) & 3, 1);
    // a block entry at a larger size class carries no page tag
    let wb = PTE::make_user_pte(0x8060_0000, arm_rights::VMReadWrite, attr, 1).0;
    assert_eq!(wb & 0xffff_ffff_f000, 0x8060_0000);
    assert_eq!(wb & 2, 0);
}

#[test]
fn arm_pte_helpers() {
    let w = PTE::new(0x8123_4567, ArmPTEFlags(PTEFLAG_UXN | PTEFLAG_AF));
    assert_eq!(w.0 & 0xffff_ffff_f000, 0x8123_4000);
    assert_eq!(w.as_pgde().0, w.0);
    assert_eq!(w.as_pude().0, w.0);
    assert_eq!(w.as_pde().0, w.0);
    assert_eq!(w.get_valid(), 0);
    let t = PTE::pte_next_table(0x8123_4000, true);
    assert!(t.is_pte_table());
    assert!(t.pte_table_get_present());
    assert_eq!(t.get_valid(), 1);
    // the page number reproduces the address field exactly
    let n = PTE(0x1000);
    assert_eq!(n.get_ppn(), 1);
    assert_eq!(t.get_ppn() << 12, t.pte_ptr_get_page_base_address());
}
