//! Switching the hardware translation root of the 3-level scheme.
//!
//! A candidate root capability is programmed into the root register only
//! after its recorded ASID is confirmed to still resolve to exactly that
//! root; on any validation failure the kernel's own root is installed
//! instead, so a stale or revoked root is never handed to the hardware.

use vstd::prelude::*;

use crate::cap::{cap_t, CapTag};
use crate::config::ASID_LIMIT;
use crate::hw::HwOp;
use crate::riscv64::asid::find_vspace_for_asid;
use crate::riscv64::satp::setVSpaceRoot;
use crate::riscv64::structures::VmState;
use crate::riscv64::utils::{kpptr_to_paddr, pptr_to_paddr, PPTR_BASE_OFFSET};
use crate::structures::lookup_fault_t;

verus! {

/// The operations `set_vm_root` emits, given the root the directory records
/// for the capability's ASID, the kernel root's page number, and the
/// capability itself.
pub open spec fn spec_set_vm_root_ops(vroot: u64, kroot_ppn: u64, cap: cap_t) -> Seq<HwOp> {
    if !(cap is PageTableCap) {
        seq![HwOp::SetSatp { asid: 0, ppn: kroot_ppn }, HwOp::SfenceAll]
    } else if vroot == cap->PageTableCap_base_ptr && vroot != 0 {
        seq![
            HwOp::SetSatp {
                asid: cap->PageTableCap_mapped_asid,
                ppn: ((vroot - PPTR_BASE_OFFSET) as u64) >> 12,
            },
            HwOp::SfenceAll,
        ]
    } else {
        seq![HwOp::SetSatp { asid: 0, ppn: kroot_ppn }, HwOp::SfenceAll]
    }
}

/// The operations `set_vm_root` emits in a given state.
pub open spec fn spec_set_vm_root_st_ops(st: VmState, cap: cap_t) -> Seq<HwOp> {
    spec_set_vm_root_ops(
        if cap is PageTableCap {
            st.spec_vspace_root(cap->PageTableCap_mapped_asid)
        } else {
            0
        },
        st.spec_kernel_root_ppn(),
        cap,
    )
}

/// Whether `set_vm_root` succeeds in a given state: a non-table capability
/// falls back to the kernel root successfully; a table capability succeeds
/// exactly when its recorded ASID still resolves to its own root.
pub open spec fn spec_set_vm_root_ok(st: VmState, cap: cap_t) -> bool {
    !(cap is PageTableCap) || (st.spec_vspace_root(cap->PageTableCap_mapped_asid)
        == cap->PageTableCap_base_ptr && cap->PageTableCap_base_ptr != 0)
}

/// The exact result `set_vm_root` returns in a given state.
pub open spec fn spec_set_vm_root_result(st: VmState, cap: cap_t) -> Result<(), lookup_fault_t> {
    if spec_set_vm_root_ok(st, cap) {
        Ok(())
    } else {
        Err(lookup_fault_t::InvalidRoot)
    }
}

/// Program the hardware root register from a candidate root capability.
///
/// The candidate's address reaches the hardware only when the capability is a
/// page-table capability whose recorded ASID still resolves to exactly that
/// root; otherwise the kernel's own root is installed, and a stale candidate
/// surfaces the root-invalid fault.
pub fn set_vm_root(st: &mut VmState, vspace_root: &cap_t) -> (r: Result<(), lookup_fault_t>)
    requires
        old(st).wf(),
        vspace_root is PageTableCap ==> vspace_root->PageTableCap_mapped_asid < ASID_LIMIT,
    ensures
        final(st).wf(),
        final(st).asid_pool_bases == old(st).asid_pool_bases,
        final(st).asid_roots == old(st).asid_roots,
        final(st).pool == old(st).pool,
        final(st).kernel_root == old(st).kernel_root,
        final(st).kernel_image_level2 == old(st).kernel_image_level2,
        final(st).hw@ == old(st).hw@ + spec_set_vm_root_st_ops(*old(st), *vspace_root),
        r == spec_set_vm_root_result(*old(st), *vspace_root),
{
    if vspace_root.get_cap_type() != CapTag::CapPageTableCap {
        let kroot = kpptr_to_paddr(st.kernel_root.base());
        setVSpaceRoot(&mut st.hw, kroot, 0);
        proof {
            assert(st.hw@ =~= old(st).hw@ + spec_set_vm_root_st_ops(*old(st), *vspace_root));
        }
        return Ok(());
    }
    let lvl1pt = vspace_root.get_pt_base_ptr();
    let asid = vspace_root.get_pt_mapped_asid();
    let find_ret = find_vspace_for_asid(st, asid);
    let ok = match find_ret.vspace_root {
        Some(root) => root == lvl1pt,
        None => false,
    };
    if !ok {
        let kroot = kpptr_to_paddr(st.kernel_root.base());
        setVSpaceRoot(&mut st.hw, kroot, 0);
        proof {
            assert(st.hw@ =~= old(st).hw@ + spec_set_vm_root_st_ops(*old(st), *vspace_root));
        }
        return Err(lookup_fault_t::new_root_invalid());
    }
    let paddr = pptr_to_paddr(lvl1pt);
    setVSpaceRoot(&mut st.hw, paddr, asid);
    proof {
        assert(st.hw@ =~= old(st).hw@ + spec_set_vm_root_st_ops(*old(st), *vspace_root));
    }
    Ok(())
}

} // verus!
