//! ASID directory of the 4-level scheme: registration and lookup of ASID
//! pools, resolution of an ASID to its VSpace root, and teardown with the TLB
//! invalidation and root fallback it requires.

use vstd::prelude::*;

use crate::aarch64::interface::{
    set_vm_root, spec_set_vm_root_result, spec_set_vm_root_st_ops,
};
use crate::aarch64::machine::invalidate_local_tlb_asid;
use crate::aarch64::structures::{asid_map_t, asid_pool_t, VmState};
use crate::cap::cap_t;
use crate::config::{ASID_LIMIT, IT_ASID};
use crate::hw::HwOp;
use crate::structures::{asid_t, exception_t, findVSpaceForASID_ret, lookup_fault_t, pptr_t};

verus! {

/// The map entry the directory holds for an ASID, when its pool is
/// registered: empty or the recorded root.
pub fn find_map_for_asid(st: &VmState, asid: asid_t) -> (r: Option<asid_map_t>)
    requires
        st.wf(),
        asid < ASID_LIMIT,
    ensures
        st.asid_pool_bases@[VmState::spec_pool_index(asid)] == 0 ==> r is None,
        st.asid_pool_bases@[VmState::spec_pool_index(asid)] != 0 ==> r == Some(
            if st.spec_vspace_root(asid) == 0 {
                asid_map_t::asid_map_none
            } else {
                asid_map_t::asid_map_vspace { vspace_root: st.spec_vspace_root(asid) }
            },
        ),
{
    proof {
        crate::bits::lemma_asid_split(asid);
    }
    let hi = (asid >> 9) as usize;
    let base = st.asid_pool_bases[hi];
    if base == 0 {
        return None;
    }
    let lo = (asid & 0x1ff) as usize;
    let root = st.asid_roots[hi * 512 + lo];
    if root == 0 {
        Some(asid_map_t::new_none())
    } else {
        Some(asid_map_t::new_vspace(root))
    }
}

/// Resolve an ASID to its recorded VSpace root. Returns the root exactly when
/// the ASID's pool is registered and its entry records one; otherwise the
/// root-invalid fault.
pub fn find_vspace_for_asid(st: &VmState, asid: asid_t) -> (r: findVSpaceForASID_ret)
    requires
        st.wf(),
        asid < ASID_LIMIT,
    ensures
        st.spec_vspace_root(asid) == 0 ==> r == (findVSpaceForASID_ret {
            status: exception_t::EXCEPTION_LOOKUP_FAULT,
            vspace_root: None,
            lookup_fault: Some(lookup_fault_t::InvalidRoot),
        }),
        st.spec_vspace_root(asid) != 0 ==> r == (findVSpaceForASID_ret {
            status: exception_t::EXCEPTION_NONE,
            vspace_root: Some(st.spec_vspace_root(asid)),
            lookup_fault: None,
        }),
        st.spec_vspace_root(asid) != 0 ==> st.root_ok(st.spec_vspace_root(asid)),
{
    proof {
        crate::bits::lemma_asid_split(asid);
    }
    let mut ret = findVSpaceForASID_ret {
        status: exception_t::EXCEPTION_LOOKUP_FAULT,
        vspace_root: None,
        lookup_fault: Some(lookup_fault_t::new_root_invalid()),
    };
    match find_map_for_asid(st, asid) {
        Some(asid_map) => {
            if asid_map.get_type() == 1 {
                ret.vspace_root = Some(asid_map.get_vspace_root());
                ret.status = exception_t::EXCEPTION_NONE;
                ret.lookup_fault = None;
            }
        },
        None => {},
    }
    ret
}

/// The pool registered at one directory slot, reconstructed as a pool object;
/// absent when the index is out of range or no pool is registered there.
pub fn get_asid_pool_by_index(st: &VmState, index: u64) -> (r: Option<asid_pool_t>)
    requires
        st.wf(),
    ensures
        (index >= 128 || st.asid_pool_bases@[index as int] == 0) ==> r is None,
        (index < 128 && st.asid_pool_bases@[index as int] != 0) ==> match r {
            Some(pool) => pool.wf() && pool.base == st.asid_pool_bases@[index as int]
                && (forall|j: int|
                0 <= j < 512 ==> pool.array@[j] == st.asid_roots@[index as int * 512 + j]),
            None => false,
        },
{
    if index >= 128 {
        return None;
    }
    let base = st.asid_pool_bases[index as usize];
    if base == 0 {
        return None;
    }
    let mut array: Vec<pptr_t> = Vec::new();
    let start = (index as usize) * 512;
    let mut j: usize = 0;
    while j < 512
        invariant
            st.wf(),
            j <= 512,
            index < 128,
            start == index * 512,
            array@.len() == j,
            forall|m: int| 0 <= m < j ==> array@[m] == st.asid_roots@[index as int * 512 + m],
        decreases 512 - j,
    {
        array.push(st.asid_roots[start + j]);
        j = j + 1;
    }
    Some(asid_pool_t { base, array })
}

/// Register a pool object's contents at one directory slot (or clear the
/// slot), replacing whatever was registered there.
pub fn set_asid_pool_by_index(st: &mut VmState, index: u64, val: Option<&asid_pool_t>)
    requires
        old(st).wf(),
        index < 128,
        match val {
            Some(pool) => pool.wf() && pool.base != 0 && (forall|j: int|
                0 <= j < 512 ==> (#[trigger] pool.array@[j] == 0 || old(st).root_ok(
                    pool.array@[j],
                ))),
            None => true,
        },
    ensures
        final(st).wf(),
        match val {
            Some(pool) => {
                &&& final(st).asid_pool_bases@ == old(st).asid_pool_bases@.update(
                    index as int,
                    pool.base,
                )
                &&& (forall|k: int|
                    0 <= k < 65536 && !(index * 512 <= k < index * 512 + 512) ==> final(st).asid_roots@[k]
                        == old(st).asid_roots@[k])
                &&& (forall|j: int|
                    0 <= j < 512 ==> final(st).asid_roots@[index as int * 512 + j]
                        == pool.array@[j])
            },
            None => {
                &&& final(st).asid_pool_bases@ == old(st).asid_pool_bases@.update(
                    index as int,
                    0u64,
                )
                &&& final(st).asid_roots@ == old(st).asid_roots@
            },
        },
        final(st).pool == old(st).pool,
        final(st).armKSGlobalKernelPGD == old(st).armKSGlobalKernelPGD,
        final(st).armKSGlobalKernelPUD == old(st).armKSGlobalKernelPUD,
        final(st).armKSGlobalKernelPDs == old(st).armKSGlobalKernelPDs,
        final(st).armKSGlobalKernelPT == old(st).armKSGlobalKernelPT,
        final(st).armKSGlobalUserVSpace == old(st).armKSGlobalUserVSpace,
        final(st).kernel_pgd_base == old(st).kernel_pgd_base,
        final(st).kernel_pud_base == old(st).kernel_pud_base,
        final(st).kernel_pds_base == old(st).kernel_pds_base,
        final(st).kernel_pt_base == old(st).kernel_pt_base,
        final(st).user_vspace_base == old(st).user_vspace_base,
        final(st).hw == old(st).hw,
{
    match val {
        Some(pool) => {
            let start = (index as usize) * 512;
            let mut j: usize = 0;
            while j < 512
                invariant
                    old(st).wf(),
                    index < 128,
                    start == index * 512,
                    j <= 512,
                    st.asid_roots@.len() == 65536,
                    st.asid_pool_bases@ == old(st).asid_pool_bases@,
                    st.pool == old(st).pool,
                    st.armKSGlobalKernelPGD == old(st).armKSGlobalKernelPGD,
                    st.armKSGlobalKernelPUD == old(st).armKSGlobalKernelPUD,
                    st.armKSGlobalKernelPDs == old(st).armKSGlobalKernelPDs,
                    st.armKSGlobalKernelPT == old(st).armKSGlobalKernelPT,
                    st.armKSGlobalUserVSpace == old(st).armKSGlobalUserVSpace,
                    st.kernel_pgd_base == old(st).kernel_pgd_base,
                    st.kernel_pud_base == old(st).kernel_pud_base,
                    st.kernel_pds_base == old(st).kernel_pds_base,
                    st.kernel_pt_base == old(st).kernel_pt_base,
                    st.user_vspace_base == old(st).user_vspace_base,
                    st.hw == old(st).hw,
                    pool.wf(),
                    forall|j2: int|
                        0 <= j2 < 512 ==> (#[trigger] pool.array@[j2] == 0 || old(st).root_ok(
                            pool.array@[j2],
                        )),
                    forall|k: int|
                        0 <= k < 65536 && !(index * 512 <= k < index * 512 + j)
                            ==> st.asid_roots@[k] == old(st).asid_roots@[k],
                    forall|m: int|
                        0 <= m < j ==> st.asid_roots@[index as int * 512 + m] == pool.array@[m],
                decreases 512 - j,
            {
                st.asid_roots.set(start + j, pool.array[j]);
                j = j + 1;
            }
            st.asid_pool_bases.set(index as usize, pool.base);
            proof {
                assert forall|k: int|
                    0 <= k < 65536 implies (#[trigger] st.asid_roots@[k] == 0 || st.root_ok(
                    st.asid_roots@[k],
                )) by {
                    if index * 512 <= k < index * 512 + 512 {
                        let m = k - index * 512;
                        assert(st.asid_roots@[k] == pool.array@[m]);
                        assert(pool.array@[m] == 0 || old(st).root_ok(pool.array@[m]));
                    } else {
                        assert(st.asid_roots@[k] == old(st).asid_roots@[k]);
                    }
                }
            }
        },
        None => {
            st.asid_pool_bases.set(index as usize, 0);
        },
    }
}

/// Bootstrap: install the initial thread's VSpace root at the reserved
/// initial ASID, registering the given pool object at directory slot 0.
pub fn write_it_asid_pool(st: &mut VmState, it_ap_cap: &cap_t, it_vspace_cap: &cap_t)
    requires
        old(st).wf(),
        it_ap_cap is ASIDPoolCap,
        it_ap_cap->ASIDPoolCap_pool_ptr != 0,
        it_vspace_cap is PageGlobalDirectoryCap,
        old(st).root_ok(it_vspace_cap->PageGlobalDirectoryCap_base_ptr),
    ensures
        final(st).wf(),
        final(st).asid_pool_bases@ == old(st).asid_pool_bases@.update(
            0,
            it_ap_cap->ASIDPoolCap_pool_ptr,
        ),
        forall|j: int|
            0 <= j < 512 ==> final(st).asid_roots@[j] == (if j == IT_ASID {
                it_vspace_cap->PageGlobalDirectoryCap_base_ptr
            } else {
                0u64
            }),
        forall|k: int| 512 <= k < 65536 ==> final(st).asid_roots@[k] == old(st).asid_roots@[k],
        final(st).spec_vspace_root(IT_ASID)
            == it_vspace_cap->PageGlobalDirectoryCap_base_ptr,
        final(st).pool == old(st).pool,
        final(st).hw == old(st).hw,
{
    let ap = it_ap_cap.get_asid_pool();
    let root = it_vspace_cap.get_pgd_base_ptr();
    let mut pool = asid_pool_t::new_empty(ap);
    pool.set_asid_map(IT_ASID, &asid_map_t::new_vspace(root));
    proof {
        crate::bits::lemma_it_asid();
    }
    let idx = IT_ASID >> 9;
    set_asid_pool_by_index(st, idx, Some(&pool));
    proof {
        assert forall|j: int| 0 <= j < 512 implies st.asid_roots@[j] == (if j == IT_ASID {
            it_vspace_cap->PageGlobalDirectoryCap_base_ptr
        } else {
            0u64
        }) by {
            assert(st.asid_roots@[idx as int * 512 + j] == pool.array@[j]);
        }
        assert(st.spec_vspace_root(IT_ASID) == st.asid_roots@[1]);
    }
}

/// Remove one ASID from its pool, provided the pool still records exactly the
/// given root: a stale request (pool gone, entry empty, or entry reused for a
/// different root) is a successful no-op that changes nothing. On a match,
/// translations tagged with the ASID are invalidated, the entry is cleared,
/// and the hardware root falls back to the given default.
pub fn delete_asid(st: &mut VmState, asid: asid_t, vspace: pptr_t, cap: &cap_t) -> (r: Result<
    (),
    lookup_fault_t,
>)
    requires
        old(st).wf(),
        asid < ASID_LIMIT,
        vspace != 0,
        cap is PageGlobalDirectoryCap ==> cap->PageGlobalDirectoryCap_mapped_asid < ASID_LIMIT,
    ensures
        final(st).wf(),
        old(st).spec_vspace_root(asid) != vspace ==> *final(st) == *old(st) && r is Ok,
        old(st).spec_vspace_root(asid) == vspace ==> {
            &&& final(st).asid_pool_bases@ == old(st).asid_pool_bases@
            &&& final(st).asid_roots@ == old(st).asid_roots@.update(
                VmState::spec_pool_index(asid) * 512 + VmState::spec_pool_slot(asid),
                0u64,
            )
            &&& final(st).spec_vspace_root(asid) == 0
            &&& final(st).pool == old(st).pool
            &&& final(st).hw@ == old(st).hw@ + seq![
                HwOp::Dsb,
                HwOp::TlbiAsid { asid },
                HwOp::Dsb,
                HwOp::Isb,
            ] + spec_set_vm_root_st_ops(*final(st), *cap)
            &&& r == spec_set_vm_root_result(*final(st), *cap)
        },
{
    proof {
        crate::bits::lemma_asid_split(asid);
    }
    let hi = (asid >> 9) as usize;
    let base = st.asid_pool_bases[hi];
    if base == 0 {
        return Ok(());
    }
    let lo = (asid & 0x1ff) as usize;
    let k = hi * 512 + lo;
    let recorded = st.asid_roots[k];
    if recorded != vspace {
        return Ok(());
    }
    invalidate_local_tlb_asid(&mut st.hw, asid);
    st.asid_roots.set(k, 0);
    proof {
        assert forall|k2: int|
            0 <= k2 < 65536 implies (#[trigger] st.asid_roots@[k2] == 0 || st.root_ok(
            st.asid_roots@[k2],
        )) by {
            if k2 != k {
                assert(st.asid_roots@[k2] == old(st).asid_roots@[k2]);
            }
        }
    }
    let ghost mid = *st;
    let res = set_vm_root(st, cap);
    proof {
        if cap is PageGlobalDirectoryCap {
            let a = cap->PageGlobalDirectoryCap_mapped_asid;
            assert(mid.spec_vspace_root(a) == st.spec_vspace_root(a));
        }
        assert(spec_set_vm_root_st_ops(mid, *cap) =~= spec_set_vm_root_st_ops(*st, *cap));
        assert(st.hw@ =~= old(st).hw@ + seq![
            HwOp::Dsb,
            HwOp::TlbiAsid { asid },
            HwOp::Dsb,
            HwOp::Isb,
        ] + spec_set_vm_root_st_ops(*st, *cap));
        assert(res == spec_set_vm_root_result(*st, *cap));
    }
    res
}

/// The TLB invalidations a pool teardown emits: one invalidation sequence per
/// non-empty root entry among the first `n`, each tagged with the entry's
/// ASID, in index order.
pub open spec fn spec_pool_flush_ops(roots: Seq<u64>, start: int, asid_base: u64, n: int) -> Seq<
    HwOp,
>
    decreases n,
{
    if n <= 0 {
        Seq::empty()
    } else {
        spec_pool_flush_ops(roots, start, asid_base, n - 1) + (if roots[start + n - 1] != 0 {
            seq![
                HwOp::Dsb,
                HwOp::TlbiAsid { asid: (asid_base + n - 1) as u64 },
                HwOp::Dsb,
                HwOp::Isb,
            ]
        } else {
            Seq::empty()
        })
    }
}

/// Drop a whole pool's registration, provided the directory still records
/// exactly the given pool object: a stale request is a successful no-op. On a
/// match, translations tagged with each ASID the pool maps are invalidated,
/// the registration is cleared, and the hardware root falls back to the given
/// default.
pub fn delete_asid_pool(
    st: &mut VmState,
    asid_base: asid_t,
    pool: &asid_pool_t,
    default_vspace_cap: &cap_t,
) -> (r: Result<(), lookup_fault_t>)
    requires
        old(st).wf(),
        asid_base < ASID_LIMIT,
        asid_base & 0x1ff == 0,
        pool.base != 0,
        default_vspace_cap is PageGlobalDirectoryCap
            ==> default_vspace_cap->PageGlobalDirectoryCap_mapped_asid < ASID_LIMIT,
    ensures
        final(st).wf(),
        old(st).asid_pool_bases@[VmState::spec_pool_index(asid_base)] != pool.base ==> *final(st)
            == *old(st) && r is Ok,
        old(st).asid_pool_bases@[VmState::spec_pool_index(asid_base)] == pool.base ==> {
            &&& final(st).asid_pool_bases@ == old(st).asid_pool_bases@.update(
                VmState::spec_pool_index(asid_base),
                0u64,
            )
            &&& final(st).asid_roots@ == old(st).asid_roots@
            &&& final(st).pool == old(st).pool
            &&& final(st).hw@ == old(st).hw@ + spec_pool_flush_ops(
                old(st).asid_roots@,
                VmState::spec_pool_index(asid_base) * 512,
                asid_base,
                512,
            ) + spec_set_vm_root_st_ops(*final(st), *default_vspace_cap)
            &&& r == spec_set_vm_root_result(*final(st), *default_vspace_cap)
            &&& forall|a: u64|
                a < ASID_LIMIT && VmState::spec_pool_index(a) == VmState::spec_pool_index(
                    asid_base,
                ) ==> final(st).spec_vspace_root(a) == 0
        },
{
    proof {
        crate::bits::lemma_asid_base(asid_base);
    }
    let hi = (asid_base >> 9) as usize;
    if st.asid_pool_bases[hi] != pool.base {
        return Ok(());
    }
    let ghost start = hi as int * 512;
    let mut j: usize = 0;
    while j < 512
        invariant
            old(st).wf(),
            asid_base < ASID_LIMIT,
            asid_base + 511 < 0x10000,
            hi == asid_base >> 9,
            hi < 128,
            start == hi as int * 512,
            j <= 512,
            st.asid_pool_bases == old(st).asid_pool_bases,
            st.asid_roots == old(st).asid_roots,
            st.pool == old(st).pool,
            st.armKSGlobalKernelPGD == old(st).armKSGlobalKernelPGD,
            st.armKSGlobalKernelPUD == old(st).armKSGlobalKernelPUD,
            st.armKSGlobalKernelPDs == old(st).armKSGlobalKernelPDs,
            st.armKSGlobalKernelPT == old(st).armKSGlobalKernelPT,
            st.armKSGlobalUserVSpace == old(st).armKSGlobalUserVSpace,
            st.kernel_pgd_base == old(st).kernel_pgd_base,
            st.kernel_pud_base == old(st).kernel_pud_base,
            st.kernel_pds_base == old(st).kernel_pds_base,
            st.kernel_pt_base == old(st).kernel_pt_base,
            st.user_vspace_base == old(st).user_vspace_base,
            st.hw@ == old(st).hw@ + spec_pool_flush_ops(
                old(st).asid_roots@,
                start,
                asid_base,
                j as int,
            ),
        decreases 512 - j,
    {
        let root = st.asid_roots[hi * 512 + j];
        if root != 0 {
            invalidate_local_tlb_asid(&mut st.hw, asid_base + (j as u64));
        }
        proof {
            assert(st.hw@ =~= old(st).hw@ + spec_pool_flush_ops(
                old(st).asid_roots@,
                start,
                asid_base,
                j as int + 1,
            ));
        }
        j = j + 1;
    }
    st.asid_pool_bases.set(hi, 0);
    let ghost mid = *st;
    let res = set_vm_root(st, default_vspace_cap);
    proof {
        if default_vspace_cap is PageGlobalDirectoryCap {
            let a = default_vspace_cap->PageGlobalDirectoryCap_mapped_asid;
            assert(mid.spec_vspace_root(a) == st.spec_vspace_root(a));
        }
        assert(spec_set_vm_root_st_ops(mid, *default_vspace_cap) =~= spec_set_vm_root_st_ops(
            *st,
            *default_vspace_cap,
        ));
        assert(st.hw@ =~= old(st).hw@ + spec_pool_flush_ops(
            old(st).asid_roots@,
            start,
            asid_base,
            512,
        ) + spec_set_vm_root_st_ops(*st, *default_vspace_cap));
        assert(res == spec_set_vm_root_result(*st, *default_vspace_cap));
    }
    res
}

} // verus!
