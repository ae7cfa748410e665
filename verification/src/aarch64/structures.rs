//! Attribute decoding, ASID map entries, pool objects, page-aligned table
//! storage and the whole virtual-memory state of the 4-level scheme.

use vstd::prelude::*;

use crate::aarch64::machine::mair_types;
use crate::aarch64::utils::{KERNEL_ELF_BASE, PPTR_BASE_OFFSET};
use crate::config::ASID_POOL_ENTRIES;
use crate::hw::HwOp;
use crate::pool::PtPool;
use crate::structures::{pptr_t, vm_attributes_t};

verus! {

impl vm_attributes_t {
    /// Execute-never request: bit 2 of the attribute word.
    pub fn get_armExecuteNever(&self) -> (r: bool)
        ensures
            r == (self.0 & 4 != 0),
    {
        self.0 & 0x4 != 0
    }

    /// Cacheability request: bit 0 of the attribute word.
    pub fn get_armPageCacheable(&self) -> (r: bool)
        ensures
            r == (self.0 & 1 != 0),
    {
        self.0 & 0x1 != 0
    }

    /// The memory type a mapping request selects: normal write-back when
    /// cacheable, strongly-ordered device memory otherwise.
    pub fn get_attr_index(&self) -> (r: mair_types)
        ensures
            self.0 & 1 != 0 ==> r == mair_types::NORMAL,
            self.0 & 1 == 0 ==> r == mair_types::DEVICE_nGnRnE,
    {
        if self.get_armPageCacheable() {
            return mair_types::NORMAL;
        }
        mair_types::DEVICE_nGnRnE
    }
}

/// Numeric tag of an empty ASID map entry.
pub const asid_map_asid_map_none: u64 = 0;

/// Numeric tag of an ASID map entry recording a VSpace root.
pub const asid_map_asid_map_vspace: u64 = 1;

/// One ASID map entry: empty, or the address of a live VSpace root.
#[derive(Clone, Copy, Debug, PartialEq, Eq, Structural)]
pub enum asid_map_t {
    asid_map_none,
    asid_map_vspace { vspace_root: u64 },
}

impl asid_map_t {
    /// An empty entry.
    pub fn new_none() -> (r: Self)
        ensures
            r == asid_map_t::asid_map_none,
    {
        asid_map_t::asid_map_none
    }

    /// An entry recording a VSpace root.
    pub fn new_vspace(vspace_root: u64) -> (r: Self)
        ensures
            r == (asid_map_t::asid_map_vspace { vspace_root }),
    {
        asid_map_t::asid_map_vspace { vspace_root }
    }

    /// The entry's numeric tag.
    pub fn get_type(&self) -> (r: u64)
        ensures
            self is asid_map_none ==> r == asid_map_asid_map_none,
            self is asid_map_vspace ==> r == asid_map_asid_map_vspace,
    {
        match self {
            asid_map_t::asid_map_none => 0,
            asid_map_t::asid_map_vspace { .. } => 1,
        }
    }

    /// The recorded root of a non-empty entry.
    pub fn get_vspace_root(&self) -> (r: u64)
        requires
            self is asid_map_vspace,
        ensures
            r == self->asid_map_vspace_vspace_root,
    {
        match self {
            asid_map_t::asid_map_vspace { vspace_root } => *vspace_root,
            _ => 0,
        }
    }
}

/// One ASID pool object: a root address per low-ASID value (0 when empty),
/// and the address of the pool object itself, which identifies it to the
/// capability system.
#[derive(Debug)]
pub struct asid_pool_t {
    pub base: pptr_t,
    pub array: Vec<u64>,
}

impl asid_pool_t {
    /// A pool has exactly one map entry per low-ASID value.
    pub open spec fn wf(&self) -> bool {
        self.array@.len() == 512
    }

    /// A pool with every entry empty.
    pub fn new_empty(base: pptr_t) -> (r: Self)
        ensures
            r.wf(),
            r.base == base,
            forall|i: int| 0 <= i < 512 ==> r.array@[i] == 0u64,
    {
        let mut array: Vec<u64> = Vec::new();
        let mut k: usize = 0;
        while k < ASID_POOL_ENTRIES
            invariant
                k <= 512,
                array@.len() == k,
                forall|i: int| 0 <= i < k ==> array@[i] == 0u64,
            decreases 512 - k,
        {
            array.push(0);
            k = k + 1;
        }
        asid_pool_t { base, array }
    }

    /// The map entry at one in-pool index.
    pub fn get_asid_map(&self, index: u64) -> (r: asid_map_t)
        requires
            self.wf(),
            index < 512,
        ensures
            self.array@[index as int] == 0 ==> r == asid_map_t::asid_map_none,
            self.array@[index as int] != 0 ==> r == (asid_map_t::asid_map_vspace {
                vspace_root: self.array@[index as int],
            }),
    {
        let v = self.array[index as usize];
        if v == 0 {
            asid_map_t::new_none()
        } else {
            asid_map_t::new_vspace(v)
        }
    }

    /// Write the map entry at one in-pool index.
    pub fn set_asid_map(&mut self, index: u64, map: &asid_map_t)
        requires
            old(self).wf(),
            index < 512,
        ensures
            final(self).wf(),
            final(self).base == old(self).base,
            final(self).array@ == old(self).array@.update(
                index as int,
                match map {
                    asid_map_t::asid_map_none => 0u64,
                    asid_map_t::asid_map_vspace { vspace_root } => *vspace_root,
                },
            ),
    {
        let v: u64 = match map {
            asid_map_t::asid_map_none => 0,
            asid_map_t::asid_map_vspace { vspace_root } => *vspace_root,
        };
        self.array.set(index as usize, v);
    }
}

/// One page-aligned, page-sized table of 512 entries, owned by the kernel.
#[derive(Debug)]
pub struct PageAligned<T> {
    pub arr: Vec<T>,
}

impl<T: Copy> PageAligned<T> {
    /// A table has exactly 512 entries.
    pub open spec fn wf(&self) -> bool {
        self.arr@.len() == 512
    }

    /// A table with every entry equal to `v`.
    pub fn new(v: T) -> (r: Self)
        ensures
            r.wf(),
            forall|i: int| 0 <= i < 512 ==> r.arr@[i] == v,
    {
        let mut arr: Vec<T> = Vec::new();
        let mut k: usize = 0;
        while k < 512
            invariant
                k <= 512,
                arr@.len() == k,
                forall|i: int| 0 <= i < k ==> arr@[i] == v,
            decreases 512 - k,
        {
            arr.push(v);
            k = k + 1;
        }
        PageAligned { arr }
    }

    /// The entry at one index.
    pub fn get(&self, index: u64) -> (r: T)
        requires
            self.wf(),
            index < 512,
        ensures
            r == self.arr@[index as int],
    {
        self.arr[index as usize]
    }

    /// Write the entry at one index.
    pub fn set(&mut self, index: u64, v: T)
        requires
            old(self).wf(),
            index < 512,
        ensures
            final(self).wf(),
            final(self).arr@ == old(self).arr@.update(index as int, v),
    {
        self.arr.set(index as usize, v);
    }
}

/// The whole virtual-memory state of the 4-level scheme: the ASID directory
/// (flattened as in the 3-level scheme), the arena of capability-owned table
/// nodes, the kernel's own window tables with their addresses, and the
/// hardware-operation trace.
#[derive(Debug)]
pub struct VmState {
    /// Pool object address registered per directory slot; 0 means no pool.
    pub asid_pool_bases: Vec<pptr_t>,
    /// Recorded VSpace roots: slot `i` of pool `p` is at `p * 512 + i`;
    /// 0 means no root.
    pub asid_roots: Vec<pptr_t>,
    /// Capability-owned page-table nodes, keyed by physical page number.
    pub pool: PtPool,
    /// The kernel's top-level table.
    pub armKSGlobalKernelPGD: PageAligned<u64>,
    /// The kernel's second-level table.
    pub armKSGlobalKernelPUD: PageAligned<u64>,
    /// The kernel's third-level tables, one page per second-level slot,
    /// flattened: table `i` entry `j` is at `i * 512 + j`.
    pub armKSGlobalKernelPDs: Vec<u64>,
    /// The kernel's last-level table for kernel-device frames.
    pub armKSGlobalKernelPT: PageAligned<u64>,
    /// The empty top-level table activated when no user root is safe.
    pub armKSGlobalUserVSpace: PageAligned<u64>,
    /// Kernel-image addresses of the five tables above.
    pub kernel_pgd_base: pptr_t,
    pub kernel_pud_base: pptr_t,
    pub kernel_pds_base: pptr_t,
    pub kernel_pt_base: pptr_t,
    pub user_vspace_base: pptr_t,
    /// Ordered trace of hardware operations this subsystem has required.
    pub hw: Vec<HwOp>,
}

impl VmState {
    /// A recorded root is a direct-window address of a node that is live in
    /// the arena.
    pub open spec fn root_ok(&self, root: u64) -> bool {
        root >= PPTR_BASE_OFFSET && self.pool.has_node(((root - PPTR_BASE_OFFSET) as u64) >> 12)
    }

    pub open spec fn wf(&self) -> bool {
        &&& self.asid_pool_bases@.len() == 128
        &&& self.asid_roots@.len() == 65536
        &&& self.pool.wf()
        &&& (forall|i: int|
            0 <= i < self.pool.ppns@.len() ==> #[trigger] self.pool.ppns@[i] < 0x800_0000)
        &&& self.armKSGlobalKernelPGD.wf()
        &&& self.armKSGlobalKernelPUD.wf()
        &&& self.armKSGlobalKernelPDs@.len() == 0x40000
        &&& self.armKSGlobalKernelPT.wf()
        &&& self.armKSGlobalUserVSpace.wf()
        &&& self.kernel_pgd_base >= KERNEL_ELF_BASE
        &&& self.kernel_pud_base >= KERNEL_ELF_BASE
        &&& self.kernel_pds_base >= KERNEL_ELF_BASE
        &&& self.kernel_pt_base >= KERNEL_ELF_BASE
        &&& self.user_vspace_base >= KERNEL_ELF_BASE
        &&& self.kernel_pds_base + 0x200000 <= u64::MAX
        &&& forall|k: int|
            0 <= k < 65536 ==> (#[trigger] self.asid_roots@[k] == 0 || self.root_ok(
                self.asid_roots@[k],
            ))
    }

    /// The directory slot an ASID selects.
    pub open spec fn spec_pool_index(asid: u64) -> int {
        (asid >> 9) as int
    }

    /// The in-pool slot an ASID selects.
    pub open spec fn spec_pool_slot(asid: u64) -> int {
        (asid & 0x1ff) as int
    }

    /// The root the directory records for an ASID; 0 when the ASID's pool is
    /// absent or its entry is empty.
    pub open spec fn spec_vspace_root(&self, asid: u64) -> u64 {
        if self.asid_pool_bases@[Self::spec_pool_index(asid)] == 0 {
            0
        } else {
            self.asid_roots@[Self::spec_pool_index(asid) * 512 + Self::spec_pool_slot(asid)]
        }
    }

    /// Every live arena node of this scheme lies inside the direct window:
    /// its page number stays below 2^27.
    pub proof fn lemma_node_ppn_bound(&self, ppn: u64)
        requires
            self.wf(),
            self.pool.has_node(ppn),
        ensures
            ppn < 0x800_0000,
    {
        let i = choose|i: int|
            0 <= i < self.pool.ppns@.len() && self.pool.ppns@[i] == ppn;
        assert(self.pool.ppns@[i] < 0x800_0000);
    }

    /// Fresh boot state: no pools, no arena nodes, zeroed kernel tables, an
    /// empty trace.
    pub fn new(
        kernel_pgd_base: pptr_t,
        kernel_pud_base: pptr_t,
        kernel_pds_base: pptr_t,
        kernel_pt_base: pptr_t,
        user_vspace_base: pptr_t,
    ) -> (r: VmState)
        requires
            kernel_pgd_base >= KERNEL_ELF_BASE,
            kernel_pud_base >= KERNEL_ELF_BASE,
            kernel_pds_base >= KERNEL_ELF_BASE,
            kernel_pt_base >= KERNEL_ELF_BASE,
            user_vspace_base >= KERNEL_ELF_BASE,
            kernel_pds_base + 0x200000 <= u64::MAX,
        ensures
            r.wf(),
            forall|k: int| 0 <= k < 128 ==> r.asid_pool_bases@[k] == 0u64,
            forall|k: int| 0 <= k < 65536 ==> r.asid_roots@[k] == 0u64,
            r.pool.ppns@.len() == 0,
            forall|p: u64| !r.pool.has_node(p),
            forall|i: int| 0 <= i < 512 ==> r.armKSGlobalKernelPGD.arr@[i] == 0u64,
            forall|i: int| 0 <= i < 512 ==> r.armKSGlobalKernelPUD.arr@[i] == 0u64,
            forall|i: int| 0 <= i < 0x40000 ==> r.armKSGlobalKernelPDs@[i] == 0u64,
            forall|i: int| 0 <= i < 512 ==> r.armKSGlobalKernelPT.arr@[i] == 0u64,
            forall|i: int| 0 <= i < 512 ==> r.armKSGlobalUserVSpace.arr@[i] == 0u64,
            r.kernel_pgd_base == kernel_pgd_base,
            r.kernel_pud_base == kernel_pud_base,
            r.kernel_pds_base == kernel_pds_base,
            r.kernel_pt_base == kernel_pt_base,
            r.user_vspace_base == user_vspace_base,
            r.hw@.len() == 0,
    {
        let mut bases: Vec<pptr_t> = Vec::new();
        let mut k: usize = 0;
        while k < 128
            invariant
                k <= 128,
                bases@.len() == k,
                forall|i: int| 0 <= i < k ==> bases@[i] == 0u64,
            decreases 128 - k,
        {
            bases.push(0);
            k = k + 1;
        }
        let mut roots: Vec<pptr_t> = Vec::new();
        let mut m: usize = 0;
        while m < 65536
            invariant
                m <= 65536,
                roots@.len() == m,
                forall|i: int| 0 <= i < m ==> roots@[i] == 0u64,
            decreases 65536 - m,
        {
            roots.push(0);
            m = m + 1;
        }
        let mut pds: Vec<u64> = Vec::new();
        let mut n: usize = 0;
        while n < 0x40000
            invariant
                n <= 0x40000,
                pds@.len() == n,
                forall|i: int| 0 <= i < n ==> pds@[i] == 0u64,
            decreases 0x40000 - n,
        {
            pds.push(0);
            n = n + 1;
        }
        VmState {
            asid_pool_bases: bases,
            asid_roots: roots,
            pool: PtPool::new(),
            armKSGlobalKernelPGD: PageAligned::new(0u64),
            armKSGlobalKernelPUD: PageAligned::new(0u64),
            armKSGlobalKernelPDs: pds,
            armKSGlobalKernelPT: PageAligned::new(0u64),
            armKSGlobalUserVSpace: PageAligned::new(0u64),
            kernel_pgd_base,
            kernel_pud_base,
            kernel_pds_base,
            kernel_pt_base,
            user_vspace_base,
            hw: Vec::new(),
        }
    }
}

} // verus!
