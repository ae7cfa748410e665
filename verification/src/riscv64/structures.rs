//! Walk results, the ASID pool object, and the whole virtual-memory state of
//! the 3-level scheme.

use vstd::prelude::*;

use crate::config::ASID_POOL_ENTRIES;
use crate::hw::HwOp;
use crate::pagetable::PageTable;
use crate::pool::{PtPool, SlotRef};
use crate::riscv64::utils::{KERNEL_ELF_BASE_OFFSET, PPTR_BASE_OFFSET};
use crate::structures::{paddr_t, pptr_t};

verus! {

/// Result of a slot walk: the slot that terminated the walk and the number of
/// virtual-address bits not yet translated when it did.
#[derive(Clone, Copy, Debug, PartialEq, Eq, Structural)]
pub struct lookupPTSlot_ret_t {
    pub ptSlot: SlotRef,
    pub ptBitsLeft: u64,
}

/// One ASID pool object: an array of root addresses indexed by the low ASID
/// bits; the zero address means the entry is empty. `base` is the address of
/// the pool object itself, which identifies it to the capability system.
#[derive(Debug)]
pub struct asid_pool_t {
    pub base: pptr_t,
    pub array: Vec<pptr_t>,
}

impl asid_pool_t {
    /// A pool has exactly one root slot per low-ASID value.
    pub open spec fn wf(&self) -> bool {
        self.array@.len() == 512
    }

    /// A pool with every entry empty.
    pub fn new_empty(base: pptr_t) -> (r: Self)
        ensures
            r.wf(),
            r.base == base,
            forall|i: int| 0 <= i < 512 ==> r.array@[i] == 0u64,
    {
        let mut array: Vec<pptr_t> = Vec::new();
        let mut k: usize = 0;
        while k < ASID_POOL_ENTRIES
            invariant
                k <= 512,
                array@.len() == k,
                forall|i: int| 0 <= i < k ==> array@[i] == 0u64,
            decreases 512 - k,
        {
            array.push(0);
            k = k + 1;
        }
        asid_pool_t { base, array }
    }

    /// The address identifying this pool object.
    pub fn get_ptr(&self) -> (r: pptr_t)
        ensures
            r == self.base,
    {
        self.base
    }

    /// The root recorded at one in-pool index, if any.
    pub fn get_vspace_by_index(&self, index: u64) -> (r: Option<pptr_t>)
        requires
            self.wf(),
            index < 512,
        ensures
            self.array@[index as int] == 0 ==> r is None,
            self.array@[index as int] != 0 ==> r == Some(self.array@[index as int]),
    {
        let v = self.array[index as usize];
        if v == 0 {
            None
        } else {
            Some(v)
        }
    }

    /// Record a root at one in-pool index.
    pub fn set_vspace_by_index(&mut self, index: u64, vspace_ptr: pptr_t)
        requires
            old(self).wf(),
            index < 512,
        ensures
            final(self).wf(),
            final(self).base == old(self).base,
            final(self).array@ == old(self).array@.update(index as int, vspace_ptr),
    {
        self.array.set(index as usize, vspace_ptr);
    }
}

/// The whole virtual-memory state of the 3-level scheme: the ASID directory
/// (flattened to a vector of pool bases and a vector of 128 x 512 recorded
/// roots), the arena of capability-owned page-table nodes, the kernel's own
/// root and second-level window tables, and the hardware-operation trace.
#[derive(Debug)]
pub struct VmState {
    /// Pool object address registered per directory slot; 0 means no pool.
    pub asid_pool_bases: Vec<pptr_t>,
    /// Recorded VSpace roots: slot `i` of pool `p` is at `p * 512 + i`;
    /// 0 means no root.
    pub asid_roots: Vec<pptr_t>,
    /// Capability-owned page-table nodes, keyed by physical page number.
    pub pool: PtPool,
    /// The kernel's root table.
    pub kernel_root: PageTable,
    /// The kernel's second-level table for the kernel-image mapping.
    pub kernel_image_level2: PageTable,
    /// Ordered trace of hardware operations this subsystem has required.
    pub hw: Vec<HwOp>,
}

impl VmState {
    /// A recorded root is a direct-window address of a node that is live in
    /// the arena.
    pub open spec fn root_ok(&self, root: u64) -> bool {
        root >= PPTR_BASE_OFFSET && self.pool.has_node(((root - PPTR_BASE_OFFSET) as u64) >> 12)
    }

    pub open spec fn wf(&self) -> bool {
        &&& self.asid_pool_bases@.len() == 128
        &&& self.asid_roots@.len() == 65536
        &&& self.pool.wf()
        &&& self.kernel_root.wf()
        &&& self.kernel_image_level2.wf()
        &&& self.kernel_root.base.0 >= KERNEL_ELF_BASE_OFFSET
        &&& forall|k: int|
            0 <= k < 65536 ==> (#[trigger] self.asid_roots@[k] == 0 || self.root_ok(
                self.asid_roots@[k],
            ))
    }

    /// The directory slot an ASID selects.
    pub open spec fn spec_pool_index(asid: u64) -> int {
        (asid >> 9) as int
    }

    /// The in-pool slot an ASID selects.
    pub open spec fn spec_pool_slot(asid: u64) -> int {
        (asid & 0x1ff) as int
    }

    /// The root the directory records for an ASID; 0 when the ASID's pool is
    /// absent or its entry is empty.
    pub open spec fn spec_vspace_root(&self, asid: u64) -> u64 {
        if self.asid_pool_bases@[Self::spec_pool_index(asid)] == 0 {
            0
        } else {
            self.asid_roots@[Self::spec_pool_index(asid) * 512 + Self::spec_pool_slot(asid)]
        }
    }

    /// The page number the kernel root table's physical address gives to the
    /// root register.
    pub open spec fn spec_kernel_root_ppn(&self) -> u64 {
        ((self.kernel_root.base.0 - KERNEL_ELF_BASE_OFFSET) as u64) >> 12
    }

    /// Fresh boot state: no pools, no arena nodes, zeroed kernel tables, an
    /// empty trace.
    pub fn new(kernel_root_base: pptr_t, kernel_level2_base: pptr_t) -> (r: VmState)
        requires
            kernel_root_base >= KERNEL_ELF_BASE_OFFSET,
        ensures
            r.wf(),
            forall|k: int| 0 <= k < 128 ==> r.asid_pool_bases@[k] == 0u64,
            forall|k: int| 0 <= k < 65536 ==> r.asid_roots@[k] == 0u64,
            r.pool.ppns@.len() == 0,
            forall|p: u64| !r.pool.has_node(p),
            r.kernel_root.base.0 == kernel_root_base,
            forall|i: int| 0 <= i < 512 ==> r.kernel_root.entries@[i] == 0u64,
            r.kernel_image_level2.base.0 == kernel_level2_base,
            forall|i: int| 0 <= i < 512 ==> r.kernel_image_level2.entries@[i] == 0u64,
            r.hw@.len() == 0,
    {
        let mut bases: Vec<pptr_t> = Vec::new();
        let mut k: usize = 0;
        while k < 128
            invariant
                k <= 128,
                bases@.len() == k,
                forall|i: int| 0 <= i < k ==> bases@[i] == 0u64,
            decreases 128 - k,
        {
            bases.push(0);
            k = k + 1;
        }
        let mut roots: Vec<pptr_t> = Vec::new();
        let mut m: usize = 0;
        while m < 65536
            invariant
                m <= 65536,
                roots@.len() == m,
                forall|i: int| 0 <= i < m ==> roots@[i] == 0u64,
            decreases 65536 - m,
        {
            roots.push(0);
            m = m + 1;
        }
        VmState {
            asid_pool_bases: bases,
            asid_roots: roots,
            pool: PtPool::new(),
            kernel_root: PageTable::new(paddr_t(kernel_root_base)),
            kernel_image_level2: PageTable::new(paddr_t(kernel_level2_base)),
            hw: Vec::new(),
        }
    }
}

} // verus!
