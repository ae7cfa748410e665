//! One owned page-table node of the 3-level scheme's kernel window: a base
//! physical address and its 512 entry words.

use vstd::prelude::*;

use crate::riscv64::pte::{pte_t, spec_pte_next_table};
use crate::structures::paddr_t;

verus! {

/// A page-table node the kernel itself owns (as opposed to the
/// capability-owned nodes of the arena).
#[derive(Debug)]
pub struct PageTable {
    pub base: paddr_t,
    pub entries: Vec<u64>,
}

impl PageTable {
    /// A node has exactly 512 entries.
    pub open spec fn wf(&self) -> bool {
        self.entries@.len() == 512
    }

    /// A node at the given address with every entry invalid.
    pub fn new(paddr: paddr_t) -> (r: Self)
        ensures
            r.wf(),
            r.base == paddr,
            forall|i: int| 0 <= i < 512 ==> r.entries@[i] == 0u64,
    {
        let mut entries: Vec<u64> = Vec::new();
        let mut k: usize = 0;
        while k < 512
            invariant
                k <= 512,
                entries@.len() == k,
                forall|i: int| 0 <= i < k ==> entries@[i] == 0u64,
            decreases 512 - k,
        {
            entries.push(0);
            k = k + 1;
        }
        PageTable { base: paddr, entries }
    }

    /// Re-address the node.
    pub fn set(&mut self, value: u64)
        ensures
            final(self).base.0 == value,
            final(self).entries@ == old(self).entries@,
    {
        self.base = paddr_t(value);
    }

    /// The node's base physical address.
    pub fn base(&self) -> (r: u64)
        ensures
            r == self.base.0,
    {
        self.base.0
    }

    /// A copy of the node's entries.
    pub fn get_pte_list(&self) -> (r: Vec<pte_t>)
        ensures
            r@.len() == self.entries@.len(),
            forall|i: int| 0 <= i < self.entries@.len() ==> r@[i].0 == self.entries@[i],
    {
        let n = self.entries.len();
        let mut r: Vec<pte_t> = Vec::new();
        let mut k: usize = 0;
        while k < n
            invariant
                k <= n,
                n == self.entries@.len(),
                r@.len() == k,
                forall|i: int| 0 <= i < k ==> r@[i].0 == self.entries@[i],
            decreases n - k,
        {
            r.push(pte_t(self.entries[k]));
            k = k + 1;
        }
        r
    }

    /// Write entry `idx` to point at the next-level table at `addr` (or, for
    /// a leaf, to map the kernel page there with full rights).
    pub fn map_next_table(&mut self, idx: u64, addr: u64, is_leaf: bool)
        requires
            old(self).wf(),
            idx < 512,
        ensures
            final(self).wf(),
            final(self).base == old(self).base,
            final(self).entries@ == old(self).entries@.update(
                idx as int,
                spec_pte_next_table(addr, is_leaf),
            ),
    {
        let pte = pte_t::pte_next_table(addr, is_leaf);
        self.entries.set(idx as usize, pte.0);
    }
}

} // verus!
