//! Arena of page-table nodes.
//!
//! Every page-table node (one page, 512 entries of 64 bits) lives in one
//! process-wide arena, keyed by its physical page number. A slot reference is
//! a `(page number, entry index)` pair instead of a raw address, so every
//! entry access is bounds-checked against the arena.

use vstd::prelude::*;

use crate::config::PPN_LIMIT;

verus! {

/// Reference to one entry slot: the physical page number of the node that
/// holds it, and the entry index within that node.
#[derive(Clone, Copy, Debug, PartialEq, Eq, Structural)]
pub struct SlotRef {
    pub ppn: u64,
    pub index: u64,
}

/// The arena: node `k` has physical page number `ppns[k]` and entry words
/// `words[512 * k .. 512 * k + 512]`.
#[derive(Debug)]
pub struct PtPool {
    pub ppns: Vec<u64>,
    pub words: Vec<u64>,
}

impl PtPool {
    /// The arena holds at most 2^20 nodes, every key is an admissible page
    /// number, keys are distinct, and the word store is exactly 512 words per
    /// node.
    pub open spec fn wf(&self) -> bool {
        &&& self.words@.len() == self.ppns@.len() * 512
        &&& self.ppns@.len() <= 0x10_0000
        &&& (forall|i: int|
            0 <= i < self.ppns@.len() ==> #[trigger] self.ppns@[i] < PPN_LIMIT)
        &&& (forall|i: int, j: int|
            0 <= i < j < self.ppns@.len() ==> self.ppns@[i] != self.ppns@[j])
    }

    /// Whether a node with this physical page number is in the arena.
    pub open spec fn has_node(&self, ppn: u64) -> bool {
        self.ppns@.contains(ppn)
    }

    /// Arena position of the node with this physical page number.
    pub open spec fn node_index(&self, ppn: u64) -> int {
        self.ppns@.index_of(ppn)
    }

    /// The 512 entry words of the node with this physical page number.
    pub open spec fn node_at(&self, ppn: u64) -> Seq<u64> {
        self.words@.subrange(self.node_index(ppn) * 512, self.node_index(ppn) * 512 + 512)
    }

    /// The entry word at one slot.
    pub open spec fn entry_at(&self, ppn: u64, idx: u64) -> u64 {
        self.node_at(ppn)[idx as int]
    }

    /// In a well-formed arena, a key occurs at exactly one position.
    pub proof fn lemma_index_unique(&self, ppn: u64, i: int)
        requires
            self.wf(),
            0 <= i < self.ppns@.len(),
            self.ppns@[i] == ppn,
        ensures
            self.has_node(ppn),
            self.node_index(ppn) == i,
    {
        assert(self.ppns@.contains(ppn));
        let j = self.ppns@.index_of(ppn);
        if i < j {
            assert(self.ppns@[i] != self.ppns@[j]);
        } else if j < i {
            assert(self.ppns@[j] != self.ppns@[i]);
        }
    }

    /// A present node has exactly 512 entry words.
    pub proof fn lemma_node_len(&self, ppn: u64)
        requires
            self.wf(),
            self.has_node(ppn),
        ensures
            self.node_at(ppn).len() == 512,
            0 <= self.node_index(ppn) < self.ppns@.len(),
            self.node_index(ppn) * 512 + 512 <= self.words@.len(),
    {
        let i = self.node_index(ppn);
        assert(0 <= i < self.ppns@.len());
        assert((i + 1) * 512 <= self.ppns@.len() * 512) by (nonlinear_arith)
            requires
                i + 1 <= self.ppns@.len(),
        ;
        assert(i * 512 + 512 == (i + 1) * 512) by (nonlinear_arith);
    }

    /// An arena with no nodes.
    pub fn new() -> (r: PtPool)
        ensures
            r.wf(),
            r.ppns@.len() == 0,
            forall|p: u64| !r.has_node(p),
    {
        PtPool { ppns: Vec::new(), words: Vec::new() }
    }

    /// Arena position of the node keyed by `ppn`, if it is present.
    pub fn find_node(&self, ppn: u64) -> (r: Option<usize>)
        requires
            self.wf(),
        ensures
            match r {
                Some(i) => self.has_node(ppn) && i < self.ppns@.len() && self.ppns@[i as int]
                    == ppn && i as int == self.node_index(ppn),
                None => !self.has_node(ppn),
            },
    {
        let n = self.ppns.len();
        let mut k: usize = 0;
        while k < n
            invariant
                self.wf(),
                n == self.ppns@.len(),
                k <= n,
                forall|m: int| 0 <= m < k ==> self.ppns@[m] != ppn,
            decreases n - k,
        {
            if self.ppns[k] == ppn {
                proof {
                    self.lemma_index_unique(ppn, k as int);
                }
                return Some(k);
            }
            k = k + 1;
        }
        proof {
            assert(!self.ppns@.contains(ppn));
        }
        None
    }

    /// Whether the arena holds a node keyed by `ppn`.
    pub fn contains_node(&self, ppn: u64) -> (r: bool)
        requires
            self.wf(),
        ensures
            r == self.has_node(ppn),
    {
        self.find_node(ppn).is_some()
    }

    /// Read the entry word at one slot.
    pub fn read_entry(&self, ppn: u64, idx: u64) -> (r: u64)
        requires
            self.wf(),
            self.has_node(ppn),
            idx < 512,
        ensures
            r == self.entry_at(ppn, idx),
    {
        proof {
            self.lemma_node_len(ppn);
        }
        let i = self.find_node(ppn).unwrap();
        self.words[i * 512 + (idx as usize)]
    }

    /// Overwrite the entry word at one slot; every other slot of every node
    /// keeps its value, and no node appears or disappears.
    pub fn write_entry(&mut self, ppn: u64, idx: u64, word: u64)
        requires
            old(self).wf(),
            old(self).has_node(ppn),
            idx < 512,
        ensures
            final(self).wf(),
            final(self).ppns@ == old(self).ppns@,
            forall|p: u64| final(self).has_node(p) == old(self).has_node(p),
            final(self).node_at(ppn) == old(self).node_at(ppn).update(idx as int, word),
            forall|p: u64|
                old(self).has_node(p) && p != ppn ==> final(self).node_at(p) == old(self).node_at(
                    p,
                ),
    {
        proof {
            self.lemma_node_len(ppn);
        }
        let i = self.find_node(ppn).unwrap();
        self.words.set(i * 512 + (idx as usize), word);
        proof {
            let oldp = old(self);
            let ii = i as int;
            assert forall|p: u64| oldp.has_node(p) implies #[trigger] self.node_at(p)
                == if p == ppn {
                oldp.node_at(ppn).update(idx as int, word)
            } else {
                oldp.node_at(p)
            } by {
                let j = oldp.node_index(p);
                oldp.lemma_node_len(p);
                assert(self.node_index(p) == j);
                self.lemma_node_len(p);
                if p == ppn {
                    assert(j == ii);
                    assert(self.node_at(p) =~= oldp.node_at(ppn).update(idx as int, word));
                } else {
                    assert(j != ii);
                    assert forall|k: int| 0 <= k < 512 implies self.words@.subrange(
                        j * 512,
                        j * 512 + 512,
                    )[k] == oldp.node_at(p)[k] by {
                        assert(j * 512 + k != ii * 512 + idx) by (nonlinear_arith)
                            requires
                                j != ii,
                                0 <= k < 512,
                                0 <= idx < 512,
                        ;
                    }
                    assert(self.node_at(p) =~= oldp.node_at(p));
                }
            }
        }
    }

    /// Install a fresh zero-filled node keyed by `ppn` (the allocator hands
    /// this subsystem a zeroed page; installing it makes its 512 entries
    /// decode as invalid). Every existing node keeps its contents.
    pub fn install_node(&mut self, ppn: u64)
        requires
            old(self).wf(),
            !old(self).has_node(ppn),
            ppn < PPN_LIMIT,
            old(self).ppns@.len() < 0x10_0000,
        ensures
            final(self).wf(),
            final(self).has_node(ppn),
            final(self).ppns@ == old(self).ppns@.push(ppn),
            forall|p: u64| final(self).has_node(p) == (old(self).has_node(p) || p == ppn),
            final(self).node_at(ppn).len() == 512,
            forall|k: int| 0 <= k < 512 ==> final(self).node_at(ppn)[k] == 0u64,
            forall|p: u64|
                old(self).has_node(p) ==> final(self).node_at(p) == old(self).node_at(p),
    {
        let n0 = self.words.len();
        proof {
            assert(self.ppns@.len() * 512 + 512 == (self.ppns@.len() + 1) * 512) by (nonlinear_arith);
            assert((self.ppns@.len() + 1) * 512 <= 0x10_0000 * 512) by (nonlinear_arith)
                requires
                    self.ppns@.len() + 1 <= 0x10_0000,
            ;
        }
        self.ppns.push(ppn);
        let mut k: usize = 0;
        while k < 512
            invariant
                k <= 512,
                self.ppns@ == old(self).ppns@.push(ppn),
                self.words@.len() == n0 + k,
                self.words@.subrange(0, n0 as int) == old(self).words@,
                forall|m: int| n0 <= m < n0 + k ==> self.words@[m] == 0u64,
                n0 + 512 <= 0x10_0000 * 512,
            decreases 512 - k,
        {
            self.words.push(0u64);
            proof {
                assert(self.words@.subrange(0, n0 as int) =~= old(self).words@);
            }
            k = k + 1;
        }
        proof {
            let oldp = old(self);
            let n = oldp.ppns@.len() as int;
            assert(self.ppns@ =~= oldp.ppns@.push(ppn));
            assert forall|i: int, j: int|
                0 <= i < j < self.ppns@.len() implies self.ppns@[i] != self.ppns@[j] by {
                if j == n {
                    assert(oldp.ppns@[i] == self.ppns@[i]);
                    assert(oldp.ppns@.contains(self.ppns@[i]) || !oldp.has_node(ppn));
                }
            }
            assert(self.wf());
            assert forall|p: u64| self.has_node(p) == (oldp.has_node(p) || p == ppn) by {
                if self.ppns@.contains(p) {
                    let i = choose|i: int| 0 <= i < self.ppns@.len() && self.ppns@[i] == p;
                    if i < n {
                        assert(oldp.ppns@[i] == p);
                        assert(oldp.ppns@.contains(p));
                    } else {
                        assert(p == ppn);
                    }
                }
                if oldp.ppns@.contains(p) {
                    let i = choose|i: int| 0 <= i < oldp.ppns@.len() && oldp.ppns@[i] == p;
                    assert(self.ppns@[i] == p);
                    assert(self.ppns@.contains(p));
                }
                if p == ppn {
                    assert(self.ppns@[n] == p);
                    assert(self.ppns@.contains(p));
                }
            }
            self.lemma_index_unique(ppn, n);
            assert forall|kk: int| 0 <= kk < 512 implies self.node_at(ppn)[kk] == 0u64 by {
                assert(self.node_at(ppn)[kk] == self.words@[n * 512 + kk]);
                assert(n0 <= n * 512 + kk < n0 + 512);
            }
            self.lemma_node_len(ppn);
            assert forall|p: u64| oldp.has_node(p) implies #[trigger] self.node_at(p)
                == oldp.node_at(p) by {
                let j = oldp.node_index(p);
                oldp.lemma_node_len(p);
                assert(self.ppns@[j] == p);
                self.lemma_index_unique(p, j);
                self.lemma_node_len(p);
                assert forall|kk: int| 0 <= kk < 512 implies self.node_at(p)[kk] == oldp.node_at(
                    p,
                )[kk] by {
                    assert(0 <= j * 512 + kk < n0) by (nonlinear_arith)
                        requires
                            0 <= j,
                            j + 1 <= n,
                            0 <= kk < 512,
                            n0 == n * 512,
                    ;
                    assert(self.node_at(p)[kk] == self.words@[j * 512 + kk]);
                    assert(self.words@[j * 512 + kk] == self.words@.subrange(0, n0 as int)[j * 512
                        + kk]);
                }
                assert(self.node_at(p) =~= oldp.node_at(p));
            }
        }
    }
}

} // verus!
