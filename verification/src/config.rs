//! Fixed configuration constants of the kernel's virtual-memory layout.
//!
//! The split of an ASID into a pool selector (high bits) and an in-pool index
//! (low bits), and the page and page-table geometry shared by both paging
//! schemes. Kernel-window layout constants live with their scheme.

use vstd::prelude::*;

verus! {

/// Bits of an ASID that select the entry within one ASID pool.
pub const asidLowBits: u64 = 9;

/// Bits of an ASID that select the pool in the ASID directory.
pub const asidHighBits: u64 = 7;

/// ASID reserved for the initial thread, installed once during boot.
pub const IT_ASID: u64 = 1;

/// log2 of the size of one page (4 KiB).
pub const seL4_PageBits: u64 = 12;

/// log2 of the size of one page-table node (one page).
pub const seL4_PageTableBits: u64 = 12;

/// Bits of a virtual address consumed by one page-table level.
pub const PT_INDEX_BITS: u64 = 9;

/// Entries in one page-table node: 2^PT_INDEX_BITS.
pub const PTE_NUM_IN_PAGE: usize = 512;

/// Number of translation levels of the 3-level scheme.
pub const CONFIG_PT_LEVELS: u64 = 3;

/// Pools the ASID directory can hold: 2^asidHighBits.
pub const ASID_POOL_SLOTS: usize = 128;

/// Entries in one ASID pool: 2^asidLowBits.
pub const ASID_POOL_ENTRIES: usize = 512;

/// Largest admissible physical page number: physical addresses stay below
/// 2^56, so their page numbers stay below 2^44.
pub const PPN_LIMIT: u64 = 0x1000_0000_0000;

/// An ASID is a pool selector and an in-pool index: it stays below
/// 2^(asidHighBits + asidLowBits).
pub const ASID_LIMIT: u64 = 0x10000;

} // verus!
