//! Small bit-level facts the rest of the crate proves things with.

use vstd::prelude::*;

verus! {

/// A 9-bit field sliced out of any word is below 512.
pub proof fn lemma_index9(x: u64, s: u64)
    ensures
        ((x >> s) & 0x1ff) < 512,
{
    assert(((x >> s) & 0x1ff) < 512) by (bit_vector);
}

/// A masked field never exceeds its mask.
pub proof fn lemma_shift_mask_le(x: u64, s: u64, m: u64)
    ensures
        ((x >> s) & m) <= m,
{
    assert(((x >> s) & m) <= m) by (bit_vector);
}

/// The two tag bits of an entry word take one of four values.
pub proof fn lemma_tag2(w: u64)
    ensures
        w & 3 == 0 || w & 3 == 1 || w & 3 == 2 || w & 3 == 3,
        w & 3 <= 3,
{
    assert((w & 3 == 0 || w & 3 == 1 || w & 3 == 2 || w & 3 == 3) && w & 3 <= 3) by (bit_vector);
}

/// An ASID below 2^16 splits into a pool selector below 128 and an in-pool
/// index below 512.
pub proof fn lemma_asid_split(asid: u64)
    requires
        asid < 0x10000,
    ensures
        asid >> 9 < 128,
        (asid & 0x1ff) < 512,
{
    assert(asid >> 9 < 128 && (asid & 0x1ff) < 512) by (bit_vector)
        requires
            asid < 0x10000u64,
    ;
}

/// A pool-aligned base ASID keeps all 512 of its ASIDs below 2^16.
pub proof fn lemma_asid_base(asid_base: u64)
    requires
        asid_base < 0x10000,
        asid_base & 0x1ff == 0,
    ensures
        asid_base >> 9 < 128,
        asid_base + 511 < 0x10000,
{
    assert(asid_base >> 9 < 128 && asid_base + 511 < 0x10000) by (bit_vector)
        requires
            asid_base < 0x10000u64,
            asid_base & 0x1ff == 0,
    ;
}

/// The initial ASID lives in pool 0 at in-pool index 1.
pub proof fn lemma_it_asid()
    ensures
        1u64 >> 9 == 0,
        1u64 & 0x1ff == 1,
{
    assert(1u64 >> 9 == 0 && 1u64 & 0x1ff == 1) by (bit_vector);
}

/// A slot inside a direct-window node has addresses the window can carry:
/// the node's base stays below the window's span, and even the node's last
/// byte offset plus the window offset fits a word.
pub proof fn lemma_window_slot_addr(p: u64)
    requires
        p < 0x800_0000,
    ensures
        p << 12 <= 0x7f_ffff_f000,
        (p << 12) + 4088 + 0xFFFF_FF80_0000_0000 <= u64::MAX,
{
    assert(p << 12 <= 0x7f_ffff_f000u64) by (bit_vector)
        requires
            p < 0x800_0000u64,
    ;
}

} // verus!
