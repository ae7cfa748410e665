//! Hardware maintenance of the 4-level scheme as trace operations: root
//! register programming, TLB invalidation, cache-line cleaning by address and
//! the set/way/level walk over the data caches, each with its required
//! ordering barriers.

use vstd::prelude::*;

use crate::hw::HwOp;

verus! {

/// Program the kernel translation root register.
pub fn setCurrentKernelVSpaceRoot(hw: &mut Vec<HwOp>, val: u64)
    ensures
        final(hw)@ == old(hw)@.push(HwOp::SetKernelRoot { val }),
{
    hw.push(HwOp::SetKernelRoot { val });
}

/// Program the user translation root register, then invalidate all local
/// translations with the required barriers.
pub fn setCurrentUserVSpaceRoot(hw: &mut Vec<HwOp>, val: u64)
    ensures
        final(hw)@ == old(hw)@.push(HwOp::SetUserRoot { val }).push(HwOp::TlbiAll).push(
            HwOp::Dsb,
        ).push(HwOp::Isb),
{
    hw.push(HwOp::SetUserRoot { val });
    hw.push(HwOp::TlbiAll);
    hw.push(HwOp::Dsb);
    hw.push(HwOp::Isb);
}

/// The tagged root-register word: the ASID in the top sixteen bits above the
/// root table's physical address.
pub fn ttbr_new(asid: u64, addr: u64) -> (r: u64)
    ensures
        r == ((asid & 0xffff) << 48) | (addr & 0xffff_ffff_ffffu64),
{
    ((asid & 0xffff) << 48) | (addr & 0xffff_ffff_ffffu64)
}

/// Data synchronization barrier.
pub fn dsb(hw: &mut Vec<HwOp>)
    ensures
        final(hw)@ == old(hw)@.push(HwOp::Dsb),
{
    hw.push(HwOp::Dsb);
}

/// Instruction synchronization barrier.
pub fn isb(hw: &mut Vec<HwOp>)
    ensures
        final(hw)@ == old(hw)@.push(HwOp::Isb),
{
    hw.push(HwOp::Isb);
}

/// Data memory barrier.
pub fn dmb(hw: &mut Vec<HwOp>)
    ensures
        final(hw)@ == old(hw)@.push(HwOp::Dmb),
{
    hw.push(HwOp::Dmb);
}

/// Invalidate all local translations tagged with one ASID, with the barriers
/// the ordering contract requires around the invalidation.
pub fn invalidate_local_tlb_asid(hw: &mut Vec<HwOp>, asid: u64)
    requires
        asid < 0x10000,
    ensures
        final(hw)@ == old(hw)@.push(HwOp::Dsb).push(HwOp::TlbiAsid { asid }).push(HwOp::Dsb).push(
            HwOp::Isb,
        ),
{
    hw.push(HwOp::Dsb);
    hw.push(HwOp::TlbiAsid { asid });
    hw.push(HwOp::Dsb);
    hw.push(HwOp::Isb);
}

/// Invalidate the local translation of one page in one ASID, with barriers.
pub fn invalidate_local_tlb_va_asid(hw: &mut Vec<HwOp>, mva_plus_asid: u64)
    ensures
        final(hw)@ == old(hw)@.push(HwOp::Dsb).push(HwOp::TlbiVaAsid { mva_plus_asid }).push(
            HwOp::Dsb,
        ).push(HwOp::Isb),
{
    hw.push(HwOp::Dsb);
    hw.push(HwOp::TlbiVaAsid { mva_plus_asid });
    hw.push(HwOp::Dsb);
    hw.push(HwOp::Isb);
}

/// Invalidate every local translation, with barriers.
pub fn invalidate_local_tlb(hw: &mut Vec<HwOp>)
    ensures
        final(hw)@ == old(hw)@.push(HwOp::Dsb).push(HwOp::TlbiAll).push(HwOp::Dsb).push(HwOp::Isb),
{
    hw.push(HwOp::Dsb);
    hw.push(HwOp::TlbiAll);
    hw.push(HwOp::Dsb);
    hw.push(HwOp::Isb);
}

/// Clean one data-cache line to the point of unification so the hardware
/// table walker observes the write, then order it.
pub fn clean_by_va_pou(hw: &mut Vec<HwOp>, vaddr: u64, paddr: u64)
    ensures
        final(hw)@ == old(hw)@.push(HwOp::CleanByVaPou { vaddr, paddr }).push(HwOp::Dmb),
{
    hw.push(HwOp::CleanByVaPou { vaddr, paddr });
    hw.push(HwOp::Dmb);
}

/// Invalidate the whole instruction cache to the point of unification, then
/// synchronize the instruction stream.
pub fn invalidate_i_pou(hw: &mut Vec<HwOp>)
    ensures
        final(hw)@ == old(hw)@.push(HwOp::IcIallu).push(HwOp::Isb),
{
    hw.push(HwOp::IcIallu);
    hw.push(HwOp::Isb);
}

/// Clean and invalidate one data-cache line by set/way/level operand.
pub fn clean_invalidate_by_wsl(hw: &mut Vec<HwOp>, wsl: u64)
    ensures
        final(hw)@ == old(hw)@.push(HwOp::DcCisw { wsl }),
{
    hw.push(HwOp::DcCisw { wsl });
}

/// Level of coherence field of the cache-level identification word.
pub fn loc(x: u64) -> (r: u64)
    ensures
        r == (x >> 24) & 7,
{
    (x >> 24) & 7
}

/// Cache type of level `n` in the cache-level identification word.
pub fn ctype(x: u64, n: u64) -> (r: u64)
    requires
        n <= 6,
    ensures
        r == (x >> (n * 3)) & 7,
{
    (x >> (n * 3)) & 7
}

/// log2 of the line size encoded in a cache-size word.
pub fn line_bits(s: u64) -> (r: u64)
    ensures
        r == (s & 7) + 4,
{
    proof {
        crate::bits::lemma_shift_mask_le(s, 0, 7);
        assert(s >> 0 == s) by (bit_vector);
    }
    (s & 7) + 4
}

/// Associativity encoded in a cache-size word.
pub fn assoc(s: u64) -> (r: u64)
    ensures
        r == ((s >> 3) & 0x3ff) + 1,
        r <= 0x400,
{
    proof {
        crate::bits::lemma_shift_mask_le(s, 3, 0x3ff);
    }
    ((s >> 3) & 0x3ff) + 1
}

/// Number of sets encoded in a cache-size word.
pub fn nsets(s: u64) -> (r: u64)
    ensures
        r == ((s >> 13) & 0x7fff) + 1,
        r <= 0x8000,
{
    proof {
        crate::bits::lemma_shift_mask_le(s, 13, 0x7fff);
    }
    ((s >> 13) & 0x7fff) + 1
}

/// Bits needed to write `x`: the least `r` with `x < 2^r`.
pub open spec fn spec_word_bits(x: u64) -> u64
    decreases x,
{
    if x == 0 {
        0
    } else {
        (1 + spec_word_bits(x / 2)) as u64
    }
}

/// Bits needed to write `x`: the least `r` with `x < 2^r`.
fn word_bits(x: u64) -> (r: u64)
    requires
        x < 0x400,
    ensures
        r == spec_word_bits(x),
        r <= 10,
{
    proof {
        assert(0x400u64 == (1u64 << 10u64)) by (bit_vector);
        lemma_word_bits_le(x, 10);
    }
    let mut v = x;
    let mut r: u64 = 0;
    while v > 0
        invariant
            v < 0x400,
            spec_word_bits(x) == r + spec_word_bits(v),
            r + spec_word_bits(v) <= 10,
        decreases v,
    {
        proof {
            assert(0x400u64 == (1u64 << 10u64)) by (bit_vector);
            lemma_word_bits_le(v / 2, 10);
            assert(spec_word_bits(v) == (1 + spec_word_bits(v / 2)) as u64);
        }
        v = v / 2;
        r = r + 1;
    }
    r
}

/// A value below 2^k has bit-width at most k.
proof fn lemma_word_bits_le(x: u64, k: u64)
    requires
        k <= 10,
        x < (1u64 << k),
    ensures
        spec_word_bits(x) <= k,
    decreases x,
{
    if x > 0 {
        assert(k >= 1 && x / 2 < (1u64 << ((k - 1) as u64))) by (bit_vector)
            requires
                x < (1u64 << k),
                x > 0,
                k <= 10,
        ;
        lemma_word_bits_le(x / 2, (k - 1) as u64);
        assert(spec_word_bits(x) == (1 + spec_word_bits(x / 2)) as u64);
    }
}

/// The clean-and-invalidate operations for sets `0 .. s` of one way at one
/// level, in set order.
pub open spec fn spec_cisw_sets(l: u64, lbits: u64, wshift: u64, w: u64, s: int) -> Seq<HwOp>
    decreases s,
{
    if s <= 0 {
        Seq::empty()
    } else {
        spec_cisw_sets(l, lbits, wshift, w, s - 1) + seq![
            HwOp::DcCisw { wsl: (w << wshift) | (((s - 1) as u64) << lbits) | (l << 1) },
        ]
    }
}

/// The clean-and-invalidate operations for ways `0 .. w` at one level, way by
/// way, each way's sets in order.
pub open spec fn spec_cisw_ways(l: u64, lbits: u64, wshift: u64, nsets: int, w: int) -> Seq<HwOp>
    decreases w,
{
    if w <= 0 {
        Seq::empty()
    } else {
        spec_cisw_ways(l, lbits, wshift, nsets, w - 1) + spec_cisw_sets(
            l,
            lbits,
            wshift,
            (w - 1) as u64,
            nsets,
        )
    }
}

/// Clean and invalidate every line of one data-cache level, walking every way
/// and set, given the level's cache-size identification word.
pub fn clean_invalidate_d_by_level(hw: &mut Vec<HwOp>, l: u64, lsize: u64)
    requires
        l <= 6,
    ensures
        final(hw)@ == old(hw)@ + spec_cisw_ways(
            l,
            ((lsize & 7) + 4) as u64,
            (32 - spec_word_bits(((lsize >> 3) & 0x3ff) as u64)) as u64,
            (((lsize >> 13) & 0x7fff) + 1) as int,
            (((lsize >> 3) & 0x3ff) + 1) as int,
        ),
{
    let lbits = line_bits(lsize);
    let assoc_n = assoc(lsize);
    let assoc_bits = word_bits(assoc_n - 1);
    let wshift = 32 - assoc_bits;
    let nsets_n = nsets(lsize);
    let mut w: u64 = 0;
    while w < assoc_n
        invariant
            l <= 6,
            w <= assoc_n,
            lbits == (lsize & 7) + 4,
            assoc_n == ((lsize >> 3) & 0x3ff) + 1,
            nsets_n == ((lsize >> 13) & 0x7fff) + 1,
            wshift == 32 - spec_word_bits(((lsize >> 3) & 0x3ff) as u64),
            wshift <= 32,
            hw@ == old(hw)@ + spec_cisw_ways(l, lbits, wshift, nsets_n as int, w as int),
        decreases assoc_n - w,
    {
        let mut s: u64 = 0;
        while s < nsets_n
            invariant
                l <= 6,
                s <= nsets_n,
                w < assoc_n,
                lbits == (lsize & 7) + 4,
                assoc_n == ((lsize >> 3) & 0x3ff) + 1,
                nsets_n == ((lsize >> 13) & 0x7fff) + 1,
                wshift <= 32,
                hw@ == old(hw)@ + spec_cisw_ways(l, lbits, wshift, nsets_n as int, w as int)
                    + spec_cisw_sets(l, lbits, wshift, w, s as int),
            decreases nsets_n - s,
        {
            proof {
                assert(lbits <= 11 && l << 1 <= 12) by (bit_vector)
                    requires
                        lbits == (lsize & 7) + 4,
                        l <= 6,
                ;
            }
            clean_invalidate_by_wsl(hw, (w << wshift) | (s << lbits) | (l << 1));
            proof {
                assert(hw@ =~= old(hw)@ + spec_cisw_ways(l, lbits, wshift, nsets_n as int, w as int)
                    + spec_cisw_sets(l, lbits, wshift, w, s as int + 1));
            }
            s = s + 1;
        }
        proof {
            assert(hw@ =~= old(hw)@ + spec_cisw_ways(
                l,
                lbits,
                wshift,
                nsets_n as int,
                w as int + 1,
            ));
        }
        w = w + 1;
    }
}

/// The per-level clean-and-invalidate walks for levels `0 .. l` that hold a
/// data cache, given the identification word and the per-level size words.
pub open spec fn spec_dcache_level_ops(clid: u64, lsizes: Seq<u64>, l: int) -> Seq<HwOp>
    decreases l,
{
    if l <= 0 {
        Seq::empty()
    } else {
        spec_dcache_level_ops(clid, lsizes, l - 1) + (if (clid >> (((l - 1) as u64) * 3)) & 7 > 1 {
            spec_cisw_ways(
                (l - 1) as u64,
                ((lsizes[l - 1] & 7) + 4) as u64,
                (32 - spec_word_bits(((lsizes[l - 1] >> 3) & 0x3ff) as u64)) as u64,
                (((lsizes[l - 1] >> 13) & 0x7fff) + 1) as int,
                (((lsizes[l - 1] >> 3) & 0x3ff) + 1) as int,
            )
        } else {
            Seq::empty()
        })
    }
}

/// Clean and invalidate the data caches of every level up to the level of
/// coherence, given the cache-level identification word and one cache-size
/// word per level (both read from the identification registers).
pub fn clean_invalidate_d_poc(hw: &mut Vec<HwOp>, clid: u64, lsizes: &Vec<u64>)
    requires
        lsizes@.len() >= 7,
    ensures
        final(hw)@ == old(hw)@ + spec_dcache_level_ops(clid, lsizes@, ((clid >> 24) & 7) as int),
{
    let loc_n = loc(clid);
    proof {
        crate::bits::lemma_shift_mask_le(clid, 24, 7);
    }
    let mut l: u64 = 0;
    while l < loc_n
        invariant
            lsizes@.len() >= 7,
            loc_n == (clid >> 24) & 7,
            loc_n <= 7,
            l <= loc_n,
            hw@ == old(hw)@ + spec_dcache_level_ops(clid, lsizes@, l as int),
        decreases loc_n - l,
    {
        if ctype(clid, l) > 1 {
            let lsize = lsizes[l as usize];
            clean_invalidate_d_by_level(hw, l, lsize);
        }
        proof {
            assert(hw@ =~= old(hw)@ + spec_dcache_level_ops(clid, lsizes@, l as int + 1));
        }
        l = l + 1;
    }
}

/// The whole local-cache clean: barriers around a full data-cache walk and an
/// instruction-cache invalidation.
pub open spec fn spec_l1_cache_ops(clid: u64, lsizes: Seq<u64>) -> Seq<HwOp> {
    seq![HwOp::Dsb] + spec_dcache_level_ops(clid, lsizes, ((clid >> 24) & 7) as int) + seq![
        HwOp::Dsb,
        HwOp::IcIallu,
        HwOp::Isb,
        HwOp::Dsb,
    ]
}

/// Clean and invalidate the local caches: the data caches to the point of
/// coherence, then the instruction cache, each step fenced.
pub fn clean_invalidate_l1_caches(hw: &mut Vec<HwOp>, clid: u64, lsizes: &Vec<u64>)
    requires
        lsizes@.len() >= 7,
    ensures
        final(hw)@ == old(hw)@ + spec_l1_cache_ops(clid, lsizes@),
{
    dsb(hw);
    clean_invalidate_d_poc(hw, clid, lsizes);
    dsb(hw);
    invalidate_i_pou(hw);
    dsb(hw);
    proof {
        assert(hw@ =~= old(hw)@ + spec_l1_cache_ops(clid, lsizes@));
    }
}

/// Clean a range of data-cache lines to the point of coherence. This platform
/// performs the clean through the later barrier alone, so no per-line
/// operation is emitted.
pub fn clean_cache_range_poc(hw: &mut Vec<HwOp>, start: u64, end: u64, pstart: u64)
    ensures
        final(hw)@ == old(hw)@,
{
}

/// Clean a range of the second-level cache. This platform has no second-level
/// cache maintenance, so no operation is emitted.
pub fn plat_clean_l2_range(hw: &mut Vec<HwOp>, pstart: u64, pend: u64)
    ensures
        final(hw)@ == old(hw)@,
{
}

/// Clean a range of ordinary memory: the point-of-coherence clean, a barrier,
/// then the second-level range clean.
pub fn clean_cache_range_ram(hw: &mut Vec<HwOp>, start: u64, end: u64, pstart: u64)
    requires
        start <= end,
        pstart + (end - start) <= u64::MAX,
    ensures
        final(hw)@ == old(hw)@.push(HwOp::Dsb),
{
    clean_cache_range_poc(hw, start, end, pstart);
    dsb(hw);
    plat_clean_l2_range(hw, pstart, pstart + (end - start));
}

/// The distinct cache kinds a level can hold.
#[derive(Clone, Copy, Debug, PartialEq, Eq, Structural)]
pub enum arm_cache_type {
    ARMCacheI,
    ARMCacheD,
    ARMCacheID,
}

/// Memory types of the attribute-indirection register, in register order.
#[derive(Clone, Copy, Debug, PartialEq, Eq, Structural)]
pub enum mair_types {
    DEVICE_nGnRnE,
    DEVICE_nGnRE,
    DEVICE_GRE,
    NORMAL_NC,
    NORMAL,
    NORMAL_WT,
}

impl mair_types {
    /// The attribute index of this memory type.
    pub open spec fn spec_to_word(&self) -> u64 {
        match self {
            mair_types::DEVICE_nGnRnE => 0,
            mair_types::DEVICE_nGnRE => 1,
            mair_types::DEVICE_GRE => 2,
            mair_types::NORMAL_NC => 3,
            mair_types::NORMAL => 4,
            mair_types::NORMAL_WT => 5,
        }
    }

    /// The attribute index of this memory type.
    pub fn to_word(&self) -> (r: u64)
        ensures
            r == self.spec_to_word(),
    {
        match self {
            mair_types::DEVICE_nGnRnE => 0,
            mair_types::DEVICE_nGnRE => 1,
            mair_types::DEVICE_GRE => 2,
            mair_types::NORMAL_NC => 3,
            mair_types::NORMAL => 4,
            mair_types::NORMAL_WT => 5,
        }
    }
}

} // verus!
