//! Hardware maintenance operations as values.
//!
//! Every register write, TLB invalidation, cache-line clean and ordering
//! barrier this subsystem requires is recorded, in order, as one [`HwOp`] in
//! an append-only trace (`Vec<HwOp>`). An unverified shell replays the trace
//! onto the machine registers; the contracts here pin down exactly which
//! operations are emitted and in which order.

use vstd::prelude::*;

verus! {

/// One hardware maintenance operation.
#[derive(Clone, Copy, Debug, PartialEq, Eq, Structural)]
pub enum HwOp {
    /// 3-level scheme: program the translation root register with an ASID and
    /// a root page number.
    SetSatp { asid: u64, ppn: u64 },
    /// 3-level scheme: fence all address translations and ordering.
    SfenceAll,
    /// 3-level scheme: fence translations tagged with one ASID.
    SfenceAsid { asid: u64 },
    /// 4-level scheme: program the kernel root register with a tagged root
    /// word.
    SetKernelRoot { val: u64 },
    /// 4-level scheme: program the user root register with a tagged root
    /// word.
    SetUserRoot { val: u64 },
    /// 4-level scheme: invalidate all translations tagged with one ASID.
    TlbiAsid { asid: u64 },
    /// 4-level scheme: invalidate the translation of one page in one ASID;
    /// the operand packs the ASID above the page-shifted address.
    TlbiVaAsid { mva_plus_asid: u64 },
    /// 4-level scheme: invalidate every translation of the local core.
    TlbiAll,
    /// Clean one data-cache line to the point of unification, by address.
    CleanByVaPou { vaddr: u64, paddr: u64 },
    /// Clean and invalidate one data-cache line by set/way/level operand.
    DcCisw { wsl: u64 },
    /// Invalidate the whole instruction cache to the point of unification.
    IcIallu,
    /// Data synchronization barrier.
    Dsb,
    /// Data memory barrier.
    Dmb,
    /// Instruction synchronization barrier.
    Isb,
}

} // verus!
