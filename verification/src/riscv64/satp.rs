//! Root-register programming of the 3-level scheme, as trace operations.

use vstd::prelude::*;

use crate::hw::HwOp;

verus! {

/// In-memory image of the translation root register: translation mode in
/// bits 60..64, ASID in bits 44..60, root page number in bits 0..44.
#[derive(Clone, Copy, Debug, PartialEq, Eq, Structural)]
pub struct satp_t {
    pub words: u64,
}

impl satp_t {
    pub fn new(mode: u64, asid: u64, ppn: u64) -> (r: Self)
        ensures
            r.words == ((mode & 0xf) << 60) | ((asid & 0xffff) << 44) | (ppn
                & 0xfff_ffff_ffffu64),
    {
        satp_t {
            words: ((mode & 0xfu64) << 60) | ((asid & 0xffffu64) << 44) | (ppn
                & 0xfff_ffff_ffffu64),
        }
    }
}

/// Fence all translations and ordering on the local core.
pub fn sfence(hw: &mut Vec<HwOp>)
    ensures
        final(hw)@ == old(hw)@.push(HwOp::SfenceAll),
{
    hw.push(HwOp::SfenceAll);
}

/// Program the translation root register with a root physical address and an
/// ASID, then fence so the switch is observed.
pub fn setVSpaceRoot(hw: &mut Vec<HwOp>, addr: u64, asid: u64)
    ensures
        final(hw)@ == old(hw)@.push(HwOp::SetSatp { asid, ppn: addr >> 12 }).push(
            HwOp::SfenceAll,
        ),
{
    hw.push(HwOp::SetSatp { asid, ppn: addr >> 12 });
    hw.push(HwOp::SfenceAll);
}

} // verus!
