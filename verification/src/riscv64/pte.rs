//! Entry codec of the 3-level scheme.
//!
//! An entry word holds the flag bits V, R, W, X, U, G, A, D in bits 0..8 and
//! the physical page number in bits 10..54. An entry is a pointer to the next
//! table level exactly when it is valid and R, W and X are all clear; any of
//! those three set makes it a leaf.

use vstd::prelude::*;

use crate::hw::HwOp;
use crate::riscv64::vm_rights::vm_rights_t;

verus! {

/// The flag bits of one entry.
#[derive(Clone, Copy, Debug, PartialEq, Eq, Structural)]
pub struct PTEFlags {
    /// Valid.
    pub v: bool,
    /// Readable.
    pub r: bool,
    /// Writable.
    pub w: bool,
    /// Executable.
    pub x: bool,
    /// Accessible to user mode.
    pub u: bool,
    /// Global (kernel) mapping.
    pub g: bool,
    /// Accessed.
    pub a: bool,
    /// Dirty.
    pub d: bool,
}

impl PTEFlags {
    /// The flag bits packed into the low byte of an entry word.
    pub open spec fn spec_bits(&self) -> u64 {
        (if self.v {
            0x01u64
        } else {
            0
        }) | (if self.r {
            0x02u64
        } else {
            0
        }) | (if self.w {
            0x04u64
        } else {
            0
        }) | (if self.x {
            0x08u64
        } else {
            0
        }) | (if self.u {
            0x10u64
        } else {
            0
        }) | (if self.g {
            0x20u64
        } else {
            0
        }) | (if self.a {
            0x40u64
        } else {
            0
        }) | (if self.d {
            0x80u64
        } else {
            0
        })
    }

    /// The flag bits packed into the low byte of an entry word.
    pub fn bits(&self) -> (r: u64)
        ensures
            r == self.spec_bits(),
    {
        (if self.v {
            0x01u64
        } else {
            0
        }) | (if self.r {
            0x02u64
        } else {
            0
        }) | (if self.w {
            0x04u64
        } else {
            0
        }) | (if self.x {
            0x08u64
        } else {
            0
        }) | (if self.u {
            0x10u64
        } else {
            0
        }) | (if self.g {
            0x20u64
        } else {
            0
        }) | (if self.a {
            0x40u64
        } else {
            0
        }) | (if self.d {
            0x80u64
        } else {
            0
        })
    }

    /// No flag set.
    pub fn empty() -> (r: Self)
        ensures
            r.spec_bits() == 0,
            r == (PTEFlags {
                v: false,
                r: false,
                w: false,
                x: false,
                u: false,
                g: false,
                a: false,
                d: false,
            }),
    {
        proof {
            assert(0u64 | 0 | 0 | 0 | 0 | 0 | 0 | 0 == 0) by (bit_vector);
        }
        PTEFlags { v: false, r: false, w: false, x: false, u: false, g: false, a: false, d: false }
    }
}

/// One page-table entry word.
#[derive(Clone, Copy, Debug, PartialEq, Eq, Structural)]
pub struct pte_t(pub u64);

impl From<u64> for pte_t {
    fn from(value: u64) -> (r: Self) {
        Self(value)
    }
}

impl vstd::std_specs::convert::FromSpecImpl<u64> for pte_t {
    open spec fn obeys_from_spec() -> bool {
        true
    }

    open spec fn from_spec(value: u64) -> Self {
        pte_t(value)
    }
}

/// The encoding of an entry built from a page number and flags.
pub open spec fn spec_pte_new(ppn: u64, flags: PTEFlags) -> u64 {
    flags.spec_bits() | (ppn << 10)
}

/// The flags of a user mapping: valid, accessed, dirty, user, with R/W/X as
/// the rights and executability demand.
pub open spec fn spec_user_flags(executable: bool, vm_rights: vm_rights_t) -> PTEFlags {
    PTEFlags {
        v: true,
        r: !(vm_rights is VMKernelOnly),
        w: vm_rights is VMReadWrite,
        x: executable,
        u: true,
        g: false,
        a: true,
        d: true,
    }
}

/// The encoding of a user leaf: an all-rights-absent, non-executable request
/// encodes as the invalid entry, never as a zero-permission leaf.
pub open spec fn spec_make_user_pte(paddr: u64, executable: bool, vm_rights: vm_rights_t) -> u64 {
    if !executable && vm_rights is VMKernelOnly {
        0
    } else {
        spec_pte_new(paddr >> 12, spec_user_flags(executable, vm_rights))
    }
}

/// The encoding of a kernel entry pointing at the next table level (or, for a
/// leaf, mapping a kernel page with full rights).
pub open spec fn spec_pte_next_table(phys_addr: u64, is_leaf: bool) -> u64 {
    spec_pte_new(
        phys_addr >> 12,
        PTEFlags {
            v: true,
            r: is_leaf,
            w: is_leaf,
            x: is_leaf,
            u: false,
            g: true,
            a: is_leaf,
            d: is_leaf,
        },
    )
}

/// Whether an entry word is a pointer to the next table level: valid with R,
/// W and X all clear.
pub open spec fn spec_is_pte_table(w: u64) -> bool {
    w & 1 == 1 && !(w & 2 == 2 || w & 4 == 4 || w & 8 == 8)
}

/// The physical page number field of an entry word.
pub open spec fn spec_get_ppn(w: u64) -> u64 {
    (w & 0x3f_ffff_ffff_fc00u64) >> 10
}

impl pte_t {
    /// Build an entry from a page number and flags.
    pub fn new(ppn: u64, flags: PTEFlags) -> (r: Self)
        ensures
            r.0 == spec_pte_new(ppn, flags),
    {
        Self(flags.bits() | (ppn << 10))
    }

    /// Build a user leaf entry; a request with no read, no write and no
    /// execute encodes as the invalid entry.
    pub fn make_user_pte(paddr: u64, executable: bool, vm_rights: vm_rights_t) -> (r: Self)
        ensures
            r.0 == spec_make_user_pte(paddr, executable, vm_rights),
    {
        let write = crate::riscv64::vm_rights::RISCVGetWriteFromVMRights(&vm_rights);
        let read = crate::riscv64::vm_rights::RISCVGetReadFromVMRights(&vm_rights);
        if !executable && !read && !write {
            return Self::pte_invalid();
        }
        let flag = PTEFlags {
            v: true,
            r: read,
            w: write,
            x: executable,
            u: true,
            g: false,
            a: true,
            d: true,
        };
        Self::new(paddr >> 12, flag)
    }

    /// Build a kernel entry pointing at the next table level (`is_leaf` false)
    /// or mapping a kernel page with full rights (`is_leaf` true).
    pub fn pte_next_table(phys_addr: u64, is_leaf: bool) -> (r: Self)
        ensures
            r.0 == spec_pte_next_table(phys_addr, is_leaf),
    {
        let flag = PTEFlags {
            v: true,
            r: is_leaf,
            w: is_leaf,
            x: is_leaf,
            u: false,
            g: true,
            a: is_leaf,
            d: is_leaf,
        };
        Self::new(phys_addr >> 12, flag)
    }

    /// Replace this entry and fence the translation hardware so the write is
    /// observed before any translation can use it.
    pub fn update(&mut self, pte: Self, hw: &mut Vec<HwOp>)
        ensures
            final(self).0 == pte.0,
            final(hw)@ == old(hw)@.push(HwOp::SfenceAll),
    {
        self.0 = pte.0;
        hw.push(HwOp::SfenceAll);
    }

    /// The invalid entry: the all-zero word.
    pub fn pte_invalid() -> (r: Self)
        ensures
            r.0 == 0,
    {
        Self(0)
    }

    /// Whether this entry points at the next table level: valid with R, W and
    /// X all clear.
    pub fn is_pte_table(&self) -> (r: bool)
        ensures
            r == spec_is_pte_table(self.0),
    {
        proof {
            let w = self.0;
            assert(((w & 1 != 0) && !((w & 2) >> 1 != 0 || (w & 4) >> 2 != 0 || (w & 8) >> 3 != 0))
                == (w & 1 == 1 && !(w & 2 == 2 || w & 4 == 4 || w & 8 == 8))) by (bit_vector);
        }
        self.get_valid() != 0 && !(self.get_read() != 0 || self.get_write() != 0
            || self.get_execute() != 0)
    }

    /// The valid bit.
    pub fn get_valid(&self) -> (r: u64)
        ensures
            r == self.0 & 1,
    {
        self.0 & 0x1
    }

    /// The physical page number field.
    pub fn get_ppn(&self) -> (r: u64)
        ensures
            r == spec_get_ppn(self.0),
    {
        (self.0 & 0x3f_ffff_ffff_fc00u64) >> 10
    }

    /// The executable bit.
    pub fn get_execute(&self) -> (r: u64)
        ensures
            r == (self.0 & 8) >> 3,
    {
        (self.0 & 0x8u64) >> 3
    }

    /// The writable bit.
    pub fn get_write(&self) -> (r: u64)
        ensures
            r == (self.0 & 4) >> 2,
    {
        (self.0 & 0x4u64) >> 2
    }

    /// The readable bit.
    pub fn get_read(&self) -> (r: u64)
        ensures
            r == (self.0 & 2) >> 1,
    {
        (self.0 & 0x2u64) >> 1
    }
}

/// Decoding inverts encoding for user leaves: for any page-aligned physical
/// address the machine can have (below 2^56, since the page-number field is
/// 44 bits wide) and any request that grants some access, the encoded entry
/// is valid, reproduces the address exactly, and carries exactly the
/// requested rights, executability, and the user, accessed and dirty bits.
pub proof fn lemma_user_pte_round_trip(paddr: u64, executable: bool, vm_rights: vm_rights_t)
    requires
        paddr & 0xfff == 0,
        paddr < 0x100_0000_0000_0000,
        executable || !(vm_rights is VMKernelOnly),
    ensures
        ({
            let w = spec_make_user_pte(paddr, executable, vm_rights);
            &&& w & 1 == 1
            &&& spec_get_ppn(w) << 12 == paddr
            &&& ((w & 8) >> 3 == 1) == executable
            &&& ((w & 4) >> 2 == 1) == (vm_rights is VMReadWrite)
            &&& ((w & 2) >> 1 == 1) == !(vm_rights is VMKernelOnly)
            &&& w & 0x10 == 0x10
            &&& w & 0x40 == 0x40
            &&& w & 0x80 == 0x80
        }),
{
    let ppn = paddr >> 12;
    assert(ppn < 0x1000_0000_0000 && (ppn << 12) == paddr) by (bit_vector)
        requires
            paddr & 0xfff == 0,
            paddr < 0x100_0000_0000_0000u64,
            ppn == paddr >> 12,
    ;
    let flags = spec_user_flags(executable, vm_rights);
    lemma_pte_round_trip(ppn, flags);
    let w = spec_make_user_pte(paddr, executable, vm_rights);
    assert(w == spec_pte_new(ppn, flags));
    assert(spec_get_ppn(w) << 12 == paddr);
}

/// A leaf request carrying no read, no write and no executability encodes as
/// the invalid entry, never as a zero-permission leaf.
pub proof fn lemma_no_access_encodes_invalid(paddr: u64)
    ensures
        spec_make_user_pte(paddr, false, vm_rights_t::VMKernelOnly) == 0,
{
}

/// Decoding inverts encoding: every flag bit and the page number of an entry
/// built by [`spec_pte_new`] read back exactly, for any page number an
/// admissible physical address can have.
pub proof fn lemma_pte_round_trip(ppn: u64, flags: PTEFlags)
    requires
        ppn < 0x1000_0000_0000u64,
    ensures
        spec_pte_new(ppn, flags) & 1 == (if flags.v {
            1u64
        } else {
            0
        }),
        (spec_pte_new(ppn, flags) & 2) >> 1 == (if flags.r {
            1u64
        } else {
            0
        }),
        (spec_pte_new(ppn, flags) & 4) >> 2 == (if flags.w {
            1u64
        } else {
            0
        }),
        (spec_pte_new(ppn, flags) & 8) >> 3 == (if flags.x {
            1u64
        } else {
            0
        }),
        spec_pte_new(ppn, flags) & 0x10 == (if flags.u {
            0x10u64
        } else {
            0
        }),
        spec_pte_new(ppn, flags) & 0x20 == (if flags.g {
            0x20u64
        } else {
            0
        }),
        spec_pte_new(ppn, flags) & 0x40 == (if flags.a {
            0x40u64
        } else {
            0
        }),
        spec_pte_new(ppn, flags) & 0x80 == (if flags.d {
            0x80u64
        } else {
            0
        }),
        spec_get_ppn(spec_pte_new(ppn, flags)) == ppn,
{
    let bv: u64 = if flags.v {
        0x01
    } else {
        0
    };
    let br: u64 = if flags.r {
        0x02
    } else {
        0
    };
    let bw: u64 = if flags.w {
        0x04
    } else {
        0
    };
    let bx: u64 = if flags.x {
        0x08
    } else {
        0
    };
    let bu: u64 = if flags.u {
        0x10
    } else {
        0
    };
    let bg: u64 = if flags.g {
        0x20
    } else {
        0
    };
    let ba: u64 = if flags.a {
        0x40
    } else {
        0
    };
    let bd: u64 = if flags.d {
        0x80
    } else {
        0
    };
    assert(flags.spec_bits() == bv | br | bw | bx | bu | bg | ba | bd);
    let e = spec_pte_new(ppn, flags);
    assert(e == (bv | br | bw | bx | bu | bg | ba | bd) | (ppn << 10));
    assert({
        let w = (bv | br | bw | bx | bu | bg | ba | bd) | (ppn << 10);
        &&& w & 1 == bv
        &&& (w & 2) >> 1 == br >> 1
        &&& (w & 4) >> 2 == bw >> 2
        &&& (w & 8) >> 3 == bx >> 3
        &&& w & 0x10 == bu
        &&& w & 0x20 == bg
        &&& w & 0x40 == ba
        &&& w & 0x80 == bd
        &&& (w & 0x3f_ffff_ffff_fc00u64) >> 10 == ppn
    }) by (bit_vector)
        requires
            (bv == 0 || bv == 0x01) && (br == 0 || br == 0x02) && (bw == 0 || bw == 0x04) && (bx
                == 0 || bx == 0x08) && (bu == 0 || bu == 0x10) && (bg == 0 || bg == 0x20) && (ba
                == 0 || ba == 0x40) && (bd == 0 || bd == 0x80) && ppn < 0x1000_0000_0000u64,
    ;
    let fr: bool = flags.r;
    let fw: bool = flags.w;
    let fx: bool = flags.x;
    assert(br >> 1 == (if fr {
        1u64
    } else {
        0
    }) && bw >> 2 == (if fw {
        1u64
    } else {
        0
    }) && bx >> 3 == (if fx {
        1u64
    } else {
        0
    })) by (bit_vector)
        requires
            (br == 0 || br == 0x02) && (bw == 0 || bw == 0x04) && (bx == 0 || bx == 0x08) && (br
                == 0x02) == fr && (bw == 0x04) == fw && (bx == 0x08) == fx,
    ;
}

} // verus!
