//! Address-space layout constants and index/offset arithmetic of the 3-level
//! scheme.

use vstd::prelude::*;

use crate::config::{seL4_PageBits, CONFIG_PT_LEVELS, PT_INDEX_BITS};

verus! {

/// Start of the kernel's direct window over physical memory.
pub const PPTR_BASE: u64 = 0xFFFF_FFC0_0000_0000;

/// End of the kernel's direct window.
pub const PPTR_TOP: u64 = 0xFFFF_FFFF_8000_0000;

/// First physical address covered by the direct window.
pub const PADDR_BASE: u64 = 0;

/// Direct-window offset: pptr == paddr + PPTR_BASE_OFFSET.
pub const PPTR_BASE_OFFSET: u64 = PPTR_BASE - PADDR_BASE;

/// Last physical address (exclusive) covered by the direct window.
pub const PADDR_TOP: u64 = PPTR_TOP - PPTR_BASE_OFFSET;

/// Link-time virtual base of the kernel image.
pub const KERNEL_ELF_BASE: u64 = 0xFFFF_FFFF_8400_0000;

/// Physical load address of the kernel image.
pub const KERNEL_ELF_PADDR_BASE: u64 = 0x8400_0000;

/// Kernel-image offset: kernel pptr == paddr + KERNEL_ELF_BASE_OFFSET.
pub const KERNEL_ELF_BASE_OFFSET: u64 = KERNEL_ELF_BASE - KERNEL_ELF_PADDR_BASE;

/// Size classes of mappable frames.
pub const RISCV_4K_Page: u64 = 0;

pub const RISCV_Mega_Page: u64 = 1;

pub const RISCV_Giga_Page: u64 = 2;

/// The table index a virtual address takes at level `n` (0 is the root).
pub open spec fn spec_pt_index(addr: u64, n: u64) -> u64 {
    (addr >> ((PT_INDEX_BITS * (CONFIG_PT_LEVELS - 1 - n) + seL4_PageBits) as u64)) & 0x1ff
}

/// The table index a virtual address takes at level `n` (0 is the root).
pub fn RISCV_GET_PT_INDEX(addr: u64, n: u64) -> (r: u64)
    requires
        n < CONFIG_PT_LEVELS,
    ensures
        r == spec_pt_index(addr, n),
        r < 512,
{
    let shift = PT_INDEX_BITS * (CONFIG_PT_LEVELS - 1 - n) + seL4_PageBits;
    proof {
        crate::bits::lemma_index9(addr, shift);
    }
    (addr >> shift) & 0x1ff
}

/// log2 of the address span one entry at level `n` translates: 30 at the
/// root, 21 one level down, 12 at the leaf level.
pub fn RISCV_GET_LVL_PGSIZE_BITS(n: u64) -> (r: u64)
    requires
        n < CONFIG_PT_LEVELS,
    ensures
        r == PT_INDEX_BITS * (CONFIG_PT_LEVELS - 1 - n) + seL4_PageBits,
{
    PT_INDEX_BITS * (CONFIG_PT_LEVELS - 1 - n) + seL4_PageBits
}

/// The address span one entry at level `n` translates.
pub fn RISCV_GET_LVL_PGSIZE(n: u64) -> (r: u64)
    requires
        n < CONFIG_PT_LEVELS,
    ensures
        r == (1u64 << (PT_INDEX_BITS * (CONFIG_PT_LEVELS - 1 - n) + seL4_PageBits) as u64),
{
    1u64 << RISCV_GET_LVL_PGSIZE_BITS(n)
}

/// Physical address of a kernel-image virtual address.
pub fn kpptr_to_paddr(x: u64) -> (r: u64)
    requires
        x >= KERNEL_ELF_BASE_OFFSET,
    ensures
        r == x - KERNEL_ELF_BASE_OFFSET,
{
    x - KERNEL_ELF_BASE_OFFSET
}

/// Physical address of a direct-window virtual address.
pub fn pptr_to_paddr(x: u64) -> (r: u64)
    requires
        x >= PPTR_BASE_OFFSET,
    ensures
        r == x - PPTR_BASE_OFFSET,
{
    x - PPTR_BASE_OFFSET
}

/// Direct-window virtual address of a physical address.
pub fn paddr_to_pptr(x: u64) -> (r: u64)
    requires
        x + PPTR_BASE_OFFSET <= u64::MAX,
    ensures
        r == x + PPTR_BASE_OFFSET,
{
    x + PPTR_BASE_OFFSET
}

/// Bits of address one frame of the given size class covers.
pub open spec fn spec_pageBitsForSize(page_size: u64) -> u64 {
    if page_size == RISCV_4K_Page {
        12
    } else if page_size == RISCV_Mega_Page {
        21
    } else {
        30
    }
}

/// Bits of address one frame of the given size class covers.
pub fn pageBitsForSize(page_size: u64) -> (r: u64)
    requires
        page_size == RISCV_4K_Page || page_size == RISCV_Mega_Page || page_size == RISCV_Giga_Page,
    ensures
        r == spec_pageBitsForSize(page_size),
{
    if page_size == RISCV_4K_Page {
        12
    } else if page_size == RISCV_Mega_Page {
        21
    } else {
        30
    }
}

/// Whether a virtual address is aligned to the given frame size class.
pub fn checkVPAlignment(sz: u64, w: u64) -> (r: bool)
    requires
        sz == RISCV_4K_Page || sz == RISCV_Mega_Page || sz == RISCV_Giga_Page,
    ensures
        r == (w & (((1u64 << spec_pageBitsForSize(sz)) - 1) as u64) == 0),
{
    let bits = pageBitsForSize(sz);
    proof {
        assert(1u64 << spec_pageBitsForSize(sz) >= 1) by (bit_vector)
            requires
                spec_pageBitsForSize(sz) == 12 || spec_pageBitsForSize(sz) == 21
                    || spec_pageBitsForSize(sz) == 30,
        ;
    }
    w & ((1u64 << bits) - 1) == 0
}

} // verus!
