//! Virtual-memory core of a capability-based microkernel: per-address-space
//! page tables, ASID bookkeeping, entry encoding, translation walks, and the
//! ordering of hardware maintenance operations, for a 3-level and a 4-level
//! paging scheme.
//!
//! Page-table nodes live in an arena keyed by physical page number; hardware
//! register writes, TLB invalidations and cache maintenance are recorded as an
//! ordered trace of [`hw::HwOp`] values that an unverified shell replays onto
//! the machine registers.
#![allow(non_snake_case)]
#![allow(non_camel_case_types)]
#![allow(non_upper_case_globals)]

pub mod config;
pub mod aarch64;
pub mod bits;
pub mod cap;
pub mod hw;
pub mod pagetable;
pub mod pool;
pub mod riscv64;
pub mod structures;
pub mod vm_rights;
