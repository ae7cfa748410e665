//! The 3-level paging scheme: entry codec, variable-depth walker, ASID
//! directory, mapping/unmapping engine, kernel window and root activation.

pub mod asid;
pub mod boot;
pub mod interface;
pub mod laws;
pub mod pagetable;
pub mod pte;
pub mod satp;
pub mod structures;
pub mod utils;
pub mod vm_rights;
