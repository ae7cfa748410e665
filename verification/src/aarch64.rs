//! The 4-level paging scheme: per-level entry codecs, chained slot lookups,
//! frame lookup, ASID directory, mapping/unmapping engine, kernel window,
//! root activation and cache/TLB maintenance sequences.

pub mod asid;
pub mod boot;
pub mod interface;
pub mod laws;
pub mod machine;
pub mod pte;
pub mod structures;
pub mod utils;
pub mod vm_rights;
