//! Free-space tracking allocator for a small bare-metal kernel.
//!
//! The boot environment supplies a fixed table of physical memory regions;
//! the allocator carves blocks out of those regions, remembers each live
//! allocation as a slab, and recomputes the free ranges by interval
//! subtraction with alignment. Everything is expressed over plain integer
//! address ranges; turning an address into a pointer is left to the thin
//! unverified boundary around this crate.

pub mod error;
pub mod laws;
pub mod mem;
pub mod video;
