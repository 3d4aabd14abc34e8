//! Error types shared by the kernel's subsystems, and the allocator's own
//! fault taxonomy.

use vstd::prelude::*;

verus! {

/// Why a kernel operation failed.
#[derive(Clone, Debug)]
pub enum EmuRsErrorReason {
    Custom(String),
    Unknown,
    OperationNotSupported,
    InvalidPath,
    EndOfDiskHit,
}

/// A kernel error, carrying the reason it happened.
#[derive(Clone, Debug)]
pub struct EmuRsError {
    pub reason: EmuRsErrorReason,
}

/// Why an allocator entry point failed. Every one of these is fatal for the
/// kernel: the unverified boundary that installs the allocator as the global
/// allocation hook aborts with the variant as its diagnostic.
#[derive(Clone, Copy, Debug, PartialEq, Eq, Structural)]
pub enum EmuRsAllocatorFault {
    /// `alloc` was called before the memory table received any entries.
    Uninitialized,
    /// No free candidate of sufficient size exists.
    OutOfMemory,
    /// The live-allocation tracker is at its fixed capacity.
    SlabCapacityExceeded,
    /// `dealloc` was given an address that starts no live slab.
    InvalidFree,
}

} // verus!
