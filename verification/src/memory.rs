//! The regions of stable memory that the repository lives in.

use ic_stable_structures::memory_manager::MemoryManager;
use ic_stable_structures::DefaultMemoryImpl;
use vstd::prelude::*;

verus! {

/// The region that holds the identifier counter.
pub const COUNTER_REGION: u8 = 0;

/// The region that holds the map of records.
pub const RECORD_REGION: u8 = 1;

/// The `MemoryManager` that divides the process's stable memory into
/// regions. The verifier sees none of it, and nothing is claimed of it.
#[verifier::external_body]
pub struct Regions {
    pub(crate) inner: MemoryManager<DefaultMemoryImpl>,
}

/// Calls `MemoryManager::init` on the default memory of the process. Nothing
/// is claimed of what the memory holds: that is whatever an earlier run left.
#[verifier::external_body]
pub(crate) fn open_regions() -> Regions {
    Regions { inner: MemoryManager::init(DefaultMemoryImpl::default()) }
}

} // verus!
