//! The durable ordered map from identifier to encoded record.

use crate::memory::Regions;
use ic_stable_structures::memory_manager::{MemoryId, VirtualMemory};
use ic_stable_structures::{DefaultMemoryImpl, StableBTreeMap};
use vstd::prelude::*;

verus! {

/// The map from identifier to encoded record: a `StableBTreeMap` with `u64`
/// keys and `Vec<u8>` values, living in one region of stable memory. The
/// verifier sees none of it; what it holds goes by the name `stored_bytes`,
/// the region it lives in by the name `map_region`.
#[verifier::external_body]
pub struct RecordMap {
    inner: StableBTreeMap<u64, Vec<u8>, VirtualMemory<DefaultMemoryImpl>>,
}

/// The entries that a stable map holds: each key with the bytes stored under it.
pub uninterp spec fn stored_bytes(map: RecordMap) -> Map<u64, Seq<u8>>;

/// The number of the region that a stable map was loaded from and writes to.
pub uninterp spec fn map_region(map: RecordMap) -> u8;

/// Tells whether `entries` lists exactly the entries of `stored`, by
/// ascending key.
pub open spec fn lists_in_key_order(
    entries: Seq<(u64, Vec<u8>)>,
    stored: Map<u64, Seq<u8>>,
) -> bool {
    &&& forall|i: int|
        0 <= i < entries.len() ==> stored.contains_key(#[trigger] entries[i].0)
            && stored[entries[i].0] == entries[i].1@
    &&& forall|i: int, j: int|
        0 <= i < j < entries.len() ==> (#[trigger] entries[i]).0 < (#[trigger] entries[j]).0
    &&& forall|key: u64| #[trigger]
        stored.contains_key(key) ==> exists|i: int|
            0 <= i < entries.len() && (#[trigger] entries[i]).0 == key
}

/// Calls `StableBTreeMap::init` on the region numbered `region`, which
/// `MemoryManager::get` hands out: it loads the map that the region holds,
/// or starts an empty one in a region that holds none. The map keeps that
/// region. Nothing is claimed of the entries: they are whatever an earlier
/// run left. `MemoryId::new` refuses 255, the manager's mark of an unused
/// bucket. A region written in a layout that this version cannot read stops
/// the process.
#[verifier::external_body]
pub(crate) fn map_load(regions: &Regions, region: u8) -> (map: RecordMap)
    requires
        region != 255,
    ensures
        map_region(map) == region,
{
    RecordMap { inner: StableBTreeMap::init(regions.inner.get(MemoryId::new(region))) }
}

/// Calls `StableBTreeMap::get`, which returns a copy of the value stored under
/// `key`, or `None` where the map has no such key.
#[verifier::external_body]
pub(crate) fn map_get(map: &RecordMap, key: u64) -> (found: Option<Vec<u8>>)
    ensures
        match found {
            Some(bytes) => stored_bytes(*map).contains_key(key) && stored_bytes(*map)[key]
                == bytes@,
            None => !stored_bytes(*map).contains_key(key),
        },
{
    map.inner.get(&key)
}

/// Calls `StableBTreeMap::insert`, which stores `value` under `key` in place
/// of what was there, and leaves every other entry as it was. The call is
/// taken not to unwind: it stops only where stable memory cannot grow.
#[verifier::external_body]
pub(crate) fn map_insert(map: &mut RecordMap, key: u64, value: Vec<u8>)
    ensures
        stored_bytes(*final(map)) == stored_bytes(*old(map)).insert(key, value@),
        map_region(*final(map)) == map_region(*old(map)),
    no_unwind
{
    map.inner.insert(key, value);
}

/// Calls `StableBTreeMap::remove`, which takes the entry of `key` out of the
/// map and returns its value, or returns `None` and changes nothing where the
/// map has no such key. The call is taken not to unwind.
#[verifier::external_body]
pub(crate) fn map_remove(map: &mut RecordMap, key: u64) -> (removed: Option<Vec<u8>>)
    ensures
        stored_bytes(*final(map)) == stored_bytes(*old(map)).remove(key),
        map_region(*final(map)) == map_region(*old(map)),
        match removed {
            Some(bytes) => stored_bytes(*old(map)).contains_key(key) && stored_bytes(
                *old(map),
            )[key] == bytes@,
            None => !stored_bytes(*old(map)).contains_key(key),
        },
    no_unwind
{
    map.inner.remove(&key)
}

/// Walks `StableBTreeMap::iter`, which yields the entries sorted by key, and
/// collects each as an owned pair.
#[verifier::external_body]
pub(crate) fn map_entries(map: &RecordMap) -> (entries: Vec<(u64, Vec<u8>)>)
    ensures
        lists_in_key_order(entries@, stored_bytes(*map)),
{
    map.inner.iter().map(|entry| entry.into_pair()).collect()
}

} // verus!
