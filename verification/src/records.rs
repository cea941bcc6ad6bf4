//! The record store: the durable map seen as a map from identifier to
//! profile, with lookup, upsert, removal and the ordered scan.

use crate::codec::{decoding, encoding, MAX_SIZE};
use crate::profile::{FoodAllergyProfile, ProfileView};
use crate::query::{is_selection, Filter};
use crate::store::{
    lists_in_key_order, map_entries, map_get, map_insert, map_region, map_remove, stored_bytes,
    RecordMap,
};
use vstd::pervasive::unreached;
use vstd::prelude::*;

verus! {

/// Tells whether every stored entry is short enough and stands for a
/// profile that has the entry's key as its identifier.
pub open spec fn well_stored(stored: Map<u64, Seq<u8>>) -> bool {
    forall|id: u64| #[trigger]
        stored.contains_key(id) ==> {
            &&& stored[id].len() <= MAX_SIZE
            &&& decoding(stored[id]).is_some()
            &&& decoding(stored[id]).unwrap().id == id
        }
}

/// The records that stored bytes stand for.
pub open spec fn records_of(stored: Map<u64, Seq<u8>>) -> Map<u64, ProfileView> {
    Map::new(|id: u64| stored.contains_key(id), |id: u64| decoding(stored[id]).unwrap())
}

/// Tells whether every record is filed under its own identifier.
pub open spec fn filed(records: Map<u64, ProfileView>) -> bool {
    forall|id: u64| #[trigger] records.contains_key(id) ==> records[id].id == id
}

/// The values of a list of profiles.
pub open spec fn profile_views(list: Seq<FoodAllergyProfile>) -> Seq<ProfileView> {
    Seq::new(list.len(), |i: int| list[i]@)
}

/// The store of records. Its value is the map from identifier to profile.
pub struct ProfileStore {
    map: RecordMap,
}

impl View for ProfileStore {
    type V = Map<u64, ProfileView>;

    closed spec fn view(&self) -> Map<u64, ProfileView> {
        records_of(stored_bytes(self.map))
    }
}

impl ProfileStore {
    #[verifier::type_invariant]
    spec fn inv(self) -> bool {
        well_stored(stored_bytes(self.map))
    }

    /// The number of the region of stable memory that the store lives in.
    pub closed spec fn region(&self) -> u8 {
        map_region(self.map)
    }

    /// Makes a store of a stable map, provided that every entry of the map
    /// is at most `MAX_SIZE` bytes long and is the byte form of a profile
    /// filed under its own identifier. `None` otherwise.
    pub fn from_map(map: RecordMap) -> (opened: Option<ProfileStore>)
        ensures
            opened.is_some() == well_stored(stored_bytes(map)),
            opened matches Some(store) ==> store@ == records_of(stored_bytes(map))
                && store.region() == map_region(map) && filed(store@),
    {
        let entries = map_entries(&map);
        let ghost stored = stored_bytes(map);
        let mut i: usize = 0;
        while i < entries.len()
            invariant
                i <= entries.len(),
                stored == stored_bytes(map),
                lists_in_key_order(entries@, stored),
                forall|j: int|
                    0 <= j < i ==> {
                        &&& (#[trigger] entries[j]).1@.len() <= MAX_SIZE
                        &&& decoding(entries[j].1@).is_some()
                        &&& decoding(entries[j].1@).unwrap().id == entries[j].0
                    },
            decreases entries.len() - i,
        {
            let key: u64 = entries[i].0;
            let bytes = &entries[i].1;
            if bytes.len() > MAX_SIZE {
                return None;
            }
            match FoodAllergyProfile::from_bytes(bytes) {
                Some(profile) => {
                    if profile.id != key {
                        return None;
                    }
                },
                None => {
                    return None;
                },
            }
            i += 1;
        }
        assert forall|id: u64| #[trigger] stored.contains_key(id) implies {
            &&& stored[id].len() <= MAX_SIZE
            &&& decoding(stored[id]).is_some()
            &&& decoding(stored[id]).unwrap().id == id
        } by {
            let j = choose|j: int| 0 <= j < entries.len() && (#[trigger] entries[j]).0 == id;
            assert(stored[id] == entries[j].1@);
        }
        Some(ProfileStore { map })
    }

    /// Looks a record up by its identifier.
    pub fn _get_food_allergy_profile(&self, id: &u64) -> (found: Option<FoodAllergyProfile>)
        ensures
            match found {
                Some(profile) => self@.contains_key(*id) && self@[*id] == profile@,
                None => !self@.contains_key(*id),
            },
            filed(self@),
    {
        proof {
            use_type_invariant(self);
        }
        match map_get(&self.map, *id) {
            Some(bytes) => {
                let profile = FoodAllergyProfile::from_bytes(&bytes);
                if profile.is_none() {
                    unreached()
                } else {
                    profile
                }
            },
            None => None,
        }
    }

    /// Files bytes that stand for a profile under the profile's identifier,
    /// in place of what was there.
    pub(crate) fn file(&mut self, id: u64, bytes: Vec<u8>)
        requires
            bytes@.len() <= MAX_SIZE,
            decoding(bytes@).is_some(),
            decoding(bytes@).unwrap().id == id,
        ensures
            final(self)@ == old(self)@.insert(id, decoding(bytes@).unwrap()),
            final(self).region() == old(self).region(),
            filed(final(self)@),
        no_unwind
    {
        proof {
            use_type_invariant(&*self);
        }
        map_insert(&mut self.map, id, bytes);
        assert(self@ =~= old(self)@.insert(id, decoding(bytes@).unwrap()));
    }

    /// Files a record under its identifier, whatever the identifier: a new
    /// entry, or one that wholly replaces what was there. Every other entry
    /// stays. A record without a byte form is not stored, and nothing
    /// changes; the result tells whether the record was stored.
    pub fn do_insert_food_allergy_profile(&mut self, profile: &FoodAllergyProfile) -> (stored:
        bool)
        ensures
            stored == encoding(profile@).is_some(),
            stored ==> final(self)@ == old(self)@.insert(profile.id, profile@),
            !stored ==> final(self)@ == old(self)@,
            final(self).region() == old(self).region(),
            filed(final(self)@),
    {
        proof {
            use_type_invariant(&*self);
        }
        match profile.to_bytes() {
            Some(bytes) => {
                self.file(profile.id, bytes);
                true
            },
            None => false,
        }
    }

    /// Takes the entry of `id` out of the store and returns its bytes, or
    /// returns `None` and changes nothing where the store has no such entry.
    pub(crate) fn discard(&mut self, id: u64) -> (removed: Option<Vec<u8>>)
        ensures
            final(self)@ == old(self)@.remove(id),
            final(self).region() == old(self).region(),
            filed(final(self)@),
            match removed {
                Some(bytes) => old(self)@.contains_key(id) && decoding(bytes@) == Some(
                    old(self)@[id],
                ),
                None => !old(self)@.contains_key(id),
            },
        no_unwind
    {
        proof {
            use_type_invariant(&*self);
        }
        let removed = map_remove(&mut self.map, id);
        assert(self@ =~= old(self)@.remove(id));
        removed
    }

    /// Removes the record under `id` and returns it, or returns `None` and
    /// changes nothing where the store has no such record.
    pub fn remove(&mut self, id: u64) -> (removed: Option<FoodAllergyProfile>)
        ensures
            final(self)@ == old(self)@.remove(id),
            final(self).region() == old(self).region(),
            filed(final(self)@),
            match removed {
                Some(profile) => old(self)@.contains_key(id) && old(self)@[id] == profile@,
                None => !old(self)@.contains_key(id),
            },
    {
        match self.discard(id) {
            Some(bytes) => {
                let profile = FoodAllergyProfile::from_bytes(&bytes);
                if profile.is_none() {
                    unreached()
                } else {
                    profile
                }
            },
            None => None,
        }
    }

    /// The largest identifier that has a record; `None` in an empty store.
    pub fn largest_id(&self) -> (largest: Option<u64>)
        ensures
            match largest {
                Some(top) => self@.contains_key(top) && forall|id: u64| #[trigger]
                    self@.contains_key(id) ==> id <= top,
                None => forall|id: u64| !#[trigger] self@.contains_key(id),
            },
            filed(self@),
    {
        proof {
            use_type_invariant(self);
        }
        let entries = map_entries(&self.map);
        if entries.len() == 0 {
            None
        } else {
            let last: usize = entries.len() - 1;
            let top: u64 = entries[last].0;
            assert forall|id: u64| #[trigger] self@.contains_key(id) implies id <= top by {
                let j = choose|j: int| 0 <= j < entries.len() && (#[trigger] entries[j]).0 == id;
                if j < last {
                    assert(entries[j].0 < entries[last as int].0);
                }
            }
            Some(top)
        }
    }

    /// Scans the records by ascending identifier and returns those that
    /// `filter` keeps.
    pub fn select(&self, filter: &Filter) -> (found: Vec<FoodAllergyProfile>)
        ensures
            is_selection(profile_views(found@), self@, filter@),
            filed(self@),
    {
        proof {
            use_type_invariant(self);
        }
        let entries = map_entries(&self.map);
        let ghost stored = stored_bytes(self.map);
        let ghost records = records_of(stored);
        let mut found: Vec<FoodAllergyProfile> = Vec::new();
        let mut i: usize = 0;
        while i < entries.len()
            invariant
                i <= entries.len(),
                stored == stored_bytes(self.map),
                records == records_of(stored),
                well_stored(stored),
                lists_in_key_order(entries@, stored),
                forall|k: int|
                    0 <= k < found.len() ==> records.contains_key((#[trigger] found[k]).id)
                        && records[found[k].id] == found[k]@ && filter@.accepts(found[k]@),
                forall|k: int, j: int|
                    0 <= k < found.len() && i <= j < entries.len() ==> (#[trigger] found[k]).id
                        < (#[trigger] entries[j]).0,
                forall|k: int, l: int|
                    0 <= k < l < found.len() ==> (#[trigger] found[k]).id < (
                    #[trigger] found[l]).id,
                forall|j: int|
                    0 <= j < i && filter@.accepts(records[(#[trigger] entries[j]).0])
                        ==> exists|k: int|
                        0 <= k < found.len() && (#[trigger] found[k])@ == records[entries[j].0],
            decreases entries.len() - i,
        {
            assert(stored.contains_key(entries[i as int].0));
            match FoodAllergyProfile::from_bytes(&entries[i].1) {
                Some(profile) => {
                    if filter.accepts(&profile) {
                        let ghost before = found@;
                        found.push(profile);
                        assert forall|j: int|
                            0 <= j < i + 1 && filter@.accepts(
                                records[(#[trigger] entries[j]).0],
                            ) implies exists|k: int|
                            0 <= k < found.len() && (#[trigger] found[k])@
                                == records[entries[j].0] by {
                            if j < i {
                                let k = choose|k: int|
                                    0 <= k < before.len() && (#[trigger] before[k])@
                                        == records[entries[j].0];
                                assert(found[k]@ == records[entries[j].0]);
                            } else {
                                assert(found[before.len() as int]@ == records[entries[j].0]);
                            }
                        }
                    }
                },
                None => unreached(),
            }
            i += 1;
        }
        proof {
            let views = profile_views(found@);
            assert forall|id: u64|
                #![trigger records.contains_key(id)]
                records.contains_key(id) && filter@.accepts(records[id]) implies exists|k: int|
                0 <= k < views.len() && #[trigger] views[k] == records[id] by {
                let j = choose|j: int| 0 <= j < entries.len() && (#[trigger] entries[j]).0 == id;
                let k = choose|k: int|
                    0 <= k < found.len() && (#[trigger] found[k])@ == records[entries[j].0];
                assert(views[k] == records[id]);
            }
            assert forall|k: int| 0 <= k < views.len() implies records.contains_key(
                (#[trigger] views[k]).id,
            ) && records[views[k].id] == views[k] && filter@.accepts(views[k]) by {
                assert(views[k] == found[k]@);
            }
            assert forall|k: int, l: int| 0 <= k < l < views.len() implies (#[trigger] views[k]).id
                < (#[trigger] views[l]).id by {
                assert(views[k] == found[k]@);
                assert(views[l] == found[l]@);
            }
        }
        found
    }
}

} // verus!
