//! The repository: create, read, update, delete and filtered queries over
//! the record store and the identifier counter.

use crate::allocator::{cell_get, cell_load, cell_region, cell_value, IdCell};
use crate::codec::encoding;
use crate::memory::{open_regions, COUNTER_REGION, RECORD_REGION};
use crate::message::{
    missing_on_delete, missing_on_delete_text, missing_on_get, missing_on_get_text,
    missing_on_update, missing_on_update_text,
};
use crate::profile::{
    Error, FoodAllergyProfile, FoodAllergyUpdatePayload, PayloadView, ProfileView,
};
use crate::query::{is_selection, Filter, FilterView};
use crate::records::{filed, profile_views, ProfileStore};
use crate::store::map_load;
use vstd::pervasive::unreached;
use vstd::prelude::*;

verus! {

/// The mathematical value of a repository: its live records by identifier,
/// and the next identifier that it will issue.
pub struct RepositoryView {
    pub records: Map<u64, ProfileView>,
    pub next_id: u64,
}

impl RepositoryView {
    /// Every live record is filed under its own identifier, which was issued.
    pub open spec fn wf(self) -> bool {
        forall|id: u64| #[trigger]
            self.records.contains_key(id) ==> self.records[id].id == id && id < self.next_id
    }

    /// What a lookup of `id` gives.
    pub open spec fn get(self, id: u64) -> Result<ProfileView, Seq<char>> {
        if self.records.contains_key(id) {
            Ok(self.records[id])
        } else {
            Err(missing_on_get(id))
        }
    }

    /// The repository with `profile` filed under its identifier.
    pub open spec fn put(self, profile: ProfileView) -> RepositoryView {
        RepositoryView { records: self.records.insert(profile.id, profile), next_id: self.next_id }
    }

    /// The record that a creation at time `now` makes of `payload`: the next
    /// two numbers of the counter become its identifier and its user.
    pub open spec fn candidate(self, payload: PayloadView, now: u64) -> ProfileView {
        ProfileView {
            id: self.next_id,
            user_id: (self.next_id + 1) as u64,
            allergies: payload.allergies,
            product_recommendations: payload.product_recommendations,
            created_at: now,
            updated_at: None,
        }
    }

    /// A creation goes through where the counter has two numbers left and
    /// the new record has a byte form.
    pub open spec fn can_create(self, payload: PayloadView, now: u64) -> bool {
        self.next_id + 2 <= u64::MAX && encoding(self.candidate(payload, now)).is_some()
    }

    /// What a creation does and returns.
    pub open spec fn create(self, payload: PayloadView, now: u64) -> (
        RepositoryView,
        Option<ProfileView>,
    ) {
        if self.can_create(payload, now) {
            let made = self.candidate(payload, now);
            (
                RepositoryView {
                    records: self.records.insert(made.id, made),
                    next_id: (self.next_id + 2) as u64,
                },
                Some(made),
            )
        } else {
            (self, None)
        }
    }

    /// The record under `id` with its content replaced by `payload` and its
    /// update time set to `now`.
    pub open spec fn revised(self, id: u64, payload: PayloadView, now: u64) -> ProfileView {
        ProfileView {
            id: self.records[id].id,
            user_id: self.records[id].user_id,
            allergies: payload.allergies,
            product_recommendations: payload.product_recommendations,
            created_at: self.records[id].created_at,
            updated_at: Some(now),
        }
    }

    /// What an update does and returns. `None` stands for an update that was
    /// refused because the revised record has no byte form.
    pub open spec fn update(self, id: u64, payload: PayloadView, now: u64) -> (
        RepositoryView,
        Option<Result<ProfileView, Seq<char>>>,
    ) {
        if !self.records.contains_key(id) {
            (self, Some(Err(missing_on_update(id))))
        } else if encoding(self.revised(id, payload, now)).is_some() {
            (self.put(self.revised(id, payload, now)), Some(Ok(self.revised(id, payload, now))))
        } else {
            (self, None)
        }
    }

    /// What a deletion does and returns.
    pub open spec fn delete(self, id: u64) -> (RepositoryView, Result<ProfileView, Seq<char>>) {
        if self.records.contains_key(id) {
            (
                RepositoryView { records: self.records.remove(id), next_id: self.next_id },
                Ok(self.records[id]),
            )
        } else {
            (self, Err(missing_on_delete(id)))
        }
    }
}

/// The value of an optional profile.
pub open spec fn optional_view(profile: Option<FoodAllergyProfile>) -> Option<ProfileView> {
    match profile {
        Some(p) => Some(p@),
        None => None,
    }
}

/// The value of a profile or an error.
pub open spec fn result_view(result: Result<FoodAllergyProfile, Error>) -> Result<
    ProfileView,
    Seq<char>,
> {
    match result {
        Ok(p) => Ok(p@),
        Err(e) => Err(e.message()),
    }
}

/// The value of what an update returns.
pub open spec fn outcome_view(outcome: Option<Result<FoodAllergyProfile, Error>>) -> Option<
    Result<ProfileView, Seq<char>>,
> {
    match outcome {
        Some(result) => Some(result_view(result)),
        None => None,
    }
}

/// Tells whether every record has an identifier below `bound`.
pub open spec fn all_below(records: Map<u64, ProfileView>, bound: u64) -> bool {
    forall|id: u64| #[trigger] records.contains_key(id) ==> id < bound
}

/// The repository of allergy profiles: the counter and the record store,
/// with every record under an identifier that the counter has issued.
pub struct Repository {
    counter: IdCell,
    store: ProfileStore,
}

impl View for Repository {
    type V = RepositoryView;

    closed spec fn view(&self) -> RepositoryView {
        RepositoryView { records: self.store@, next_id: cell_value(self.counter) }
    }
}

impl Repository {
    #[verifier::type_invariant]
    spec fn inv(self) -> bool {
        filed(self.store@) && all_below(self.store@, cell_value(self.counter))
    }

    /// The number of the region of stable memory that holds the counter.
    pub closed spec fn counter_region(&self) -> u8 {
        cell_region(self.counter)
    }

    /// The number of the region of stable memory that holds the records.
    pub closed spec fn record_region(&self) -> u8 {
        self.store.region()
    }

    /// Makes a repository of a counter and a record store, provided that
    /// every record has an identifier below the counter. `None` otherwise.
    pub fn from_parts(counter: IdCell, store: ProfileStore) -> (opened: Option<Repository>)
        ensures
            opened.is_some() == all_below(store@, cell_value(counter)),
            opened matches Some(repository) ==> {
                &&& repository@ == (RepositoryView {
                    records: store@,
                    next_id: cell_value(counter),
                })
                &&& repository.counter_region() == cell_region(counter)
                &&& repository.record_region() == store.region()
                &&& repository@.wf()
            },
    {
        let next: u64 = cell_get(&counter);
        let fits = match store.largest_id() {
            Some(largest) => largest < next,
            None => true,
        };
        if fits {
            Some(Repository { counter, store })
        } else {
            None
        }
    }

    /// Takes the repository apart into its counter and its record store.
    pub fn into_parts(self) -> (parts: (IdCell, ProfileStore))
        ensures
            cell_value(parts.0) == self@.next_id,
            cell_region(parts.0) == self.counter_region(),
            parts.1@ == self@.records,
            parts.1.region() == self.record_region(),
            filed(parts.1@),
            all_below(parts.1@, cell_value(parts.0)),
    {
        proof {
            use_type_invariant(&self);
        }
        (self.counter, self.store)
    }

    /// Opens the repository that the process's stable memory holds: the
    /// counter in the region numbered `COUNTER_REGION`, the records in the
    /// region numbered `RECORD_REGION`. Memory that holds neither gives an
    /// empty repository with its counter at zero. `None` where the memory
    /// holds entries that are no records of a repository. A process opens
    /// its repository once.
    pub fn init() -> (opened: Option<Repository>)
        ensures
            opened matches Some(repository) ==> {
                &&& repository.counter_region() == COUNTER_REGION
                &&& repository.record_region() == RECORD_REGION
                &&& repository@.wf()
            },
    {
        let regions = open_regions();
        let counter = cell_load(&regions, COUNTER_REGION, 0);
        let map = map_load(&regions, RECORD_REGION);
        match ProfileStore::from_map(map) {
            Some(store) => Repository::from_parts(counter, store),
            None => None,
        }
    }

    /// The identifier that the next creation will use.
    pub fn next_id(&self) -> (next: u64)
        ensures
            next == self@.next_id,
    {
        cell_get(&self.counter)
    }

    /// Looks a record up by its identifier.
    pub fn _get_food_allergy_profile(&self, id: &u64) -> (found: Option<FoodAllergyProfile>)
        ensures
            match found {
                Some(profile) => self@.records.contains_key(*id) && self@.records[*id]
                    == profile@,
                None => !self@.records.contains_key(*id),
            },
            self@.wf(),
    {
        proof {
            use_type_invariant(self);
        }
        self.store._get_food_allergy_profile(id)
    }

    /// Returns the record with the identifier, or the error that names it.
    pub fn get_food_allergy_profile(&self, id: u64) -> (found: Result<FoodAllergyProfile, Error>)
        ensures
            result_view(found) == self@.get(id),
            self@.wf(),
    {
        match self._get_food_allergy_profile(&id) {
            Some(profile) => Ok(profile),
            None => Err(Error::NotFound { msg: missing_on_get_text(id) }),
        }
    }

    /// Creates a record of `profile` with `timestamp`, the reading of the
    /// clock, as its creation time. The counter issues two numbers: the
    /// first becomes the identifier, the second the user. `None`, and
    /// nothing changes, where the counter has no two numbers left or the new
    /// record has no byte form.
    pub fn add_food_allergy_profile(
        &mut self,
        profile: FoodAllergyUpdatePayload,
        timestamp: u64,
    ) -> (created: Option<FoodAllergyProfile>)
        ensures
            (final(self)@, optional_view(created)) == old(self)@.create(profile@, timestamp),
            final(self).counter_region() == old(self).counter_region(),
            final(self).record_region() == old(self).record_region(),
            final(self)@.wf(),
    {
        proof {
            use_type_invariant(&*self);
        }
        let current: u64 = cell_get(&self.counter);
        if current > u64::MAX - 2 {
            return None;
        }
        let record = FoodAllergyProfile {
            id: current,
            user_id: current + 1,
            allergies: profile.allergies,
            product_recommendations: profile.product_recommendations,
            created_at: timestamp,
            updated_at: None,
        };
        match record.to_bytes() {
            Some(bytes) => {
                // The counter issues the two numbers of the record.
                self.counter.next();
                self.counter.next();
                self.store.file(current, bytes);
                Some(record)
            },
            None => None,
        }
    }

    /// Replaces the content of the record under `id` by `payload` and sets
    /// its update time to `timestamp`, the reading of the clock; identifier,
    /// user and creation time stay. An error where no record has the
    /// identifier. `None`, and nothing changes, where the revised record has
    /// no byte form.
    pub fn update_food_allergy_profile(
        &mut self,
        id: u64,
        payload: FoodAllergyUpdatePayload,
        timestamp: u64,
    ) -> (outcome: Option<Result<FoodAllergyProfile, Error>>)
        ensures
            (final(self)@, outcome_view(outcome)) == old(self)@.update(id, payload@, timestamp),
            final(self).counter_region() == old(self).counter_region(),
            final(self).record_region() == old(self).record_region(),
            final(self)@.wf(),
    {
        match self._get_food_allergy_profile(&id) {
            Some(found) => {
                let revised = FoodAllergyProfile {
                    id: found.id,
                    user_id: found.user_id,
                    allergies: payload.allergies,
                    product_recommendations: payload.product_recommendations,
                    created_at: found.created_at,
                    updated_at: Some(timestamp),
                };
                match revised.to_bytes() {
                    Some(bytes) => {
                        self.store.file(id, bytes);
                        Some(Ok(revised))
                    },
                    None => None,
                }
            },
            None => Some(Err(Error::NotFound { msg: missing_on_update_text(id) })),
        }
    }

    /// Removes the record under `id` and returns it, or the error that names
    /// the identifier where no record has it.
    pub fn delete_food_allergy_profile(&mut self, id: u64) -> (removed: Result<
        FoodAllergyProfile,
        Error,
    >)
        ensures
            (final(self)@, result_view(removed)) == old(self)@.delete(id),
            final(self).counter_region() == old(self).counter_region(),
            final(self).record_region() == old(self).record_region(),
            final(self)@.wf(),
    {
        proof {
            use_type_invariant(&*self);
        }
        match self.store.discard(id) {
            Some(bytes) => match FoodAllergyProfile::from_bytes(&bytes) {
                Some(profile) => Ok(profile),
                None => unreached(),
            },
            None => {
                assert(self@.records =~= old(self)@.records);
                Err(Error::NotFound { msg: missing_on_delete_text(id) })
            },
        }
    }

    /// Scans the records by ascending identifier and returns those that
    /// `filter` keeps.
    pub fn select(&self, filter: &Filter) -> (found: Vec<FoodAllergyProfile>)
        ensures
            is_selection(profile_views(found@), self@.records, filter@),
            self@.wf(),
    {
        proof {
            use_type_invariant(self);
        }
        self.store.select(filter)
    }

    /// All live records, by ascending identifier.
    pub fn get_all_food_allergy_profiles(&self) -> (found: Vec<FoodAllergyProfile>)
        ensures
            is_selection(profile_views(found@), self@.records, FilterView::All),
            self@.wf(),
    {
        self.select(&Filter::All)
    }

    /// The records that were updated later than `timestamp`.
    pub fn get_food_allergy_profiles_updated_after(&self, timestamp: u64) -> (found: Vec<
        FoodAllergyProfile,
    >)
        ensures
            is_selection(profile_views(found@), self@.records, FilterView::UpdatedAfter(timestamp)),
            self@.wf(),
    {
        self.select(&Filter::UpdatedAfter(timestamp))
    }

    /// The records of one user.
    pub fn get_food_allergy_profiles_by_user_id(&self, user_id: u64) -> (found: Vec<
        FoodAllergyProfile,
    >)
        ensures
            is_selection(profile_views(found@), self@.records, FilterView::ByUser(user_id)),
            self@.wf(),
    {
        self.select(&Filter::ByUser(user_id))
    }

    /// The records with a recommendation equal to `product`.
    pub fn get_food_allergy_profiles_by_product_recommendation(&self, product: String) -> (found:
        Vec<FoodAllergyProfile>)
        ensures
            is_selection(
                profile_views(found@),
                self@.records,
                FilterView::ByRecommendation(product@),
            ),
            self@.wf(),
    {
        self.select(&Filter::ByRecommendation(product))
    }

    /// The records with an allergy equal to `allergy`.
    pub fn get_food_allergy_profiles_by_allergy(&self, allergy: String) -> (found: Vec<
        FoodAllergyProfile,
    >)
        ensures
            is_selection(profile_views(found@), self@.records, FilterView::ByAllergy(allergy@)),
            self@.wf(),
    {
        self.select(&Filter::ByAllergy(allergy))
    }
}

} // verus!
