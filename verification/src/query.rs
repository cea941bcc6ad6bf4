//! The conditions by which the repository selects records.

use crate::profile::{has_text, FoodAllergyProfile, ProfileView};
use vstd::prelude::*;

verus! {

/// The mathematical value of a filter.
pub enum FilterView {
    All,
    UpdatedAfter(u64),
    ByUser(u64),
    ByRecommendation(Seq<char>),
    ByAllergy(Seq<char>),
}

impl FilterView {
    /// Tells whether the filter keeps a profile.
    pub open spec fn accepts(self, profile: ProfileView) -> bool {
        match self {
            FilterView::All => true,
            FilterView::UpdatedAfter(timestamp) => match profile.updated_at {
                Some(updated_at) => updated_at > timestamp,
                None => false,
            },
            FilterView::ByUser(user_id) => profile.user_id == user_id,
            FilterView::ByRecommendation(text) => profile.product_recommendations.contains(text),
            FilterView::ByAllergy(text) => profile.allergies.contains(text),
        }
    }
}

/// A condition on profiles.
#[derive(Debug, PartialEq, Eq)]
pub enum Filter {
    /// Every profile.
    All,
    /// Profiles that were updated, and later than the timestamp.
    UpdatedAfter(u64),
    /// Profiles of one user.
    ByUser(u64),
    /// Profiles with a recommendation equal to the text.
    ByRecommendation(String),
    /// Profiles with an allergy equal to the text.
    ByAllergy(String),
}

impl View for Filter {
    type V = FilterView;

    open spec fn view(&self) -> FilterView {
        match self {
            Filter::All => FilterView::All,
            Filter::UpdatedAfter(timestamp) => FilterView::UpdatedAfter(*timestamp),
            Filter::ByUser(user_id) => FilterView::ByUser(*user_id),
            Filter::ByRecommendation(text) => FilterView::ByRecommendation(text@),
            Filter::ByAllergy(text) => FilterView::ByAllergy(text@),
        }
    }
}

impl Filter {
    /// Tells whether the filter keeps a profile.
    pub fn accepts(&self, profile: &FoodAllergyProfile) -> (kept: bool)
        ensures
            kept == self@.accepts(profile@),
    {
        match self {
            Filter::All => true,
            Filter::UpdatedAfter(timestamp) => match profile.updated_at {
                Some(updated_at) => updated_at > *timestamp,
                None => false,
            },
            Filter::ByUser(user_id) => profile.user_id == *user_id,
            Filter::ByRecommendation(text) => has_text(&profile.product_recommendations, text),
            Filter::ByAllergy(text) => has_text(&profile.allergies, text),
        }
    }
}

/// Tells whether `found` lists exactly the records that `filter` keeps, each
/// once, by ascending identifier.
pub open spec fn is_selection(
    found: Seq<ProfileView>,
    records: Map<u64, ProfileView>,
    filter: FilterView,
) -> bool {
    &&& forall|i: int|
        0 <= i < found.len() ==> records.contains_key((#[trigger] found[i]).id)
            && records[found[i].id] == found[i] && filter.accepts(found[i])
    &&& forall|i: int, j: int|
        0 <= i < j < found.len() ==> (#[trigger] found[i]).id < (#[trigger] found[j]).id
    &&& forall|id: u64|
        #![trigger records.contains_key(id)]
        records.contains_key(id) && filter.accepts(records[id]) ==> exists|i: int|
            0 <= i < found.len() && #[trigger] found[i] == records[id]
}

} // verus!
