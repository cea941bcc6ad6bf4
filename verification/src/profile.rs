//! The profile record, the payload that creates or updates one, and the
//! error that the repository reports.

use vstd::prelude::*;

verus! {

/// The mathematical value of a list of strings: its strings in order, each
/// as a sequence of characters.
pub open spec fn texts(list: Seq<String>) -> Seq<Seq<char>> {
    Seq::new(list.len(), |i: int| list[i]@)
}

/// The mathematical value of a profile.
pub struct ProfileView {
    pub id: u64,
    pub user_id: u64,
    pub allergies: Seq<Seq<char>>,
    pub product_recommendations: Seq<Seq<char>>,
    pub created_at: u64,
    pub updated_at: Option<u64>,
}

/// One persisted allergy profile.
#[derive(Debug, PartialEq, Eq)]
pub struct FoodAllergyProfile {
    /// Primary key, assigned once at creation.
    pub id: u64,
    /// The counter value drawn right after `id`.
    pub user_id: u64,
    /// Free-form allergy tags, in the caller's order, duplicates kept.
    pub allergies: Vec<String>,
    /// Free-form recommendation strings, in the caller's order.
    pub product_recommendations: Vec<String>,
    /// Clock reading at creation.
    pub created_at: u64,
    /// Clock reading at the latest update; `None` until the first one.
    pub updated_at: Option<u64>,
}

impl View for FoodAllergyProfile {
    type V = ProfileView;

    open spec fn view(&self) -> ProfileView {
        ProfileView {
            id: self.id,
            user_id: self.user_id,
            allergies: texts(self.allergies@),
            product_recommendations: texts(self.product_recommendations@),
            created_at: self.created_at,
            updated_at: self.updated_at,
        }
    }
}

/// The mathematical value of a payload.
pub struct PayloadView {
    pub allergies: Seq<Seq<char>>,
    pub product_recommendations: Seq<Seq<char>>,
}

/// The caller-supplied content of a profile.
#[derive(Debug, PartialEq, Eq)]
pub struct FoodAllergyUpdatePayload {
    pub allergies: Vec<String>,
    pub product_recommendations: Vec<String>,
}

impl View for FoodAllergyUpdatePayload {
    type V = PayloadView;

    open spec fn view(&self) -> PayloadView {
        PayloadView {
            allergies: texts(self.allergies@),
            product_recommendations: texts(self.product_recommendations@),
        }
    }
}

/// The one error of the repository.
#[derive(Debug, PartialEq, Eq)]
pub enum Error {
    /// No live record has the identifier; `msg` names it and the operation.
    NotFound { msg: String },
}

impl Error {
    /// The message that the error carries.
    pub open spec fn message(self) -> Seq<char> {
        match self {
            Error::NotFound { msg } => msg@,
        }
    }
}

/// Copies a list of strings.
pub fn copy_texts(list: &Vec<String>) -> (copy: Vec<String>)
    ensures
        texts(copy@) == texts(list@),
{
    let mut copy: Vec<String> = Vec::new();
    let mut i: usize = 0;
    while i < list.len()
        invariant
            i <= list.len(),
            copy.len() == i,
            forall|j: int| 0 <= j < i ==> copy[j]@ == list[j]@,
        decreases list.len() - i,
    {
        copy.push(list[i].clone());
        i += 1;
    }
    copy
}

/// Tells whether two lists hold the same strings in the same order.
pub fn same_texts(left: &Vec<String>, right: &Vec<String>) -> (same: bool)
    ensures
        same == (texts(left@) == texts(right@)),
{
    if left.len() != right.len() {
        assert(texts(left@).len() != texts(right@).len());
        return false;
    }
    let mut i: usize = 0;
    while i < left.len()
        invariant
            i <= left.len(),
            left.len() == right.len(),
            forall|j: int| 0 <= j < i ==> left[j]@ == right[j]@,
        decreases left.len() - i,
    {
        if left[i] != right[i] {
            assert(texts(left@)[i as int] != texts(right@)[i as int]);
            return false;
        }
        i += 1;
    }
    assert(texts(left@) =~= texts(right@));
    true
}

/// Tells whether a list holds a string equal to `wanted`.
pub fn has_text(list: &Vec<String>, wanted: &String) -> (found: bool)
    ensures
        found == texts(list@).contains(wanted@),
{
    let mut i: usize = 0;
    while i < list.len()
        invariant
            i <= list.len(),
            forall|j: int| 0 <= j < i ==> list[j]@ != wanted@,
        decreases list.len() - i,
    {
        if list[i] == *wanted {
            assert(texts(list@)[i as int] == wanted@);
            return true;
        }
        i += 1;
    }
    assert forall|j: int| 0 <= j < texts(list@).len() implies texts(list@)[j] != wanted@ by {
        assert(texts(list@)[j] == list[j]@);
    }
    false
}

impl Clone for FoodAllergyProfile {
    fn clone(&self) -> (copy: Self)
        ensures
            copy@ == self@,
    {
        FoodAllergyProfile {
            id: self.id,
            user_id: self.user_id,
            allergies: copy_texts(&self.allergies),
            product_recommendations: copy_texts(&self.product_recommendations),
            created_at: self.created_at,
            updated_at: self.updated_at,
        }
    }
}

impl Default for FoodAllergyProfile {
    fn default() -> (empty: Self)
        ensures
            empty.id == 0,
            empty.user_id == 0,
            empty.allergies@.len() == 0,
            empty.product_recommendations@.len() == 0,
            empty.created_at == 0,
            empty.updated_at.is_none(),
    {
        FoodAllergyProfile {
            id: 0,
            user_id: 0,
            allergies: Vec::new(),
            product_recommendations: Vec::new(),
            created_at: 0,
            updated_at: None,
        }
    }
}

impl FoodAllergyProfile {
    /// Tells whether two profiles have the same value in every field.
    pub fn same_as(&self, other: &FoodAllergyProfile) -> (same: bool)
        ensures
            same == (self@ == other@),
    {
        let times = match (self.updated_at, other.updated_at) {
            (Some(a), Some(b)) => a == b,
            (None, None) => true,
            _ => false,
        };
        self.id == other.id && self.user_id == other.user_id && self.created_at
            == other.created_at && times && same_texts(&self.allergies, &other.allergies)
            && same_texts(&self.product_recommendations, &other.product_recommendations)
    }
}

impl Clone for FoodAllergyUpdatePayload {
    fn clone(&self) -> (copy: Self)
        ensures
            copy@ == self@,
    {
        FoodAllergyUpdatePayload {
            allergies: copy_texts(&self.allergies),
            product_recommendations: copy_texts(&self.product_recommendations),
        }
    }
}

impl Default for FoodAllergyUpdatePayload {
    fn default() -> (empty: Self)
        ensures
            empty.allergies@.len() == 0,
            empty.product_recommendations@.len() == 0,
    {
        FoodAllergyUpdatePayload { allergies: Vec::new(), product_recommendations: Vec::new() }
    }
}

} // verus!
