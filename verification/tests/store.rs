use allergy_profiles::allocator::IdCell;
use allergy_profiles::codec::{accept_encoding, MAX_SIZE};
use allergy_profiles::profile::{FoodAllergyProfile, FoodAllergyUpdatePayload};
use allergy_profiles::query::Filter;
use allergy_profiles::records::ProfileStore;
use allergy_profiles::repository::Repository;

fn list(items: &[&str]) -> Vec<String> {
    items.iter().map(|s| s.to_string()).collect()
}

fn record(id: u64, allergy: &str) -> FoodAllergyProfile {
    FoodAllergyProfile {
        id,
        user_id: id + 1,
        allergies: list(&[allergy]),
        product_recommendations: list(&["brand X"]),
        created_at: 100 + id,
        updated_at: None,
    }
}

fn parts_after(creations: u64) -> (IdCell, ProfileStore) {
    let mut repository = Repository::init().unwrap();
    for round in 0..creations {
        let content = FoodAllergyUpdatePayload {
            allergies: list(&["soy"]),
            product_recommendations: list(&[]),
        };
        repository.add_food_allergy_profile(content, round).unwrap();
    }
    repository.into_parts()
}

#[test]
fn insert_creates_an_entry_under_any_identifier() {
    let (counter, mut store) = parts_after(0);
    assert_eq!(counter.peek(), 0);
    for id in [0u64, 7, 1_000_000, u64::MAX] {
        let profile = record(id, "egg");
        assert!(store.do_insert_food_allergy_profile(&profile));
        assert_eq!(store._get_food_allergy_profile(&id), Some(profile));
    }
    let ids: Vec<u64> = store.select(&Filter::All).iter().map(|p| p.id).collect();
    assert_eq!(ids, vec![0, 7, 1_000_000, u64::MAX]);
    assert_eq!(counter.peek(), 0);
}

#[test]
fn insert_wholly_overwrites_and_leaves_the_others() {
    let (counter, mut store) = parts_after(3);
    let untouched_first = store._get_food_allergy_profile(&0).unwrap();
    let untouched_last = store._get_food_allergy_profile(&4).unwrap();
    let replacement = FoodAllergyProfile {
        id: 2,
        user_id: 99,
        allergies: list(&["kiwi", "kiwi"]),
        product_recommendations: list(&[]),
        created_at: 5,
        updated_at: Some(6),
    };
    let handed_in = replacement.clone();
    assert!(store.do_insert_food_allergy_profile(&replacement));
    assert_eq!(replacement, handed_in);
    assert_eq!(store._get_food_allergy_profile(&2), Some(replacement));
    assert_eq!(store._get_food_allergy_profile(&0), Some(untouched_first));
    assert_eq!(store._get_food_allergy_profile(&4), Some(untouched_last));
    assert_eq!(store._get_food_allergy_profile(&1), None);
    assert_eq!(store.select(&Filter::All).len(), 3);
    assert_eq!(counter.peek(), 6);
}

#[test]
fn insert_of_an_oversized_record_changes_nothing() {
    let (_counter, mut store) = parts_after(1);
    let kept = store._get_food_allergy_profile(&0).unwrap();
    let oversized = FoodAllergyProfile { allergies: vec!["z".repeat(MAX_SIZE)], ..record(0, "a") };
    assert!(!store.do_insert_food_allergy_profile(&oversized));
    assert_eq!(store._get_food_allergy_profile(&0), Some(kept));
    let elsewhere = FoodAllergyProfile { id: 50, ..oversized };
    assert!(!store.do_insert_food_allergy_profile(&elsewhere));
    assert_eq!(store._get_food_allergy_profile(&50), None);
    assert_eq!(store.select(&Filter::All).len(), 1);
}

#[test]
fn store_removes_and_returns_the_record() {
    let (_counter, mut store) = parts_after(2);
    let first = store._get_food_allergy_profile(&0).unwrap();
    assert_eq!(store.remove(0), Some(first));
    assert_eq!(store.remove(0), None);
    assert_eq!(store._get_food_allergy_profile(&0), None);
    assert!(store._get_food_allergy_profile(&2).is_some());
    assert_eq!(store.remove(1), None);
}

#[test]
fn store_tells_its_largest_identifier() {
    let (_counter, mut store) = parts_after(0);
    assert_eq!(store.largest_id(), None);
    assert!(store.do_insert_food_allergy_profile(&record(5, "a")));
    assert!(store.do_insert_food_allergy_profile(&record(3, "a")));
    assert_eq!(store.largest_id(), Some(5));
    store.remove(5);
    assert_eq!(store.largest_id(), Some(3));
}

#[test]
fn store_selects_in_ascending_order() {
    let (_counter, mut store) = parts_after(0);
    for id in [9u64, 1, 5] {
        assert!(store.do_insert_food_allergy_profile(&record(id, if id == 5 { "milk" } else { "egg" })));
    }
    let all: Vec<u64> = store.select(&Filter::All).iter().map(|p| p.id).collect();
    assert_eq!(all, vec![1, 5, 9]);
    let egg: Vec<u64> =
        store.select(&Filter::ByAllergy("egg".to_string())).iter().map(|p| p.id).collect();
    assert_eq!(egg, vec![1, 9]);
}

#[test]
fn parts_make_a_repository_again() {
    let (counter, mut store) = parts_after(2);
    let replacement = record(2, "kiwi");
    assert!(store.do_insert_food_allergy_profile(&replacement));
    let in_user_slot = record(3, "plum");
    assert!(store.do_insert_food_allergy_profile(&in_user_slot));
    let mut repository = Repository::from_parts(counter, store).expect("every id was issued");
    assert_eq!(repository.next_id(), 4);
    assert_eq!(repository.get_food_allergy_profile(2).unwrap(), replacement);
    assert_eq!(repository.get_food_allergy_profile(3).unwrap(), in_user_slot);
    let content = FoodAllergyUpdatePayload { allergies: list(&[]), product_recommendations: list(&[]) };
    assert_eq!(repository.add_food_allergy_profile(content, 9).unwrap().id, 4);
}

#[test]
fn parts_with_a_record_at_or_above_the_counter_make_no_repository() {
    let (counter, mut store) = parts_after(1);
    assert!(store.do_insert_food_allergy_profile(&record(2, "a")));
    assert!(Repository::from_parts(counter, store).is_none());

    let (counter, mut store) = parts_after(1);
    assert!(store.do_insert_food_allergy_profile(&record(1, "a")));
    assert!(Repository::from_parts(counter, store).is_some());
}

#[test]
fn counter_issues_successive_numbers() {
    let (mut counter, store) = parts_after(1);
    assert_eq!(counter.peek(), 2);
    assert_eq!(counter.next(), Some(2));
    assert_eq!(counter.next(), Some(3));
    assert_eq!(counter.peek(), 4);
    let repository = Repository::from_parts(counter, store).unwrap();
    assert_eq!(repository.next_id(), 4);
}

#[test]
fn accept_encoding_keeps_only_bytes_of_the_profile_within_the_bound() {
    let profile = record(4, "egg");
    let bytes = profile.to_bytes().unwrap();
    assert_eq!(accept_encoding(&profile, bytes.clone()), Some(bytes.clone()));

    let other = record(5, "egg");
    assert_eq!(accept_encoding(&other, bytes.clone()), None);

    assert_eq!(accept_encoding(&profile, Vec::new()), None);
    assert_eq!(accept_encoding(&profile, vec![0u8; MAX_SIZE + 1]), None);
    let mut cut = bytes.clone();
    cut.pop();
    assert_eq!(accept_encoding(&profile, cut), None);
}

#[test]
fn accept_encoding_ends_at_the_size_bound() {
    let empty = FoodAllergyProfile::default().to_bytes().unwrap();
    let room = MAX_SIZE - empty.len();
    let fits = FoodAllergyProfile {
        allergies: vec!["a".repeat(room - 2)],
        ..FoodAllergyProfile::default()
    };
    let bytes = candid::encode_one((
        fits.id,
        fits.user_id,
        &fits.allergies,
        &fits.product_recommendations,
        fits.created_at,
        fits.updated_at,
    ))
    .unwrap();
    assert_eq!(bytes.len(), MAX_SIZE);
    assert_eq!(accept_encoding(&fits, bytes.clone()), Some(bytes));

    let too_long = FoodAllergyProfile {
        allergies: vec!["a".repeat(room - 1)],
        ..FoodAllergyProfile::default()
    };
    let bytes = candid::encode_one((
        too_long.id,
        too_long.user_id,
        &too_long.allergies,
        &too_long.product_recommendations,
        too_long.created_at,
        too_long.updated_at,
    ))
    .unwrap();
    assert_eq!(bytes.len(), MAX_SIZE + 1);
    assert_eq!(accept_encoding(&too_long, bytes), None);
}
