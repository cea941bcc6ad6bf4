use allergy_profiles::codec::MAX_SIZE;
use allergy_profiles::message::{
    decimal_text, missing_on_delete_text, missing_on_get_text, missing_on_update_text,
};
use allergy_profiles::profile::{
    copy_texts, has_text, same_texts, FoodAllergyProfile, FoodAllergyUpdatePayload,
};

fn words(items: &[&str]) -> Vec<String> {
    items.iter().map(|s| s.to_string()).collect()
}

fn sample_profile() -> FoodAllergyProfile {
    FoodAllergyProfile {
        id: 7,
        user_id: 8,
        allergies: words(&["peanuts", "shellfish", ""]),
        product_recommendations: words(&["brand X", "br\u{e4}nd \u{2603}"]),
        created_at: 1_700_000_000_000_000_000,
        updated_at: Some(u64::MAX),
    }
}

#[test]
fn decode_inverts_encode() {
    let profile = sample_profile();
    let bytes = profile.to_bytes().expect("a small profile has a byte form");
    assert_eq!(FoodAllergyProfile::from_bytes(&bytes), Some(profile));
}

#[test]
fn decode_inverts_encode_without_update_time_and_content() {
    let profile = FoodAllergyProfile::default();
    let bytes = profile.to_bytes().unwrap();
    let back = FoodAllergyProfile::from_bytes(&bytes).unwrap();
    assert_eq!(back, profile);
    assert_eq!(back.updated_at, None);
    assert!(back.allergies.is_empty());
}

#[test]
fn encoding_is_a_candid_message_within_the_bound() {
    let bytes = sample_profile().to_bytes().unwrap();
    assert_eq!(&bytes[..4], b"DIDL");
    assert!(bytes.len() <= MAX_SIZE);
    assert!(bytes.len() > 4);
}

#[test]
fn encoding_tells_profiles_apart() {
    let first = sample_profile();
    let second = FoodAllergyProfile { id: 9, ..sample_profile() };
    assert_ne!(first.to_bytes().unwrap(), second.to_bytes().unwrap());
}

#[test]
fn encoding_ends_at_the_size_bound() {
    let empty = FoodAllergyProfile::default().to_bytes().unwrap();
    let room = MAX_SIZE - empty.len();
    // One text of n bytes adds n bytes and its length prefix to the empty
    // record: one byte for the prefix below 128, two from there on.
    let fits = FoodAllergyProfile {
        allergies: vec!["a".repeat(room - 2)],
        ..FoodAllergyProfile::default()
    };
    let bytes = fits.to_bytes().expect("exactly the bound is accepted");
    assert_eq!(bytes.len(), MAX_SIZE);
    let too_long = FoodAllergyProfile {
        allergies: vec!["a".repeat(room - 1)],
        ..FoodAllergyProfile::default()
    };
    assert_eq!(too_long.to_bytes(), None);
}

#[test]
fn malformed_bytes_do_not_decode() {
    assert_eq!(FoodAllergyProfile::from_bytes(&Vec::new()), None);
    assert_eq!(FoodAllergyProfile::from_bytes(&b"DIDL".to_vec()), None);
    assert_eq!(FoodAllergyProfile::from_bytes(&vec![0, 1, 2, 3, 4, 5]), None);
    let mut bytes = sample_profile().to_bytes().unwrap();
    bytes.truncate(bytes.len() - 3);
    assert_eq!(FoodAllergyProfile::from_bytes(&bytes), None);
}

#[test]
fn profile_clone_and_comparison() {
    let profile = sample_profile();
    let copy = profile.clone();
    assert_eq!(copy, profile);
    assert!(profile.same_as(&copy));
    let other = FoodAllergyProfile { updated_at: None, ..sample_profile() };
    assert!(!profile.same_as(&other));
    let reordered = FoodAllergyProfile {
        allergies: words(&["shellfish", "peanuts", ""]),
        ..sample_profile()
    };
    assert!(!profile.same_as(&reordered));
}

#[test]
fn defaults_are_empty() {
    let profile = FoodAllergyProfile::default();
    assert_eq!(profile.id, 0);
    assert_eq!(profile.user_id, 0);
    assert!(profile.allergies.is_empty());
    assert!(profile.product_recommendations.is_empty());
    assert_eq!(profile.created_at, 0);
    assert_eq!(profile.updated_at, None);
    let payload = FoodAllergyUpdatePayload::default();
    assert!(payload.allergies.is_empty());
    assert!(payload.product_recommendations.is_empty());
    assert_eq!(payload.clone(), payload);
}

#[test]
fn text_list_helpers() {
    let list = words(&["a", "bb", "a"]);
    assert_eq!(copy_texts(&list), list);
    assert!(same_texts(&list, &words(&["a", "bb", "a"])));
    assert!(!same_texts(&list, &words(&["a", "bb"])));
    assert!(!same_texts(&list, &words(&["a", "bb", "b"])));
    assert!(same_texts(&Vec::new(), &Vec::new()));
    assert!(has_text(&list, &"bb".to_string()));
    assert!(!has_text(&list, &"b".to_string()));
    assert!(!has_text(&Vec::new(), &String::new()));
}

#[test]
fn decimal_text_of_numbers() {
    assert_eq!(decimal_text(0), "0");
    assert_eq!(decimal_text(7), "7");
    assert_eq!(decimal_text(10), "10");
    assert_eq!(decimal_text(1234567890), "1234567890");
    assert_eq!(decimal_text(u64::MAX), "18446744073709551615");
}

#[test]
fn messages_name_the_id_and_the_operation() {
    assert_eq!(missing_on_get_text(0), "a food allergy profile with id=0 not found");
    assert_eq!(
        missing_on_update_text(305),
        "couldn't update a food allergy profile with id=305. profile not found"
    );
    assert_eq!(
        missing_on_delete_text(u64::MAX),
        "couldn't delete a food allergy profile with id=18446744073709551615. profile not found."
    );
}
