//! The byte form of a profile: its Candid encoding, accepted only where it
//! fits the size bound and decodes back to the same profile.

use crate::profile::{texts, FoodAllergyProfile, ProfileView};
use vstd::prelude::*;

verus! {

/// The largest number of bytes that the encoding of one profile may take.
pub const MAX_SIZE: usize = 1024;

/// What `candid::encode_one` returns for the six fields of a profile taken as
/// one tuple: the bytes of the message, or `None` where it reports an error.
pub uninterp spec fn candid_encoding(
    id: u64,
    user_id: u64,
    allergies: Seq<Seq<char>>,
    product_recommendations: Seq<Seq<char>>,
    created_at: u64,
    updated_at: Option<u64>,
) -> Option<Seq<u8>>;

/// What `candid::decode_one` returns for a message that is read as a tuple of
/// the six fields of a profile: the fields, or `None` where it reports an error.
pub uninterp spec fn candid_decoding(bytes: Seq<u8>) -> Option<
    (u64, u64, Seq<Seq<char>>, Seq<Seq<char>>, u64, Option<u64>),
>;

/// Calls `candid::encode_one` on the fields of `profile` as a tuple. The
/// encoder reads nothing but its argument, so the contract claims only that
/// the result is the one named for these field values; an error is mapped to
/// `None`.
#[verifier::external_body]
fn candid_encode(profile: &FoodAllergyProfile) -> (bytes: Option<Vec<u8>>)
    ensures
        match bytes {
            Some(b) => candid_encoding(
                profile.id,
                profile.user_id,
                texts(profile.allergies@),
                texts(profile.product_recommendations@),
                profile.created_at,
                profile.updated_at,
            ) == Some(b@),
            None => candid_encoding(
                profile.id,
                profile.user_id,
                texts(profile.allergies@),
                texts(profile.product_recommendations@),
                profile.created_at,
                profile.updated_at,
            ).is_none(),
        },
{
    candid::encode_one((
        profile.id,
        profile.user_id,
        &profile.allergies,
        &profile.product_recommendations,
        profile.created_at,
        profile.updated_at,
    )).ok()
}

/// Calls `candid::decode_one` with the tuple of a profile's six fields as the
/// expected type. The decoder reads nothing but the bytes, so the contract
/// claims only that the result is the one named for them; an error is mapped
/// to `None`.
#[verifier::external_body]
fn candid_decode(bytes: &Vec<u8>) -> (fields: Option<
    (u64, u64, Vec<String>, Vec<String>, u64, Option<u64>),
>)
    ensures
        match fields {
            Some(f) => candid_decoding(bytes@) == Some(
                (f.0, f.1, texts(f.2@), texts(f.3@), f.4, f.5),
            ),
            None => candid_decoding(bytes@).is_none(),
        },
{
    candid::decode_one(bytes.as_slice()).ok()
}

/// The profile that a byte sequence stands for, if it stands for one.
pub open spec fn decoding(bytes: Seq<u8>) -> Option<ProfileView> {
    match candid_decoding(bytes) {
        Some(f) => Some(
            ProfileView {
                id: f.0,
                user_id: f.1,
                allergies: f.2,
                product_recommendations: f.3,
                created_at: f.4,
                updated_at: f.5,
            },
        ),
        None => None,
    }
}

/// The bytes under which a profile is stored: its Candid encoding, provided
/// that it takes at most `MAX_SIZE` bytes and stands for the profile again.
/// A profile without such an encoding cannot be stored.
pub open spec fn encoding(profile: ProfileView) -> Option<Seq<u8>> {
    match candid_encoding(
        profile.id,
        profile.user_id,
        profile.allergies,
        profile.product_recommendations,
        profile.created_at,
        profile.updated_at,
    ) {
        Some(bytes) => if acceptable(profile, bytes) {
            Some(bytes)
        } else {
            None
        },
        None => None,
    }
}

impl FoodAllergyProfile {
    /// Reads a profile from its byte form; `None` where the bytes are no
    /// well-formed message of a profile.
    pub fn from_bytes(bytes: &Vec<u8>) -> (profile: Option<FoodAllergyProfile>)
        ensures
            match profile {
                Some(p) => decoding(bytes@) == Some(p@),
                None => decoding(bytes@).is_none(),
            },
    {
        match candid_decode(bytes) {
            Some(fields) => Some(
                FoodAllergyProfile {
                    id: fields.0,
                    user_id: fields.1,
                    allergies: fields.2,
                    product_recommendations: fields.3,
                    created_at: fields.4,
                    updated_at: fields.5,
                },
            ),
            None => None,
        }
    }

    /// Writes the profile in its byte form; `None` where the profile has none,
    /// because its encoding is too long or does not read back as the profile.
    pub fn to_bytes(&self) -> (bytes: Option<Vec<u8>>)
        ensures
            match bytes {
                Some(b) => encoding(self@) == Some(b@),
                None => encoding(self@).is_none(),
            },
    {
        match candid_encode(self) {
            Some(bytes) => accept_encoding(self, bytes),
            None => None,
        }
    }
}

/// Tells whether `bytes` may be stored for `profile`: they are at most
/// `MAX_SIZE` long and stand for the profile.
pub open spec fn acceptable(profile: ProfileView, bytes: Seq<u8>) -> bool {
    bytes.len() <= MAX_SIZE && decoding(bytes) == Some(profile)
}

/// Keeps the bytes that an encoder gave for `profile` where they may be
/// stored for it, and drops them otherwise.
pub fn accept_encoding(profile: &FoodAllergyProfile, bytes: Vec<u8>) -> (kept: Option<Vec<u8>>)
    ensures
        kept.is_some() == acceptable(profile@, bytes@),
        kept matches Some(b) ==> b@ == bytes@,
{
    if bytes.len() > MAX_SIZE {
        return None;
    }
    match FoodAllergyProfile::from_bytes(&bytes) {
        Some(back) => if back.same_as(profile) {
            Some(bytes)
        } else {
            None
        },
        None => None,
    }
}

/// Decoding inverts encoding: the bytes under which a profile is stored
/// stand for that profile, and are at most `MAX_SIZE` long.
pub proof fn lemma_decode_inverts_encode(profile: ProfileView)
    requires
        encoding(profile).is_some(),
    ensures
        decoding(encoding(profile).unwrap()) == Some(profile),
        encoding(profile).unwrap().len() <= MAX_SIZE,
{
}

} // verus!
