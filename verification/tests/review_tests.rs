use movie_review::address::{derive_address, verify_address};
use movie_review::codec::{decode, encode};
use movie_review::error::ReviewError;
use movie_review::processor::{add_movie_review, apply_update, plan_create, update_movie_review};
use movie_review::record::{encoded_size, exceeds_capacity, Record, SLOT_CAPACITY};

fn key(b: u8) -> [u8; 32] {
    [b; 32]
}

fn derived(identity: &[u8; 32], label: &[u8], scope: &[u8; 32]) -> ([u8; 32], u8) {
    derive_address(identity, &label.to_vec(), scope).expect("derivation should succeed")
}

fn slot_with(data: &[u8]) -> Vec<u8> {
    let mut slot = vec![0u8; SLOT_CAPACITY];
    slot[..data.len()].copy_from_slice(data);
    slot
}

fn create_slot(
    scope: &[u8; 32],
    identity: &[u8; 32],
    title: &[u8],
    rating: u8,
    description: &[u8],
) -> ([u8; 32], Vec<u8>) {
    let (address, _bump) = derived(identity, title, scope);
    let plan = add_movie_review(
        scope,
        identity,
        true,
        &address,
        title.to_vec(),
        rating,
        description.to_vec(),
    )
    .expect("create should succeed");
    (address, slot_with(&plan.data))
}

#[test]
fn derive_is_deterministic() {
    let identity = key(1);
    let scope = key(9);
    let first = derive_address(&identity, &b"Dune".to_vec(), &scope);
    let second = derive_address(&identity, &b"Dune".to_vec(), &scope);
    assert!(first.is_some());
    assert_eq!(first, second);
}

#[test]
fn derive_moves_off_the_identity() {
    let identity = key(1);
    let scope = key(9);
    let (address, _bump) = derived(&identity, b"Dune", &scope);
    assert_ne!(address, identity);
    assert_ne!(address, scope);
}

#[test]
fn derive_differs_per_identity_and_label() {
    let scope = key(9);
    let (a, _) = derived(&key(1), b"Dune", &scope);
    let (b, _) = derived(&key(2), b"Dune", &scope);
    let (c, _) = derived(&key(1), b"Tron", &scope);
    assert_ne!(a, b);
    assert_ne!(a, c);
}

#[test]
fn derive_fails_past_the_seed_cap() {
    let identity = key(1);
    let scope = key(9);
    let long_title = vec![b'a'; 33];
    assert!(derive_address(&identity, &long_title, &scope).is_none());
    let target = key(7);
    let r = add_movie_review(&scope, &identity, true, &target, long_title, 3, b"x".to_vec());
    assert_eq!(r.unwrap_err(), ReviewError::DerivationFailure);
}

#[test]
fn verify_address_accepts_the_derived_address_only() {
    let identity = key(1);
    let scope = key(9);
    let (address, _bump) = derived(&identity, b"Dune", &scope);
    assert!(verify_address(&address, &identity, &b"Dune".to_vec(), &scope));
    assert!(!verify_address(&key(7), &identity, &b"Dune".to_vec(), &scope));
    assert!(!verify_address(&address, &key(2), &b"Dune".to_vec(), &scope));
    assert!(!verify_address(&address, &identity, &b"Tron".to_vec(), &scope));
}

#[test]
fn encode_uses_the_fixed_layout() {
    let record = Record {
        initialized: true,
        rating: 5,
        title: b"Dune".to_vec(),
        description: b"Great".to_vec(),
    };
    let bytes = encode(&record);
    let expected = [
        &[1u8, 5][..],
        &4u32.to_le_bytes()[..],
        b"Dune",
        &5u32.to_le_bytes()[..],
        b"Great",
    ]
    .concat();
    assert_eq!(bytes, expected);
}

#[test]
fn encode_decode_round_trip() {
    let record = Record {
        initialized: true,
        rating: 3,
        title: b"Arrival".to_vec(),
        description: b"Slow but rewarding".to_vec(),
    };
    let bytes = encode(&record);
    let back = decode(&bytes).expect("encoded record should decode");
    assert_eq!(back.initialized, record.initialized);
    assert_eq!(back.rating, record.rating);
    assert_eq!(back.title, record.title);
    assert_eq!(back.description, record.description);
}

#[test]
fn decode_tolerates_a_zero_filled_slot() {
    let slot = vec![0u8; SLOT_CAPACITY];
    let record = decode(&slot).expect("zero-filled slot should decode");
    assert!(!record.initialized);
    assert_eq!(record.rating, 0);
    assert!(record.title.is_empty());
    assert!(record.description.is_empty());
}

#[test]
fn decode_rejects_truncated_or_malformed_bytes() {
    assert!(decode(&vec![0u8; 5]).is_none());
    let mut bad_flag = vec![0u8; SLOT_CAPACITY];
    bad_flag[0] = 2;
    assert!(decode(&bad_flag).is_none());
    let mut bad_length = vec![0u8; 12];
    bad_length[2] = 200;
    assert!(decode(&bad_length).is_none());
}

#[test]
fn encoded_size_matches_the_formula() {
    let record = Record {
        initialized: true,
        rating: 4,
        title: b"Dune".to_vec(),
        description: b"Great".to_vec(),
    };
    assert_eq!(encoded_size(&record), 1 + 1 + (4 + 4) + (4 + 5));
    assert!(!exceeds_capacity(4, 986));
    assert!(exceeds_capacity(4, 987));
}

#[test]
fn create_succeeds_and_the_slot_decodes_back() {
    let identity = key(1);
    let scope = key(9);
    let (_address, slot) = create_slot(&scope, &identity, b"Dune", 5, b"Great");
    let record = decode(&slot).expect("created slot should decode");
    assert!(record.initialized);
    assert_eq!(record.rating, 5);
    assert_eq!(record.title, b"Dune".to_vec());
    assert_eq!(record.description, b"Great".to_vec());
}

#[test]
fn create_requires_an_authenticated_identity() {
    let identity = key(1);
    let scope = key(9);
    let (address, _bump) = derived(&identity, b"Dune", &scope);
    let r = add_movie_review(
        &scope,
        &identity,
        false,
        &address,
        b"Dune".to_vec(),
        5,
        b"Great".to_vec(),
    );
    assert_eq!(r.unwrap_err(), ReviewError::Unauthorized);
}

#[test]
fn create_rejects_an_underived_address() {
    let identity = key(1);
    let scope = key(9);
    let r = add_movie_review(
        &scope,
        &identity,
        true,
        &key(7),
        b"Dune".to_vec(),
        5,
        b"Great".to_vec(),
    );
    assert_eq!(r.unwrap_err(), ReviewError::InvalidAddress);
}

#[test]
fn create_rejects_ratings_off_the_scale() {
    let identity = key(1);
    let scope = key(9);
    let (address, _bump) = derived(&identity, b"Dune", &scope);
    for rating in [0u8, 6, 255] {
        let r = add_movie_review(
            &scope,
            &identity,
            true,
            &address,
            b"Dune".to_vec(),
            rating,
            b"Great".to_vec(),
        );
        assert_eq!(r.unwrap_err(), ReviewError::InvalidRating);
    }
}

#[test]
fn update_rejects_ratings_off_the_scale_and_leaves_the_slot() {
    let identity = key(1);
    let scope = key(9);
    let (address, slot) = create_slot(&scope, &identity, b"Dune", 5, b"Great");
    for rating in [0u8, 6] {
        let mut touched = slot.clone();
        let r = update_movie_review(
            &scope,
            &identity,
            true,
            true,
            &address,
            rating,
            b"Changed".to_vec(),
            &mut touched,
        );
        assert_eq!(r.unwrap_err(), ReviewError::InvalidRating);
        assert_eq!(touched, slot);
    }
}

#[test]
fn capacity_boundary_is_exact_for_create() {
    let identity = key(1);
    let scope = key(9);
    let (address, _bump) = derived(&identity, b"Dune", &scope);
    let fits = vec![b'd'; SLOT_CAPACITY - 10 - 4];
    let plan = add_movie_review(
        &scope,
        &identity,
        true,
        &address,
        b"Dune".to_vec(),
        5,
        fits,
    )
    .expect("an exactly full record should fit");
    assert_eq!(plan.data.len(), SLOT_CAPACITY);
    let too_big = vec![b'd'; SLOT_CAPACITY - 10 - 4 + 1];
    let r = add_movie_review(&scope, &identity, true, &address, b"Dune".to_vec(), 5, too_big);
    assert_eq!(r.unwrap_err(), ReviewError::RecordTooLarge);
}

#[test]
fn capacity_boundary_is_exact_for_update() {
    let identity = key(1);
    let scope = key(9);
    let (address, slot) = create_slot(&scope, &identity, b"Dune", 5, b"Great");
    let mut full = slot.clone();
    let fits = vec![b'd'; SLOT_CAPACITY - 10 - 4];
    update_movie_review(&scope, &identity, true, true, &address, 4, fits, &mut full)
        .expect("an exactly full record should fit");
    let mut over = full.clone();
    let too_big = vec![b'd'; SLOT_CAPACITY - 10 - 4 + 1];
    let r = update_movie_review(
        &scope, &identity, true, true, &address, 4, too_big, &mut over,
    );
    assert_eq!(r.unwrap_err(), ReviewError::RecordTooLarge);
    assert_eq!(over, full);
}

#[test]
fn update_requires_program_ownership() {
    let identity = key(1);
    let scope = key(9);
    let (address, slot) = create_slot(&scope, &identity, b"Dune", 5, b"Great");
    let mut touched = slot.clone();
    let r = update_movie_review(
        &scope,
        &identity,
        true,
        false,
        &address,
        3,
        b"Changed".to_vec(),
        &mut touched,
    );
    assert_eq!(r.unwrap_err(), ReviewError::IllegalOwner);
    assert_eq!(touched, slot);
}

#[test]
fn update_requires_an_authenticated_identity() {
    let identity = key(1);
    let scope = key(9);
    let (address, slot) = create_slot(&scope, &identity, b"Dune", 5, b"Great");
    let mut touched = slot.clone();
    let r = update_movie_review(
        &scope,
        &identity,
        false,
        true,
        &address,
        3,
        b"Changed".to_vec(),
        &mut touched,
    );
    assert_eq!(r.unwrap_err(), ReviewError::Unauthorized);
    assert_eq!(touched, slot);
}

#[test]
fn update_rejects_an_uninitialized_slot() {
    let identity = key(1);
    let scope = key(9);
    let (address, _bump) = derived(&identity, b"", &scope);
    let mut slot = vec![0u8; SLOT_CAPACITY];
    let before = slot.clone();
    let r = update_movie_review(
        &scope,
        &identity,
        true,
        true,
        &address,
        3,
        b"Changed".to_vec(),
        &mut slot,
    );
    assert_eq!(r.unwrap_err(), ReviewError::UninitializedAccount);
    assert_eq!(slot, before);
}

#[test]
fn update_changes_rating_and_description_but_not_the_title() {
    let identity = key(1);
    let scope = key(9);
    let (address, mut slot) = create_slot(&scope, &identity, b"Dune", 5, b"Great");
    update_movie_review(
        &scope,
        &identity,
        true,
        true,
        &address,
        3,
        b"Mediocre on rewatch".to_vec(),
        &mut slot,
    )
    .expect("update should succeed");
    let record = decode(&slot).expect("updated slot should decode");
    assert!(record.initialized);
    assert_eq!(record.rating, 3);
    assert_eq!(record.title, b"Dune".to_vec());
    assert_eq!(record.description, b"Mediocre on rewatch".to_vec());
}

#[test]
fn update_twice_is_byte_identical_to_once() {
    let identity = key(1);
    let scope = key(9);
    let (address, mut slot) = create_slot(&scope, &identity, b"Dune", 5, b"Great");
    update_movie_review(
        &scope,
        &identity,
        true,
        true,
        &address,
        3,
        b"Mediocre on rewatch".to_vec(),
        &mut slot,
    )
    .expect("first update should succeed");
    let once = slot.clone();
    update_movie_review(
        &scope,
        &identity,
        true,
        true,
        &address,
        3,
        b"Mediocre on rewatch".to_vec(),
        &mut slot,
    )
    .expect("second update should succeed");
    assert_eq!(slot, once);
}

#[test]
fn update_keeps_stale_bytes_past_the_encoding() {
    let identity = key(1);
    let scope = key(9);
    let (address, mut slot) = create_slot(&scope, &identity, b"Dune", 5, b"Greatest");
    update_movie_review(
        &scope,
        &identity,
        true,
        true,
        &address,
        4,
        b"x".to_vec(),
        &mut slot,
    )
    .expect("update should succeed");
    let shorter_len = 1 + 1 + (4 + 4) + (4 + 1);
    assert_eq!(slot[shorter_len], b"Greatest"[1]);
}

#[test]
fn another_identity_cannot_create_at_a_foreign_address() {
    let scope = key(9);
    let first_owner = key(1);
    let (address, slot) = create_slot(&scope, &first_owner, b"Dune", 5, b"Great");
    let second_owner = key(2);
    let r = add_movie_review(
        &scope,
        &second_owner,
        true,
        &address,
        b"Dune".to_vec(),
        4,
        b"x".to_vec(),
    );
    assert_eq!(r.unwrap_err(), ReviewError::InvalidAddress);
    let record = decode(&slot).expect("untouched slot should still decode");
    assert_eq!(record.rating, 5);
    assert_eq!(record.description, b"Great".to_vec());
}

#[test]
fn plan_create_builds_the_slot_image_for_a_given_derivation() {
    let target = key(7);
    let plan = plan_create(
        Some((target, 42)),
        true,
        &target,
        b"Dune".to_vec(),
        5,
        b"Great".to_vec(),
    )
    .expect("create against the given derivation should succeed");
    assert_eq!(plan.bump_seed, 42);
    let record = Record {
        initialized: true,
        rating: 5,
        title: b"Dune".to_vec(),
        description: b"Great".to_vec(),
    };
    assert_eq!(plan.data, encode(&record));
    let r = plan_create(None, true, &target, b"Dune".to_vec(), 5, b"Great".to_vec());
    assert_eq!(r.unwrap_err(), ReviewError::DerivationFailure);
}

#[test]
fn apply_update_rewrites_the_slot_for_a_given_derivation() {
    let target = key(7);
    let record = Record {
        initialized: true,
        rating: 5,
        title: b"Dune".to_vec(),
        description: b"Great".to_vec(),
    };
    let mut slot = slot_with(&encode(&record));
    apply_update(
        Some((target, 42)),
        true,
        true,
        &target,
        2,
        b"Changed".to_vec(),
        &mut slot,
    )
    .expect("update against the given derivation should succeed");
    let back = decode(&slot).expect("rewritten slot should decode");
    assert_eq!(back.rating, 2);
    assert_eq!(back.title, b"Dune".to_vec());
    assert_eq!(back.description, b"Changed".to_vec());
    let r = apply_update(
        Some((key(8), 42)),
        true,
        true,
        &target,
        2,
        b"Changed".to_vec(),
        &mut slot,
    );
    assert_eq!(r.unwrap_err(), ReviewError::InvalidAddress);
}
