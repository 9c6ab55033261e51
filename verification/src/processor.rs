use vstd::prelude::*;

use crate::address::{bytes32_eq, derive_address, derivation_view, pda_of};
use crate::codec::{
    decode, encode, lemma_decode_encoded_prefix, lemma_encode_len, spec_decode, spec_encode,
    spec_write_slot, write_slot,
};
use crate::error::ReviewError;
use crate::record::{
    exceeds_capacity, spec_encoded_size, spec_rating_ok, Record, RecordView, RATING_MAX,
    RATING_MIN, SLOT_CAPACITY,
};

verus! {

/// What a successful create asks of the host: allocate a slot of
/// [`SLOT_CAPACITY`] bytes at the derived address, authorized with
/// `bump_seed`, and place `data` at the start of the fresh slot.
#[derive(Debug)]
pub struct CreatePlan {
    pub bump_seed: u8,
    pub data: Vec<u8>,
}

/// Outcome of a create request given the derivation result for
/// (identity, title): the encoded record and the bump seed on success,
/// otherwise the first failing precondition, checked in order.
pub open spec fn spec_plan_create(
    derived: Option<(Seq<u8>, u8)>,
    is_signer: bool,
    target: Seq<u8>,
    title: Seq<u8>,
    rating: u8,
    description: Seq<u8>,
) -> Result<(Seq<u8>, u8), ReviewError> {
    if !is_signer {
        Result::Err(ReviewError::Unauthorized)
    } else {
        match derived {
            Option::None => Result::Err(ReviewError::DerivationFailure),
            Option::Some(p) => if p.0 != target {
                Result::Err(ReviewError::InvalidAddress)
            } else if !spec_rating_ok(rating) {
                Result::Err(ReviewError::InvalidRating)
            } else if spec_encoded_size(title, description) > SLOT_CAPACITY {
                Result::Err(ReviewError::RecordTooLarge)
            } else {
                Result::Ok(
                    (
                        spec_encode(
                            RecordView { initialized: true, rating, title, description },
                        ),
                        p.1,
                    ),
                )
            },
        }
    }
}

/// Outcome of a create request: [`spec_plan_create`] applied to the
/// derivation result for (identity, title) under the program scope.
pub open spec fn spec_create(
    identity: Seq<u8>,
    is_signer: bool,
    target: Seq<u8>,
    scope: Seq<u8>,
    title: Seq<u8>,
    rating: u8,
    description: Seq<u8>,
) -> Result<(Seq<u8>, u8), ReviewError> {
    spec_plan_create(pda_of(identity, title, scope), is_signer, target, title, rating, description)
}

/// Whether an executable create outcome agrees with the specified one.
pub open spec fn create_outcome_matches(
    r: Result<CreatePlan, ReviewError>,
    expected: Result<(Seq<u8>, u8), ReviewError>,
) -> bool {
    match (r, expected) {
        (Result::Ok(plan), Result::Ok(e)) => plan.data@ == e.0 && plan.bump_seed == e.1,
        (Result::Err(a), Result::Err(b)) => a == b,
        _ => false,
    }
}

/// Validates a create request and builds the slot image for the host to
/// write. In order: the owner identity must be authenticated, the target
/// address must equal the derived address for (identity, title), the rating
/// must lie in 1..=5, and the encoded record must fit the slot. Nothing is
/// written here; the returned plan carries the full encoding of the new,
/// initialized record.
pub fn add_movie_review(
    program_scope: &[u8; 32],
    identity: &[u8; 32],
    identity_is_signer: bool,
    target_address: &[u8; 32],
    title: Vec<u8>,
    rating: u8,
    description: Vec<u8>,
) -> (r: Result<CreatePlan, ReviewError>)
    ensures
        create_outcome_matches(
            r,
            spec_create(
                identity@,
                identity_is_signer,
                target_address@,
                program_scope@,
                title@,
                rating,
                description@,
            ),
        ),
{
    let derived = derive_address(identity, &title, program_scope);
    plan_create(derived, identity_is_signer, target_address, title, rating, description)
}

/// Validates a create request against an already-computed derivation result
/// and builds the slot image; [`add_movie_review`] hands it the result of
/// the live derivation.
pub fn plan_create(
    derived: Option<([u8; 32], u8)>,
    identity_is_signer: bool,
    target_address: &[u8; 32],
    title: Vec<u8>,
    rating: u8,
    description: Vec<u8>,
) -> (r: Result<CreatePlan, ReviewError>)
    ensures
        create_outcome_matches(
            r,
            spec_plan_create(
                derivation_view(derived),
                identity_is_signer,
                target_address@,
                title@,
                rating,
                description@,
            ),
        ),
{
    if !identity_is_signer {
        return Result::Err(ReviewError::Unauthorized);
    }
    let derived = match derived {
        Option::Some(p) => p,
        Option::None => {
            return Result::Err(ReviewError::DerivationFailure);
        },
    };
    if !bytes32_eq(&derived.0, target_address) {
        return Result::Err(ReviewError::InvalidAddress);
    }
    if rating < RATING_MIN || rating > RATING_MAX {
        return Result::Err(ReviewError::InvalidRating);
    }
    if exceeds_capacity(title.len(), description.len()) {
        return Result::Err(ReviewError::RecordTooLarge);
    }
    let record = Record { initialized: true, rating, title, description };
    let data = encode(&record);
    Result::Ok(CreatePlan { bump_seed: derived.1, data })
}

/// Outcome of an update request on a decodable slot, given the derivation
/// result for the identity and the stored title: the rewritten slot bytes
/// on success, otherwise the first failing precondition, checked in order.
pub open spec fn spec_apply_update(
    derived: Option<(Seq<u8>, u8)>,
    is_signer: bool,
    owner_is_program: bool,
    target: Seq<u8>,
    rating: u8,
    description: Seq<u8>,
    slot: Seq<u8>,
) -> Result<Seq<u8>, ReviewError>
    recommends
        spec_decode(slot) is Some,
{
    if !owner_is_program {
        Result::Err(ReviewError::IllegalOwner)
    } else if !is_signer {
        Result::Err(ReviewError::Unauthorized)
    } else {
        let rec = spec_decode(slot)->Some_0;
        match derived {
            Option::None => Result::Err(ReviewError::DerivationFailure),
            Option::Some(p) => if p.0 != target {
                Result::Err(ReviewError::InvalidAddress)
            } else if !rec.initialized {
                Result::Err(ReviewError::UninitializedAccount)
            } else if !spec_rating_ok(rating) {
                Result::Err(ReviewError::InvalidRating)
            } else if spec_encoded_size(rec.title, description) > SLOT_CAPACITY {
                Result::Err(ReviewError::RecordTooLarge)
            } else {
                Result::Ok(
                    spec_write_slot(
                        slot,
                        spec_encode(
                            RecordView {
                                initialized: rec.initialized,
                                rating,
                                title: rec.title,
                                description,
                            },
                        ),
                    ),
                )
            },
        }
    }
}

/// Outcome of an update request: [`spec_apply_update`] applied to the
/// derivation result for the identity and the title stored in the slot.
/// The stored title addresses the record; the request supplies none.
pub open spec fn spec_update(
    identity: Seq<u8>,
    is_signer: bool,
    owner_is_program: bool,
    target: Seq<u8>,
    scope: Seq<u8>,
    rating: u8,
    description: Seq<u8>,
    slot: Seq<u8>,
) -> Result<Seq<u8>, ReviewError>
    recommends
        spec_decode(slot) is Some,
{
    spec_apply_update(
        pda_of(identity, spec_decode(slot)->Some_0.title, scope),
        is_signer,
        owner_is_program,
        target,
        rating,
        description,
        slot,
    )
}

/// Whether an executable update outcome agrees with the specified one: on
/// success the slot holds exactly the specified bytes, on failure the slot
/// is untouched and the error is the specified one.
pub open spec fn update_outcome_matches(
    r: Result<(), ReviewError>,
    old_slot: Seq<u8>,
    new_slot: Seq<u8>,
    expected: Result<Seq<u8>, ReviewError>,
) -> bool {
    match (r, expected) {
        (Result::Ok(()), Result::Ok(s)) => new_slot == s,
        (Result::Err(a), Result::Err(b)) => a == b && new_slot == old_slot,
        _ => false,
    }
}

/// Validates an update request against the record already in the slot and
/// rewrites the slot in place. In order: the slot must be owned by this
/// program, the owner identity must be authenticated, the target address
/// must equal the address derived from the stored title, the record must be
/// initialized, the rating must lie in 1..=5, and the re-encoded record
/// must fit the slot. Title and initialized flag are preserved; a failed
/// request leaves the slot byte-for-byte unchanged.
pub fn update_movie_review(
    program_scope: &[u8; 32],
    identity: &[u8; 32],
    identity_is_signer: bool,
    owner_is_program: bool,
    target_address: &[u8; 32],
    rating: u8,
    description: Vec<u8>,
    slot: &mut Vec<u8>,
) -> (r: Result<(), ReviewError>)
    requires
        old(slot)@.len() == SLOT_CAPACITY,
        spec_decode(old(slot)@) is Some,
    ensures
        update_outcome_matches(
            r,
            old(slot)@,
            final(slot)@,
            spec_update(
                identity@,
                identity_is_signer,
                owner_is_program,
                target_address@,
                program_scope@,
                rating,
                description@,
                old(slot)@,
            ),
        ),
{
    let rec = match decode(slot) {
        Option::Some(rec) => rec,
        Option::None => {
            // Unreachable: the precondition guarantees a decodable slot.
            proof {
                assert(false);
            }
            return Result::Err(ReviewError::UninitializedAccount);
        },
    };
    // The record's stored title, never the request, addresses the slot.
    let derived = derive_address(identity, &rec.title, program_scope);
    apply_update(
        derived,
        identity_is_signer,
        owner_is_program,
        target_address,
        rating,
        description,
        slot,
    )
}

/// Validates an update request against an already-computed derivation
/// result for the stored title, and rewrites the slot in place;
/// [`update_movie_review`] hands it the result of the live derivation.
pub fn apply_update(
    derived: Option<([u8; 32], u8)>,
    identity_is_signer: bool,
    owner_is_program: bool,
    target_address: &[u8; 32],
    rating: u8,
    description: Vec<u8>,
    slot: &mut Vec<u8>,
) -> (r: Result<(), ReviewError>)
    requires
        old(slot)@.len() == SLOT_CAPACITY,
        spec_decode(old(slot)@) is Some,
    ensures
        update_outcome_matches(
            r,
            old(slot)@,
            final(slot)@,
            spec_apply_update(
                derivation_view(derived),
                identity_is_signer,
                owner_is_program,
                target_address@,
                rating,
                description@,
                old(slot)@,
            ),
        ),
{
    if !owner_is_program {
        return Result::Err(ReviewError::IllegalOwner);
    }
    if !identity_is_signer {
        return Result::Err(ReviewError::Unauthorized);
    }
    let rec = match decode(slot) {
        Option::Some(rec) => rec,
        Option::None => {
            // Unreachable: the precondition guarantees a decodable slot.
            proof {
                assert(false);
            }
            return Result::Err(ReviewError::UninitializedAccount);
        },
    };
    let derived = match derived {
        Option::Some(p) => p,
        Option::None => {
            return Result::Err(ReviewError::DerivationFailure);
        },
    };
    if !bytes32_eq(&derived.0, target_address) {
        return Result::Err(ReviewError::InvalidAddress);
    }
    if !rec.initialized {
        return Result::Err(ReviewError::UninitializedAccount);
    }
    if rating < RATING_MIN || rating > RATING_MAX {
        return Result::Err(ReviewError::InvalidRating);
    }
    if exceeds_capacity(rec.title.len(), description.len()) {
        return Result::Err(ReviewError::RecordTooLarge);
    }
    let updated = Record {
        initialized: rec.initialized,
        rating,
        title: rec.title,
        description,
    };
    let data = encode(&updated);
    proof {
        lemma_encode_len(updated@);
    }
    write_slot(slot, &data);
    Result::Ok(())
}

/// A rating off the 1..=5 scale is rejected as `InvalidRating`, by create
/// and update alike, whenever the checks before it pass; the executable
/// handlers' contracts add that a failed update leaves the slot unchanged.
pub proof fn lemma_rating_gate(
    derived: Option<(Seq<u8>, u8)>,
    target: Seq<u8>,
    title: Seq<u8>,
    rating: u8,
    description: Seq<u8>,
    slot: Seq<u8>,
)
    requires
        !spec_rating_ok(rating),
        derived matches Option::Some(p) && p.0 == target,
        spec_decode(slot) matches Option::Some(rec) && rec.initialized,
    ensures
        spec_plan_create(derived, true, target, title, rating, description) == Result::<
            (Seq<u8>, u8),
            ReviewError,
        >::Err(ReviewError::InvalidRating),
        spec_apply_update(derived, true, true, target, rating, description, slot) == Result::<
            Seq<u8>,
            ReviewError,
        >::Err(ReviewError::InvalidRating),
{
}

/// Create accepts no address but the derived one: where derivation lands
/// anywhere else than the target, an authenticated request still fails as
/// `InvalidAddress`, and no slot image is produced.
pub proof fn lemma_address_gate(
    derived: Option<(Seq<u8>, u8)>,
    target: Seq<u8>,
    title: Seq<u8>,
    rating: u8,
    description: Seq<u8>,
)
    requires
        derived matches Option::Some(p) && p.0 != target,
    ensures
        spec_plan_create(derived, true, target, title, rating, description) == Result::<
            (Seq<u8>, u8),
            ReviewError,
        >::Err(ReviewError::InvalidAddress),
{
}

/// Update refuses a slot never populated by a successful create: a decoded
/// record whose initialized flag is false fails as `UninitializedAccount`.
pub proof fn lemma_uninitialized_gate(
    derived: Option<(Seq<u8>, u8)>,
    target: Seq<u8>,
    rating: u8,
    description: Seq<u8>,
    slot: Seq<u8>,
)
    requires
        spec_decode(slot) matches Option::Some(rec) && !rec.initialized,
        derived matches Option::Some(p) && p.0 == target,
    ensures
        spec_apply_update(derived, true, true, target, rating, description, slot) == Result::<
            Seq<u8>,
            ReviewError,
        >::Err(ReviewError::UninitializedAccount),
{
}

/// The slot capacity is an exact boundary: with every other precondition
/// met, a record whose encoded size is at most [`SLOT_CAPACITY`] is
/// accepted, and one even a byte larger is rejected as `RecordTooLarge`.
pub proof fn lemma_capacity_boundary(
    derived: Option<(Seq<u8>, u8)>,
    target: Seq<u8>,
    title: Seq<u8>,
    rating: u8,
    description: Seq<u8>,
)
    requires
        spec_rating_ok(rating),
        derived matches Option::Some(p) && p.0 == target,
    ensures
        spec_encoded_size(title, description) <= SLOT_CAPACITY ==> spec_plan_create(
            derived,
            true,
            target,
            title,
            rating,
            description,
        ) is Ok,
        spec_encoded_size(title, description) > SLOT_CAPACITY ==> spec_plan_create(
            derived,
            true,
            target,
            title,
            rating,
            description,
        ) == Result::<(Seq<u8>, u8), ReviewError>::Err(ReviewError::RecordTooLarge),
{
}

/// Updating is idempotent: where an update of `slot0` succeeds and leaves
/// `slot1`, a second update with the identical inputs also succeeds and
/// leaves `slot1` byte-for-byte unchanged.
pub proof fn lemma_update_idempotent(
    identity: Seq<u8>,
    is_signer: bool,
    owner_is_program: bool,
    target: Seq<u8>,
    scope: Seq<u8>,
    rating: u8,
    description: Seq<u8>,
    slot0: Seq<u8>,
    slot1: Seq<u8>,
)
    requires
        spec_decode(slot0) is Some,
        spec_update(
            identity,
            is_signer,
            owner_is_program,
            target,
            scope,
            rating,
            description,
            slot0,
        ) == Result::<Seq<u8>, ReviewError>::Ok(slot1),
    ensures
        spec_decode(slot1) is Some,
        spec_update(
            identity,
            is_signer,
            owner_is_program,
            target,
            scope,
            rating,
            description,
            slot1,
        ) == Result::<Seq<u8>, ReviewError>::Ok(slot1),
{
    let rec0 = spec_decode(slot0)->Some_0;
    let rec1 = RecordView {
        initialized: rec0.initialized,
        rating,
        title: rec0.title,
        description,
    };
    let enc = spec_encode(rec1);
    assert(rec1.wf());
    lemma_decode_encoded_prefix(rec1, slot0.skip(enc.len() as int));
    assert(slot1 == enc + slot0.skip(enc.len() as int));
    assert(spec_decode(slot1) == Option::Some(rec1));
    let rec2 = RecordView {
        initialized: rec1.initialized,
        rating,
        title: rec1.title,
        description,
    };
    assert(rec2 == rec1);
    assert(slot1.skip(enc.len() as int) =~= slot0.skip(enc.len() as int));
    assert(spec_write_slot(slot1, enc) =~= slot1);
}

} // verus!
