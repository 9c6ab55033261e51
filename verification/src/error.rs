use vstd::prelude::*;

verus! {

/// Failure kinds a create or update request can end in. Every failure aborts
/// the whole request; the host applies no part of a failed request.
#[derive(Clone, Copy, Debug, PartialEq, Eq, Structural)]
pub enum ReviewError {
    /// The claimed owner identity carries no authentication proof.
    Unauthorized,
    /// The supplied target address is not the address derived for the
    /// owner identity and the review title.
    InvalidAddress,
    /// The rating lies outside the 1..=5 scale.
    InvalidRating,
    /// The encoded record would not fit into the fixed-capacity slot.
    RecordTooLarge,
    /// The target slot is not owned by this program (update only).
    IllegalOwner,
    /// The target slot exists but was never populated by a successful
    /// create (update only).
    UninitializedAccount,
    /// The host could not allocate or fund the new slot (create only);
    /// raised by the host boundary, never by the verified handlers.
    AllocationFailed,
    /// The bounded bump-seed search found no usable derived address; a
    /// fatal configuration error, not expected in normal operation.
    DerivationFailure,
}

} // verus!
