use vstd::prelude::*;

verus! {

/// Result of address derivation for a given owner identity, label and
/// program scope: the derived 32-byte address and its disambiguation bump
/// seed, or `None` where the bounded bump-seed search fails. The result
/// depends on the three inputs alone.
pub uninterp spec fn pda_of(identity: Seq<u8>, label: Seq<u8>, scope: Seq<u8>) -> Option<(
    Seq<u8>,
    u8,
)>;

/// Model of an executable derivation result.
pub open spec fn derivation_view(r: Option<([u8; 32], u8)>) -> Option<(Seq<u8>, u8)> {
    match r {
        Option::None => Option::None,
        Option::Some(p) => Option::Some((p.0@, p.1)),
    }
}

/// Whether `address` is exactly the address derived for the identity and
/// label under the program scope.
pub open spec fn spec_address_matches(
    address: Seq<u8>,
    identity: Seq<u8>,
    label: Seq<u8>,
    scope: Seq<u8>,
) -> bool {
    match pda_of(identity, label, scope) {
        Option::Some(p) => p.0 == address,
        Option::None => false,
    }
}

/// Relies on solana_program's `Pubkey::try_find_program_address`: searching
/// bump seeds downward from 255, it returns the first derived address that
/// lies outside the space of actor-controlled (on-curve) addresses, with
/// that bump seed; the result is a pure function of the seed bytes and the
/// program id. It returns `None` when no bump seed works, in particular
/// whenever a seed is longer than the host's 32-byte seed cap.
#[verifier::external_body]
fn find_program_address(identity: &[u8; 32], label: &Vec<u8>, scope: &[u8; 32]) -> (r: Option<
    ([u8; 32], u8),
>)
    ensures
        derivation_view(r) == pda_of(identity@, label@, scope@),
{
    let program_id = solana_program::pubkey::Pubkey::new_from_array(*scope);
    let seeds: [&[u8]; 2] = [identity.as_slice(), label.as_slice()];
    solana_program::pubkey::Pubkey::try_find_program_address(&seeds, &program_id)
        .map(|p: (solana_program::pubkey::Pubkey, u8)| (p.0.to_bytes(), p.1))
}

/// Derives the storage address and disambiguation bump seed for an owner
/// identity and a label under the given program scope. Deterministic: equal
/// inputs always yield the equal result.
pub fn derive_address(identity: &[u8; 32], label: &Vec<u8>, scope: &[u8; 32]) -> (r: Option<
    ([u8; 32], u8),
>)
    ensures
        derivation_view(r) == pda_of(identity@, label@, scope@),
{
    find_program_address(identity, label, scope)
}

/// Byte-wise equality of two 32-byte addresses.
pub fn bytes32_eq(a: &[u8; 32], b: &[u8; 32]) -> (r: bool)
    ensures
        r == (a@ == b@),
{
    let mut i: usize = 0;
    while i < 32
        invariant
            i <= 32,
            forall|j: int| 0 <= j < i ==> a@[j] == b@[j],
        decreases 32 - i,
    {
        if a[i] != b[i] {
            return false;
        }
        i = i + 1;
    }
    proof {
        assert(a@ =~= b@);
    }
    true
}

/// Recomputes the derivation and checks that it lands on `address`; a
/// handler accepts no address the caller did not legitimately derive.
pub fn verify_address(address: &[u8; 32], identity: &[u8; 32], label: &Vec<u8>, scope: &[u8; 32]) -> (r:
    bool)
    ensures
        r == spec_address_matches(address@, identity@, label@, scope@),
{
    match find_program_address(identity, label, scope) {
        Option::Some(p) => bytes32_eq(&p.0, address),
        Option::None => false,
    }
}

/// Derivation is deterministic and idempotent: any two derivation results
/// for the same identity, label and scope agree, address and bump seed both.
pub proof fn lemma_derive_deterministic(
    identity: Seq<u8>,
    label: Seq<u8>,
    scope: Seq<u8>,
    r1: Option<(Seq<u8>, u8)>,
    r2: Option<(Seq<u8>, u8)>,
)
    requires
        r1 == pda_of(identity, label, scope),
        r2 == pda_of(identity, label, scope),
    ensures
        r1 == r2,
{
}

} // verus!
