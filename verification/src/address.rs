//! Deterministic address derivation for attestation records.
//!
//! An address is derived from a fixed namespace seed, the authority's key
//! and a subject hash. The runtime's search procedure also yields a proof
//! byte, which a record keeps so its address can be rebuilt later without
//! repeating the search.

use vstd::prelude::*;

verus! {

/// The fixed namespace seed, `attestation` in ASCII bytes, that leads
/// every address derivation.
pub open spec fn attestation_seed() -> Seq<u8> {
    seq![97u8, 116, 116, 101, 115, 116, 97, 116, 105, 111, 110]
}

/// The namespace seed as bytes.
pub fn attestation_seed_bytes() -> (v: Vec<u8>)
    ensures
        v@ == attestation_seed(),
{
    let mut v: Vec<u8> = Vec::new();
    v.push(97);
    v.push(116);
    v.push(116);
    v.push(101);
    v.push(115);
    v.push(116);
    v.push(97);
    v.push(116);
    v.push(105);
    v.push(111);
    v.push(110);
    proof {
        assert(v@ =~= attestation_seed());
    }
    v
}

/// The address that building a program address from a namespace seed, an
/// authority key, a subject hash, one proof byte and a program id yields,
/// named; building yields nothing when a seed is over the runtime's length
/// limit or the digest lands on the ed25519 curve. The result is a
/// function of the inputs alone.
pub uninterp spec fn created_address(
    seed: Seq<u8>,
    authority: Seq<u8>,
    subject: Seq<u8>,
    bump: u8,
    program_id: Seq<u8>,
) -> Option<Seq<u8>>;

/// The (address, proof byte) pair that searching the proof byte space for
/// the same inputs yields, named; the search yields nothing when no proof
/// byte gives a buildable address. The result is a function of the inputs
/// alone.
pub uninterp spec fn found_address(
    seed: Seq<u8>,
    authority: Seq<u8>,
    subject: Seq<u8>,
    program_id: Seq<u8>,
) -> Option<(Seq<u8>, u8)>;

/// Relies on Pubkey::create_program_address: hashes the seeds, the program
/// id and the derivation marker into an address, and fails exactly when a
/// seed is over the length limit or the digest lands on the ed25519 curve.
#[verifier::external_body]
fn pda_create(
    seed: &[u8],
    authority: &[u8; 32],
    subject: &[u8; 32],
    bump: u8,
    program_id: &[u8; 32],
) -> (r: Option<[u8; 32]>)
    ensures
        r matches Some(addr) ==> created_address(seed@, authority@, subject@, bump, program_id@)
            == Some(addr@),
        r is None ==> created_address(seed@, authority@, subject@, bump, program_id@) is None,
{
    let program = anchor_lang::prelude::Pubkey::new_from_array(*program_id);
    let bump_seed: [u8; 1] = [bump];
    let seeds: [&[u8]; 4] = [seed, authority.as_slice(), subject.as_slice(), bump_seed.as_slice()];
    match anchor_lang::prelude::Pubkey::create_program_address(&seeds, &program) {
        Ok(addr) => Some(addr.to_bytes()),
        Err(_) => None,
    }
}

/// Relies on Pubkey::try_find_program_address: searches proof bytes from
/// 255 downward and returns the first (address, proof byte) pair for which
/// create_program_address succeeds, or nothing when no proof byte works.
#[verifier::external_body]
fn pda_find(
    seed: &[u8],
    authority: &[u8; 32],
    subject: &[u8; 32],
    program_id: &[u8; 32],
) -> (r: Option<([u8; 32], u8)>)
    ensures
        r matches Some(pair) ==> (found_address(seed@, authority@, subject@, program_id@)
            == Some((pair.0@, pair.1)) && created_address(
            seed@,
            authority@,
            subject@,
            pair.1,
            program_id@,
        ) == Some(pair.0@)),
        r is None ==> found_address(seed@, authority@, subject@, program_id@) is None,
{
    let program = anchor_lang::prelude::Pubkey::new_from_array(*program_id);
    let seeds: [&[u8]; 3] = [seed, authority.as_slice(), subject.as_slice()];
    anchor_lang::prelude::Pubkey::try_find_program_address(&seeds, &program).map(
        |pair: (anchor_lang::prelude::Pubkey, u8)| (pair.0.to_bytes(), pair.1),
    )
}

/// Compare two 32-byte values.
pub(crate) fn bytes32_eq(a: &[u8; 32], b: &[u8; 32]) -> (r: bool)
    ensures
        r <==> a@ == b@,
{
    let mut i: usize = 0;
    while i < 32
        invariant
            i <= 32,
            forall|j: int| 0 <= j < i ==> a@[j] == b@[j],
        decreases 32 - i,
    {
        if a[i] != b[i] {
            proof {
                assert(a@[i as int] != b@[i as int]);
            }
            return false;
        }
        i = i + 1;
    }
    proof {
        assert(a@ =~= b@);
    }
    true
}

/// Derive the attestation address and its proof byte for an authority and
/// a subject hash under a program id. The same inputs always yield the
/// same result, and on success the returned proof byte rebuilds the
/// returned address.
pub fn derive_attestation_address(
    authority: &[u8; 32],
    subject: &[u8; 32],
    program_id: &[u8; 32],
) -> (r: Option<([u8; 32], u8)>)
    ensures
        r matches Some(pair) ==> (found_address(
            attestation_seed(),
            authority@,
            subject@,
            program_id@,
        ) == Some((pair.0@, pair.1)) && created_address(
            attestation_seed(),
            authority@,
            subject@,
            pair.1,
            program_id@,
        ) == Some(pair.0@)),
        r is None ==> found_address(attestation_seed(), authority@, subject@, program_id@) is None,
{
    let seed = attestation_seed_bytes();
    pda_find(seed.as_slice(), authority, subject, program_id)
}

/// Check that a stored derivation proof byte rebuilds a claimed address:
/// true exactly when building an address from the namespace seed, the
/// authority, the subject and this proof byte yields the expected address.
pub fn verify_attestation_address(
    authority: &[u8; 32],
    subject: &[u8; 32],
    bump: u8,
    program_id: &[u8; 32],
    expected: &[u8; 32],
) -> (r: bool)
    ensures
        r <==> created_address(attestation_seed(), authority@, subject@, bump, program_id@)
            == Some(expected@),
{
    let seed = attestation_seed_bytes();
    match pda_create(seed.as_slice(), authority, subject, bump, program_id) {
        Some(addr) => bytes32_eq(&addr, expected),
        None => false,
    }
}

} // verus!
