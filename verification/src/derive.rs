//! Address derivation: mapping seed byte-strings and a program identity to a
//! derived address plus discriminant, and the exact (non-searching)
//! verification of a stored discriminant.

use vstd::prelude::*;
use crate::identity::{Identity, bytes_eq, copy_bytes};

verus! {

/// What the address crate's `create_program_address` returns for the given
/// seed byte-strings and program identity: `Some(address bytes)` when the
/// seeds map to a valid derived (off-curve) address under the program,
/// `None` otherwise. The result is a pure function of the seed bytes and the
/// program bytes alone.
pub uninterp spec fn combine_of(seeds: Seq<Seq<u8>>, program: Seq<u8>) -> Option<Seq<u8>>;

/// The views of a sequence of byte vectors.
pub open spec fn views_of(s: Seq<Vec<u8>>) -> Seq<Seq<u8>> {
    Seq::new(s.len(), |i: int| s[i]@)
}

/// Relies on solana_program's `Pubkey::create_program_address`: for a fixed
/// seed list and program identity it deterministically either computes the
/// derived address (32 bytes wide, not controllable by any private key) or
/// reports that the seeds are invalid (resulting point on the curve, more
/// than sixteen seeds, or a seed over thirty-two bytes). It never panics for
/// a 32-byte program identity.
#[verifier::external_body]
fn combine_call(seeds: &Vec<Vec<u8>>, program: &Identity) -> (r: Option<Identity>)
    requires
        program.wf(),
    ensures
        match r {
            Some(addr) => addr.wf() && combine_of(views_of(seeds@), program@) == Some(addr@),
            None => combine_of(views_of(seeds@), program@) is None,
        },
{
    let pk = solana_program::pubkey::Pubkey::new_from_array(
        program.bytes.as_slice().try_into().unwrap(),
    );
    let refs: Vec<&[u8]> = seeds.iter().map(|s| s.as_slice()).collect();
    match solana_program::pubkey::Pubkey::create_program_address(&refs, &pk) {
        Ok(addr) => Some(Identity { bytes: addr.to_bytes().to_vec() }),
        Err(_) => None,
    }
}

/// The address that `seeds`, extended with the one-byte seed `[bump]`,
/// combine to under `program`, if any.
pub open spec fn combine_full(seeds: Seq<Seq<u8>>, bump: u8, program: Seq<u8>) -> Option<Seq<u8>> {
    combine_of(seeds.push(seq![bump]), program)
}

/// Recomputes the derived address for `seeds` plus the discriminant `bump`
/// directly, with no search.
pub fn combine(seeds: &Vec<Vec<u8>>, bump: u8, program: &Identity) -> (r: Option<Identity>)
    requires
        program.wf(),
    ensures
        match r {
            Some(addr) => addr.wf() && combine_full(views_of(seeds@), bump, program@)
                == Some(addr@),
            None => combine_full(views_of(seeds@), bump, program@) is None,
        },
{
    let mut full: Vec<Vec<u8>> = Vec::new();
    let n = seeds.len();
    let mut i: usize = 0;
    while i < n
        invariant
            n == seeds@.len(),
            i <= n,
            full@.len() == i,
            forall|j: int| 0 <= j < i ==> full@[j]@ == seeds@[j]@,
        decreases n - i,
    {
        let s = copy_bytes(&seeds[i]);
        full.push(s);
        i = i + 1;
    }
    let mut bump_seed: Vec<u8> = Vec::new();
    bump_seed.push(bump);
    assert(bump_seed@ =~= seq![bump]);
    full.push(bump_seed);
    assert(views_of(full@) =~= views_of(seeds@).push(seq![bump]));
    combine_call(&full, program)
}

/// Holds when `bump` is in the search range, maps `seeds` to a valid derived
/// address under `program`, and is the largest discriminant that does.
pub open spec fn is_best_bump(seeds: Seq<Seq<u8>>, program: Seq<u8>, bump: u8) -> bool {
    &&& 1 <= bump
    &&& combine_full(seeds, bump, program) is Some
    &&& forall|c: u8| bump < c ==> combine_full(seeds, c, program) is None
}

/// What the descending discriminant search promises of its result: on
/// success, the returned discriminant is the largest one in `[1, 255]` whose
/// combination is valid and the returned address is that combination; on
/// failure, no discriminant in the range gives a valid combination.
pub open spec fn derive_post(
    seeds: Seq<Seq<u8>>,
    program: Seq<u8>,
    r: Option<(Seq<u8>, u8)>,
) -> bool {
    match r {
        Some(pair) => is_best_bump(seeds, program, pair.1)
            && combine_full(seeds, pair.1, program) == Some(pair.0),
        None => forall|b: u8| 1 <= b ==> combine_full(seeds, b, program) is None,
    }
}

/// The result of the descending discriminant search as a function: the
/// combination under the largest discriminant in `[1, 255]` that yields a
/// valid derived address, or `None` when no discriminant in the range does.
pub open spec fn derive_spec(seeds: Seq<Seq<u8>>, program: Seq<u8>) -> Option<(Seq<u8>, u8)> {
    if exists|b: u8| is_best_bump(seeds, program, b) {
        let b = choose|b: u8| is_best_bump(seeds, program, b);
        Some((combine_full(seeds, b, program)->Some_0, b))
    } else {
        None
    }
}

/// Any result that the search contract admits equals `derive_spec`.
pub proof fn lemma_derive_post_spec(
    seeds: Seq<Seq<u8>>,
    program: Seq<u8>,
    r: Option<(Seq<u8>, u8)>,
)
    requires
        derive_post(seeds, program, r),
    ensures
        r == derive_spec(seeds, program),
{
    match r {
        Some(pair) => {
            assert(is_best_bump(seeds, program, pair.1));
            let b = choose|c: u8| is_best_bump(seeds, program, c);
            assert(is_best_bump(seeds, program, b));
            if pair.1 < b {
                assert(combine_full(seeds, b, program) is None);
            }
            if b < pair.1 {
                assert(combine_full(seeds, pair.1, program) is None);
            }
            assert(b == pair.1);
        }
        None => {
            if exists|b: u8| is_best_bump(seeds, program, b) {
                let b = choose|c: u8| is_best_bump(seeds, program, c);
                assert(combine_full(seeds, b, program) is None);
                assert(false);
            }
        }
    }
}

/// Derivation is a pure deterministic function of its inputs: any two
/// results that the derivation contract admits for the same seed material
/// and program identity are equal.
pub proof fn lemma_derive_deterministic(
    seeds: Seq<Seq<u8>>,
    program: Seq<u8>,
    r1: Option<(Seq<u8>, u8)>,
    r2: Option<(Seq<u8>, u8)>,
)
    requires
        derive_post(seeds, program, r1),
        derive_post(seeds, program, r2),
    ensures
        r1 == r2,
{
    match (r1, r2) {
        (Some(p1), Some(p2)) => {
            if p1.1 < p2.1 {
                assert(combine_full(seeds, p2.1, program) is None);
            }
            if p2.1 < p1.1 {
                assert(combine_full(seeds, p1.1, program) is None);
            }
            assert(p1.1 == p2.1);
        }
        (Some(p1), None) => {
            assert(combine_full(seeds, p1.1, program) is None);
        }
        (None, Some(p2)) => {
            assert(combine_full(seeds, p2.1, program) is None);
        }
        (None, None) => {}
    }
}

/// Searches discriminants from 255 down to 1 for the first (largest) one for
/// which the combination yields a valid derived address.
pub fn derive(seeds: &Vec<Vec<u8>>, program: &Identity) -> (r: Option<(Identity, u8)>)
    requires
        program.wf(),
    ensures
        match r {
            Some(pair) => pair.0.wf() && derive_post(
                views_of(seeds@),
                program@,
                Some((pair.0@, pair.1)),
            ) && derive_spec(views_of(seeds@), program@) == Some((pair.0@, pair.1)),
            None => derive_post(views_of(seeds@), program@, None) && derive_spec(
                views_of(seeds@),
                program@,
            ) is None,
        },
{
    let mut bump: u8 = 255;
    loop
        invariant
            program.wf(),
            1 <= bump <= 255,
            forall|c: u8| bump < c ==> combine_full(views_of(seeds@), c, program@) is None,
        decreases bump,
    {
        match combine(seeds, bump, program) {
            Some(addr) => {
                proof {
                    lemma_derive_post_spec(views_of(seeds@), program@, Some((addr@, bump)));
                }
                return Some((addr, bump));
            }
            None => {}
        }
        if bump == 1 {
            proof {
                lemma_derive_post_spec(views_of(seeds@), program@, None);
            }
            return None;
        }
        bump = bump - 1;
    }
}

/// Checks that `claimed` is exactly the address that `seeds` plus the stored
/// discriminant `bump` combine to under `program`. It recomputes the
/// combination directly (no search) and fails closed: any mismatch, and any
/// seed combination with no valid address, yields `false`.
pub fn verify(seeds: &Vec<Vec<u8>>, bump: u8, program: &Identity, claimed: &Identity) -> (r: bool)
    requires
        program.wf(),
    ensures
        r == (combine_full(views_of(seeds@), bump, program@) == Some(claimed@)),
{
    match combine(seeds, bump, program) {
        Some(addr) => bytes_eq(&addr.bytes, &claimed.bytes),
        None => false,
    }
}

/// The seed material of a user's metadata record address: the user's own
/// identity bytes as a single seed.
pub open spec fn metadata_seeds(user: Seq<u8>) -> Seq<Seq<u8>> {
    seq![user]
}

/// The fixed label that prefixes the custody seed material: the bytes of
/// "vault".
pub open spec fn vault_label() -> Seq<u8> {
    seq![118u8, 97u8, 117u8, 108u8, 116u8]
}

/// The seed material of a user's custody address: the fixed label followed
/// by the user's identity bytes.
pub open spec fn vault_seeds(user: Seq<u8>) -> Seq<Seq<u8>> {
    seq![vault_label(), user]
}

/// Builds the fixed custody label as bytes.
pub fn make_vault_label() -> (r: Vec<u8>)
    ensures
        r@ == vault_label(),
{
    let mut r: Vec<u8> = Vec::new();
    r.push(118);
    r.push(97);
    r.push(117);
    r.push(108);
    r.push(116);
    assert(r@ =~= vault_label());
    r
}

/// Searches for the address and discriminant of the metadata record of
/// `user_pubkey` under `program_id`.
pub fn find_user_account_address(user_pubkey: &Identity, program_id: &Identity) -> (r: Option<
    (Identity, u8),
>)
    requires
        program_id.wf(),
    ensures
        match r {
            Some(pair) => pair.0.wf() && derive_spec(metadata_seeds(user_pubkey@), program_id@)
                == Some((pair.0@, pair.1)),
            None => derive_spec(metadata_seeds(user_pubkey@), program_id@) is None,
        },
{
    let mut seeds: Vec<Vec<u8>> = Vec::new();
    seeds.push(copy_bytes(&user_pubkey.bytes));
    assert(views_of(seeds@) =~= metadata_seeds(user_pubkey@));
    derive(&seeds, program_id)
}

/// Searches for the address and discriminant of the custody ("vault")
/// account of `user_pubkey` under `program_id`.
pub fn find_vault_address(user_pubkey: &Identity, program_id: &Identity) -> (r: Option<
    (Identity, u8),
>)
    requires
        program_id.wf(),
    ensures
        match r {
            Some(pair) => pair.0.wf() && derive_spec(vault_seeds(user_pubkey@), program_id@)
                == Some((pair.0@, pair.1)),
            None => derive_spec(vault_seeds(user_pubkey@), program_id@) is None,
        },
{
    let mut seeds: Vec<Vec<u8>> = Vec::new();
    seeds.push(make_vault_label());
    seeds.push(copy_bytes(&user_pubkey.bytes));
    assert(views_of(seeds@) =~= vault_seeds(user_pubkey@));
    derive(&seeds, program_id)
}

/// A claimed address other than the derived one never verifies: of two
/// distinct claimed addresses for the same seeds, discriminant and program,
/// at most one passes verification.
pub proof fn lemma_verify_exclusive(
    seeds: Seq<Seq<u8>>,
    bump: u8,
    program: Seq<u8>,
    claimed1: Seq<u8>,
    claimed2: Seq<u8>,
)
    requires
        claimed1 != claimed2,
        combine_full(seeds, bump, program) == Some(claimed1),
    ensures
        combine_full(seeds, bump, program) != Some(claimed2),
{
}

} // verus!
