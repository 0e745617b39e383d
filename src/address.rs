//! Program-derived addresses: deterministic derivation from seed labels and
//! the program's identity, and verification of a claimed address and bump.

use anchor_lang::prelude::Pubkey;
use vstd::prelude::*;

verus! {

/// A 32-byte account identity (a public key or a program-derived address).
#[derive(Clone, Copy, Debug, PartialEq, Eq)]
pub struct Address {
    pub bytes: [u8; 32],
}

impl View for Address {
    type V = Seq<u8>;

    open spec fn view(&self) -> Seq<u8> {
        self.bytes@
    }
}

impl Address {
    pub fn new(bytes: [u8; 32]) -> (r: Address)
        ensures
            r@ == bytes@,
    {
        Address { bytes }
    }

    /// Byte-wise comparison of two identities.
    pub fn same(&self, other: &Address) -> (r: bool)
        ensures
            r == (self@ == other@),
    {
        let mut i: usize = 0;
        while i < 32
            invariant
                0 <= i <= 32,
                self@.len() == 32,
                other@.len() == 32,
                forall|j: int| 0 <= j < i ==> self@[j] == other@[j],
            decreases 32 - i,
        {
            if self.bytes[i] != other.bytes[i] {
                return false;
            }
            i = i + 1;
        }
        assert(self@ =~= other@);
        true
    }
}

/// The address that `Pubkey::create_program_address` computes for the given
/// seeds (the bump, where there is one, is the last seed) under the given
/// program identity; `None` where it reports an error (a seed too long, too
/// many seeds, or a hash that lies on the ed25519 curve).
pub uninterp spec fn program_address(seeds: Seq<Seq<u8>>, program_id: Seq<u8>) -> Option<Seq<u8>>;

/// The byte strings held by a list of seeds.
pub open spec fn seeds_view(seeds: Seq<Vec<u8>>) -> Seq<Seq<u8>> {
    seeds.map_values(|s: Vec<u8>| s@)
}

/// The seeds followed by the one-byte seed holding `bump`.
pub open spec fn with_bump(seeds: Seq<Seq<u8>>, bump: u8) -> Seq<Seq<u8>> {
    seeds.push(seq![bump])
}

/// The search that a canonical derivation performs: bumps from `bump` down to
/// 1, the first one whose address exists.
pub open spec fn first_viable(seeds: Seq<Seq<u8>>, program_id: Seq<u8>, bump: nat) -> Option<(Seq<u8>, u8)>
    decreases bump,
{
    if bump == 0 {
        None
    } else {
        match program_address(with_bump(seeds, bump as u8), program_id) {
            Some(a) => Some((a, bump as u8)),
            None => first_viable(seeds, program_id, (bump - 1) as nat),
        }
    }
}

/// The canonical derivation: the highest bump in 1..=255 that yields an
/// address, with that address.
pub open spec fn derivation(seeds: Seq<Seq<u8>>, program_id: Seq<u8>) -> Option<(Seq<u8>, u8)> {
    first_viable(seeds, program_id, 255)
}

/// Relies on `Pubkey::create_program_address`: `Ok` with the derived address
/// or an error, as a function of the seeds and the program identity alone.
#[verifier::external_body]
fn create_address(seeds: &Vec<Vec<u8>>, program_id: &Address) -> (r: Option<Address>)
    ensures
        r matches Some(a) ==> program_address(seeds_view(seeds@), program_id@) == Some(a@),
        r is None ==> program_address(seeds_view(seeds@), program_id@) is None,
{
    let slices: Vec<&[u8]> = seeds.iter().map(|s| s.as_slice()).collect();
    let program = Pubkey::new_from_array(program_id.bytes);
    match Pubkey::create_program_address(&slices, &program) {
        Ok(pk) => Some(Address { bytes: pk.to_bytes() }),
        Err(_) => None,
    }
}

/// Relies on `Pubkey::try_find_program_address`: off-chain it tries the bumps
/// 255 down to 1 through `create_program_address` and returns the first
/// address found with its bump, `None` where none is found.
#[verifier::external_body]
fn find_address(seeds: &Vec<Vec<u8>>, program_id: &Address) -> (r: Option<(Address, u8)>)
    ensures
        r matches Some((a, b)) ==> derivation(seeds_view(seeds@), program_id@) == Some((a@, b)),
        r is None ==> derivation(seeds_view(seeds@), program_id@) is None,
{
    let slices: Vec<&[u8]> = seeds.iter().map(|s| s.as_slice()).collect();
    let program = Pubkey::new_from_array(program_id.bytes);
    match Pubkey::try_find_program_address(&slices, &program) {
        Some((pk, bump)) => Some((Address { bytes: pk.to_bytes() }, bump)),
        None => None,
    }
}

/// What a canonical derivation hands back, as views: the address and bump of
/// `derivation`, or `None` where it finds none.
pub open spec fn derived(seeds: Seq<Seq<u8>>, program_id: Seq<u8>, r: Option<(Address, u8)>) -> bool {
    match r {
        Some((a, b)) => derivation(seeds, program_id) == Some((a@, b)),
        None => derivation(seeds, program_id) is None,
    }
}

/// An independent copy of a byte string.
fn copy_bytes(v: &Vec<u8>) -> (r: Vec<u8>)
    ensures
        r@ == v@,
{
    let r = v.clone();
    assert(r@ =~= v@);
    r
}

/// Derives the canonical address and bump for `seeds` under `program_id`.
pub fn derive_address(seeds: &Vec<Vec<u8>>, program_id: &Address) -> (r: Option<(Address, u8)>)
    ensures
        derived(seeds_view(seeds@), program_id@, r),
{
    find_address(seeds, program_id)
}

/// Checks that `address` is the address derived from `seeds` and `bump` under
/// `program_id`.
pub fn verify_address(address: &Address, seeds: &Vec<Vec<u8>>, bump: u8, program_id: &Address) -> (r: bool)
    ensures
        r == (program_address(with_bump(seeds_view(seeds@), bump), program_id@) == Some(address@)),
{
    let mut full: Vec<Vec<u8>> = Vec::new();
    let mut i: usize = 0;
    while i < seeds.len()
        invariant
            0 <= i <= seeds.len(),
            full@.len() == i,
            forall|j: int| 0 <= j < i ==> (#[trigger] full@[j])@ == seeds@[j]@,
        decreases seeds.len() - i,
    {
        full.push(copy_bytes(&seeds[i]));
        i = i + 1;
    }
    let mut last: Vec<u8> = Vec::new();
    last.push(bump);
    assert(last@ =~= seq![bump]);
    full.push(last);
    assert(forall|j: int| 0 <= j < seeds@.len() ==> (#[trigger] full@[j])@ == seeds@[j]@);
    assert(seeds_view(full@) =~= with_bump(seeds_view(seeds@), bump));
    match create_address(&full, program_id) {
        Some(a) => a.same(address),
        None => false,
    }
}

/// Whatever the search finds has a bump of at least 1 and at most `bump`, and
/// the address it reports is the one that bump yields.
pub proof fn lemma_first_viable_sound(seeds: Seq<Seq<u8>>, program_id: Seq<u8>, bump: nat)
    requires
        bump <= 255,
    ensures
        first_viable(seeds, program_id, bump) matches Some((a, b)) ==> 1 <= b <= bump
            && program_address(with_bump(seeds, b), program_id) == Some(a),
    decreases bump,
{
    if bump > 0 {
        lemma_first_viable_sound(seeds, program_id, (bump - 1) as nat);
    }
}

/// A canonically derived address passes verification with its own bump, and
/// that bump is never 0.
pub proof fn lemma_derivation_verifies(seeds: Seq<Seq<u8>>, program_id: Seq<u8>)
    ensures
        derivation(seeds, program_id) matches Some((a, b)) ==> 1 <= b
            && program_address(with_bump(seeds, b), program_id) == Some(a),
{
    lemma_first_viable_sound(seeds, program_id, 255);
}

/// Derivation is deterministic: two derivations from the same seeds under the
/// same program identity give the same address and the same bump.
pub proof fn lemma_derivation_deterministic(
    seeds: Seq<Seq<u8>>,
    program_id: Seq<u8>,
    r1: Option<(Address, u8)>,
    r2: Option<(Address, u8)>,
)
    requires
        derived(seeds, program_id, r1),
        derived(seeds, program_id, r2),
    ensures
        r1 is Some <==> r2 is Some,
        r1 matches Some((a1, b1)) ==> (r2 matches Some((a2, b2)) ==> a1@ == a2@ && b1 == b2),
{
}

} // verus!
