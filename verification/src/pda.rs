//! Deterministic address derivation.
//!
//! Storage locations are program-derived addresses: a one-way transform of
//! an ordered seed list, a bump byte and the program identity. The
//! transform itself is the platform's; this module wraps it behind a named
//! result and verifies the bounded search for the bump byte.

use vstd::prelude::*;
use vstd::slice::slice_to_vec;
use crate::error::ReviewError;

verus! {

/// A 32-byte account address.
#[derive(Clone, Copy, Debug)]
pub struct Address {
    pub bytes: [u8; 32],
}

impl View for Address {
    type V = Seq<u8>;

    open spec fn view(&self) -> Seq<u8> {
        self.bytes@
    }
}

impl Address {
    /// Wrap raw bytes as an address.
    pub fn new(bytes: [u8; 32]) -> (a: Address)
        ensures
            a@ == bytes@,
    {
        Address { bytes }
    }

    /// Rebuild an address from a 32-byte buffer, such as a parsed
    /// identity field.
    pub fn from_vec(v: &Vec<u8>) -> (a: Address)
        requires
            v@.len() == 32,
        ensures
            a@ == v@,
    {
        let bytes: [u8; 32] = [
            v[0], v[1], v[2], v[3], v[4], v[5], v[6], v[7],
            v[8], v[9], v[10], v[11], v[12], v[13], v[14], v[15],
            v[16], v[17], v[18], v[19], v[20], v[21], v[22], v[23],
            v[24], v[25], v[26], v[27], v[28], v[29], v[30], v[31],
        ];
        let a = Address { bytes };
        proof {
            assert(a@ =~= v@);
        }
        a
    }

    /// The address bytes as an owned buffer, for use as seed material.
    pub fn to_vec(&self) -> (v: Vec<u8>)
        ensures
            v@ == self@,
    {
        slice_to_vec(self.bytes.as_slice())
    }
}

/// Byte-wise equality of two addresses.
pub fn address_eq(a: &Address, b: &Address) -> (r: bool)
    ensures
        r == (a@ == b@),
{
    let mut i: usize = 0;
    while i < 32
        invariant
            i <= 32,
            forall|j: int| 0 <= j < i ==> a.bytes@[j] == b.bytes@[j],
        decreases 32 - i,
    {
        if a.bytes[i] != b.bytes[i] {
            return false;
        }
        i += 1;
    }
    proof {
        assert(a@ =~= b@);
    }
    true
}

/// What the platform's one-way address transform returns for a seed list
/// and a program identity: the derived address, or nothing when the seeds
/// are out of bounds or the hash lands back on the normal key space.
pub uninterp spec fn pda_hash(seeds: Seq<Seq<u8>>, program_id: Seq<u8>) -> Option<Seq<u8>>;

/// Relies on solana_program's Pubkey::create_program_address: it hashes
/// the seeds, the program id and a fixed marker through SHA-256, so the
/// result depends on the seeds and program id alone; it fails when a seed
/// exceeds the platform's seed limits or when the hash is a valid curve
/// point, and succeeds with the 32-byte hash otherwise.
#[verifier::external_body]
fn create_address(seeds: &Vec<Vec<u8>>, program_id: &Address) -> (r: Option<Address>)
    ensures
        match r {
            Some(a) => pda_hash(seeds.deep_view(), program_id@) == Some(a@),
            None => pda_hash(seeds.deep_view(), program_id@) is None,
        },
{
    let refs: Vec<&[u8]> = seeds.iter().map(|s| s.as_slice()).collect();
    let pid = solana_program::pubkey::Pubkey::new_from_array(program_id.bytes);
    match solana_program::pubkey::Pubkey::create_program_address(&refs, &pid) {
        Ok(key) => Some(Address { bytes: key.to_bytes() }),
        Err(_) => None,
    }
}

/// The seed list with one extra single-byte seed holding the bump.
pub open spec fn seeds_with_bump(seeds: Seq<Seq<u8>>, bump: u8) -> Seq<Seq<u8>> {
    seeds.push(seq![bump])
}

/// The derivation search below `bump`: the first bump byte from `bump`
/// downward whose transform yields an address.
pub open spec fn find_pda_from(seeds: Seq<Seq<u8>>, program_id: Seq<u8>, bump: u8) -> Option<
    (Seq<u8>, u8),
>
    decreases bump,
{
    match pda_hash(seeds_with_bump(seeds, bump), program_id) {
        Some(a) => Some((a, bump)),
        None => if bump == 0 {
            None
        } else {
            find_pda_from(seeds, program_id, (bump - 1) as u8)
        },
    }
}

/// The derived address of a seed list: the search started at bump 255.
pub open spec fn find_pda(seeds: Seq<Seq<u8>>, program_id: Seq<u8>) -> Option<(Seq<u8>, u8)> {
    find_pda_from(seeds, program_id, 255)
}

/// Copy a byte buffer.
fn clone_bytes(v: &Vec<u8>) -> (r: Vec<u8>)
    ensures
        r@ == v@,
{
    let r = v.clone();
    proof {
        assert(r@ =~= v@);
    }
    r
}

/// The deep view of a vector of byte buffers, one element at a time.
pub proof fn lemma_bytes_deep_view(v: Vec<Vec<u8>>)
    ensures
        v.deep_view().len() == v@.len(),
        forall|j: int| 0 <= j < v@.len() ==> v.deep_view()[j] == v@[j]@,
{
    assert forall|j: int| 0 <= j < v@.len() implies v.deep_view()[j] == v@[j]@ by {
        assert(v@[j].deep_view() =~= v@[j]@);
    }
}

/// Derive the address for a seed list by searching bump bytes 255 down
/// to 0 and returning the first valid derivation, as the platform's
/// canonical search does.
pub fn derive_address(seeds: &Vec<Vec<u8>>, program_id: &Address) -> (r: Result<
    (Address, u8),
    ReviewError,
>)
    ensures
        match r {
            Ok((a, bump)) => find_pda(seeds.deep_view(), program_id@) == Some((a@, bump)),
            Err(e) => {
                &&& e == ReviewError::DerivationExhausted
                &&& find_pda(seeds.deep_view(), program_id@) is None
            },
        },
{
    let ghost seeds_v: Seq<Seq<u8>> = seeds.deep_view();
    proof {
        lemma_bytes_deep_view(*seeds);
    }
    let n = seeds.len();
    let mut with_bump: Vec<Vec<u8>> = Vec::new();
    let mut i: usize = 0;
    while i < n
        invariant
            n == seeds@.len(),
            i <= n,
            with_bump@.len() == i,
            forall|j: int| 0 <= j < i ==> with_bump@[j]@ == seeds@[j]@,
        decreases n - i,
    {
        with_bump.push(clone_bytes(&seeds[i]));
        i += 1;
    }
    let mut bump: u8 = 255;
    let mut bump_seed: Vec<u8> = Vec::new();
    bump_seed.push(bump);
    proof {
        assert(bump_seed@ =~= seq![255u8]);
    }
    with_bump.push(bump_seed);
    loop
        invariant
            n == seeds@.len(),
            seeds_v == seeds.deep_view(),
            with_bump@.len() == n + 1,
            forall|j: int| 0 <= j < n ==> with_bump@[j]@ == seeds@[j]@,
            with_bump@[n as int]@ == seq![bump],
            find_pda(seeds_v, program_id@) == find_pda_from(seeds_v, program_id@, bump),
        decreases bump,
    {
        proof {
            lemma_bytes_deep_view(with_bump);
            lemma_bytes_deep_view(*seeds);
            assert(with_bump.deep_view() =~= seeds_with_bump(seeds_v, bump));
        }
        match create_address(&with_bump, program_id) {
            Some(a) => {
                return Ok((a, bump));
            },
            None => {
                if bump == 0 {
                    return Err(ReviewError::DerivationExhausted);
                }
                bump = bump - 1;
                let mut bv: Vec<u8> = Vec::new();
                bv.push(bump);
                proof {
                    assert(bv@ =~= seq![bump]);
                }
                with_bump.set(n, bv);
            },
        }
    }
}

/// Derivation is deterministic: any two results obtained for the same
/// seed list and program identity agree, both in the address and in the
/// bump byte.
pub proof fn lemma_derivation_deterministic(
    r1: Option<(Seq<u8>, u8)>,
    r2: Option<(Seq<u8>, u8)>,
    seeds: Seq<Seq<u8>>,
    program_id: Seq<u8>,
)
    requires
        r1 == find_pda(seeds, program_id),
        r2 == find_pda(seeds, program_id),
    ensures
        r1 == r2,
{
}

} // verus!
