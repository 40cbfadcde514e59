//! The external value-ledger's identities and derived account addresses.
//!
//! The ledger service and the associated-account convention are outside
//! collaborators; this module carries their well-known program identities
//! into the verified world and derives the canonical associated account
//! of a wallet for a mint.

use vstd::prelude::*;
use crate::error::ReviewError;
use crate::pda::Address;
use crate::pda::find_pda;
use crate::pda::derive_address;
use crate::pda::lemma_bytes_deep_view;

verus! {

/// The value-ledger (token) program's identity.
pub open spec fn token_program_id_spec() -> Seq<u8> {
    seq![
        6u8, 221, 246, 225, 215, 101, 161, 147, 217, 203, 225, 70, 206, 235, 121, 172, 28, 180,
        133, 237, 95, 91, 55, 145, 58, 140, 245, 133, 126, 255, 0, 169,
    ]
}

/// The associated-account program's identity.
pub open spec fn ata_program_id_spec() -> Seq<u8> {
    seq![
        140u8, 151, 37, 143, 78, 36, 137, 241, 187, 61, 16, 41, 20, 142, 13, 131, 11, 90, 19, 153,
        218, 255, 16, 132, 4, 142, 123, 216, 219, 233, 248, 89,
    ]
}

/// Relies on spl_token::ID: the token program's well-known identity,
/// whose base58 form decodes to exactly these 32 bytes.
#[verifier::external_body]
pub fn token_program_id() -> (a: Address)
    ensures
        a@ == token_program_id_spec(),
{
    Address { bytes: spl_token::ID.to_bytes() }
}

/// Relies on spl_associated_token_account::ID: the associated-account
/// program's well-known identity, whose base58 form decodes to exactly
/// these 32 bytes.
#[verifier::external_body]
fn ata_program_id() -> (a: Address)
    ensures
        a@ == ata_program_id_spec(),
{
    Address { bytes: spl_associated_token_account::ID.to_bytes() }
}

/// Relies on spl_token's Mint::LEN: the packed byte size of a mint
/// record in the value-ledger.
#[verifier::external_body]
pub fn mint_account_len() -> (n: u64)
    ensures
        n == 82,
{
    <spl_token::state::Mint as solana_program::program_pack::Pack>::LEN as u64
}

/// The canonical associated account of a wallet for a mint: the derived
/// address of the wallet, the token program and the mint under the
/// associated-account program.
pub open spec fn ata_address(wallet: Seq<u8>, mint: Seq<u8>) -> Option<(Seq<u8>, u8)> {
    find_pda(seq![wallet, token_program_id_spec(), mint], ata_program_id_spec())
}

/// Derive the canonical associated account of a wallet for a mint.
pub fn derive_ata(wallet: &Address, mint: &Address) -> (r: Result<Address, ReviewError>)
    ensures
        match r {
            Ok(a) => ata_address(wallet@, mint@) matches Some(p) && p.0 == a@,
            Err(e) => {
                &&& e == ReviewError::DerivationExhausted
                &&& ata_address(wallet@, mint@) is None
            },
        },
{
    let mut seeds: Vec<Vec<u8>> = Vec::new();
    seeds.push(wallet.to_vec());
    seeds.push(token_program_id().to_vec());
    seeds.push(mint.to_vec());
    proof {
        lemma_bytes_deep_view(seeds);
        assert(seeds.deep_view() =~= seq![wallet@, token_program_id_spec(), mint@]);
    }
    match derive_address(&seeds, &ata_program_id()) {
        Ok((a, _bump)) => Ok(a),
        Err(e) => Err(e),
    }
}

} // verus!
