//! Address derivation checked against the platform's own search.

use movie_review_program::error::ReviewError;
use movie_review_program::pda::{derive_address, Address};
use movie_review_program::token::{derive_ata, token_program_id};
use solana_program::pubkey::Pubkey;

fn addr(b: u8) -> Address {
    Address::new([b; 32])
}

#[test]
fn derivation_is_deterministic() {
    let pid = addr(1);
    let seeds = vec![[2u8; 32].to_vec(), b"Dune".to_vec()];
    let first = derive_address(&seeds, &pid).unwrap();
    let second = derive_address(&seeds, &pid).unwrap();
    assert_eq!(first.0.bytes, second.0.bytes);
    assert_eq!(first.1, second.1);
}

#[test]
fn derivation_matches_platform_search() {
    let pid = addr(1);
    let author = [2u8; 32];
    let seeds = vec![author.to_vec(), b"Dune".to_vec()];
    let (a, bump) = derive_address(&seeds, &pid).unwrap();
    let (expected, expected_bump) = Pubkey::find_program_address(
        &[&author, b"Dune"],
        &Pubkey::new_from_array(pid.bytes),
    );
    assert_eq!(a.bytes, expected.to_bytes());
    assert_eq!(bump, expected_bump);
}

#[test]
fn oversized_seed_exhausts_derivation() {
    // Seeds longer than the platform's limit are refused for every bump.
    let pid = addr(1);
    let seeds = vec![vec![7u8; 33]];
    assert!(matches!(
        derive_address(&seeds, &pid),
        Err(ReviewError::DerivationExhausted)
    ));
}

#[test]
#[allow(deprecated)]
fn associated_account_matches_platform_derivation() {
    let wallet = addr(3);
    let mint = addr(4);
    let ata = derive_ata(&wallet, &mint).unwrap();
    let expected = spl_associated_token_account::get_associated_token_address(
        &Pubkey::new_from_array(wallet.bytes),
        &Pubkey::new_from_array(mint.bytes),
    );
    assert_eq!(ata.bytes, expected.to_bytes());
}

#[test]
fn ledger_identity_matches_declared_bytes() {
    assert_eq!(token_program_id().bytes, spl_token::ID.to_bytes());
    assert_eq!(
        token_program_id().bytes,
        [
            6u8, 221, 246, 225, 215, 101, 161, 147, 217, 203, 225, 70, 206, 235, 121, 172, 28,
            180, 133, 237, 95, 91, 55, 145, 58, 140, 245, 133, 126, 255, 0, 169,
        ]
    );
}
