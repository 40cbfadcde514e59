//! End-to-end scenarios through the lifecycle processor.

use movie_review_program::error::ReviewError;
use movie_review_program::pda::{derive_address, Address};
use movie_review_program::processor::{
    add_comment, add_movie_review, initialize_token_mint, process_instruction,
    update_movie_review, Account, ProcessEffects,
};
use movie_review_program::state::{MovieAccountState, MovieComment, MovieCommentCounter};
use movie_review_program::token::{derive_ata, token_program_id};

fn addr(b: u8) -> Address {
    Address::new([b; 32])
}

fn system() -> Address {
    Address::new([0u8; 32])
}

fn acct(address: Address, owner: Address, is_signer: bool, data: Vec<u8>) -> Account {
    Account { address, owner, is_signer, data }
}

/// The ordered account list for a review creation: author, review
/// buffer, counter buffer, mint, mint authority, author's ledger
/// account, account-creation service, ledger service.
fn review_accounts(pid: &Address, author: &Address, title: &str) -> Vec<Account> {
    let review_pda = derive_address(&vec![author.to_vec(), title.as_bytes().to_vec()], pid)
        .unwrap()
        .0;
    let counter_pda = derive_address(&vec![review_pda.to_vec(), b"comment".to_vec()], pid)
        .unwrap()
        .0;
    let mint = derive_address(&vec![b"token_mint".to_vec()], pid).unwrap().0;
    let auth = derive_address(&vec![b"token_auth".to_vec()], pid).unwrap().0;
    let ata = derive_ata(author, &mint).unwrap();
    vec![
        acct(*author, system(), true, vec![]),
        acct(review_pda, *pid, false, vec![]),
        acct(counter_pda, *pid, false, vec![]),
        acct(mint, token_program_id(), false, vec![]),
        acct(auth, *pid, false, vec![]),
        acct(ata, token_program_id(), false, vec![]),
        acct(system(), system(), false, vec![]),
        acct(token_program_id(), system(), false, vec![]),
    ]
}

/// The ordered account list for a comment: commenter, review buffer,
/// counter buffer, comment buffer, mint, mint authority, commenter's
/// ledger account, account-creation service, ledger service.
fn comment_accounts(
    pid: &Address,
    commenter: &Address,
    review_pda: Address,
    review_data: Vec<u8>,
    counter_data: Vec<u8>,
    count: u64,
) -> Vec<Account> {
    let comment_pda = derive_address(
        &vec![review_pda.to_vec(), count.to_be_bytes().to_vec()],
        pid,
    )
    .unwrap()
    .0;
    let mint = derive_address(&vec![b"token_mint".to_vec()], pid).unwrap().0;
    let auth = derive_address(&vec![b"token_auth".to_vec()], pid).unwrap().0;
    let counter_pda = derive_address(&vec![review_pda.to_vec(), b"comment".to_vec()], pid)
        .unwrap()
        .0;
    let ata = derive_ata(commenter, &mint).unwrap();
    vec![
        acct(*commenter, system(), true, vec![]),
        acct(review_pda, *pid, false, review_data),
        acct(counter_pda, *pid, false, counter_data),
        acct(comment_pda, *pid, false, vec![]),
        acct(mint, token_program_id(), false, vec![]),
        acct(auth, *pid, false, vec![]),
        acct(ata, token_program_id(), false, vec![]),
        acct(system(), system(), false, vec![]),
        acct(token_program_id(), system(), false, vec![]),
    ]
}

#[test]
fn add_review_creates_review_and_counter() {
    let pid = addr(1);
    let author = addr(2);
    let accounts = review_accounts(&pid, &author, "Dune");
    let effects = add_movie_review(&pid, &accounts, "Dune".to_string(), 4, "Great".to_string())
        .unwrap();
    assert_eq!(effects.review_data.len(), 1000);
    let review = MovieAccountState::decode(&effects.review_data).unwrap();
    assert!(review.is_initialized);
    assert_eq!(review.rating, 4);
    assert_eq!(review.title, "Dune");
    assert_eq!(review.description, "Great");
    assert_eq!(review.reviewer.bytes, author.bytes);
    let counter = MovieCommentCounter::decode(&effects.counter_data).unwrap();
    assert!(counter.is_initialized);
    assert_eq!(counter.counter, 0);
    assert_eq!(effects.create_review.size, 1000);
    assert_eq!(effects.create_review.target.bytes, accounts[1].address.bytes);
    assert_eq!(effects.create_counter.size, 20);
    assert_eq!(effects.mint.amount, 10_000_000_000);
    assert_eq!(effects.mint.destination.bytes, accounts[5].address.bytes);
}

#[test]
fn add_comment_uses_pre_increment_counter() {
    let pid = addr(1);
    let author = addr(2);
    let commenter = addr(3);
    let accounts = review_accounts(&pid, &author, "Dune");
    let review = add_movie_review(&pid, &accounts, "Dune".to_string(), 4, "Great".to_string())
        .unwrap();
    let review_pda = accounts[1].address;
    let accounts2 = comment_accounts(
        &pid,
        &commenter,
        review_pda,
        review.review_data,
        review.counter_data,
        0,
    );
    let effects = add_comment(&pid, &accounts2, "Agreed".to_string()).unwrap();
    // The comment's address is derived from the counter value before
    // the increment.
    let expected = derive_address(
        &vec![review_pda.to_vec(), 0u64.to_be_bytes().to_vec()],
        &pid,
    )
    .unwrap()
    .0;
    assert_eq!(effects.create_comment.target.bytes, expected.bytes);
    let comment = MovieComment::decode(&effects.comment_data).unwrap();
    assert!(comment.is_initialized);
    assert_eq!(comment.comment, "Agreed");
    assert_eq!(comment.review.bytes, review_pda.bytes);
    assert_eq!(comment.commenter.bytes, commenter.bytes);
    let counter = MovieCommentCounter::decode(&effects.counter_data).unwrap();
    assert_eq!(counter.counter, 1);
    assert_eq!(effects.mint.amount, 5_000_000_000);
}

#[test]
fn add_review_rejects_bad_rating() {
    let pid = addr(1);
    let author = addr(2);
    let accounts = review_accounts(&pid, &author, "Dune");
    for rating in [0u8, 6, 7, 255] {
        let r = add_movie_review(&pid, &accounts, "Dune".to_string(), rating, "x".to_string());
        assert!(matches!(r, Err(ReviewError::InvalidRating)));
    }
}

#[test]
fn add_review_rejects_oversized_record() {
    let pid = addr(1);
    let author = addr(2);
    let accounts = review_accounts(&pid, &author, "Dune");
    let long = "a".repeat(945);
    // 52 + 4 + 945 = 1001, one byte over the fixed capacity.
    let r = add_movie_review(&pid, &accounts, "Dune".to_string(), 4, long);
    assert!(matches!(r, Err(ReviewError::InvalidDataLength)));
    // One byte shorter fits exactly.
    let fits = "a".repeat(944);
    assert!(add_movie_review(&pid, &accounts, "Dune".to_string(), 4, fits).is_ok());
}

#[test]
fn add_review_twice_fails_and_keeps_first() {
    let pid = addr(1);
    let author = addr(2);
    let mut accounts = review_accounts(&pid, &author, "Dune");
    let first = add_movie_review(&pid, &accounts, "Dune".to_string(), 4, "Great".to_string())
        .unwrap();
    accounts[1].data = first.review_data.clone();
    let second = add_movie_review(&pid, &accounts, "Dune".to_string(), 4, "Great".to_string());
    assert!(matches!(second, Err(ReviewError::AlreadyInitialized)));
    // The stored record is untouched by the failed attempt.
    let review = MovieAccountState::decode(&accounts[1].data).unwrap();
    assert_eq!(review.rating, 4);
    assert_eq!(review.description, "Great");
}

#[test]
fn add_review_requires_signature() {
    let pid = addr(1);
    let author = addr(2);
    let mut accounts = review_accounts(&pid, &author, "Dune");
    accounts[0].is_signer = false;
    let r = add_movie_review(&pid, &accounts, "Dune".to_string(), 4, "Great".to_string());
    assert!(matches!(r, Err(ReviewError::MissingSignature)));
}

#[test]
fn add_review_rejects_wrong_address() {
    let pid = addr(1);
    let author = addr(2);
    let mut accounts = review_accounts(&pid, &author, "Dune");
    accounts[1].address = addr(9);
    let r = add_movie_review(&pid, &accounts, "Dune".to_string(), 4, "Great".to_string());
    assert!(matches!(r, Err(ReviewError::InvalidPDA)));
}

#[test]
fn add_review_rejects_wrong_ledger_identity() {
    let pid = addr(1);
    let author = addr(2);
    let mut accounts = review_accounts(&pid, &author, "Dune");
    accounts[7].address = addr(9);
    let r = add_movie_review(&pid, &accounts, "Dune".to_string(), 4, "Great".to_string());
    assert!(matches!(r, Err(ReviewError::IncorrectAccount)));
}

#[test]
fn add_review_rejects_short_account_list() {
    let pid = addr(1);
    let accounts: Vec<Account> = Vec::new();
    let r = add_movie_review(&pid, &accounts, "Dune".to_string(), 4, "Great".to_string());
    assert!(matches!(r, Err(ReviewError::NotEnoughAccounts)));
}

#[test]
fn oversized_title_exhausts_derivation() {
    let pid = addr(1);
    let author = addr(2);
    // A title longer than the platform's 32-byte seed limit can never
    // derive an address.
    let title = "a".repeat(33);
    let mut accounts = review_accounts(&pid, &author, "Dune");
    accounts[1].address = addr(9);
    let r = add_movie_review(&pid, &accounts, title, 4, "Great".to_string());
    assert!(matches!(r, Err(ReviewError::DerivationExhausted)));
}

#[test]
fn update_rejects_rating_out_of_range() {
    let pid = addr(1);
    let author = addr(2);
    let accounts = review_accounts(&pid, &author, "Dune");
    let first = add_movie_review(&pid, &accounts, "Dune".to_string(), 4, "Great".to_string())
        .unwrap();
    let update_accounts = vec![
        acct(author, system(), true, vec![]),
        acct(accounts[1].address, pid, false, first.review_data.clone()),
    ];
    let r = update_movie_review(&pid, &update_accounts, "Dune".to_string(), 7, "x".to_string());
    assert!(matches!(r, Err(ReviewError::InvalidRating)));
    // The stored record is unchanged.
    let review = MovieAccountState::decode(&update_accounts[1].data).unwrap();
    assert_eq!(review.rating, 4);
    assert_eq!(review.description, "Great");
}

#[test]
fn update_changes_rating_and_description_only() {
    let pid = addr(1);
    let author = addr(2);
    let accounts = review_accounts(&pid, &author, "Dune");
    let first = add_movie_review(&pid, &accounts, "Dune".to_string(), 4, "Great".to_string())
        .unwrap();
    let update_accounts = vec![
        acct(author, system(), true, vec![]),
        acct(accounts[1].address, pid, false, first.review_data),
    ];
    let effects = update_movie_review(
        &pid,
        &update_accounts,
        "Dune".to_string(),
        2,
        "Changed my mind".to_string(),
    )
    .unwrap();
    let review = MovieAccountState::decode(&effects.review_data).unwrap();
    assert_eq!(review.rating, 2);
    assert_eq!(review.description, "Changed my mind");
    assert_eq!(review.title, "Dune");
    assert_eq!(review.reviewer.bytes, author.bytes);
    assert!(review.is_initialized);
}

#[test]
fn update_rejects_foreign_owner() {
    let pid = addr(1);
    let author = addr(2);
    let update_accounts = vec![
        acct(author, system(), true, vec![]),
        acct(addr(5), addr(9), false, vec![0u8; 1000]),
    ];
    let r = update_movie_review(&pid, &update_accounts, "Dune".to_string(), 2, "x".to_string());
    assert!(matches!(r, Err(ReviewError::InvalidOwner)));
}

#[test]
fn update_rejects_uninitialized_record() {
    let pid = addr(1);
    let author = addr(2);
    let update_accounts = vec![
        acct(author, system(), true, vec![]),
        acct(addr(5), pid, false, vec![0u8; 1000]),
    ];
    let r = update_movie_review(&pid, &update_accounts, "Dune".to_string(), 2, "x".to_string());
    assert!(matches!(r, Err(ReviewError::UninitializedAccount)));
}

#[test]
fn add_comment_without_counter_fails() {
    let pid = addr(1);
    let author = addr(2);
    let commenter = addr(3);
    let accounts = review_accounts(&pid, &author, "Dune");
    let review = add_movie_review(&pid, &accounts, "Dune".to_string(), 4, "Great".to_string())
        .unwrap();
    // The counter buffer was never created: its data is empty.
    let accounts2 = comment_accounts(
        &pid,
        &commenter,
        accounts[1].address,
        review.review_data,
        vec![],
        0,
    );
    let r = add_comment(&pid, &accounts2, "Agreed".to_string());
    assert!(matches!(r, Err(ReviewError::UninitializedAccount)));
}

#[test]
fn add_comment_rejects_garbage_counter() {
    let pid = addr(1);
    let commenter = addr(3);
    let accounts2 = comment_accounts(&pid, &commenter, addr(4), vec![], vec![1, 2, 3], 0);
    let r = add_comment(&pid, &accounts2, "Agreed".to_string());
    assert!(matches!(r, Err(ReviewError::DecodeError)));
}

#[test]
fn error_codes_are_stable() {
    assert_eq!(ReviewError::UninitializedAccount.code(), 0);
    assert_eq!(ReviewError::InvalidPDA.code(), 1);
    assert_eq!(ReviewError::InvalidDataLength.code(), 2);
    assert_eq!(ReviewError::InvalidRating.code(), 3);
    assert_eq!(ReviewError::IncorrectAccount.code(), 4);
}

#[test]
fn test_initialize_mint_instruction() {
    let pid = addr(1);
    let payer = addr(2);
    let mint = derive_address(&vec![b"token_mint".to_vec()], &pid).unwrap().0;
    let auth = derive_address(&vec![b"token_auth".to_vec()], &pid).unwrap().0;
    let accounts = vec![
        acct(payer, system(), true, vec![]),
        acct(mint, token_program_id(), false, vec![]),
        acct(auth, pid, false, vec![]),
        acct(system(), system(), false, vec![]),
        acct(token_program_id(), system(), false, vec![]),
    ];
    let direct = initialize_token_mint(&pid, &accounts).unwrap();
    assert_eq!(direct.create_mint.size, 82);
    assert_eq!(direct.init_mint.decimals, 9);
    assert_eq!(direct.init_mint.mint.bytes, mint.bytes);
    assert_eq!(direct.init_mint.authority.bytes, auth.bytes);
    // Dispatched through the instruction decoder, as a client submits it.
    let data = borsh::to_vec(&3u8).unwrap();
    let result = process_instruction(&pid, &accounts, &data);
    assert!(result.is_ok());
}

#[test]
fn test_add_movie_review_instruction() {
    let pid = addr(1);
    let author = addr(2);
    let title = "Captain America".to_string();
    let rating: u8 = 3;
    let description = "Liked the movie".to_string();
    let accounts = review_accounts(&pid, &author, &title);
    let data = borsh::to_vec(&(0u8, title.clone(), rating, description.clone())).unwrap();
    let result = process_instruction(&pid, &accounts, &data);
    assert!(result.is_ok());
    match result.unwrap() {
        ProcessEffects::Review(e) => {
            let review = MovieAccountState::decode(&e.review_data).unwrap();
            assert_eq!(review.title, title);
            assert_eq!(review.rating, rating);
            assert_eq!(review.description, description);
        },
        _ => panic!("wrong effects"),
    }
}

#[test]
fn test_update_movie_review_instruction() {
    let pid = addr(1);
    let author = addr(2);
    let title = "Captain America".to_string();
    let accounts = review_accounts(&pid, &author, &title);
    let first = add_movie_review(
        &pid,
        &accounts,
        title.clone(),
        3,
        "Liked the movie".to_string(),
    )
    .unwrap();
    let update_accounts = vec![
        acct(author, system(), true, vec![]),
        acct(accounts[1].address, pid, false, first.review_data),
    ];
    let data = borsh::to_vec(&(1u8, title.clone(), 2u8, "Didn't like the movie".to_string()))
        .unwrap();
    let result = process_instruction(&pid, &update_accounts, &data);
    assert!(result.is_ok());
    match result.unwrap() {
        ProcessEffects::Update(e) => {
            let review = MovieAccountState::decode(&e.review_data).unwrap();
            assert_eq!(review.rating, 2);
            assert_eq!(review.description, "Didn't like the movie");
            assert_eq!(review.title, title);
        },
        _ => panic!("wrong effects"),
    }
}

#[test]
fn test_add_comment_instruction() {
    let pid = addr(1);
    let author = addr(2);
    let commenter = addr(3);
    let title = "Captain America".to_string();
    let accounts = review_accounts(&pid, &author, &title);
    let first = add_movie_review(
        &pid,
        &accounts,
        title.clone(),
        3,
        "Liked the movie".to_string(),
    )
    .unwrap();
    let counter = MovieCommentCounter::decode(&first.counter_data).unwrap();
    let accounts2 = comment_accounts(
        &pid,
        &commenter,
        accounts[1].address,
        first.review_data,
        first.counter_data.clone(),
        counter.counter,
    );
    let data = borsh::to_vec(&(2u8, "Totally agree!".to_string())).unwrap();
    let result = process_instruction(&pid, &accounts2, &data);
    assert!(result.is_ok());
    match result.unwrap() {
        ProcessEffects::Comment(e) => {
            let comment = MovieComment::decode(&e.comment_data).unwrap();
            assert_eq!(comment.comment, "Totally agree!");
            let updated = MovieCommentCounter::decode(&e.counter_data).unwrap();
            assert_eq!(updated.counter, counter.counter + 1);
        },
        _ => panic!("wrong effects"),
    }
}

#[test]
fn error_messages_describe_the_kind() {
    assert_eq!(
        ReviewError::InvalidRating.message(),
        "Rating greater than 5 or less than 1"
    );
    assert_eq!(
        ReviewError::UninitializedAccount.message(),
        "Account not initialized yet"
    );
}
