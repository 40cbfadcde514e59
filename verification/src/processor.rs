//! The record lifecycle processor.
//!
//! Each command is handled by one entry point. A handler receives the
//! program identity, the ordered list of host-supplied account buffers
//! and the command payload; it validates everything, computes the new
//! buffer contents, and describes the calls the host must make to the
//! account-creation service and the value-ledger. Nothing is mutated in
//! place: on failure a handler returns only the error, matching the
//! host's all-or-nothing treatment of an invocation, and on success it
//! returns the complete effects. Every handler's outcome — the exact
//! effects on success and the exact error otherwise — equals a
//! specification-level model of the command.

use vstd::prelude::*;
use vstd::slice::slice_to_vec;
use crate::codec::str_bytes;
use crate::codec::str_field_fits;
use crate::codec::u64_be_bytes;
use crate::codec::u64_to_be_bytes;
use crate::codec::write_prefix;
use crate::codec::overwrite_prefix;
use crate::codec::zero_vec;
use crate::error::ReviewError;
use crate::instruction::InstructionView;
use crate::instruction::MovieInstruction;
use crate::instruction::unpack_spec;
use crate::pda::Address;
use crate::pda::address_eq;
use crate::pda::derive_address;
use crate::pda::find_pda;
use crate::pda::lemma_bytes_deep_view;
use crate::state::CounterView;
use crate::state::CommentView;
use crate::state::MovieAccountState;
use crate::state::MovieComment;
use crate::state::MovieCommentCounter;
use crate::state::ReviewView;
use crate::state::counter_from_bytes;
use crate::state::comment_from_bytes;
use crate::state::counter_tag;
use crate::state::comment_tag;
use crate::state::encode_counter;
use crate::state::encode_comment;
use crate::state::encode_review;
use crate::state::review_from_bytes;
use crate::state::review_size;
use crate::state::comment_size;
use crate::state::review_tag;
use crate::token::ata_address;
use crate::token::derive_ata;
use crate::token::mint_account_len;
use crate::token::token_program_id;
use crate::token::token_program_id_spec;

verus! {

// ---------------------------------------------------------------------------
// The host-supplied context
// ---------------------------------------------------------------------------
/// The mathematical value of one account buffer.
pub ghost struct AccountView {
    pub address: Seq<u8>,
    pub owner: Seq<u8>,
    pub is_signer: bool,
    pub data: Seq<u8>,
}

/// One host-supplied account buffer as the processor sees it: its
/// address, the program that owns it, whether its holder signed this
/// invocation, and its current data.
pub struct Account {
    pub address: Address,
    pub owner: Address,
    pub is_signer: bool,
    pub data: Vec<u8>,
}

impl View for Account {
    type V = AccountView;

    open spec fn view(&self) -> AccountView {
        AccountView {
            address: self.address@,
            owner: self.owner@,
            is_signer: self.is_signer,
            data: self.data@,
        }
    }
}

/// The views of an ordered account list.
pub open spec fn account_views(accounts: Seq<Account>) -> Seq<AccountView> {
    accounts.map_values(|a: Account| a@)
}

/// Validity of an account view: its address and owner are 32 bytes, as
/// the view of every executable account is by construction.
pub open spec fn wf_account(a: AccountView) -> bool {
    &&& a.address.len() == 32
    &&& a.owner.len() == 32
}

// ---------------------------------------------------------------------------
// Seed labels
// ---------------------------------------------------------------------------
/// The seed label that locates a review's comment counter.
pub open spec fn comment_label() -> Seq<u8> {
    seq![99u8, 111, 109, 109, 101, 110, 116]
}

/// The seed label that locates the reward mint.
pub open spec fn mint_label() -> Seq<u8> {
    seq![116u8, 111, 107, 101, 110, 95, 109, 105, 110, 116]
}

/// The seed label that locates the reward mint's authority.
pub open spec fn auth_label() -> Seq<u8> {
    seq![116u8, 111, 107, 101, 110, 95, 97, 117, 116, 104]
}

/// The seeds of a review's address: the author identity and the title's
/// bytes.
pub open spec fn review_seeds(author: Seq<u8>, title: Seq<char>) -> Seq<Seq<u8>> {
    seq![author, str_bytes(title)]
}

/// The seeds of a review's comment counter.
pub open spec fn counter_seeds(review: Seq<u8>) -> Seq<Seq<u8>> {
    seq![review, comment_label()]
}

/// The seeds of a comment: the review address and the big-endian bytes
/// of the counter value at creation time.
pub open spec fn comment_seeds(review: Seq<u8>, count: u64) -> Seq<Seq<u8>> {
    seq![review, u64_be_bytes(count)]
}

fn comment_label_vec() -> (r: Vec<u8>)
    ensures
        r@ == comment_label(),
{
    let r: Vec<u8> = vec![99u8, 111, 109, 109, 101, 110, 116];
    proof {
        assert(r@ =~= comment_label());
    }
    r
}

fn mint_label_seeds() -> (s: Vec<Vec<u8>>)
    ensures
        s.deep_view() == seq![mint_label()],
{
    let label: Vec<u8> = vec![116u8, 111, 107, 101, 110, 95, 109, 105, 110, 116];
    proof {
        assert(label@ =~= mint_label());
    }
    let mut s: Vec<Vec<u8>> = Vec::new();
    s.push(label);
    proof {
        lemma_bytes_deep_view(s);
        assert(s.deep_view() =~= seq![mint_label()]);
    }
    s
}

fn auth_label_seeds() -> (s: Vec<Vec<u8>>)
    ensures
        s.deep_view() == seq![auth_label()],
{
    let label: Vec<u8> = vec![116u8, 111, 107, 101, 110, 95, 97, 117, 116, 104];
    proof {
        assert(label@ =~= auth_label());
    }
    let mut s: Vec<Vec<u8>> = Vec::new();
    s.push(label);
    proof {
        lemma_bytes_deep_view(s);
        assert(s.deep_view() =~= seq![auth_label()]);
    }
    s
}

// ---------------------------------------------------------------------------
// Effects: what the host is asked to do
// ---------------------------------------------------------------------------
/// The reward minted to a review's author, in base units.
pub const REVIEW_REWARD: u64 = 10_000_000_000;

/// The reward minted to a commenter, in base units.
pub const COMMENT_REWARD: u64 = 5_000_000_000;

/// The decimal precision of the reward mint.
pub const MINT_DECIMALS: u8 = 9;

/// The mathematical value of an account-creation request.
pub ghost struct CreateAccountView {
    pub payer: Seq<u8>,
    pub target: Seq<u8>,
    pub owner: Seq<u8>,
    pub size: u64,
    pub seeds: Seq<Seq<u8>>,
    pub bump: u8,
}

/// A request to the account-creation service: allocate a zeroed buffer
/// of `size` bytes at `target`, owned by `owner`, paid by `payer`, and
/// authorized by `seeds` with the bump byte appended.
pub struct CreateAccount {
    pub payer: Address,
    pub target: Address,
    pub owner: Address,
    pub size: u64,
    pub seeds: Vec<Vec<u8>>,
    pub bump: u8,
}

impl View for CreateAccount {
    type V = CreateAccountView;

    open spec fn view(&self) -> CreateAccountView {
        CreateAccountView {
            payer: self.payer@,
            target: self.target@,
            owner: self.owner@,
            size: self.size,
            seeds: self.seeds.deep_view(),
            bump: self.bump,
        }
    }
}

/// The mathematical value of a mint request.
pub ghost struct MintToView {
    pub mint: Seq<u8>,
    pub destination: Seq<u8>,
    pub authority: Seq<u8>,
    pub authority_bump: u8,
    pub amount: u64,
}

/// A request to the value-ledger: mint `amount` reward units from `mint`
/// into `destination`, authorized by the derived `authority` and its
/// bump byte.
pub struct MintTo {
    pub mint: Address,
    pub destination: Address,
    pub authority: Address,
    pub authority_bump: u8,
    pub amount: u64,
}

impl View for MintTo {
    type V = MintToView;

    open spec fn view(&self) -> MintToView {
        MintToView {
            mint: self.mint@,
            destination: self.destination@,
            authority: self.authority@,
            authority_bump: self.authority_bump,
            amount: self.amount,
        }
    }
}

/// The mathematical value of a mint-initialization request.
pub ghost struct InitMintView {
    pub mint: Seq<u8>,
    pub authority: Seq<u8>,
    pub decimals: u8,
    pub bump: u8,
}

/// A request to the value-ledger: initialize the freshly created mint
/// with the derived authority as its controller.
pub struct InitMint {
    pub mint: Address,
    pub authority: Address,
    pub decimals: u8,
    pub bump: u8,
}

impl View for InitMint {
    type V = InitMintView;

    open spec fn view(&self) -> InitMintView {
        InitMintView {
            mint: self.mint@,
            authority: self.authority@,
            decimals: self.decimals,
            bump: self.bump,
        }
    }
}

/// The mathematical value of the mint-initialization effects.
pub ghost struct InitializeMintEffectsView {
    pub create_mint: CreateAccountView,
    pub init_mint: InitMintView,
}

/// Everything the host must do for a successful mint initialization.
pub struct InitializeMintEffects {
    pub create_mint: CreateAccount,
    pub init_mint: InitMint,
}

impl View for InitializeMintEffects {
    type V = InitializeMintEffectsView;

    open spec fn view(&self) -> InitializeMintEffectsView {
        InitializeMintEffectsView { create_mint: self.create_mint@, init_mint: self.init_mint@ }
    }
}

/// A handler's result agrees with its model: the same error, or effects
/// whose value is the model's.
pub open spec fn result_matches<T: View>(
    r: Result<T, ReviewError>,
    m: Result<T::V, ReviewError>,
) -> bool {
    match (r, m) {
        (Ok(e), Ok(mv)) => e@ == mv,
        (Err(e1), Err(e2)) => e1 == e2,
        _ => false,
    }
}

// ---------------------------------------------------------------------------
// Mint initialization
// ---------------------------------------------------------------------------
/// The outcome of the mint-initialization command: with the mint and
/// authority addresses re-derived from their fixed seed labels, the
/// supplied mint, ledger-service and authority accounts must match
/// exactly; the effects then create the mint buffer in the ledger's
/// ownership and initialize it with the derived authority.
pub open spec fn initialize_mint_model(pid: Seq<u8>, accounts: Seq<AccountView>) -> Result<
    InitializeMintEffectsView,
    ReviewError,
> {
    if accounts.len() < 5 {
        Err(ReviewError::NotEnoughAccounts)
    } else {
        let initializer = accounts[0];
        let token_mint = accounts[1];
        let mint_auth = accounts[2];
        let token_program = accounts[4];
        match find_pda(seq![mint_label()], pid) {
            None => Err(ReviewError::DerivationExhausted),
            Some((mint_pda, mint_bump)) => match find_pda(seq![auth_label()], pid) {
                None => Err(ReviewError::DerivationExhausted),
                Some((auth_pda, _auth_bump)) => if mint_pda != token_mint.address {
                    Err(ReviewError::IncorrectAccount)
                } else if token_program.address != token_program_id_spec() {
                    Err(ReviewError::IncorrectAccount)
                } else if auth_pda != mint_auth.address {
                    Err(ReviewError::IncorrectAccount)
                } else {
                    Ok(
                        InitializeMintEffectsView {
                            create_mint: CreateAccountView {
                                payer: initializer.address,
                                target: mint_pda,
                                owner: token_program_id_spec(),
                                size: 82,
                                seeds: seq![mint_label()],
                                bump: mint_bump,
                            },
                            init_mint: InitMintView {
                                mint: mint_pda,
                                authority: auth_pda,
                                decimals: MINT_DECIMALS,
                                bump: mint_bump,
                            },
                        },
                    )
                },
            },
        }
    }
}

/// Derive the reward mint's account and authority, match them and the
/// ledger-service identity against the supplied accounts, and describe
/// the creation and initialization of the mint.
pub fn initialize_token_mint(program_id: &Address, accounts: &Vec<Account>) -> (r: Result<
    InitializeMintEffects,
    ReviewError,
>)
    ensures
        result_matches(r, initialize_mint_model(program_id@, account_views(accounts@))),
{
    let ghost m = initialize_mint_model(program_id@, account_views(accounts@));
    if accounts.len() < 5 {
        return Err(ReviewError::NotEnoughAccounts);
    }
    let mint_seeds = mint_label_seeds();
    let (mint_pda, mint_bump) = match derive_address(&mint_seeds, program_id) {
        Ok(x) => x,
        Err(e) => {
            return Err(e);
        },
    };
    let auth_seeds = auth_label_seeds();
    let (auth_pda, _auth_bump) = match derive_address(&auth_seeds, program_id) {
        Ok(x) => x,
        Err(e) => {
            return Err(e);
        },
    };
    if !address_eq(&mint_pda, &accounts[1].address) {
        return Err(ReviewError::IncorrectAccount);
    }
    let ledger_id = token_program_id();
    if !address_eq(&ledger_id, &accounts[4].address) {
        return Err(ReviewError::IncorrectAccount);
    }
    if !address_eq(&auth_pda, &accounts[2].address) {
        return Err(ReviewError::IncorrectAccount);
    }
    let effects = InitializeMintEffects {
        create_mint: CreateAccount {
            payer: accounts[0].address,
            target: mint_pda,
            owner: ledger_id,
            size: mint_account_len(),
            seeds: mint_seeds,
            bump: mint_bump,
        },
        init_mint: InitMint {
            mint: mint_pda,
            authority: auth_pda,
            decimals: MINT_DECIMALS,
            bump: mint_bump,
        },
    };
    proof {
        assert(effects@ == m.unwrap());
    }
    Ok(effects)
}

// ---------------------------------------------------------------------------
// Adding a review
// ---------------------------------------------------------------------------
/// The mathematical value of a review creation's effects.
pub ghost struct AddReviewEffectsView {
    pub create_review: CreateAccountView,
    pub review_data: Seq<u8>,
    pub create_counter: CreateAccountView,
    pub counter_data: Seq<u8>,
    pub mint: MintToView,
}

/// Everything the host must do for a successful review creation: create
/// the review buffer and store its contents, create the counter buffer
/// and store its contents, and mint the author's reward.
pub struct AddReviewEffects {
    pub create_review: CreateAccount,
    pub review_data: Vec<u8>,
    pub create_counter: CreateAccount,
    pub counter_data: Vec<u8>,
    pub mint: MintTo,
}

impl View for AddReviewEffects {
    type V = AddReviewEffectsView;

    open spec fn view(&self) -> AddReviewEffectsView {
        AddReviewEffectsView {
            create_review: self.create_review@,
            review_data: self.review_data@,
            create_counter: self.create_counter@,
            counter_data: self.counter_data@,
            mint: self.mint@,
        }
    }
}

/// The outcome of the review-creation command: the first account must
/// sign; the review address re-derived from the signer and title must
/// match the supplied buffer; the rating must lie in 1 through 5 and
/// the encoded size within the fixed capacity; the buffer must not
/// already hold an initialized record, and neither may the counter
/// buffer at its own derived address. The effects then create the
/// review buffer at capacity with the populated record written over a
/// zeroed buffer, create the exactly-sized counter buffer holding a
/// zero count, and — after the reward mint, its authority, the author's
/// canonical ledger account and the ledger-service identity all match —
/// mint the author's fixed reward.
pub open spec fn add_review_model(
    pid: Seq<u8>,
    accounts: Seq<AccountView>,
    title: Seq<char>,
    rating: u8,
    description: Seq<char>,
) -> Result<AddReviewEffectsView, ReviewError> {
    if accounts.len() < 8 {
        Err(ReviewError::NotEnoughAccounts)
    } else {
        let initializer = accounts[0];
        let pda_account = accounts[1];
        let pda_counter = accounts[2];
        let token_mint = accounts[3];
        let mint_auth = accounts[4];
        let user_ata = accounts[5];
        let token_program = accounts[7];
        if !initializer.is_signer {
            Err(ReviewError::MissingSignature)
        } else {
            match find_pda(review_seeds(initializer.address, title), pid) {
                None => Err(ReviewError::DerivationExhausted),
                Some((pda, bump)) => if pda != pda_account.address {
                    Err(ReviewError::InvalidPDA)
                } else if rating > 5 || rating < 1 {
                    Err(ReviewError::InvalidRating)
                } else if review_size(title, description) > 1000 {
                    Err(ReviewError::InvalidDataLength)
                } else {
                    match review_from_bytes(pda_account.data) {
                        Err(e) => Err(e),
                        Ok(cur) => if cur.is_initialized {
                            Err(ReviewError::AlreadyInitialized)
                        } else {
                            let new_review = ReviewView {
                                discriminator: review_tag(),
                                is_initialized: true,
                                reviewer: initializer.address,
                                rating,
                                title,
                                description,
                            };
                            match find_pda(counter_seeds(pda), pid) {
                                None => Err(ReviewError::DerivationExhausted),
                                Some((counter_pda, counter_bump)) => if counter_pda
                                    != pda_counter.address {
                                    Err(ReviewError::InvalidPDA)
                                } else {
                                    match counter_from_bytes(pda_counter.data) {
                                        Err(e) => Err(e),
                                        Ok(cur_counter) => if cur_counter.is_initialized {
                                            Err(ReviewError::AlreadyInitialized)
                                        } else {
                                            let new_counter = CounterView {
                                                discriminator: counter_tag(),
                                                is_initialized: true,
                                                counter: 0,
                                            };
                                            match find_pda(seq![mint_label()], pid) {
                                                None => Err(ReviewError::DerivationExhausted),
                                                Some((mint_pda, _mint_bump)) => match find_pda(
                                                    seq![auth_label()],
                                                    pid,
                                                ) {
                                                    None => Err(
                                                        ReviewError::DerivationExhausted,
                                                    ),
                                                    Some((auth_pda, auth_bump)) => if mint_pda
                                                        != token_mint.address {
                                                        Err(ReviewError::IncorrectAccount)
                                                    } else if auth_pda != mint_auth.address {
                                                        Err(ReviewError::IncorrectAccount)
                                                    } else {
                                                        match ata_address(
                                                            initializer.address,
                                                            token_mint.address,
                                                        ) {
                                                            None => Err(
                                                                ReviewError::DerivationExhausted,
                                                            ),
                                                            Some((ata, _ata_bump)) => if ata
                                                                != user_ata.address {
                                                                Err(ReviewError::IncorrectAccount)
                                                            } else if token_program.address
                                                                != token_program_id_spec() {
                                                                Err(ReviewError::IncorrectAccount)
                                                            } else {
                                                                Ok(
                                                                    AddReviewEffectsView {
                                                                        create_review: CreateAccountView {
                                                                            payer: initializer.address,
                                                                            target: pda,
                                                                            owner: pid,
                                                                            size: 1000,
                                                                            seeds: review_seeds(
                                                                                initializer.address,
                                                                                title,
                                                                            ),
                                                                            bump,
                                                                        },
                                                                        review_data: write_prefix(
                                                                            crate::codec::zero_seq(
                                                                                1000,
                                                                            ),
                                                                            encode_review(
                                                                                new_review,
                                                                            ),
                                                                        ),
                                                                        create_counter: CreateAccountView {
                                                                            payer: initializer.address,
                                                                            target: counter_pda,
                                                                            owner: pid,
                                                                            size: 20,
                                                                            seeds: counter_seeds(
                                                                                pda,
                                                                            ),
                                                                            bump: counter_bump,
                                                                        },
                                                                        counter_data: encode_counter(
                                                                            new_counter,
                                                                        ),
                                                                        mint: MintToView {
                                                                            mint: mint_pda,
                                                                            destination: ata,
                                                                            authority: auth_pda,
                                                                            authority_bump: auth_bump,
                                                                            amount: REVIEW_REWARD,
                                                                        },
                                                                    },
                                                                )
                                                            },
                                                        }
                                                    },
                                                },
                                            }
                                        },
                                    }
                                },
                            }
                        },
                    }
                },
            }
        }
    }
}

/// Validate and create a review and its comment counter, and describe
/// the author's reward mint.
pub fn add_movie_review(
    program_id: &Address,
    accounts: &Vec<Account>,
    title: String,
    rating: u8,
    description: String,
) -> (r: Result<AddReviewEffects, ReviewError>)
    ensures
        result_matches(
            r,
            add_review_model(program_id@, account_views(accounts@), title@, rating, description@),
        ),
{
    if accounts.len() < 8 {
        return Err(ReviewError::NotEnoughAccounts);
    }
    if !accounts[0].is_signer {
        return Err(ReviewError::MissingSignature);
    }
    let author = accounts[0].address;
    let mut seeds: Vec<Vec<u8>> = Vec::new();
    seeds.push(author.to_vec());
    seeds.push(slice_to_vec(title.as_str().as_bytes()));
    proof {
        lemma_bytes_deep_view(seeds);
        assert(seeds.deep_view() =~= review_seeds(author@, title@));
    }
    let (pda, bump) = match derive_address(&seeds, program_id) {
        Ok(x) => x,
        Err(e) => {
            return Err(e);
        },
    };
    if !address_eq(&pda, &accounts[1].address) {
        return Err(ReviewError::InvalidPDA);
    }
    if rating > 5 || rating < 1 {
        return Err(ReviewError::InvalidRating);
    }
    let t_len = title.as_str().as_bytes().len();
    let d_len = description.as_str().as_bytes().len();
    if t_len > 1000 || d_len > 1000 || 52 + t_len + d_len > 1000 {
        proof {
            assert(review_size(title@, description@) > 1000);
        }
        return Err(ReviewError::InvalidDataLength);
    }
    proof {
        assert(review_size(title@, description@) <= 1000);
        assert(str_field_fits(title@));
        assert(str_field_fits(description@));
    }
    let cur = match MovieAccountState::decode(accounts[1].data.as_slice()) {
        Ok(st) => st,
        Err(e) => {
            return Err(e);
        },
    };
    if cur.is_initialized() {
        return Err(ReviewError::AlreadyInitialized);
    }
    proof {
        crate::state::lemma_tag_bytes();
    }
    let new_review = MovieAccountState {
        discriminator: "review".to_owned(),
        is_initialized: true,
        reviewer: author,
        rating,
        title,
        description,
    };
    let enc = new_review.encode();
    proof {
        crate::state::lemma_encode_review_len(new_review@);
    }
    let zeroed = zero_vec(1000);
    proof {
        assert(zeroed@ =~= crate::codec::zero_seq(1000));
    }
    let review_data = overwrite_prefix(zeroed.as_slice(), enc);
    let mut counter_seeds_vec: Vec<Vec<u8>> = Vec::new();
    counter_seeds_vec.push(pda.to_vec());
    counter_seeds_vec.push(comment_label_vec());
    proof {
        lemma_bytes_deep_view(counter_seeds_vec);
        assert(counter_seeds_vec.deep_view() =~= counter_seeds(pda@));
    }
    let (counter_pda, counter_bump) = match derive_address(&counter_seeds_vec, program_id) {
        Ok(x) => x,
        Err(e) => {
            return Err(e);
        },
    };
    if !address_eq(&counter_pda, &accounts[2].address) {
        return Err(ReviewError::InvalidPDA);
    }
    let cur_counter = match MovieCommentCounter::decode(accounts[2].data.as_slice()) {
        Ok(st) => st,
        Err(e) => {
            return Err(e);
        },
    };
    if cur_counter.is_initialized() {
        return Err(ReviewError::AlreadyInitialized);
    }
    let new_counter = MovieCommentCounter {
        discriminator: "counter".to_owned(),
        is_initialized: true,
        counter: 0,
    };
    let counter_data = new_counter.encode();
    let mint_seeds = mint_label_seeds();
    let (mint_pda, _mint_bump) = match derive_address(&mint_seeds, program_id) {
        Ok(x) => x,
        Err(e) => {
            return Err(e);
        },
    };
    let auth_seeds = auth_label_seeds();
    let (auth_pda, auth_bump) = match derive_address(&auth_seeds, program_id) {
        Ok(x) => x,
        Err(e) => {
            return Err(e);
        },
    };
    if !address_eq(&mint_pda, &accounts[3].address) {
        return Err(ReviewError::IncorrectAccount);
    }
    if !address_eq(&auth_pda, &accounts[4].address) {
        return Err(ReviewError::IncorrectAccount);
    }
    let ata = match derive_ata(&accounts[0].address, &accounts[3].address) {
        Ok(a) => a,
        Err(e) => {
            return Err(e);
        },
    };
    if !address_eq(&ata, &accounts[5].address) {
        return Err(ReviewError::IncorrectAccount);
    }
    let ledger_id = token_program_id();
    if !address_eq(&ledger_id, &accounts[7].address) {
        return Err(ReviewError::IncorrectAccount);
    }
    Ok(
        AddReviewEffects {
            create_review: CreateAccount {
                payer: author,
                target: pda,
                owner: *program_id,
                size: 1000,
                seeds,
                bump,
            },
            review_data,
            create_counter: CreateAccount {
                payer: author,
                target: counter_pda,
                owner: *program_id,
                size: 20,
                seeds: counter_seeds_vec,
                bump: counter_bump,
            },
            counter_data,
            mint: MintTo {
                mint: mint_pda,
                destination: ata,
                authority: auth_pda,
                authority_bump: auth_bump,
                amount: REVIEW_REWARD,
            },
        },
    )
}

// ---------------------------------------------------------------------------
// Updating a review
// ---------------------------------------------------------------------------
/// The mathematical value of an update's effects: the review buffer's
/// new contents.
pub ghost struct UpdateReviewEffectsView {
    pub review_data: Seq<u8>,
}

/// Everything the host must do for a successful update: store the new
/// buffer contents.
pub struct UpdateReviewEffects {
    pub review_data: Vec<u8>,
}

impl View for UpdateReviewEffects {
    type V = UpdateReviewEffectsView;

    open spec fn view(&self) -> UpdateReviewEffectsView {
        UpdateReviewEffectsView { review_data: self.review_data@ }
    }
}

/// The outcome of the update command: the buffer must be owned by this
/// program and the first account must sign; the stored record must
/// decode and be initialized; the address re-derived from the signer and
/// the stored title must match the supplied buffer; the new rating must
/// be in range and the requested field sizes within capacity; the
/// effects then hold the re-encoded record — rating and description
/// changed, title and author untouched — written over the front of the
/// buffer.
pub open spec fn update_review_model(
    pid: Seq<u8>,
    accounts: Seq<AccountView>,
    title: Seq<char>,
    rating: u8,
    description: Seq<char>,
) -> Result<UpdateReviewEffectsView, ReviewError> {
    if accounts.len() < 2 {
        Err(ReviewError::NotEnoughAccounts)
    } else {
        let initializer = accounts[0];
        let pda_account = accounts[1];
        if pda_account.owner != pid {
            Err(ReviewError::InvalidOwner)
        } else if !initializer.is_signer {
            Err(ReviewError::MissingSignature)
        } else {
            match review_from_bytes(pda_account.data) {
                Err(e) => Err(e),
                Ok(cur) => if !cur.is_initialized {
                    Err(ReviewError::UninitializedAccount)
                } else {
                    match find_pda(review_seeds(initializer.address, cur.title), pid) {
                        None => Err(ReviewError::DerivationExhausted),
                        Some((pda, _bump)) => if pda != pda_account.address {
                            Err(ReviewError::InvalidPDA)
                        } else if rating > 5 || rating < 1 {
                            Err(ReviewError::InvalidRating)
                        } else if review_size(title, description) > 1000 {
                            Err(ReviewError::InvalidDataLength)
                        } else {
                            let updated = ReviewView {
                                discriminator: cur.discriminator,
                                is_initialized: cur.is_initialized,
                                reviewer: cur.reviewer,
                                rating,
                                title: cur.title,
                                description,
                            };
                            if encode_review(updated).len() > pda_account.data.len() {
                                Err(ReviewError::InvalidDataLength)
                            } else {
                                Ok(
                                    UpdateReviewEffectsView {
                                        review_data: write_prefix(
                                            pda_account.data,
                                            encode_review(updated),
                                        ),
                                    },
                                )
                            }
                        },
                    }
                },
            }
        }
    }
}

/// Re-validate and re-encode an existing review with a new rating and
/// description.
pub fn update_movie_review(
    program_id: &Address,
    accounts: &Vec<Account>,
    title: String,
    rating: u8,
    description: String,
) -> (r: Result<UpdateReviewEffects, ReviewError>)
    ensures
        result_matches(
            r,
            update_review_model(
                program_id@,
                account_views(accounts@),
                title@,
                rating,
                description@,
            ),
        ),
{
    if accounts.len() < 2 {
        return Err(ReviewError::NotEnoughAccounts);
    }
    if !address_eq(&accounts[1].owner, program_id) {
        return Err(ReviewError::InvalidOwner);
    }
    if !accounts[0].is_signer {
        return Err(ReviewError::MissingSignature);
    }
    let cur = match MovieAccountState::decode(accounts[1].data.as_slice()) {
        Ok(st) => st,
        Err(e) => {
            return Err(e);
        },
    };
    if !cur.is_initialized() {
        return Err(ReviewError::UninitializedAccount);
    }
    let mut seeds: Vec<Vec<u8>> = Vec::new();
    seeds.push(accounts[0].address.to_vec());
    seeds.push(slice_to_vec(cur.title.as_str().as_bytes()));
    proof {
        lemma_bytes_deep_view(seeds);
        assert(seeds.deep_view() =~= review_seeds(accounts@[0]@.address, cur@.title));
    }
    let (pda, _bump) = match derive_address(&seeds, program_id) {
        Ok(x) => x,
        Err(e) => {
            return Err(e);
        },
    };
    if !address_eq(&pda, &accounts[1].address) {
        return Err(ReviewError::InvalidPDA);
    }
    if rating > 5 || rating < 1 {
        return Err(ReviewError::InvalidRating);
    }
    let t_len = title.as_str().as_bytes().len();
    let d_len = description.as_str().as_bytes().len();
    proof {
        assert(t_len == str_bytes(title@).len());
        assert(d_len == str_bytes(description@).len());
    }
    if t_len > 1000 || d_len > 1000 || 52 + t_len + d_len > 1000 {
        proof {
            assert(review_size(title@, description@) > 1000);
        }
        return Err(ReviewError::InvalidDataLength);
    }
    proof {
        assert(review_size(title@, description@) <= 1000);
        assert(str_field_fits(description@));
    }
    let updated = MovieAccountState {
        discriminator: cur.discriminator,
        is_initialized: cur.is_initialized,
        reviewer: cur.reviewer,
        rating,
        title: cur.title,
        description,
    };
    let enc = updated.encode();
    if enc.len() > accounts[1].data.len() {
        return Err(ReviewError::InvalidDataLength);
    }
    let review_data = overwrite_prefix(accounts[1].data.as_slice(), enc);
    Ok(UpdateReviewEffects { review_data })
}

// ---------------------------------------------------------------------------
// Adding a comment
// ---------------------------------------------------------------------------
/// The mathematical value of a comment creation's effects.
pub ghost struct AddCommentEffectsView {
    pub create_comment: CreateAccountView,
    pub comment_data: Seq<u8>,
    pub counter_data: Seq<u8>,
    pub mint: MintToView,
}

/// Everything the host must do for a successful comment: create the
/// exactly-sized comment buffer and store its contents, store the
/// incremented counter, and mint the commenter's reward.
pub struct AddCommentEffects {
    pub create_comment: CreateAccount,
    pub comment_data: Vec<u8>,
    pub counter_data: Vec<u8>,
    pub mint: MintTo,
}

impl View for AddCommentEffects {
    type V = AddCommentEffectsView;

    open spec fn view(&self) -> AddCommentEffectsView {
        AddCommentEffectsView {
            create_comment: self.create_comment@,
            comment_data: self.comment_data@,
            counter_data: self.counter_data@,
            mint: self.mint@,
        }
    }
}

/// The outcome of the comment command: the counter record must decode
/// and be initialized; the comment address re-derived from the review
/// address and the big-endian bytes of the counter's current value must
/// match the supplied buffer, which must not already hold an
/// initialized record. The effects then create the exactly-sized
/// comment buffer with the populated record, store the counter
/// incremented by exactly one, and — after the same mint, authority,
/// destination and ledger-service checks as review creation — mint the
/// commenter's fixed reward.
pub open spec fn add_comment_model(
    pid: Seq<u8>,
    accounts: Seq<AccountView>,
    comment: Seq<char>,
) -> Result<AddCommentEffectsView, ReviewError> {
    if accounts.len() < 9 {
        Err(ReviewError::NotEnoughAccounts)
    } else {
        let commenter = accounts[0];
        let pda_review = accounts[1];
        let pda_counter = accounts[2];
        let pda_comment = accounts[3];
        let token_mint = accounts[4];
        let mint_auth = accounts[5];
        let user_ata = accounts[6];
        let token_program = accounts[8];
        match counter_from_bytes(pda_counter.data) {
            Err(e) => Err(e),
            Ok(cur) => if !cur.is_initialized {
                Err(ReviewError::UninitializedAccount)
            } else {
                match find_pda(comment_seeds(pda_review.address, cur.counter), pid) {
                    None => Err(ReviewError::DerivationExhausted),
                    Some((pda, bump)) => if pda != pda_comment.address {
                        Err(ReviewError::InvalidPDA)
                    } else {
                        match comment_from_bytes(pda_comment.data) {
                            Err(e) => Err(e),
                            Ok(cur_comment) => if cur_comment.is_initialized {
                                Err(ReviewError::AlreadyInitialized)
                            } else {
                                let new_comment = CommentView {
                                    discriminator: comment_tag(),
                                    is_initialized: true,
                                    review: pda_review.address,
                                    commenter: commenter.address,
                                    comment,
                                };
                                let new_counter = CounterView {
                                    discriminator: counter_tag(),
                                    is_initialized: true,
                                    counter: (cur.counter + 1) as u64,
                                };
                                match find_pda(seq![mint_label()], pid) {
                                    None => Err(ReviewError::DerivationExhausted),
                                    Some((mint_pda, _mint_bump)) => match find_pda(
                                        seq![auth_label()],
                                        pid,
                                    ) {
                                        None => Err(ReviewError::DerivationExhausted),
                                        Some((auth_pda, auth_bump)) => if mint_pda
                                            != token_mint.address {
                                            Err(ReviewError::IncorrectAccount)
                                        } else if auth_pda != mint_auth.address {
                                            Err(ReviewError::IncorrectAccount)
                                        } else {
                                            match ata_address(
                                                commenter.address,
                                                token_mint.address,
                                            ) {
                                                None => Err(ReviewError::DerivationExhausted),
                                                Some((ata, _ata_bump)) => if ata
                                                    != user_ata.address {
                                                    Err(ReviewError::IncorrectAccount)
                                                } else if token_program.address
                                                    != token_program_id_spec() {
                                                    Err(ReviewError::IncorrectAccount)
                                                } else {
                                                    Ok(
                                                        AddCommentEffectsView {
                                                            create_comment: CreateAccountView {
                                                                payer: commenter.address,
                                                                target: pda,
                                                                owner: pid,
                                                                size: comment_size(comment) as u64,
                                                                seeds: comment_seeds(
                                                                    pda_review.address,
                                                                    cur.counter,
                                                                ),
                                                                bump,
                                                            },
                                                            comment_data: encode_comment(
                                                                new_comment,
                                                            ),
                                                            counter_data: write_prefix(
                                                                pda_counter.data,
                                                                encode_counter(new_counter),
                                                            ),
                                                            mint: MintToView {
                                                                mint: mint_pda,
                                                                destination: ata,
                                                                authority: auth_pda,
                                                                authority_bump: auth_bump,
                                                                amount: COMMENT_REWARD,
                                                            },
                                                        },
                                                    )
                                                },
                                            }
                                        },
                                    },
                                }
                            },
                        }
                    },
                }
            },
        }
    }
}

/// Validate and create a comment under a review, increment the review's
/// comment counter, and describe the commenter's reward mint.
///
/// The machine-limit preconditions — a counter short of its maximum
/// and a comment whose encoded size fits the address space — are what
/// an unchecked increment and allocation would silently assume; callers
/// outside the verified world must test them and refuse the invocation
/// as the host would.
pub fn add_comment(program_id: &Address, accounts: &Vec<Account>, comment: String) -> (r: Result<
    AddCommentEffects,
    ReviewError,
>)
    requires
        accounts@.len() >= 3 ==> (counter_from_bytes(accounts@[2]@.data) matches Ok(c)
            ==> c.counter < u64::MAX),
        str_field_fits(comment@),
        comment_size(comment@) <= usize::MAX,
    ensures
        result_matches(r, add_comment_model(program_id@, account_views(accounts@), comment@)),
{
    if accounts.len() < 9 {
        return Err(ReviewError::NotEnoughAccounts);
    }
    let cur = match MovieCommentCounter::decode(accounts[2].data.as_slice()) {
        Ok(st) => st,
        Err(e) => {
            return Err(e);
        },
    };
    if !cur.is_initialized() {
        return Err(ReviewError::UninitializedAccount);
    }
    let mut seeds: Vec<Vec<u8>> = Vec::new();
    seeds.push(accounts[1].address.to_vec());
    seeds.push(u64_to_be_bytes(cur.counter));
    proof {
        lemma_bytes_deep_view(seeds);
        assert(seeds.deep_view() =~= comment_seeds(accounts@[1]@.address, cur@.counter));
    }
    let (pda, bump) = match derive_address(&seeds, program_id) {
        Ok(x) => x,
        Err(e) => {
            return Err(e);
        },
    };
    if !address_eq(&pda, &accounts[3].address) {
        return Err(ReviewError::InvalidPDA);
    }
    let cur_comment = match MovieComment::decode(accounts[3].data.as_slice()) {
        Ok(st) => st,
        Err(e) => {
            return Err(e);
        },
    };
    if cur_comment.is_initialized() {
        return Err(ReviewError::AlreadyInitialized);
    }
    proof {
        crate::state::lemma_tag_bytes();
    }
    let comment_account_size = MovieComment::get_account_size(comment.clone());
    let new_comment = MovieComment {
        discriminator: "comment".to_owned(),
        is_initialized: true,
        review: accounts[1].address,
        commenter: accounts[0].address,
        comment,
    };
    let comment_data = new_comment.encode();
    let new_counter = MovieCommentCounter {
        discriminator: "counter".to_owned(),
        is_initialized: true,
        counter: cur.counter + 1,
    };
    let counter_enc = new_counter.encode();
    proof {
        crate::state::lemma_encode_counter_len(new_counter@);
        crate::state::lemma_counter_buffer_len(accounts@[2]@.data);
    }
    let counter_data = overwrite_prefix(accounts[2].data.as_slice(), counter_enc);
    let mint_seeds = mint_label_seeds();
    let (mint_pda, _mint_bump) = match derive_address(&mint_seeds, program_id) {
        Ok(x) => x,
        Err(e) => {
            return Err(e);
        },
    };
    let auth_seeds = auth_label_seeds();
    let (auth_pda, auth_bump) = match derive_address(&auth_seeds, program_id) {
        Ok(x) => x,
        Err(e) => {
            return Err(e);
        },
    };
    if !address_eq(&mint_pda, &accounts[4].address) {
        return Err(ReviewError::IncorrectAccount);
    }
    if !address_eq(&auth_pda, &accounts[5].address) {
        return Err(ReviewError::IncorrectAccount);
    }
    let ata = match derive_ata(&accounts[0].address, &accounts[4].address) {
        Ok(a) => a,
        Err(e) => {
            return Err(e);
        },
    };
    if !address_eq(&ata, &accounts[6].address) {
        return Err(ReviewError::IncorrectAccount);
    }
    let ledger_id = token_program_id();
    if !address_eq(&ledger_id, &accounts[8].address) {
        return Err(ReviewError::IncorrectAccount);
    }
    Ok(
        AddCommentEffects {
            create_comment: CreateAccount {
                payer: accounts[0].address,
                target: pda,
                owner: *program_id,
                size: comment_account_size as u64,
                seeds,
                bump,
            },
            comment_data,
            counter_data,
            mint: MintTo {
                mint: mint_pda,
                destination: ata,
                authority: auth_pda,
                authority_bump: auth_bump,
                amount: COMMENT_REWARD,
            },
        },
    )
}

// ---------------------------------------------------------------------------
// Dispatch
// ---------------------------------------------------------------------------
/// The mathematical value of an invocation's effects.
pub ghost enum ProcessEffectsView {
    Review(AddReviewEffectsView),
    Update(UpdateReviewEffectsView),
    Comment(AddCommentEffectsView),
    Mint(InitializeMintEffectsView),
}

/// The effects of one invocation, whichever command it carried.
pub enum ProcessEffects {
    Review(AddReviewEffects),
    Update(UpdateReviewEffects),
    Comment(AddCommentEffects),
    Mint(InitializeMintEffects),
}

impl View for ProcessEffects {
    type V = ProcessEffectsView;

    open spec fn view(&self) -> ProcessEffectsView {
        match self {
            ProcessEffects::Review(e) => ProcessEffectsView::Review(e@),
            ProcessEffects::Update(e) => ProcessEffectsView::Update(e@),
            ProcessEffects::Comment(e) => ProcessEffectsView::Comment(e@),
            ProcessEffects::Mint(e) => ProcessEffectsView::Mint(e@),
        }
    }
}

/// The outcome of one invocation: the instruction buffer decodes to a
/// command, and the command's own model decides the rest.
pub open spec fn process_model(pid: Seq<u8>, accounts: Seq<AccountView>, data: Seq<u8>) -> Result<
    ProcessEffectsView,
    ReviewError,
> {
    match unpack_spec(data) {
        Err(e) => Err(e),
        Ok(cmd) => match cmd {
            InstructionView::AddMovieReview { title, rating, description } => match add_review_model(
                pid,
                accounts,
                title,
                rating,
                description,
            ) {
                Ok(m) => Ok(ProcessEffectsView::Review(m)),
                Err(e) => Err(e),
            },
            InstructionView::UpdateMovieReview { title, rating, description } => match update_review_model(
                pid,
                accounts,
                title,
                rating,
                description,
            ) {
                Ok(m) => Ok(ProcessEffectsView::Update(m)),
                Err(e) => Err(e),
            },
            InstructionView::AddComment { comment } => match add_comment_model(
                pid,
                accounts,
                comment,
            ) {
                Ok(m) => Ok(ProcessEffectsView::Comment(m)),
                Err(e) => Err(e),
            },
            InstructionView::InitializeMint => match initialize_mint_model(pid, accounts) {
                Ok(m) => Ok(ProcessEffectsView::Mint(m)),
                Err(e) => Err(e),
            },
        },
    }
}

/// A comment parsed out of an instruction buffer fits its length prefix
/// and is no longer than the buffer itself.
proof fn lemma_comment_payload_bytes(b: Seq<u8>)
    ensures
        match unpack_spec(b) {
            Ok(InstructionView::AddComment { comment }) => str_field_fits(comment)
                && str_bytes(comment).len() <= b.len(),
            _ => true,
        },
{
    broadcast use vstd::utf8::decode_utf8_encode_utf8;

    match unpack_spec(b) {
        Ok(InstructionView::AddComment { comment }) => {
            let (n, j) = crate::codec::parse_u32_at(b, 1).unwrap();
            assert(str_bytes(comment) == b.subrange(j, j + n));
        },
        _ => (),
    }
}

/// Decode the instruction buffer and run the command it names.
///
/// The machine-limit preconditions bound the instruction buffer so a
/// comment's encoded size fits the address space, and exclude a comment
/// counter already at its maximum; callers outside the verified world
/// must test them and refuse the invocation as the host would.
pub fn process_instruction(
    program_id: &Address,
    accounts: &Vec<Account>,
    instruction_data: &[u8],
) -> (r: Result<ProcessEffects, ReviewError>)
    requires
        instruction_data@.len() + 128 <= usize::MAX,
        accounts@.len() >= 3 ==> (counter_from_bytes(accounts@[2]@.data) matches Ok(c)
            ==> c.counter < u64::MAX),
    ensures
        result_matches(
            r,
            process_model(program_id@, account_views(accounts@), instruction_data@),
        ),
{
    let cmd = match MovieInstruction::unpack(instruction_data) {
        Ok(c) => c,
        Err(e) => {
            return Err(e);
        },
    };
    match cmd {
        MovieInstruction::AddMovieReview { title, rating, description } => {
            match add_movie_review(program_id, accounts, title, rating, description) {
                Ok(e) => Ok(ProcessEffects::Review(e)),
                Err(e) => Err(e),
            }
        },
        MovieInstruction::UpdateMovieReview { title, rating, description } => {
            match update_movie_review(program_id, accounts, title, rating, description) {
                Ok(e) => Ok(ProcessEffects::Update(e)),
                Err(e) => Err(e),
            }
        },
        MovieInstruction::AddComment { comment } => {
            proof {
                lemma_comment_payload_bytes(instruction_data@);
            }
            match add_comment(program_id, accounts, comment) {
                Ok(e) => Ok(ProcessEffects::Comment(e)),
                Err(e) => Err(e),
            }
        },
        MovieInstruction::InitializeMint => {
            match initialize_token_mint(program_id, accounts) {
                Ok(e) => Ok(ProcessEffects::Mint(e)),
                Err(e) => Err(e),
            }
        },
    }
}

// ---------------------------------------------------------------------------
// Laws of the lifecycle
// ---------------------------------------------------------------------------
/// A review request whose rating lies outside 1 through 5 never
/// succeeds; once the signer and address checks have passed it fails
/// with exactly the rating error. A failed request carries no effects,
/// so no buffer is created or written.
pub proof fn lemma_add_review_rejects_bad_rating(
    pid: Seq<u8>,
    accounts: Seq<AccountView>,
    title: Seq<char>,
    rating: u8,
    description: Seq<char>,
)
    requires
        rating > 5 || rating < 1,
    ensures
        add_review_model(pid, accounts, title, rating, description) is Err,
        (accounts.len() >= 8 && accounts[0].is_signer && (find_pda(
            review_seeds(accounts[0].address, title),
            pid,
        ) matches Some(p) && p.0 == accounts[1].address)) ==> add_review_model(
            pid,
            accounts,
            title,
            rating,
            description,
        ) == Err::<AddReviewEffectsView, ReviewError>(ReviewError::InvalidRating),
{
}

/// A review request whose encoded size exceeds the fixed capacity never
/// succeeds; once the signer, address and rating checks have passed it
/// fails with exactly the data-length error, before any buffer would be
/// created.
pub proof fn lemma_add_review_rejects_oversize(
    pid: Seq<u8>,
    accounts: Seq<AccountView>,
    title: Seq<char>,
    rating: u8,
    description: Seq<char>,
)
    requires
        review_size(title, description) > 1000,
    ensures
        add_review_model(pid, accounts, title, rating, description) is Err,
        (accounts.len() >= 8 && accounts[0].is_signer && 1 <= rating <= 5 && (find_pda(
            review_seeds(accounts[0].address, title),
            pid,
        ) matches Some(p) && p.0 == accounts[1].address)) ==> add_review_model(
            pid,
            accounts,
            title,
            rating,
            description,
        ) == Err::<AddReviewEffectsView, ReviewError>(ReviewError::InvalidDataLength),
{
}

/// Creating the same review twice fails: a second request for the same
/// author and title, run against the buffer the first success filled,
/// fails with the already-initialized error. The failed request carries
/// no effects, so the stored record stays as the first request wrote it.
pub proof fn lemma_add_review_twice(
    pid: Seq<u8>,
    accounts1: Seq<AccountView>,
    accounts2: Seq<AccountView>,
    title: Seq<char>,
    rating: u8,
    description: Seq<char>,
    m: AddReviewEffectsView,
)
    requires
        add_review_model(pid, accounts1, title, rating, description) == Ok::<
            AddReviewEffectsView,
            ReviewError,
        >(m),
        wf_account(accounts1[0]),
        accounts2.len() >= 8,
        accounts2[0] == accounts1[0],
        accounts2[1].address == accounts1[1].address,
        accounts2[1].data == m.review_data,
    ensures
        add_review_model(pid, accounts2, title, rating, description) == Err::<
            AddReviewEffectsView,
            ReviewError,
        >(ReviewError::AlreadyInitialized),
{
    let stored = ReviewView {
        discriminator: review_tag(),
        is_initialized: true,
        reviewer: accounts1[0].address,
        rating,
        title,
        description,
    };
    crate::state::lemma_tag_bytes();
    crate::state::lemma_encode_review_len(stored);
    crate::state::lemma_review_decode_stored(stored, crate::codec::zero_seq(1000));
}

/// Every buffer a successful review creation stores is exactly the
/// fixed capacity, and the record's encoded size fits within it.
pub proof fn lemma_add_review_fits_capacity(
    pid: Seq<u8>,
    accounts: Seq<AccountView>,
    title: Seq<char>,
    rating: u8,
    description: Seq<char>,
    m: AddReviewEffectsView,
)
    requires
        add_review_model(pid, accounts, title, rating, description) == Ok::<
            AddReviewEffectsView,
            ReviewError,
        >(m),
        wf_account(accounts[0]),
    ensures
        m.review_data.len() == 1000,
        review_size(title, description) <= 1000,
{
    let new_review = ReviewView {
        discriminator: review_tag(),
        is_initialized: true,
        reviewer: accounts[0].address,
        rating,
        title,
        description,
    };
    crate::state::lemma_tag_bytes();
    crate::state::lemma_encode_review_len(new_review);
}

/// An update never changes the stored title or author: the new buffer
/// decodes to a record whose title and author are the stored ones, with
/// only the rating and description replaced.
pub proof fn lemma_update_preserves_identity(
    pid: Seq<u8>,
    accounts: Seq<AccountView>,
    title: Seq<char>,
    rating: u8,
    description: Seq<char>,
    m: UpdateReviewEffectsView,
)
    requires
        update_review_model(pid, accounts, title, rating, description) == Ok::<
            UpdateReviewEffectsView,
            ReviewError,
        >(m),
    ensures
        review_from_bytes(accounts[1].data) matches Ok(cur) && {
            &&& review_from_bytes(m.review_data) matches Ok(new) && new.title == cur.title
                && new.reviewer == cur.reviewer && new.rating == rating && new.description
                == description && new.is_initialized
        },
{
    let cur = review_from_bytes(accounts[1].data).unwrap();
    crate::state::lemma_review_from_bytes_wf(accounts[1].data);
    let updated = ReviewView {
        discriminator: cur.discriminator,
        is_initialized: cur.is_initialized,
        reviewer: cur.reviewer,
        rating,
        title: cur.title,
        description,
    };
    crate::state::lemma_review_decode_stored(updated, accounts[1].data);
}

/// A successful comment stores the counter incremented by exactly one,
/// and the created comment's address is derived from the counter value
/// before the increment.
pub proof fn lemma_add_comment_increments(
    pid: Seq<u8>,
    accounts: Seq<AccountView>,
    comment: Seq<char>,
    m: AddCommentEffectsView,
)
    requires
        add_comment_model(pid, accounts, comment) == Ok::<AddCommentEffectsView, ReviewError>(m),
        counter_from_bytes(accounts[2].data) matches Ok(c) ==> c.counter < u64::MAX,
    ensures
        counter_from_bytes(accounts[2].data) matches Ok(c0) && {
            &&& counter_from_bytes(m.counter_data) matches Ok(c1) && c1.is_initialized
                && c1.counter == c0.counter + 1
            &&& find_pda(comment_seeds(accounts[1].address, c0.counter), pid) matches Some(p)
                && p.0 == m.create_comment.target && p.0 == accounts[3].address
            &&& m.create_comment.seeds == comment_seeds(accounts[1].address, c0.counter)
        },
{
    let c0 = counter_from_bytes(accounts[2].data).unwrap();
    let updated = CounterView {
        discriminator: counter_tag(),
        is_initialized: true,
        counter: (c0.counter + 1) as u64,
    };
    crate::state::lemma_tag_bytes();
    crate::state::lemma_encode_counter_len(updated);
    crate::state::lemma_counter_buffer_len(accounts[2].data);
    crate::state::lemma_counter_decode_stored(updated, accounts[2].data);
}

} // verus!
