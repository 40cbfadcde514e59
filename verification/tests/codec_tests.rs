//! Round trips and wire-format checks for the record codec.

use movie_review_program::error::ReviewError;
use movie_review_program::pda::Address;
use movie_review_program::state::MovieAccountState;
use movie_review_program::state::MovieComment;
use movie_review_program::state::MovieCommentCounter;

fn addr(b: u8) -> Address {
    Address::new([b; 32])
}

#[test]
fn review_round_trip() {
    let r = MovieAccountState {
        discriminator: "review".to_string(),
        is_initialized: true,
        reviewer: addr(7),
        rating: 4,
        title: "Dune".to_string(),
        description: "Great".to_string(),
    };
    let bytes = r.encode();
    let d = MovieAccountState::decode(&bytes).unwrap();
    assert_eq!(d.discriminator, "review");
    assert!(d.is_initialized);
    assert_eq!(d.reviewer.bytes, [7u8; 32]);
    assert_eq!(d.rating, 4);
    assert_eq!(d.title, "Dune");
    assert_eq!(d.description, "Great");
}

#[test]
fn review_encoding_matches_reference_serializer() {
    let r = MovieAccountState {
        discriminator: "review".to_string(),
        is_initialized: true,
        reviewer: addr(9),
        rating: 5,
        title: "Arrival".to_string(),
        description: "Liked the movie".to_string(),
    };
    let reference = borsh::to_vec(&(
        "review".to_string(),
        true,
        [9u8; 32],
        5u8,
        "Arrival".to_string(),
        "Liked the movie".to_string(),
    ))
    .unwrap();
    assert_eq!(r.encode(), reference);
}

#[test]
fn review_decode_tolerates_trailing_zeros() {
    let r = MovieAccountState {
        discriminator: "review".to_string(),
        is_initialized: true,
        reviewer: addr(1),
        rating: 1,
        title: "T".to_string(),
        description: "D".to_string(),
    };
    let mut bytes = r.encode();
    bytes.resize(1000, 0);
    let d = MovieAccountState::decode(&bytes).unwrap();
    assert_eq!(d.title, "T");
    assert_eq!(d.rating, 1);
}

#[test]
fn zeroed_review_buffer_decodes_uninitialized() {
    let bytes = vec![0u8; 1000];
    let d = MovieAccountState::decode(&bytes).unwrap();
    assert!(!d.is_initialized);
    assert_eq!(d.title, "");
    assert_eq!(d.rating, 0);
}

#[test]
fn empty_buffer_decodes_uninitialized() {
    let d = MovieAccountState::decode(&[]).unwrap();
    assert!(!d.is_initialized);
}

#[test]
fn malformed_review_buffer_is_refused() {
    // A non-zero buffer whose length prefix runs past the end.
    let bytes = vec![255u8, 255, 255, 255, 1, 2, 3];
    assert!(matches!(MovieAccountState::decode(&bytes), Err(ReviewError::DecodeError)));
}

#[test]
fn wrong_discriminator_is_refused() {
    let c = MovieCommentCounter {
        discriminator: "counter".to_string(),
        is_initialized: true,
        counter: 3,
    };
    let bytes = c.encode();
    assert!(matches!(MovieAccountState::decode(&bytes), Err(ReviewError::DecodeError)));
}

#[test]
fn non_boolean_flag_byte_is_refused() {
    let c = MovieCommentCounter {
        discriminator: "counter".to_string(),
        is_initialized: true,
        counter: 0,
    };
    let mut bytes = c.encode();
    bytes[11] = 2;
    assert!(matches!(MovieCommentCounter::decode(&bytes), Err(ReviewError::DecodeError)));
}

#[test]
fn counter_round_trip() {
    let c = MovieCommentCounter {
        discriminator: "counter".to_string(),
        is_initialized: true,
        counter: 41,
    };
    let bytes = c.encode();
    assert_eq!(bytes.len(), MovieCommentCounter::SIZE);
    let d = MovieCommentCounter::decode(&bytes).unwrap();
    assert_eq!(d.discriminator, "counter");
    assert!(d.is_initialized);
    assert_eq!(d.counter, 41);
}

#[test]
fn counter_encoding_matches_reference_serializer() {
    let c = MovieCommentCounter {
        discriminator: "counter".to_string(),
        is_initialized: true,
        counter: 41,
    };
    let reference = borsh::to_vec(&("counter".to_string(), true, 41u64)).unwrap();
    assert_eq!(c.encode(), reference);
}

#[test]
fn comment_round_trip() {
    let c = MovieComment {
        discriminator: "comment".to_string(),
        is_initialized: true,
        review: addr(5),
        commenter: addr(6),
        comment: "Totally agree!".to_string(),
    };
    let bytes = c.encode();
    let d = MovieComment::decode(&bytes).unwrap();
    assert_eq!(d.discriminator, "comment");
    assert!(d.is_initialized);
    assert_eq!(d.review.bytes, [5u8; 32]);
    assert_eq!(d.commenter.bytes, [6u8; 32]);
    assert_eq!(d.comment, "Totally agree!");
}

#[test]
fn comment_encoding_matches_reference_serializer() {
    let c = MovieComment {
        discriminator: "comment".to_string(),
        is_initialized: true,
        review: addr(5),
        commenter: addr(6),
        comment: "Agreed".to_string(),
    };
    let reference =
        borsh::to_vec(&("comment".to_string(), true, [5u8; 32], [6u8; 32], "Agreed".to_string()))
            .unwrap();
    assert_eq!(c.encode(), reference);
}

#[test]
fn account_sizes_are_exact() {
    // discriminator field (4 + 6) + flag + identity + rating + two text fields.
    let n = MovieAccountState::get_account_size("Dune".to_string(), "Great".to_string());
    assert_eq!(n, 10 + 1 + 32 + 1 + (4 + 4) + (4 + 5));
    let r = MovieAccountState {
        discriminator: "review".to_string(),
        is_initialized: true,
        reviewer: addr(2),
        rating: 3,
        title: "Dune".to_string(),
        description: "Great".to_string(),
    };
    assert_eq!(r.encode().len(), n);

    let m = MovieComment::get_account_size("Agreed".to_string());
    assert_eq!(m, 11 + 1 + 32 + 32 + (4 + 6));
    let c = MovieComment {
        discriminator: "comment".to_string(),
        is_initialized: true,
        review: addr(5),
        commenter: addr(6),
        comment: "Agreed".to_string(),
    };
    assert_eq!(c.encode().len(), m);
}

#[test]
fn invalid_utf8_text_field_is_refused() {
    // A review-tagged buffer whose title field holds invalid UTF-8.
    let mut bytes = borsh::to_vec(&("review".to_string(), true, [1u8; 32], 3u8)).unwrap();
    bytes.extend_from_slice(&2u32.to_le_bytes());
    bytes.extend_from_slice(&[0xff, 0xfe]);
    bytes.extend_from_slice(&0u32.to_le_bytes());
    assert!(matches!(MovieAccountState::decode(&bytes), Err(ReviewError::DecodeError)));
}
