//! The instruction decoder on well-formed and malformed buffers.

use movie_review_program::error::ReviewError;
use movie_review_program::instruction::MovieInstruction;

fn review_payload(tag: u8, title: &str, rating: u8, description: &str) -> Vec<u8> {
    let mut b = vec![tag];
    b.extend_from_slice(&(title.len() as u32).to_le_bytes());
    b.extend_from_slice(title.as_bytes());
    b.push(rating);
    b.extend_from_slice(&(description.len() as u32).to_le_bytes());
    b.extend_from_slice(description.as_bytes());
    b
}

#[test]
fn unpack_add_review() {
    let b = review_payload(0, "Dune", 4, "Great");
    match MovieInstruction::unpack(&b).unwrap() {
        MovieInstruction::AddMovieReview { title, rating, description } => {
            assert_eq!(title, "Dune");
            assert_eq!(rating, 4);
            assert_eq!(description, "Great");
        },
        _ => panic!("wrong command"),
    }
}

#[test]
fn unpack_update_review() {
    let b = review_payload(1, "Dune", 2, "x");
    match MovieInstruction::unpack(&b).unwrap() {
        MovieInstruction::UpdateMovieReview { title, rating, description } => {
            assert_eq!(title, "Dune");
            assert_eq!(rating, 2);
            assert_eq!(description, "x");
        },
        _ => panic!("wrong command"),
    }
}

#[test]
fn unpack_add_comment() {
    let mut b = vec![2u8];
    b.extend_from_slice(&6u32.to_le_bytes());
    b.extend_from_slice(b"Agreed");
    match MovieInstruction::unpack(&b).unwrap() {
        MovieInstruction::AddComment { comment } => assert_eq!(comment, "Agreed"),
        _ => panic!("wrong command"),
    }
}

#[test]
fn unpack_initialize_mint() {
    assert!(matches!(
        MovieInstruction::unpack(&[3]).unwrap(),
        MovieInstruction::InitializeMint
    ));
    // A wider integer encoding of the tag is accepted too: the bytes
    // after tag 3 carry no payload.
    assert!(matches!(
        MovieInstruction::unpack(&[3, 0, 0, 0]).unwrap(),
        MovieInstruction::InitializeMint
    ));
}

#[test]
fn unpack_matches_reference_serializer() {
    let mut b = borsh::to_vec(&(0u8, "Dune".to_string(), 4u8, "Great".to_string())).unwrap();
    match MovieInstruction::unpack(&b).unwrap() {
        MovieInstruction::AddMovieReview { title, rating, description } => {
            assert_eq!(title, "Dune");
            assert_eq!(rating, 4);
            assert_eq!(description, "Great");
        },
        _ => panic!("wrong command"),
    }
    b = borsh::to_vec(&(2u8, "Agreed".to_string())).unwrap();
    assert!(matches!(
        MovieInstruction::unpack(&b).unwrap(),
        MovieInstruction::AddComment { .. }
    ));
}

#[test]
fn unpack_rejects_empty_buffer() {
    assert!(matches!(
        MovieInstruction::unpack(&[]),
        Err(ReviewError::InvalidInstructionData)
    ));
}

#[test]
fn unpack_rejects_unknown_tag() {
    assert!(matches!(
        MovieInstruction::unpack(&[9]),
        Err(ReviewError::InvalidInstructionData)
    ));
}

#[test]
fn unpack_rejects_truncated_payload() {
    let b = review_payload(0, "Dune", 4, "Great");
    assert!(matches!(
        MovieInstruction::unpack(&b[..b.len() - 1]),
        Err(ReviewError::InvalidInstructionData)
    ));
}

#[test]
fn unpack_rejects_trailing_bytes() {
    let mut b = review_payload(0, "Dune", 4, "Great");
    b.push(0);
    assert!(matches!(
        MovieInstruction::unpack(&b),
        Err(ReviewError::InvalidInstructionData)
    ));
}

#[test]
fn unpack_rejects_invalid_text() {
    let mut b = vec![2u8];
    b.extend_from_slice(&2u32.to_le_bytes());
    b.extend_from_slice(&[0xff, 0xfe]);
    assert!(matches!(
        MovieInstruction::unpack(&b),
        Err(ReviewError::InvalidInstructionData)
    ));
}
