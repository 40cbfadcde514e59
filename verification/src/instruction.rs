//! The instruction decoder.
//!
//! An instruction buffer carries one byte naming the command followed by
//! that command's payload: length-prefixed UTF-8 text fields and a rating
//! byte. Payloads must be consumed exactly; anything else is refused as
//! invalid instruction data.

use vstd::prelude::*;
use crate::codec::parse_str_at;
use crate::codec::parse_u8_at;
use crate::codec::read_str;
use crate::codec::read_u8;
use crate::error::ReviewError;

verus! {

/// The commands of the record store.
pub enum MovieInstruction {
    /// Create a review and its comment counter, and reward the author.
    AddMovieReview { title: String, rating: u8, description: String },
    /// Change the rating and description of an existing review.
    UpdateMovieReview { title: String, rating: u8, description: String },
    /// Append a comment under a review, and reward the commenter.
    AddComment { comment: String },
    /// Create and initialize the reward mint.
    InitializeMint,
}

/// The mathematical value of a command.
pub ghost enum InstructionView {
    AddMovieReview { title: Seq<char>, rating: u8, description: Seq<char> },
    UpdateMovieReview { title: Seq<char>, rating: u8, description: Seq<char> },
    AddComment { comment: Seq<char> },
    InitializeMint,
}

impl View for MovieInstruction {
    type V = InstructionView;

    open spec fn view(&self) -> InstructionView {
        match self {
            MovieInstruction::AddMovieReview { title, rating, description } => {
                InstructionView::AddMovieReview {
                    title: title@,
                    rating: *rating,
                    description: description@,
                }
            },
            MovieInstruction::UpdateMovieReview { title, rating, description } => {
                InstructionView::UpdateMovieReview {
                    title: title@,
                    rating: *rating,
                    description: description@,
                }
            },
            MovieInstruction::AddComment { comment } => {
                InstructionView::AddComment { comment: comment@ }
            },
            MovieInstruction::InitializeMint => InstructionView::InitializeMint,
        }
    }
}

/// Parse a review payload at `i`: title field, rating byte, description
/// field, with nothing left over.
pub open spec fn parse_review_payload(b: Seq<u8>, i: int) -> Option<(Seq<char>, u8, Seq<char>)> {
    match parse_str_at(b, i) {
        Some((title, i1)) => match parse_u8_at(b, i1) {
            Some((rating, i2)) => match parse_str_at(b, i2) {
                Some((description, i3)) => if i3 == b.len() {
                    Some((title, rating, description))
                } else {
                    None
                },
                None => None,
            },
            None => None,
        },
        None => None,
    }
}

/// Parse a comment payload at `i`: one text field, with nothing left
/// over.
pub open spec fn parse_comment_payload(b: Seq<u8>, i: int) -> Option<Seq<char>> {
    match parse_str_at(b, i) {
        Some((comment, i1)) => if i1 == b.len() {
            Some(comment)
        } else {
            None
        },
        None => None,
    }
}

/// What an instruction buffer decodes to: the tag byte selects the
/// command, the rest is that command's payload.
pub open spec fn unpack_spec(b: Seq<u8>) -> Result<InstructionView, ReviewError> {
    match parse_u8_at(b, 0) {
        None => Err(ReviewError::InvalidInstructionData),
        Some((tag, i1)) => if tag == 0 {
            match parse_review_payload(b, i1) {
                Some((title, rating, description)) => Ok(
                    InstructionView::AddMovieReview { title, rating, description },
                ),
                None => Err(ReviewError::InvalidInstructionData),
            }
        } else if tag == 1 {
            match parse_review_payload(b, i1) {
                Some((title, rating, description)) => Ok(
                    InstructionView::UpdateMovieReview { title, rating, description },
                ),
                None => Err(ReviewError::InvalidInstructionData),
            }
        } else if tag == 2 {
            match parse_comment_payload(b, i1) {
                Some(comment) => Ok(InstructionView::AddComment { comment }),
                None => Err(ReviewError::InvalidInstructionData),
            }
        } else if tag == 3 {
            Ok(InstructionView::InitializeMint)
        } else {
            Err(ReviewError::InvalidInstructionData)
        },
    }
}

impl MovieInstruction {
    /// Decode an instruction buffer into a command.
    pub fn unpack(input: &[u8]) -> (r: Result<MovieInstruction, ReviewError>)
        ensures
            match r {
                Ok(cmd) => unpack_spec(input@) == Ok::<InstructionView, ReviewError>(cmd@),
                Err(e) => unpack_spec(input@) == Err::<InstructionView, ReviewError>(e),
            },
    {
        let (tag, i1) = match read_u8(input, 0) {
            Some(x) => x,
            None => {
                return Err(ReviewError::InvalidInstructionData);
            },
        };
        if tag == 0 || tag == 1 {
            let (title, i2) = match read_str(input, i1) {
                Some(x) => x,
                None => {
                    return Err(ReviewError::InvalidInstructionData);
                },
            };
            let (rating, i3) = match read_u8(input, i2) {
                Some(x) => x,
                None => {
                    return Err(ReviewError::InvalidInstructionData);
                },
            };
            let (description, i4) = match read_str(input, i3) {
                Some(x) => x,
                None => {
                    return Err(ReviewError::InvalidInstructionData);
                },
            };
            if i4 != input.len() {
                return Err(ReviewError::InvalidInstructionData);
            }
            if tag == 0 {
                Ok(MovieInstruction::AddMovieReview { title, rating, description })
            } else {
                Ok(MovieInstruction::UpdateMovieReview { title, rating, description })
            }
        } else if tag == 2 {
            let (comment, i2) = match read_str(input, i1) {
                Some(x) => x,
                None => {
                    return Err(ReviewError::InvalidInstructionData);
                },
            };
            if i2 != input.len() {
                return Err(ReviewError::InvalidInstructionData);
            }
            Ok(MovieInstruction::AddComment { comment })
        } else if tag == 3 {
            Ok(MovieInstruction::InitializeMint)
        } else {
            Err(ReviewError::InvalidInstructionData)
        }
    }
}

} // verus!
