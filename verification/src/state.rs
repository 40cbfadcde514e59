//! The record kinds and their binary codec.
//!
//! Every record begins with a length-prefixed discriminator string naming
//! its kind, followed by its fields: booleans as one strict byte, counters
//! as 8-byte little-endian integers, identities as raw 32-byte blocks, and
//! text as length-prefixed UTF-8. Decoding tolerates an all-zero buffer
//! (freshly created, never written) by returning the uninitialized record;
//! a non-zero buffer that does not parse, or whose discriminator names
//! another kind, is refused with a decode failure.

use vstd::prelude::*;
use vstd::bytes::lemma_auto_spec_u32_to_from_le_bytes;
use vstd::bytes::lemma_auto_spec_u64_to_from_le_bytes;
use vstd::bytes::spec_u64_to_le_bytes;
use vstd::utf8::is_ascii_chars;
use vstd::utf8::is_ascii_chars_encode_utf8;
use vstd::utf8::valid_utf8;
use crate::codec::all_zero;
use crate::codec::bool_byte;
use crate::codec::is_all_zero;
use crate::codec::parse_bool_at;
use crate::codec::parse_bytes32_at;
use crate::codec::parse_str_at;
use crate::codec::parse_u64_at;
use crate::codec::parse_u8_at;
use crate::codec::push_bool;
use crate::codec::push_str_field;
use crate::codec::push_u8;
use crate::codec::push_u64;
use crate::codec::read_bool;
use crate::codec::read_bytes32;
use crate::codec::read_str;
use crate::codec::read_u64;
use crate::codec::read_u8;
use crate::codec::str_bytes;
use crate::codec::str_field;
use crate::codec::str_field_fits;
use crate::codec::lemma_str_field_len;
use crate::codec::lemma_parse_bool_of;
use crate::codec::lemma_parse_bytes32_of;
use crate::codec::lemma_parse_str_of;
use crate::codec::lemma_parse_u64_of;
use crate::codec::lemma_parse_u8_of;
use crate::codec::write_prefix;
use crate::error::ReviewError;
use crate::pda::Address;

verus! {

// ---------------------------------------------------------------------------
// Record kinds
// ---------------------------------------------------------------------------
/// The mathematical value of a review record.
pub ghost struct ReviewView {
    pub discriminator: Seq<char>,
    pub is_initialized: bool,
    pub reviewer: Seq<u8>,
    pub rating: u8,
    pub title: Seq<char>,
    pub description: Seq<char>,
}

/// A review record: the author identity, a rating from 1 through 5,
/// and two text fields, behind the review discriminator.
pub struct MovieAccountState {
    pub discriminator: String,
    pub is_initialized: bool,
    pub reviewer: Address,
    pub rating: u8,
    pub title: String,
    pub description: String,
}

impl View for MovieAccountState {
    type V = ReviewView;

    open spec fn view(&self) -> ReviewView {
        ReviewView {
            discriminator: self.discriminator@,
            is_initialized: self.is_initialized,
            reviewer: self.reviewer@,
            rating: self.rating,
            title: self.title@,
            description: self.description@,
        }
    }
}

/// The discriminator string of review records.
pub open spec fn review_tag() -> Seq<char> {
    "review"@
}

/// A record is well formed when its identity is 32 bytes long and each of
/// its text fields fits its 4-byte length prefix.
pub open spec fn wf_review(r: ReviewView) -> bool {
    &&& r.reviewer.len() == 32
    &&& str_field_fits(r.discriminator)
    &&& str_field_fits(r.title)
    &&& str_field_fits(r.description)
}

/// The value an all-zero buffer decodes to.
pub open spec fn uninit_review() -> ReviewView {
    ReviewView {
        discriminator: Seq::empty(),
        is_initialized: false,
        reviewer: Seq::new(32, |i: int| 0u8),
        rating: 0,
        title: Seq::empty(),
        description: Seq::empty(),
    }
}

/// The encoded bytes of a review record.
pub open spec fn encode_review(r: ReviewView) -> Seq<u8> {
    str_field(r.discriminator) + seq![bool_byte(r.is_initialized)] + r.reviewer + seq![
        r.rating,
    ] + str_field(r.title) + str_field(r.description)
}

/// Parse the fields of a review record from the front of a buffer.
pub open spec fn parse_review(b: Seq<u8>) -> Option<ReviewView> {
    match parse_str_at(b, 0) {
        Some((disc, i1)) => match parse_bool_at(b, i1) {
            Some((init, i2)) => match parse_bytes32_at(b, i2) {
                Some((reviewer, i3)) => match parse_u8_at(b, i3) {
                    Some((rating, i4)) => match parse_str_at(b, i4) {
                        Some((title, i5)) => match parse_str_at(b, i5) {
                            Some((description, i6)) => Some(
                                ReviewView {
                                    discriminator: disc,
                                    is_initialized: init,
                                    reviewer,
                                    rating,
                                    title,
                                    description,
                                },
                            ),
                            None => None,
                        },
                        None => None,
                    },
                    None => None,
                },
                None => None,
            },
            None => None,
        },
        None => None,
    }
}

/// What a review buffer holds: the uninitialized record for an all-zero
/// buffer, the parsed record when the buffer parses under the review
/// discriminator, and a decode failure otherwise.
pub open spec fn review_from_bytes(b: Seq<u8>) -> Result<ReviewView, ReviewError> {
    if all_zero(b) {
        Ok(uninit_review())
    } else {
        match parse_review(b) {
            Some(r) => if r.discriminator == review_tag() {
                Ok(r)
            } else {
                Err(ReviewError::DecodeError)
            },
            None => Err(ReviewError::DecodeError),
        }
    }
}

/// The encoded size of a review with the given text fields: the
/// discriminator field, the flag byte, the 32-byte identity, the rating
/// byte, and the two length-prefixed text fields.
pub open spec fn review_size(title: Seq<char>, description: Seq<char>) -> int {
    52 + str_bytes(title).len() as int + str_bytes(description).len() as int
}

impl MovieAccountState {
    /// The fixed byte capacity reserved for every review buffer.
    pub const LEN: usize = 1000;

    /// The encoded size of a review holding the given title and
    /// description.
    pub fn get_account_size(title: String, description: String) -> (n: usize)
        requires
            review_size(title@, description@) <= usize::MAX,
        ensures
            n == review_size(title@, description@),
    {
        (4 + 6) + 1 + 32 + 1 + (4 + title.as_str().len()) + (4 + description.as_str().len())
    }

    /// Whether the record has been written.
    pub fn is_initialized(&self) -> (b: bool)
        ensures
            b == self@.is_initialized,
    {
        self.is_initialized
    }

    /// Encode the record for storage.
    pub fn encode(&self) -> (out: Vec<u8>)
        requires
            wf_review(self@),
        ensures
            out@ == encode_review(self@),
    {
        let mut out: Vec<u8> = Vec::new();
        push_str_field(&mut out, self.discriminator.as_str());
        push_bool(&mut out, self.is_initialized);
        out.extend_from_slice(self.reviewer.bytes.as_slice());
        push_u8(&mut out, self.rating);
        push_str_field(&mut out, self.title.as_str());
        push_str_field(&mut out, self.description.as_str());
        proof {
            assert(out@ =~= encode_review(self@));
        }
        out
    }

    /// Decode a review buffer.
    pub fn decode(data: &[u8]) -> (r: Result<MovieAccountState, ReviewError>)
        ensures
            match r {
                Ok(st) => review_from_bytes(data@) == Ok::<ReviewView, ReviewError>(st@)
                    && wf_review(st@),
                Err(e) => review_from_bytes(data@) == Err::<ReviewView, ReviewError>(e),
            },
    {
        if is_all_zero(data) {
            let st = MovieAccountState {
                discriminator: String::new(),
                is_initialized: false,
                reviewer: Address::new([0u8; 32]),
                rating: 0,
                title: String::new(),
                description: String::new(),
            };
            proof {
                assert(st@.reviewer =~= uninit_review().reviewer);
                lemma_empty_str_fits();
            }
            return Ok(st);
        }
        let (disc, i1) = match read_str(data, 0) {
            Some(x) => x,
            None => {
                return Err(ReviewError::DecodeError);
            },
        };
        let (init, i2) = match read_bool(data, i1) {
            Some(x) => x,
            None => {
                return Err(ReviewError::DecodeError);
            },
        };
        let (reviewer_bytes, i3) = match read_bytes32(data, i2) {
            Some(x) => x,
            None => {
                return Err(ReviewError::DecodeError);
            },
        };
        let (rating, i4) = match read_u8(data, i3) {
            Some(x) => x,
            None => {
                return Err(ReviewError::DecodeError);
            },
        };
        let (title, i5) = match read_str(data, i4) {
            Some(x) => x,
            None => {
                return Err(ReviewError::DecodeError);
            },
        };
        let (description, _i6) = match read_str(data, i5) {
            Some(x) => x,
            None => {
                return Err(ReviewError::DecodeError);
            },
        };
        let tag: String = "review".to_owned();
        if !(disc == tag) {
            return Err(ReviewError::DecodeError);
        }
        let st = MovieAccountState {
            discriminator: disc,
            is_initialized: init,
            reviewer: Address::from_vec(&reviewer_bytes),
            rating,
            title,
            description,
        };
        proof {
            lemma_parsed_str_fits(data@, 0);
            lemma_parsed_str_fits(data@, i4 as int);
            lemma_parsed_str_fits(data@, i5 as int);
        }
        Ok(st)
    }
}

/// The mathematical value of a comment counter record.
pub ghost struct CounterView {
    pub discriminator: Seq<char>,
    pub is_initialized: bool,
    pub counter: u64,
}

/// The comment counter: one per review, stored at the address derived
/// from the review address and the counter seed label.
pub struct MovieCommentCounter {
    pub discriminator: String,
    pub is_initialized: bool,
    pub counter: u64,
}

impl View for MovieCommentCounter {
    type V = CounterView;

    open spec fn view(&self) -> CounterView {
        CounterView {
            discriminator: self.discriminator@,
            is_initialized: self.is_initialized,
            counter: self.counter,
        }
    }
}

/// The discriminator string of counter records.
pub open spec fn counter_tag() -> Seq<char> {
    "counter"@
}

/// A counter record is well formed when its discriminator fits its
/// length prefix.
pub open spec fn wf_counter(r: CounterView) -> bool {
    str_field_fits(r.discriminator)
}

/// The value an all-zero buffer decodes to.
pub open spec fn uninit_counter() -> CounterView {
    CounterView { discriminator: Seq::empty(), is_initialized: false, counter: 0 }
}

/// The encoded bytes of a counter record.
pub open spec fn encode_counter(r: CounterView) -> Seq<u8> {
    str_field(r.discriminator) + seq![bool_byte(r.is_initialized)] + spec_u64_to_le_bytes(
        r.counter,
    )
}

/// Parse the fields of a counter record from the front of a buffer.
pub open spec fn parse_counter(b: Seq<u8>) -> Option<CounterView> {
    match parse_str_at(b, 0) {
        Some((disc, i1)) => match parse_bool_at(b, i1) {
            Some((init, i2)) => match parse_u64_at(b, i2) {
                Some((counter, _i3)) => Some(
                    CounterView { discriminator: disc, is_initialized: init, counter },
                ),
                None => None,
            },
            None => None,
        },
        None => None,
    }
}

/// What a counter buffer holds.
pub open spec fn counter_from_bytes(b: Seq<u8>) -> Result<CounterView, ReviewError> {
    if all_zero(b) {
        Ok(uninit_counter())
    } else {
        match parse_counter(b) {
            Some(r) => if r.discriminator == counter_tag() {
                Ok(r)
            } else {
                Err(ReviewError::DecodeError)
            },
            None => Err(ReviewError::DecodeError),
        }
    }
}

impl MovieCommentCounter {
    /// The exact byte size of a counter buffer: the discriminator field,
    /// the flag byte and the 8-byte counter.
    pub const SIZE: usize = 4 + 7 + 1 + 8;

    /// Whether the record has been written.
    pub fn is_initialized(&self) -> (b: bool)
        ensures
            b == self@.is_initialized,
    {
        self.is_initialized
    }

    /// Encode the record for storage.
    pub fn encode(&self) -> (out: Vec<u8>)
        requires
            wf_counter(self@),
        ensures
            out@ == encode_counter(self@),
    {
        let mut out: Vec<u8> = Vec::new();
        push_str_field(&mut out, self.discriminator.as_str());
        push_bool(&mut out, self.is_initialized);
        push_u64(&mut out, self.counter);
        proof {
            assert(out@ =~= encode_counter(self@));
        }
        out
    }

    /// Decode a counter buffer.
    pub fn decode(data: &[u8]) -> (r: Result<MovieCommentCounter, ReviewError>)
        ensures
            match r {
                Ok(st) => counter_from_bytes(data@) == Ok::<CounterView, ReviewError>(st@)
                    && wf_counter(st@),
                Err(e) => counter_from_bytes(data@) == Err::<CounterView, ReviewError>(e),
            },
    {
        if is_all_zero(data) {
            proof {
                lemma_empty_str_fits();
            }
            return Ok(
                MovieCommentCounter {
                    discriminator: String::new(),
                    is_initialized: false,
                    counter: 0,
                },
            );
        }
        let (disc, i1) = match read_str(data, 0) {
            Some(x) => x,
            None => {
                return Err(ReviewError::DecodeError);
            },
        };
        let (init, i2) = match read_bool(data, i1) {
            Some(x) => x,
            None => {
                return Err(ReviewError::DecodeError);
            },
        };
        let (counter, _i3) = match read_u64(data, i2) {
            Some(x) => x,
            None => {
                return Err(ReviewError::DecodeError);
            },
        };
        let tag: String = "counter".to_owned();
        if !(disc == tag) {
            return Err(ReviewError::DecodeError);
        }
        proof {
            lemma_parsed_str_fits(data@, 0);
        }
        Ok(MovieCommentCounter { discriminator: disc, is_initialized: init, counter })
    }
}

/// The mathematical value of a comment record.
pub ghost struct CommentView {
    pub discriminator: Seq<char>,
    pub is_initialized: bool,
    pub review: Seq<u8>,
    pub commenter: Seq<u8>,
    pub comment: Seq<char>,
}

/// A comment under a review: stored at the address derived from the
/// review address and the counter value at creation time.
pub struct MovieComment {
    pub discriminator: String,
    pub is_initialized: bool,
    pub review: Address,
    pub commenter: Address,
    pub comment: String,
}

impl View for MovieComment {
    type V = CommentView;

    open spec fn view(&self) -> CommentView {
        CommentView {
            discriminator: self.discriminator@,
            is_initialized: self.is_initialized,
            review: self.review@,
            commenter: self.commenter@,
            comment: self.comment@,
        }
    }
}

/// The discriminator string of comment records.
pub open spec fn comment_tag() -> Seq<char> {
    "comment"@
}

/// A comment record is well formed when its identities are 32 bytes long
/// and its text fields fit their length prefixes.
pub open spec fn wf_comment(r: CommentView) -> bool {
    &&& r.review.len() == 32
    &&& r.commenter.len() == 32
    &&& str_field_fits(r.discriminator)
    &&& str_field_fits(r.comment)
}

/// The value an all-zero buffer decodes to.
pub open spec fn uninit_comment() -> CommentView {
    CommentView {
        discriminator: Seq::empty(),
        is_initialized: false,
        review: Seq::new(32, |i: int| 0u8),
        commenter: Seq::new(32, |i: int| 0u8),
        comment: Seq::empty(),
    }
}

/// The encoded bytes of a comment record.
pub open spec fn encode_comment(r: CommentView) -> Seq<u8> {
    str_field(r.discriminator) + seq![bool_byte(r.is_initialized)] + r.review + r.commenter
        + str_field(r.comment)
}

/// Parse the fields of a comment record from the front of a buffer.
pub open spec fn parse_comment(b: Seq<u8>) -> Option<CommentView> {
    match parse_str_at(b, 0) {
        Some((disc, i1)) => match parse_bool_at(b, i1) {
            Some((init, i2)) => match parse_bytes32_at(b, i2) {
                Some((review, i3)) => match parse_bytes32_at(b, i3) {
                    Some((commenter, i4)) => match parse_str_at(b, i4) {
                        Some((comment, _i5)) => Some(
                            CommentView {
                                discriminator: disc,
                                is_initialized: init,
                                review,
                                commenter,
                                comment,
                            },
                        ),
                        None => None,
                    },
                    None => None,
                },
                None => None,
            },
            None => None,
        },
        None => None,
    }
}

/// What a comment buffer holds.
pub open spec fn comment_from_bytes(b: Seq<u8>) -> Result<CommentView, ReviewError> {
    if all_zero(b) {
        Ok(uninit_comment())
    } else {
        match parse_comment(b) {
            Some(r) => if r.discriminator == comment_tag() {
                Ok(r)
            } else {
                Err(ReviewError::DecodeError)
            },
            None => Err(ReviewError::DecodeError),
        }
    }
}

/// The encoded size of a comment with the given text: the discriminator
/// field, the flag byte, the two 32-byte identities, and the
/// length-prefixed comment text.
pub open spec fn comment_size(comment: Seq<char>) -> int {
    80 + str_bytes(comment).len() as int
}

impl MovieComment {
    /// The encoded size of a comment holding the given text.
    pub fn get_account_size(comment: String) -> (n: usize)
        requires
            comment_size(comment@) <= usize::MAX,
        ensures
            n == comment_size(comment@),
    {
        (4 + 7) + 1 + 32 + 32 + (4 + comment.as_str().len())
    }

    /// Whether the record has been written.
    pub fn is_initialized(&self) -> (b: bool)
        ensures
            b == self@.is_initialized,
    {
        self.is_initialized
    }

    /// Encode the record for storage.
    pub fn encode(&self) -> (out: Vec<u8>)
        requires
            wf_comment(self@),
        ensures
            out@ == encode_comment(self@),
    {
        let mut out: Vec<u8> = Vec::new();
        push_str_field(&mut out, self.discriminator.as_str());
        push_bool(&mut out, self.is_initialized);
        out.extend_from_slice(self.review.bytes.as_slice());
        out.extend_from_slice(self.commenter.bytes.as_slice());
        push_str_field(&mut out, self.comment.as_str());
        proof {
            assert(out@ =~= encode_comment(self@));
        }
        out
    }

    /// Decode a comment buffer.
    pub fn decode(data: &[u8]) -> (r: Result<MovieComment, ReviewError>)
        ensures
            match r {
                Ok(st) => comment_from_bytes(data@) == Ok::<CommentView, ReviewError>(st@)
                    && wf_comment(st@),
                Err(e) => comment_from_bytes(data@) == Err::<CommentView, ReviewError>(e),
            },
    {
        if is_all_zero(data) {
            let st = MovieComment {
                discriminator: String::new(),
                is_initialized: false,
                review: Address::new([0u8; 32]),
                commenter: Address::new([0u8; 32]),
                comment: String::new(),
            };
            proof {
                assert(st@.review =~= uninit_comment().review);
                assert(st@.commenter =~= uninit_comment().commenter);
                lemma_empty_str_fits();
            }
            return Ok(st);
        }
        let (disc, i1) = match read_str(data, 0) {
            Some(x) => x,
            None => {
                return Err(ReviewError::DecodeError);
            },
        };
        let (init, i2) = match read_bool(data, i1) {
            Some(x) => x,
            None => {
                return Err(ReviewError::DecodeError);
            },
        };
        let (review_bytes, i3) = match read_bytes32(data, i2) {
            Some(x) => x,
            None => {
                return Err(ReviewError::DecodeError);
            },
        };
        let (commenter_bytes, i4) = match read_bytes32(data, i3) {
            Some(x) => x,
            None => {
                return Err(ReviewError::DecodeError);
            },
        };
        let (comment, _i5) = match read_str(data, i4) {
            Some(x) => x,
            None => {
                return Err(ReviewError::DecodeError);
            },
        };
        let tag: String = "comment".to_owned();
        if !(disc == tag) {
            return Err(ReviewError::DecodeError);
        }
        proof {
            lemma_parsed_str_fits(data@, 0);
            lemma_parsed_str_fits(data@, i4 as int);
        }
        Ok(
            MovieComment {
                discriminator: disc,
                is_initialized: init,
                review: Address::from_vec(&review_bytes),
                commenter: Address::from_vec(&commenter_bytes),
                comment,
            },
        )
    }
}

// ---------------------------------------------------------------------------
// Round trips: decoding a stored record returns the record
// ---------------------------------------------------------------------------
/// The discriminator tags are ASCII: their bytes are their characters.
pub proof fn lemma_tag_bytes()
    ensures
        str_bytes(review_tag()).len() == 6,
        str_bytes(review_tag())[0] == 114u8,
        str_field_fits(review_tag()),
        str_bytes(counter_tag()).len() == 7,
        str_bytes(counter_tag())[0] == 99u8,
        str_field_fits(counter_tag()),
        str_bytes(comment_tag()).len() == 7,
        str_bytes(comment_tag())[0] == 99u8,
        str_field_fits(comment_tag()),
{
    reveal_strlit("review");
    reveal_strlit("counter");
    reveal_strlit("comment");
    assert(is_ascii_chars(review_tag()));
    assert(is_ascii_chars(counter_tag()));
    assert(is_ascii_chars(comment_tag()));
    is_ascii_chars_encode_utf8(review_tag());
    is_ascii_chars_encode_utf8(counter_tag());
    is_ascii_chars_encode_utf8(comment_tag());
}

/// A review written into the front of a buffer decodes back to itself,
/// whatever bytes sat in the buffer past the encoding.
pub proof fn lemma_review_decode_stored(r: ReviewView, buffer: Seq<u8>)
    requires
        wf_review(r),
        r.discriminator == review_tag(),
        encode_review(r).len() <= buffer.len(),
    ensures
        review_from_bytes(write_prefix(buffer, encode_review(r))) == Ok::<
            ReviewView,
            ReviewError,
        >(r),
{
    lemma_auto_spec_u32_to_from_le_bytes();
    lemma_tag_bytes();
    let e = encode_review(r);
    let b = write_prefix(buffer, e);
    let d = str_field(r.discriminator);
    let t = str_field(r.title);
    let de = str_field(r.description);
    lemma_str_field_len(r.discriminator);
    lemma_str_field_len(r.title);
    lemma_str_field_len(r.description);
    let o1 = d.len() as int;
    let o2 = o1 + 1;
    let o3 = o2 + 32;
    let o4 = o3 + 1;
    let o5 = o4 + t.len() as int;
    let o6 = o5 + de.len() as int;
    assert(e.len() == o6);
    assert(forall|k: int| 0 <= k < e.len() ==> b[k] == e[k]);
    assert(b.subrange(0, o1) =~= d);
    lemma_parse_str_of(b, 0, r.discriminator);
    assert(b[o1] == bool_byte(r.is_initialized));
    lemma_parse_bool_of(b, o1, r.is_initialized);
    assert(b.subrange(o2, o3) =~= r.reviewer);
    lemma_parse_bytes32_of(b, o2, r.reviewer);
    assert(b[o3] == r.rating);
    lemma_parse_u8_of(b, o3, r.rating);
    assert(b.subrange(o4, o5) =~= t);
    lemma_parse_str_of(b, o4, r.title);
    assert(b.subrange(o5, o6) =~= de);
    lemma_parse_str_of(b, o5, r.description);
    assert(parse_review(b) == Some(r));
    assert(b[4] == str_bytes(review_tag())[0]);
    assert(!all_zero(b));
}

/// Decoding the encoding of a well-formed review returns the review.
pub proof fn lemma_review_round_trip(r: ReviewView)
    requires
        wf_review(r),
        r.discriminator == review_tag(),
    ensures
        review_from_bytes(encode_review(r)) == Ok::<ReviewView, ReviewError>(r),
{
    let e = encode_review(r);
    assert(write_prefix(e, e) =~= e);
    lemma_review_decode_stored(r, e);
}

/// A counter written into the front of a buffer decodes back to itself.
pub proof fn lemma_counter_decode_stored(r: CounterView, buffer: Seq<u8>)
    requires
        wf_counter(r),
        r.discriminator == counter_tag(),
        encode_counter(r).len() <= buffer.len(),
    ensures
        counter_from_bytes(write_prefix(buffer, encode_counter(r))) == Ok::<
            CounterView,
            ReviewError,
        >(r),
{
    lemma_auto_spec_u32_to_from_le_bytes();
    lemma_auto_spec_u64_to_from_le_bytes();
    lemma_tag_bytes();
    let e = encode_counter(r);
    let b = write_prefix(buffer, e);
    let d = str_field(r.discriminator);
    lemma_str_field_len(r.discriminator);
    let o1 = d.len() as int;
    let o2 = o1 + 1;
    let o3 = o2 + 8;
    assert(e.len() == o3);
    assert(forall|k: int| 0 <= k < e.len() ==> b[k] == e[k]);
    assert(b.subrange(0, o1) =~= d);
    lemma_parse_str_of(b, 0, r.discriminator);
    assert(b[o1] == bool_byte(r.is_initialized));
    lemma_parse_bool_of(b, o1, r.is_initialized);
    assert(b.subrange(o2, o3) =~= spec_u64_to_le_bytes(r.counter));
    lemma_parse_u64_of(b, o2, r.counter);
    assert(parse_counter(b) == Some(r));
    assert(b[4] == str_bytes(counter_tag())[0]);
    assert(!all_zero(b));
}

/// Decoding the encoding of a well-formed counter returns the counter.
pub proof fn lemma_counter_round_trip(r: CounterView)
    requires
        wf_counter(r),
        r.discriminator == counter_tag(),
    ensures
        counter_from_bytes(encode_counter(r)) == Ok::<CounterView, ReviewError>(r),
{
    let e = encode_counter(r);
    assert(write_prefix(e, e) =~= e);
    lemma_counter_decode_stored(r, e);
}

/// A comment written into the front of a buffer decodes back to itself.
pub proof fn lemma_comment_decode_stored(r: CommentView, buffer: Seq<u8>)
    requires
        wf_comment(r),
        r.discriminator == comment_tag(),
        encode_comment(r).len() <= buffer.len(),
    ensures
        comment_from_bytes(write_prefix(buffer, encode_comment(r))) == Ok::<
            CommentView,
            ReviewError,
        >(r),
{
    lemma_auto_spec_u32_to_from_le_bytes();
    lemma_tag_bytes();
    let e = encode_comment(r);
    let b = write_prefix(buffer, e);
    let d = str_field(r.discriminator);
    let c = str_field(r.comment);
    lemma_str_field_len(r.discriminator);
    lemma_str_field_len(r.comment);
    let o1 = d.len() as int;
    let o2 = o1 + 1;
    let o3 = o2 + 32;
    let o4 = o3 + 32;
    let o5 = o4 + c.len() as int;
    assert(e.len() == o5);
    assert(forall|k: int| 0 <= k < e.len() ==> b[k] == e[k]);
    assert(b.subrange(0, o1) =~= d);
    lemma_parse_str_of(b, 0, r.discriminator);
    assert(b[o1] == bool_byte(r.is_initialized));
    lemma_parse_bool_of(b, o1, r.is_initialized);
    assert(b.subrange(o2, o3) =~= r.review);
    lemma_parse_bytes32_of(b, o2, r.review);
    assert(b.subrange(o3, o4) =~= r.commenter);
    lemma_parse_bytes32_of(b, o3, r.commenter);
    assert(b.subrange(o4, o5) =~= c);
    lemma_parse_str_of(b, o4, r.comment);
    assert(parse_comment(b) == Some(r));
    assert(b[4] == str_bytes(comment_tag())[0]);
    assert(!all_zero(b));
}

/// Decoding the encoding of a well-formed comment returns the comment.
pub proof fn lemma_comment_round_trip(r: CommentView)
    requires
        wf_comment(r),
        r.discriminator == comment_tag(),
    ensures
        comment_from_bytes(encode_comment(r)) == Ok::<CommentView, ReviewError>(r),
{
    let e = encode_comment(r);
    assert(write_prefix(e, e) =~= e);
    lemma_comment_decode_stored(r, e);
}

// ---------------------------------------------------------------------------
// Encoded lengths
// ---------------------------------------------------------------------------
/// The encoded length of a review record is its account size.
pub proof fn lemma_encode_review_len(r: ReviewView)
    requires
        r.discriminator == review_tag(),
        r.reviewer.len() == 32,
    ensures
        encode_review(r).len() == review_size(r.title, r.description),
{
    lemma_tag_bytes();
    lemma_str_field_len(r.discriminator);
    lemma_str_field_len(r.title);
    lemma_str_field_len(r.description);
}

/// The encoded length of a counter record is its fixed size.
pub proof fn lemma_encode_counter_len(r: CounterView)
    requires
        r.discriminator == counter_tag(),
    ensures
        encode_counter(r).len() == 20,
{
    lemma_tag_bytes();
    lemma_str_field_len(r.discriminator);
    lemma_auto_spec_u64_to_from_le_bytes();
}

/// The encoded length of a comment record is its account size.
pub proof fn lemma_encode_comment_len(r: CommentView)
    requires
        r.discriminator == comment_tag(),
        r.review.len() == 32,
        r.commenter.len() == 32,
    ensures
        encode_comment(r).len() == comment_size(r.comment),
{
    lemma_tag_bytes();
    lemma_str_field_len(r.discriminator);
    lemma_str_field_len(r.comment);
}

/// An initialized counter record sits in a buffer at least as long as
/// its fixed encoded size.
pub proof fn lemma_counter_buffer_len(b: Seq<u8>)
    requires
        counter_from_bytes(b) matches Ok(c) && c.is_initialized,
    ensures
        b.len() >= 20,
{
    broadcast use vstd::utf8::decode_utf8_encode_utf8;

    lemma_tag_bytes();
    let (disc, i1) = parse_str_at(b, 0).unwrap();
    let (n, j) = crate::codec::parse_u32_at(b, 0).unwrap();
    assert(str_bytes(disc) == b.subrange(j, j + n));
}

/// Whatever a review buffer decodes to is well formed, and an
/// initialized record always carries the review discriminator.
pub proof fn lemma_review_from_bytes_wf(b: Seq<u8>)
    ensures
        review_from_bytes(b) matches Ok(r) ==> wf_review(r) && (r.is_initialized
            ==> r.discriminator == review_tag()),
{
    if all_zero(b) {
        lemma_empty_str_fits();
        assert(uninit_review().reviewer.len() == 32);
    } else {
        if parse_review(b) is Some {
            let (disc, i1) = parse_str_at(b, 0).unwrap();
            let (init, i2) = parse_bool_at(b, i1).unwrap();
            let (reviewer, i3) = parse_bytes32_at(b, i2).unwrap();
            let (rating, i4) = parse_u8_at(b, i3).unwrap();
            lemma_parsed_str_fits(b, 0);
            lemma_parsed_str_fits(b, i4);
            lemma_parsed_str_fits(b, parse_str_at(b, i4).unwrap().1);
        }
    }
}

/// An empty text field fits its length prefix.
proof fn lemma_empty_str_fits()
    ensures
        str_field_fits(Seq::<char>::empty()),
        str_bytes(Seq::<char>::empty()) == Seq::<u8>::empty(),
{
    reveal_with_fuel(vstd::utf8::encode_utf8, 2);
}

/// A string parsed out of a buffer fits its length prefix: its bytes are
/// the very bytes that sat behind a 4-byte length.
proof fn lemma_parsed_str_fits(b: Seq<u8>, i: int)
    requires
        parse_str_at(b, i) is Some,
    ensures
        str_field_fits(parse_str_at(b, i).unwrap().0),
{
    broadcast use vstd::utf8::decode_utf8_encode_utf8;

    let (n, j) = crate::codec::parse_u32_at(b, i).unwrap();
    let bytes = b.subrange(j, j + n);
    assert(valid_utf8(bytes));
    assert(str_bytes(parse_str_at(b, i).unwrap().0) == bytes);
}

} // verus!
