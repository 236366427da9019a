//! The route table as a function on the bytes of a path, and what becomes of
//! a request body before a handler sees it.

use crate::models::NewTag;
use crate::response::Status;
use vstd::prelude::*;
use vstd::slice::slice_subrange;

verus! {

/// The request methods that the route table tells apart.
#[derive(Clone, Copy, Debug, PartialEq, Eq, Structural)]
pub enum Method {
    Get,
    Post,
    Delete,
    /// Any other method.
    Other,
}

/// The handler that a request is routed to, with the id of the path.
#[derive(Clone, Copy, Debug, PartialEq, Eq, Structural)]
pub enum Endpoint {
    ListTags,
    GetTag { id: i32 },
    CreateTag,
    DeleteTag { id: i32 },
}

/// The byte `/`, which parts the segments of a path.
pub const SLASH: u8 = 0x2f;

/// The byte `+`.
pub const PLUS: u8 = 0x2b;

/// The byte `-`.
pub const MINUS: u8 = 0x2d;

/// The byte `0`, the first of the ten decimal digits.
pub const ZERO: u8 = 0x30;

/// The byte `9`, the last of the ten decimal digits.
pub const NINE: u8 = 0x39;

/// The byte `t`.
pub const LETTER_T: u8 = 0x74;

/// The byte `a`.
pub const LETTER_A: u8 = 0x61;

/// The byte `g`.
pub const LETTER_G: u8 = 0x67;

/// The byte `s`.
pub const LETTER_S: u8 = 0x73;

/// The path of the collection: `/tags`.
pub open spec fn collection_path() -> Seq<u8> {
    seq![SLASH, LETTER_T, LETTER_A, LETTER_G, LETTER_S]
}

/// The path of a member: `/tags/`, then `segment`.
pub open spec fn member_path(segment: Seq<u8>) -> Seq<u8> {
    collection_path().push(SLASH) + segment
}

/// A segment stands for a member when it is not empty and holds no `/`.
pub open spec fn is_segment(segment: Seq<u8>) -> bool {
    segment.len() > 0 && forall|i: int| 0 <= i < segment.len() ==> segment[i] != SLASH
}

/// Whether the byte is one of the ten decimal digits.
pub open spec fn is_digit(byte: u8) -> bool {
    ZERO <= byte <= NINE
}

/// Whether every byte of the text is a decimal digit.
pub open spec fn all_digits(text: Seq<u8>) -> bool {
    forall|i: int| 0 <= i < text.len() ==> is_digit(#[trigger] text[i])
}

/// The number that a run of decimal digits writes.
pub open spec fn decimal(digits: Seq<u8>) -> int
    decreases digits.len(),
{
    if digits.len() == 0 {
        0
    } else {
        decimal(digits.drop_last()) * 10 + (digits.last() - ZERO)
    }
}

/// The id that a path segment writes: an optional sign, `+` or `-`, then one
/// decimal digit or more, for a number that an `i32` holds.
pub open spec fn id_of(segment: Seq<u8>) -> Option<i32> {
    let signed = segment.len() > 0 && (segment[0] == MINUS || segment[0] == PLUS);
    let digits = if signed {
        segment.subrange(1, segment.len() as int)
    } else {
        segment
    };
    let value = if signed && segment[0] == MINUS {
        -decimal(digits)
    } else {
        decimal(digits)
    };
    if digits.len() > 0 && all_digits(digits) && i32::MIN <= value <= i32::MAX {
        Some(value as i32)
    } else {
        None
    }
}

/// The segment of a member path: what follows `/tags/`, where that is a
/// segment.
pub open spec fn member_segment(path: Seq<u8>) -> Option<Seq<u8>> {
    if path.len() > 6 && path.subrange(0, 6) == collection_path().push(SLASH) && is_segment(
        path.subrange(6, path.len() as int),
    ) {
        Some(path.subrange(6, path.len() as int))
    } else {
        None
    }
}

/// Where a request goes: to a handler, or back with a status.
///
/// `/tags` takes GET and POST, `/tags/{id}` takes GET and DELETE. A path that
/// matches neither is answered with 404, a method that the path does not take
/// with 405, and a segment that writes no id with 400.
pub open spec fn route(method: Method, path: Seq<u8>) -> Result<Endpoint, Status> {
    if path == collection_path() {
        match method {
            Method::Get => Ok(Endpoint::ListTags),
            Method::Post => Ok(Endpoint::CreateTag),
            _ => Err(Status::MethodNotAllowed),
        }
    } else {
        match member_segment(path) {
            Some(segment) => match method {
                Method::Get => match id_of(segment) {
                    Some(id) => Ok(Endpoint::GetTag { id }),
                    None => Err(Status::BadRequest),
                },
                Method::Delete => match id_of(segment) {
                    Some(id) => Ok(Endpoint::DeleteTag { id }),
                    None => Err(Status::BadRequest),
                },
                _ => Err(Status::MethodNotAllowed),
            },
            None => Err(Status::NotFound),
        }
    }
}

/// A run of digits writes no less than any of its beginnings.
pub proof fn lemma_decimal_grows(digits: Seq<u8>, end: int)
    requires
        all_digits(digits),
        0 <= end <= digits.len(),
    ensures
        0 <= decimal(digits.subrange(0, end)) <= decimal(digits),
    decreases digits.len(),
{
    if end == digits.len() {
        assert(digits.subrange(0, end) =~= digits);
        if end > 0 {
            lemma_decimal_grows(digits.drop_last(), end - 1);
            assert(digits.drop_last().subrange(0, end - 1) =~= digits.drop_last());
            assert(is_digit(digits[end - 1]));
        }
    } else {
        lemma_decimal_grows(digits.drop_last(), end);
        assert(digits.drop_last().subrange(0, end) =~= digits.subrange(0, end));
        assert(is_digit(digits[digits.len() - 1]));
    }
}

/// Reads the id that a path segment writes.
pub fn parse_id(segment: &[u8]) -> (id: Option<i32>)
    ensures
        id == id_of(segment@),
{
    let len = segment.len();
    if len == 0 {
        return None;
    }
    let negative = segment[0] == MINUS;
    let start: usize = if negative || segment[0] == PLUS {
        1
    } else {
        0
    };
    let ghost digits = segment@.subrange(start as int, len as int);
    assert(start == 0 ==> digits =~= segment@);
    if start == len {
        return None;
    }
    let mut value: i64 = 0;
    let mut at: usize = start;
    while at < len
        invariant
            start <= at <= len,
            0 < len == segment@.len(),
            negative == (segment@[0] == MINUS),
            start == if segment@[0] == MINUS || segment@[0] == PLUS { 1usize } else { 0usize },
            digits == segment@.subrange(start as int, len as int),
            start == 0 ==> digits == segment@,
            all_digits(digits.subrange(0, at - start)),
            value == decimal(digits.subrange(0, at - start)),
            0 <= value <= 0x8000_0000,
        decreases len - at,
    {
        let byte = segment[at];
        let ghost seen = digits.subrange(0, at - start);
        let ghost more = digits.subrange(0, at + 1 - start);
        assert(more.drop_last() =~= seen);
        assert(more.last() == byte);
        if byte < ZERO || byte > NINE {
            assert(!is_digit(digits[at - start]));
            return None;
        }
        value = value * 10 + (byte - ZERO) as i64;
        at += 1;
        assert(all_digits(more)) by {
            assert forall|i: int| 0 <= i < more.len() implies is_digit(#[trigger] more[i]) by {
                if i < seen.len() {
                    assert(more[i] == seen[i]);
                }
            }
        }
        if value > 0x8000_0000 {
            proof {
                if all_digits(digits) {
                    lemma_decimal_grows(digits, at - start);
                }
            }
            return None;
        }
    }
    assert(digits.subrange(0, at - start) =~= digits);
    if negative {
        Some((-value) as i32)
    } else if value <= 0x7fff_ffff {
        Some(value as i32)
    } else {
        None
    }
}

/// Routes a request by its method and the bytes of its path.
pub fn resolve(method: Method, path: &[u8]) -> (target: Result<Endpoint, Status>)
    ensures
        target == route(method, path@),
{
    let len = path.len();
    if len < 5 || path[0] != SLASH || path[1] != LETTER_T || path[2] != LETTER_A || path[3]
        != LETTER_G || path[4] != LETTER_S {
        assert(path@ != collection_path());
        assert(member_segment(path@) is None) by {
            if path@.len() > 6 {
                assert(path@.subrange(0, 6)[0] == path@[0]);
                assert(path@.subrange(0, 6)[1] == path@[1]);
                assert(path@.subrange(0, 6)[2] == path@[2]);
                assert(path@.subrange(0, 6)[3] == path@[3]);
                assert(path@.subrange(0, 6)[4] == path@[4]);
            }
        }
        return Err(Status::NotFound);
    }
    if len == 5 {
        assert(path@ =~= collection_path());
        return match method {
            Method::Get => Ok(Endpoint::ListTags),
            Method::Post => Ok(Endpoint::CreateTag),
            _ => Err(Status::MethodNotAllowed),
        };
    }
    assert(path@ != collection_path());
    if len == 6 || path[5] != SLASH {
        assert(member_segment(path@) is None) by {
            if path@.len() > 6 {
                assert(path@.subrange(0, 6)[5] == path@[5]);
            }
        }
        return Err(Status::NotFound);
    }
    assert(path@.subrange(0, 6) =~= collection_path().push(SLASH));
    let segment = slice_subrange(path, 6, len);
    let mut at: usize = 0;
    while at < segment.len()
        invariant
            at <= segment.len(),
            forall|i: int| 0 <= i < at ==> segment@[i] != SLASH,
            segment@ == path@.subrange(6, len as int),
            len == path@.len(),
            path@ != collection_path(),
        decreases segment.len() - at,
    {
        if segment[at] == SLASH {
            assert(!is_segment(segment@));
            return Err(Status::NotFound);
        }
        at += 1;
    }
    assert(is_segment(segment@));
    match method {
        Method::Get => match parse_id(segment) {
            Some(id) => Ok(Endpoint::GetTag { id }),
            None => Err(Status::BadRequest),
        },
        Method::Delete => match parse_id(segment) {
            Some(id) => Ok(Endpoint::DeleteTag { id }),
            None => Err(Status::BadRequest),
        },
        _ => Err(Status::MethodNotAllowed),
    }
}

/// A member path has the segment it was made of.
pub proof fn lemma_member_path(segment: Seq<u8>)
    requires
        is_segment(segment),
    ensures
        member_path(segment) != collection_path(),
        member_segment(member_path(segment)) == Some(segment),
{
    let path = member_path(segment);
    assert(path.len() == 6 + segment.len());
    assert(path.subrange(0, 6) =~= collection_path().push(SLASH));
    assert(path.subrange(6, path.len() as int) =~= segment);
}

/// What the extraction of a request body came to.
#[derive(Debug)]
pub enum Payload {
    /// A JSON object whose `label` is this text.
    Json(NewTag),
    /// The request does not announce JSON.
    NotJson,
    /// The body is not JSON.
    Malformed,
    /// The body is JSON, but no object with a text under `label`.
    Invalid,
}

/// What a [`Payload`] is, mathematically.
pub enum PayloadView {
    Json(Seq<char>),
    NotJson,
    Malformed,
    Invalid,
}

impl View for Payload {
    type V = PayloadView;

    open spec fn view(&self) -> PayloadView {
        match self {
            Payload::Json(new_tag) => PayloadView::Json(new_tag@),
            Payload::NotJson => PayloadView::NotJson,
            Payload::Malformed => PayloadView::Malformed,
            Payload::Invalid => PayloadView::Invalid,
        }
    }
}

impl PayloadView {
    /// The label to create a tag with, or the status that the body is turned
    /// down with: 415 without JSON announced, 400 for what is not JSON, 422
    /// for JSON of another shape.
    pub open spec fn extracted(self) -> Result<Seq<char>, Status> {
        match self {
            PayloadView::Json(label) => Ok(label),
            PayloadView::NotJson => Err(Status::UnsupportedMediaType),
            PayloadView::Malformed => Err(Status::BadRequest),
            PayloadView::Invalid => Err(Status::UnprocessableEntity),
        }
    }
}

/// What an extracted creation request is, mathematically.
pub open spec fn extraction_view(extraction: Result<NewTag, Status>) -> Result<Seq<char>, Status> {
    match extraction {
        Ok(new_tag) => Ok(new_tag@),
        Err(status) => Err(status),
    }
}

impl Payload {
    /// The creation request of the body, or the status to turn it down with.
    pub fn extract(self) -> (new_tag: Result<NewTag, Status>)
        ensures
            extraction_view(new_tag) == self@.extracted(),
    {
        match self {
            Payload::Json(new_tag) => Ok(new_tag),
            Payload::NotJson => Err(Status::UnsupportedMediaType),
            Payload::Malformed => Err(Status::BadRequest),
            Payload::Invalid => Err(Status::UnprocessableEntity),
        }
    }
}

} // verus!
