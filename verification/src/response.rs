//! HTTP responses as plain values.

use crate::models::{Tag, TagView};
use vstd::prelude::*;

verus! {

/// The status codes this service answers with.
#[derive(Clone, Copy, Debug, PartialEq, Eq, Structural)]
pub enum Status {
    Success,
    Created,
    NoContent,
    BadRequest,
    NotFound,
    MethodNotAllowed,
    Conflict,
    UnsupportedMediaType,
    UnprocessableEntity,
    InternalServerError,
}

impl Status {
    /// The numeric code of the status line.
    pub open spec fn spec_code(self) -> u16 {
        match self {
            Status::Success => 200,
            Status::Created => 201,
            Status::NoContent => 204,
            Status::BadRequest => 400,
            Status::NotFound => 404,
            Status::MethodNotAllowed => 405,
            Status::Conflict => 409,
            Status::UnsupportedMediaType => 415,
            Status::UnprocessableEntity => 422,
            Status::InternalServerError => 500,
        }
    }

    #[verifier::when_used_as_spec(spec_code)]
    pub fn code(self) -> (code: u16)
        ensures
            code == self.spec_code(),
    {
        match self {
            Status::Success => 200,
            Status::Created => 201,
            Status::NoContent => 204,
            Status::BadRequest => 400,
            Status::NotFound => 404,
            Status::MethodNotAllowed => 405,
            Status::Conflict => 409,
            Status::UnsupportedMediaType => 415,
            Status::UnprocessableEntity => 422,
            Status::InternalServerError => 500,
        }
    }
}

/// What a response carries besides its status.
#[derive(Debug)]
pub enum Body {
    Empty,
    /// One tag, sent as a JSON object.
    Tag(Tag),
    /// A list of tags, sent as a JSON array.
    Tags(Vec<Tag>),
    /// A diagnostic message, sent as plain text.
    Text(String),
}

/// What a [`Body`] is, mathematically.
pub enum BodyView {
    Empty,
    Tag(TagView),
    Tags(Seq<TagView>),
    Text(Seq<char>),
}

impl View for Body {
    type V = BodyView;

    open spec fn view(&self) -> BodyView {
        match self {
            Body::Empty => BodyView::Empty,
            Body::Tag(tag) => BodyView::Tag(tag@),
            Body::Tags(tags) => BodyView::Tags(tags.deep_view()),
            Body::Text(text) => BodyView::Text(text@),
        }
    }
}

/// A complete response: nothing of it is written before all of it is known.
#[derive(Debug)]
pub struct Response {
    pub status: Status,
    pub body: Body,
}

/// What a [`Response`] is, mathematically.
pub struct ResponseView {
    pub status: Status,
    pub body: BodyView,
}

impl View for Response {
    type V = ResponseView;

    open spec fn view(&self) -> ResponseView {
        ResponseView { status: self.status, body: self.body@ }
    }
}

impl ResponseView {
    /// The response with this status and this body.
    pub open spec fn with(status: Status, body: BodyView) -> ResponseView {
        ResponseView { status, body }
    }

    /// The response that carries a status and nothing else.
    pub open spec fn bare(status: Status) -> ResponseView {
        ResponseView { status, body: BodyView::Empty }
    }

    /// The response that reports a fault, with its message.
    pub open spec fn failure(message: Seq<char>) -> ResponseView {
        ResponseView { status: Status::InternalServerError, body: BodyView::Text(message) }
    }
}

impl Response {
    /// The response that carries a status and nothing else.
    pub fn bare(status: Status) -> (response: Response)
        ensures
            response@ == ResponseView::bare(status),
    {
        Response { status, body: Body::Empty }
    }
}

} // verus!
