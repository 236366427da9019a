//! The one error of the service: a fault with a message fit for a client.

use crate::response::{Body, Response, ResponseView, Status};
use vstd::prelude::*;

verus! {

/// A failure that no handler turns into a domain outcome. It carries a
/// human-readable message and nothing of the structure behind it.
#[derive(Debug)]
pub struct Error {
    message: String,
}

impl View for Error {
    type V = Seq<char>;

    closed spec fn view(&self) -> Seq<char> {
        self.message@
    }
}

impl Error {
    pub fn new(message: &str) -> (error: Error)
        ensures
            error@ == message@,
    {
        Error { message: message.to_owned() }
    }

    pub fn message(&self) -> (message: &str)
        ensures
            message@ == self@,
    {
        self.message.as_str()
    }

    /// Every error reaches the client as a complete 500 response whose body is
    /// the message.
    pub fn into_response(self) -> (response: Response)
        ensures
            response@ == ResponseView::failure(self@),
    {
        Response { status: Status::InternalServerError, body: Body::Text(self.message) }
    }
}

impl Clone for Error {
    fn clone(&self) -> (copy: Self)
        ensures
            copy@ == self@,
    {
        Error { message: self.message.clone() }
    }
}

} // verus!
