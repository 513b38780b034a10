//! Answers to web requests, as plain values.

use vstd::prelude::*;

verus! {

/// An answer to a web request.
#[derive(Debug, Clone, PartialEq, Eq)]
pub enum Response {
    /// A page.
    Html(String),
    /// A redirect to `location`.
    Redirect(String),
    /// A status with a short text.
    Status { code: u16, body: String },
}

/// An answer with its texts as character sequences.
pub enum ResponseText {
    Html(Seq<char>),
    Redirect(Seq<char>),
    Status { code: u16, body: Seq<char> },
}

impl View for Response {
    type V = ResponseText;

    open spec fn view(&self) -> ResponseText {
        match self {
            Response::Html(page) => ResponseText::Html(page@),
            Response::Redirect(location) => ResponseText::Redirect(location@),
            Response::Status { code, body } => ResponseText::Status { code: *code, body: body@ },
        }
    }
}

} // verus!
