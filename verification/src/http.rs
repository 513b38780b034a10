//! Requests and answers as plain values: what is to be sent, and what an
//! answer means. The sending itself is done elsewhere.

use crate::error::ProcessError;
use vstd::prelude::*;

verus! {

/// How a request is made.
#[derive(Debug, Clone, Copy, PartialEq, Eq, Structural)]
pub enum HttpMethod {
    Get,
    Post,
}

/// One header of a request.
#[derive(Debug, Clone, PartialEq, Eq)]
pub struct Header {
    pub name: String,
    pub value: String,
}

/// A request without its body.
#[derive(Debug, Clone, PartialEq, Eq)]
pub struct Request {
    pub method: HttpMethod,
    pub url: String,
    pub headers: Vec<Header>,
}

/// The names and values of a list of headers.
pub open spec fn header_texts(headers: Seq<Header>) -> Seq<(Seq<char>, Seq<char>)> {
    headers.map_values(|h: Header| (h.name@, h.value@))
}

/// A request with its texts as character sequences.
pub struct RequestText {
    pub method: HttpMethod,
    pub url: Seq<char>,
    pub headers: Seq<(Seq<char>, Seq<char>)>,
}

impl View for Request {
    type V = RequestText;

    open spec fn view(&self) -> RequestText {
        RequestText { method: self.method, url: self.url@, headers: header_texts(self.headers@) }
    }
}

/// Whether a status says that the request went through: 200 to 299.
pub open spec fn is_success(status: u16) -> bool {
    200 <= status && status <= 299
}

/// The body of an answer that went through, or the failure that the answer
/// stands for.
pub fn check_status(status: u16, body: String) -> (outcome: Result<String, ProcessError>)
    ensures
        is_success(status) ==> outcome == Ok::<String, ProcessError>(body),
        !is_success(status) ==> outcome == Err::<String, ProcessError>(
            ProcessError::UpstreamApiError { status, body },
        ),
{
    if status >= 200 && status <= 299 {
        Ok(body)
    } else {
        Err(ProcessError::UpstreamApiError { status, body })
    }
}

/// A request with the given headers, in their order.
pub fn request_with(method: HttpMethod, url: String, first: Header, second: Option<Header>) -> (r:
    Request)
    ensures
        r.method == method,
        r.url == url,
        r@.headers == match second {
            Some(h) => seq![(first.name@, first.value@), (h.name@, h.value@)],
            None => seq![(first.name@, first.value@)],
        },
{
    let mut headers: Vec<Header> = Vec::new();
    headers.push(first);
    match second {
        Some(h) => {
            headers.push(h);
        },
        None => {},
    }
    let r = Request { method, url, headers };
    assert(r@.headers =~= match second {
        Some(h) => seq![(first.name@, first.value@), (h.name@, h.value@)],
        None => seq![(first.name@, first.value@)],
    });
    r
}

/// The header that carries a credential: `Authorization`, with the scheme
/// and the token.
pub fn authorization(scheme: &str, token: &str) -> (h: Header)
    ensures
        h.name@ == "Authorization"@,
        h.value@ == scheme@ + " "@ + token@,
{
    let mut value = String::from_str(scheme);
    value.append(" ");
    value.append(token);
    Header { name: String::from_str("Authorization"), value }
}

} // verus!
