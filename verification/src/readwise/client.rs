//! The payloads of the two kinds of save: a highlight and a document.

use crate::error::ProcessError;
use crate::http::{authorization, check_status, request_with, HttpMethod, Request};
use crate::text::{opt_text, string_texts};
use vstd::prelude::*;

verus! {

/// A highlight: a passage of text with where it comes from.
#[derive(Debug, Clone, PartialEq, Eq)]
pub struct Highlight {
    pub text: String,
    pub title: Option<String>,
    pub author: Option<String>,
    pub source_url: Option<String>,
    pub category: Option<String>,
    pub note: Option<String>,
}

/// A document for the reader: a URL, and the page itself where there is one.
#[derive(Debug, Clone, PartialEq, Eq)]
pub struct Document {
    pub url: String,
    pub html: Option<String>,
    pub title: Option<String>,
    pub author: Option<String>,
    pub tags: Option<Vec<String>>,
}

/// What the service answers to a save.
#[derive(Debug, Clone, PartialEq, Eq)]
pub struct SaveResponse {
    pub id: Option<String>,
}

/// A highlight with its texts as character sequences.
pub struct HighlightText {
    pub text: Seq<char>,
    pub title: Option<Seq<char>>,
    pub author: Option<Seq<char>>,
    pub source_url: Option<Seq<char>>,
    pub category: Option<Seq<char>>,
    pub note: Option<Seq<char>>,
}

/// A document with its texts as character sequences.
pub struct DocumentText {
    pub url: Seq<char>,
    pub html: Option<Seq<char>>,
    pub title: Option<Seq<char>>,
    pub author: Option<Seq<char>>,
    pub tags: Option<Seq<Seq<char>>>,
}

impl View for Highlight {
    type V = HighlightText;

    open spec fn view(&self) -> HighlightText {
        HighlightText {
            text: self.text@,
            title: opt_text(self.title),
            author: opt_text(self.author),
            source_url: opt_text(self.source_url),
            category: opt_text(self.category),
            note: opt_text(self.note),
        }
    }
}

impl View for Document {
    type V = DocumentText;

    open spec fn view(&self) -> DocumentText {
        DocumentText {
            url: self.url@,
            html: opt_text(self.html),
            title: opt_text(self.title),
            author: opt_text(self.author),
            tags: match self.tags {
                Some(tags) => Some(string_texts(tags@)),
                None => None,
            },
        }
    }
}

/// Where the read-it-later service is.
pub const READWISE_API: &'static str = "https://readwise.io/api";

/// The status with which the service answers to a token that is good.
pub const TOKEN_VALID_STATUS: u16 = 204;

/// A client of the read-it-later service.
#[derive(Debug, Clone)]
pub struct HttpReadwiseClient {
    pub base_url: String,
}

/// What is sent to save highlights.
#[derive(Debug, Clone, PartialEq, Eq)]
pub struct HighlightsPayload {
    pub highlights: Vec<Highlight>,
}

impl HttpReadwiseClient {
    /// A client of the service at its usual address.
    pub fn new() -> (client: HttpReadwiseClient)
        ensures
            client.base_url@ == READWISE_API@,
    {
        HttpReadwiseClient { base_url: String::from_str(READWISE_API) }
    }

    fn request(&self, method: HttpMethod, path: &str, token: &str) -> (r: Request)
        ensures
            r.method == method,
            r.url@ == self.base_url@ + path@,
            r@.headers == seq![("Authorization"@, "Token"@ + " "@ + token@)],
    {
        let mut url = self.base_url.clone();
        url.append(path);
        request_with(method, url, authorization("Token", token), None)
    }

    /// The request that saves one highlight, and what it carries: a list
    /// with that highlight alone.
    pub fn save_highlight(&self, token: &str, highlight: Highlight) -> (r: (
        Request,
        HighlightsPayload,
    ))
        ensures
            r.0.method == HttpMethod::Post,
            r.0.url@ == self.base_url@ + "/v2/highlights/"@,
            r.0@.headers == seq![("Authorization"@, "Token"@ + " "@ + token@)],
            r.1.highlights@ == seq![highlight],
    {
        let mut highlights: Vec<Highlight> = Vec::new();
        highlights.push(highlight);
        (self.request(HttpMethod::Post, "/v2/highlights/", token), HighlightsPayload { highlights })
    }

    /// The request that saves a document. It carries the document.
    pub fn save_document(&self, token: &str) -> (r: Request)
        ensures
            r.method == HttpMethod::Post,
            r.url@ == self.base_url@ + "/v3/save/"@,
            r@.headers == seq![("Authorization"@, "Token"@ + " "@ + token@)],
    {
        self.request(HttpMethod::Post, "/v3/save/", token)
    }

    /// The request that asks whether a token is good.
    pub fn verify_token(&self, token: &str) -> (r: Request)
        ensures
            r.method == HttpMethod::Get,
            r.url@ == self.base_url@ + "/v2/auth/"@,
            r@.headers == seq![("Authorization"@, "Token"@ + " "@ + token@)],
    {
        self.request(HttpMethod::Get, "/v2/auth/", token)
    }

    /// Whether the answer to [`HttpReadwiseClient::verify_token`] says that
    /// the token is good.
    pub fn token_is_valid(status: u16) -> (valid: bool)
        ensures
            valid == (status == TOKEN_VALID_STATUS),
    {
        status == TOKEN_VALID_STATUS
    }

    /// What the answer to a save means: done where the status is 200 to
    /// 299, and the failure that the answer stands for otherwise.
    pub fn save_outcome(status: u16, body: String) -> (outcome: Result<(), ProcessError>)
        ensures
            crate::http::is_success(status) ==> outcome is Ok,
            !crate::http::is_success(status) ==> outcome == Err::<(), ProcessError>(
                ProcessError::UpstreamApiError { status, body },
            ),
    {
        match check_status(status, body) {
            Ok(_) => Ok(()),
            Err(e) => Err(e),
        }
    }
}

impl Default for HttpReadwiseClient {
    fn default() -> (client: HttpReadwiseClient)
        ensures
            client.base_url@ == READWISE_API@,
    {
        HttpReadwiseClient::new()
    }
}

} // verus!
