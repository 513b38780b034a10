//! The requests to the social network.

use crate::bindings::{percent_encode, percent_encoded};
use crate::error::ProcessError;
use crate::http::{authorization, request_with, Header, HttpMethod, Request};
use crate::text::{opt_str_text, opt_text};
use vstd::prelude::*;

verus! {

/// Where posts that anyone may read are asked for.
pub const BSKY_PUBLIC_API: &'static str = "https://public.api.bsky.app";

/// Where a signed-in user's own data is asked for.
pub const BSKY_API: &'static str = "https://bsky.social";

/// The service that requests about conversations are passed on to.
pub const BSKY_CHAT_PROXY: &'static str = "did:web:api.bsky.chat#bsky_chat";

/// The method that sends a message into a conversation.
pub const SEND_MESSAGE: &'static str = "chat.bsky.convo.sendMessage";

/// A client of the social network: who is signed in, if anyone.
#[derive(Debug, Clone)]
pub struct HttpBlueskyClient {
    access_token: Option<String>,
    did: Option<String>,
}

/// The text of a message.
#[derive(Debug, Clone, PartialEq, Eq)]
pub struct MessageInput {
    pub text: String,
}

/// What is sent to put a message into a conversation.
#[derive(Debug, Clone, PartialEq, Eq)]
pub struct SendMessageInput {
    pub convo_id: String,
    pub message: MessageInput,
}

/// The address that a user's bookmarks are asked at: at most fifty of them,
/// after `cursor` where there is one.
pub open spec fn bookmarks_url(cursor: Option<Seq<char>>) -> Seq<char> {
    let first = BSKY_API@ + "/xrpc/app.bsky.bookmark.getBookmarks?limit=50"@;
    match cursor {
        Some(c) => first + "&cursor="@ + c,
        None => first,
    }
}

/// The address that the thread of the post at `uri` is asked at: up to a
/// hundred levels above and below the post.
pub open spec fn post_thread_url(uri: Seq<char>) -> Seq<char> {
    BSKY_PUBLIC_API@ + "/xrpc/app.bsky.feed.getPostThread?uri="@ + percent_encoded(
        vstd::utf8::encode_utf8(uri),
    ) + "&depth=100&parentHeight=100"@
}

/// The address of a method of the conversation service.
pub open spec fn chat_url(endpoint: Seq<char>) -> Seq<char> {
    BSKY_API@ + "/xrpc/"@ + endpoint
}

impl HttpBlueskyClient {
    /// The token of the user who is signed in.
    pub closed spec fn token(self) -> Option<Seq<char>> {
        opt_text(self.access_token)
    }

    /// The identifier of the user who is signed in.
    pub closed spec fn user(self) -> Option<Seq<char>> {
        opt_text(self.did)
    }

    /// A client with nobody signed in, for what anyone may read.
    pub fn new() -> (client: HttpBlueskyClient)
        ensures
            client.token() is None,
            client.user() is None,
    {
        HttpBlueskyClient { access_token: None, did: None }
    }

    /// A client for the user `did`, signed in with `access_token`.
    pub fn with_auth(access_token: String, did: String) -> (client: HttpBlueskyClient)
        ensures
            client.token() == Some(access_token@),
            client.user() == Some(did@),
    {
        HttpBlueskyClient { access_token: Some(access_token), did: Some(did) }
    }

    /// Puts a new token in place of the old, as after a refresh.
    pub fn set_access_token(&mut self, token: String)
        ensures
            final(self).token() == Some(token@),
            final(self).user() == old(self).user(),
    {
        self.access_token = Some(token);
    }

    /// The token of the user who is signed in.
    pub fn access_token(&self) -> (token: Option<&str>)
        ensures
            opt_str_text(token) == self.token(),
    {
        match &self.access_token {
            Some(t) => Some(t.as_str()),
            None => None,
        }
    }

    /// The identifier of the user who is signed in.
    pub fn did(&self) -> (did: Option<&str>)
        ensures
            opt_str_text(did) == self.user(),
    {
        match &self.did {
            Some(d) => Some(d.as_str()),
            None => None,
        }
    }

    /// The request that reads `url` for the user who is signed in. Without
    /// a token there is no request.
    pub fn auth_get(&self, url: &str) -> (request: Result<Request, ProcessError>)
        ensures
            match request {
                Ok(r) => {
                    &&& self.token() matches Some(token)
                    &&& r.method == HttpMethod::Get
                    &&& r.url@ == url@
                    &&& r@.headers == seq![("Authorization"@, "Bearer"@ + " "@ + token)]
                },
                Err(e) => self.token() is None && e is AuthenticationRequired,
            },
    {
        match &self.access_token {
            Some(token) => Ok(
                request_with(
                    HttpMethod::Get,
                    String::from_str(url),
                    authorization("Bearer", token.as_str()),
                    None,
                ),
            ),
            None => Err(ProcessError::AuthenticationRequired),
        }
    }

    /// The request that calls the method `endpoint` of the conversation
    /// service for the user who is signed in. Without a token there is no
    /// request.
    pub fn chat_post(&self, endpoint: &str) -> (request: Result<Request, ProcessError>)
        ensures
            match request {
                Ok(r) => {
                    &&& self.token() matches Some(token)
                    &&& r.method == HttpMethod::Post
                    &&& r.url@ == chat_url(endpoint@)
                    &&& r@.headers == seq![
                        ("Authorization"@, "Bearer"@ + " "@ + token),
                        ("atproto-proxy"@, BSKY_CHAT_PROXY@),
                    ]
                },
                Err(e) => self.token() is None && e is AuthenticationRequired,
            },
    {
        match &self.access_token {
            Some(token) => {
                let mut url = String::from_str(BSKY_API);
                url.append("/xrpc/");
                url.append(endpoint);
                let proxy = Header {
                    name: String::from_str("atproto-proxy"),
                    value: String::from_str(BSKY_CHAT_PROXY),
                };
                Ok(
                    request_with(
                        HttpMethod::Post,
                        url,
                        authorization("Bearer", token.as_str()),
                        Some(proxy),
                    ),
                )
            },
            None => Err(ProcessError::AuthenticationRequired),
        }
    }

    /// The request for the bookmarks of the user who is signed in, after
    /// `cursor` where there is one.
    pub fn get_bookmarks(&self, cursor: Option<&str>) -> (request: Result<Request, ProcessError>)
        ensures
            match request {
                Ok(r) => {
                    &&& self.token() matches Some(token)
                    &&& r.method == HttpMethod::Get
                    &&& r.url@ == bookmarks_url(opt_str_text(cursor))
                    &&& r@.headers == seq![("Authorization"@, "Bearer"@ + " "@ + token)]
                },
                Err(e) => self.token() is None && e is AuthenticationRequired,
            },
    {
        let mut url = String::from_str(BSKY_API);
        url.append("/xrpc/app.bsky.bookmark.getBookmarks?limit=50");
        match cursor {
            Some(c) => {
                url.append("&cursor=");
                url.append(c);
            },
            None => {},
        }
        self.auth_get(url.as_str())
    }

    /// The request for the thread of the post at `uri`. Anyone may make it.
    pub fn get_post_thread(&self, uri: &str) -> (request: Request)
        ensures
            request.method == HttpMethod::Get,
            request.url@ == post_thread_url(uri@),
            request.headers@.len() == 0,
    {
        let mut url = String::from_str(BSKY_PUBLIC_API);
        url.append("/xrpc/app.bsky.feed.getPostThread?uri=");
        url.append(percent_encode(uri).as_str());
        url.append("&depth=100&parentHeight=100");
        Request { method: HttpMethod::Get, url, headers: Vec::new() }
    }

    /// The request that puts `text` into the conversation `convo_id`, and
    /// what it carries.
    pub fn send_dm(&self, convo_id: &str, text: &str) -> (request: Result<
        (Request, SendMessageInput),
        ProcessError,
    >)
        ensures
            match request {
                Ok((r, input)) => {
                    &&& self.token() matches Some(token)
                    &&& r.method == HttpMethod::Post
                    &&& r.url@ == chat_url(SEND_MESSAGE@)
                    &&& r@.headers == seq![
                        ("Authorization"@, "Bearer"@ + " "@ + token),
                        ("atproto-proxy"@, BSKY_CHAT_PROXY@),
                    ]
                    &&& input.convo_id@ == convo_id@
                    &&& input.message.text@ == text@
                },
                Err(e) => self.token() is None && e is AuthenticationRequired,
            },
    {
        match self.chat_post(SEND_MESSAGE) {
            Ok(r) => Ok(
                (
                    r,
                    SendMessageInput {
                        convo_id: String::from_str(convo_id),
                        message: MessageInput { text: String::from_str(text) },
                    },
                ),
            ),
            Err(e) => Err(e),
        }
    }
}

impl Default for HttpBlueskyClient {
    fn default() -> (client: HttpBlueskyClient)
        ensures
            client.token() is None,
            client.user() is None,
    {
        HttpBlueskyClient::new()
    }
}

} // verus!
