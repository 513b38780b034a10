//! Signing in and out.

use crate::bluesky::oauth::OAuthError;
use crate::text::{chars_of, string_of, trim, trim_chars};
use crate::web::pages::{
    CALLBACK_ERROR_HEAD, CALLBACK_ERROR_MIDDLE, CALLBACK_ERROR_TAIL, LOGIN_ERROR_HEAD,
    LOGIN_ERROR_TAIL, LOGIN_PAGE,
};
use crate::web::response::{Response, ResponseText};
use vstd::prelude::*;

verus! {

/// What comes back from the authorization server.
#[derive(Debug, Clone)]
pub struct CallbackParams {
    pub code: Option<String>,
    pub state: Option<String>,
    pub error: Option<String>,
    pub error_description: Option<String>,
    pub iss: Option<String>,
}

/// What the sign-in form sends.
#[derive(Debug, Clone)]
pub struct LoginForm {
    pub handle: String,
}

/// The tokens that the authorization server hands out.
#[derive(Debug, Clone)]
pub struct TokenResponse {
    pub access_token: String,
    pub token_type: String,
    pub refresh_token: Option<String>,
    pub scope: String,
    pub expires_in: u32,
    pub sub: Option<String>,
}

/// The key under which the session keeps the user's identifier.
pub const SESSION_USER_DID: &'static str = "user_did";

/// The key under which the session keeps the access token.
pub const SESSION_ACCESS_TOKEN: &'static str = "access_token";

/// The key under which the session keeps the refresh token.
pub const SESSION_REFRESH_TOKEN: &'static str = "refresh_token";

/// What to do about a sign-in form.
#[derive(Debug, Clone, PartialEq, Eq)]
pub enum LoginStep {
    /// Answer at once.
    Respond(Response),
    /// Begin the sign-in of `handle`.
    Initiate { handle: String },
}

/// What to do about a callback.
#[derive(Debug, Clone, PartialEq, Eq)]
pub enum CallbackStep {
    /// Answer at once.
    Respond(Response),
    /// Finish the sign-in that waits under `state`, with `code`.
    Complete { state: String, code: String },
}

/// What to do once a sign-in has been finished.
#[derive(Debug, Clone, PartialEq, Eq)]
pub enum CallbackOutcome {
    /// Answer with a page that says what went wrong.
    Respond(Response),
    /// Keep the user and the tokens in the session, then send the user to
    /// `location`.
    SignedIn { user_did: String, access_token: String, refresh_token: Option<String>, location: String },
}

/// The page that reports a failed start of sign-in.
pub open spec fn login_error_page(message: Seq<char>) -> Seq<char> {
    LOGIN_ERROR_HEAD@ + message + LOGIN_ERROR_TAIL@
}

/// The page that reports a failed sign-in.
pub open spec fn callback_error_page(error: Seq<char>, description: Seq<char>) -> Seq<char> {
    CALLBACK_ERROR_HEAD@ + error + CALLBACK_ERROR_MIDDLE@ + description + CALLBACK_ERROR_TAIL@
}

/// The text of an optional string, or the empty text.
pub open spec fn text_or_empty(s: Option<String>) -> Seq<char> {
    match s {
        Some(s) => s@,
        None => Seq::empty(),
    }
}

/// What is done about a sign-in form: a handle that is empty once trimmed
/// is answered with an error page, and for any other the sign-in of the
/// trimmed handle begins.
pub open spec fn login_step_of(form: LoginForm) -> (bool, Seq<char>) {
    let handle = trim(form.handle@);
    if handle.len() == 0 {
        (false, login_error_page("Please enter your Bluesky handle"@))
    } else {
        (true, handle)
    }
}

/// What is done about a callback, in this order: an error from the server
/// is shown with its description; a missing code is reported; a missing
/// state is reported; otherwise the sign-in is finished with state and
/// code.
pub open spec fn callback_step_of(params: CallbackParams) -> Option<Seq<char>> {
    if params.error is Some {
        Some(callback_error_page(params.error->0@, text_or_empty(params.error_description)))
    } else if params.code is None {
        Some(callback_error_page("Missing Code"@, "No authorization code received"@))
    } else if params.state is None {
        Some(callback_error_page("Missing State"@, "No state parameter received"@))
    } else {
        None
    }
}

/// The page that reports a failed start of sign-in.
pub fn show_login_error(message: &str) -> (page: String)
    ensures
        page@ == login_error_page(message@),
{
    let mut page = String::from_str(LOGIN_ERROR_HEAD);
    page.append(message);
    page.append(LOGIN_ERROR_TAIL);
    page
}

/// The page that reports a failed sign-in.
pub fn show_callback_error(error: &str, description: &str) -> (page: String)
    ensures
        page@ == callback_error_page(error@, description@),
{
    let mut page = String::from_str(CALLBACK_ERROR_HEAD);
    page.append(error);
    page.append(CALLBACK_ERROR_MIDDLE);
    page.append(description);
    page.append(CALLBACK_ERROR_TAIL);
    page
}

/// The page with the sign-in form.
pub fn login() -> (response: Response)
    ensures
        response@ == ResponseText::Html(LOGIN_PAGE@),
{
    Response::Html(String::from_str(LOGIN_PAGE))
}

/// What to do about a sign-in form.
pub fn login_submit(form: &LoginForm) -> (step: LoginStep)
    ensures
        match step {
            LoginStep::Respond(response) => login_step_of(*form) == (false, response@->Html_0)
                && response is Html,
            LoginStep::Initiate { handle } => login_step_of(*form) == (true, handle@),
        },
{
    let handle = trim_chars(&chars_of(form.handle.as_str()));
    if handle.len() == 0 {
        LoginStep::Respond(Response::Html(show_login_error("Please enter your Bluesky handle")))
    } else {
        LoginStep::Initiate { handle: string_of(&handle) }
    }
}

/// The answer once the sign-in has begun: the user is sent to the
/// authorization server; where it could not begin, an error page says why.
pub fn login_outcome(started: Result<String, OAuthError>) -> (response: Response)
    ensures
        match started {
            Ok(url) => response == Response::Redirect(url),
            Err(e) => response@ == ResponseText::Html(
                login_error_page("Failed to start login: "@ + e.message_text()),
            ),
        },
{
    match started {
        Ok(url) => Response::Redirect(url),
        Err(e) => {
            let mut message = String::from_str("Failed to start login: ");
            message.append(e.message().as_str());
            Response::Html(show_login_error(message.as_str()))
        },
    }
}

/// What to do about a callback.
pub fn callback(params: CallbackParams) -> (step: CallbackStep)
    ensures
        match step {
            CallbackStep::Respond(response) => callback_step_of(params) == Some(
                response@->Html_0,
            ) && response is Html,
            CallbackStep::Complete { state, code } => callback_step_of(params) is None
                && params.state == Some(state) && params.code == Some(code),
        },
{
    let CallbackParams { code, state, error, error_description, iss } = params;
    match error {
        Some(error) => {
            let description = match error_description {
                Some(d) => d,
                None => String::new(),
            };
            return CallbackStep::Respond(
                Response::Html(show_callback_error(error.as_str(), description.as_str())),
            );
        },
        None => {},
    }
    let code = match code {
        Some(c) => c,
        None => {
            return CallbackStep::Respond(
                Response::Html(
                    show_callback_error("Missing Code", "No authorization code received"),
                ),
            );
        },
    };
    let state = match state {
        Some(s) => s,
        None => {
            return CallbackStep::Respond(
                Response::Html(show_callback_error("Missing State", "No state parameter received")),
            );
        },
    };
    CallbackStep::Complete { state, code }
}

/// What to do once a sign-in has been finished: with tokens that name the
/// user, the user is signed in and sent to the dashboard; with tokens that
/// name nobody, or with an error, a page says what went wrong.
pub fn callback_outcome(finished: Result<TokenResponse, OAuthError>) -> (outcome: CallbackOutcome)
    ensures
        match finished {
            Ok(tokens) => if text_or_empty(tokens.sub).len() == 0 {
                outcome matches CallbackOutcome::Respond(response) && response@
                    == ResponseText::Html(
                    callback_error_page("Invalid Response"@, "No user DID in token response"@),
                )
            } else {
                outcome matches CallbackOutcome::SignedIn {
                    user_did,
                    access_token,
                    refresh_token,
                    location,
                } && Some(user_did) == tokens.sub && access_token == tokens.access_token
                    && refresh_token == tokens.refresh_token && location@ == "/dashboard"@
            },
            Err(e) => outcome matches CallbackOutcome::Respond(response) && response@
                == ResponseText::Html(callback_error_page("Login Failed"@, e.message_text())),
        },
{
    match finished {
        Ok(tokens) => {
            let TokenResponse { access_token, token_type, refresh_token, scope, expires_in, sub } =
                tokens;
            let user_did = match sub {
                Some(did) => did,
                None => String::new(),
            };
            if user_did.as_str().unicode_len() == 0 {
                CallbackOutcome::Respond(
                    Response::Html(
                        show_callback_error("Invalid Response", "No user DID in token response"),
                    ),
                )
            } else {
                CallbackOutcome::SignedIn {
                    user_did,
                    access_token,
                    refresh_token,
                    location: String::from_str("/dashboard"),
                }
            }
        },
        Err(e) => CallbackOutcome::Respond(
            Response::Html(show_callback_error("Login Failed", e.message().as_str())),
        ),
    }
}

/// The answer to signing out, once the session is gone: back to the landing
/// page.
pub fn logout() -> (response: Response)
    ensures
        response@ == ResponseText::Redirect("/"@),
{
    Response::Redirect(String::from_str("/"))
}

} // verus!
