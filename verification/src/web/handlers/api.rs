//! Changing the settings.

use crate::text::{chars_of, trim, trim_chars};
use crate::web::response::{Response, ResponseText};
use vstd::prelude::*;

verus! {

/// What the settings form sends.
#[derive(Debug, Clone)]
pub struct SettingsForm {
    pub readwise_token: String,
    pub bookmark_sync: bool,
    pub extract_links: bool,
}

/// The status of an answer to a request that cannot be taken.
pub const BAD_REQUEST: u16 = 400;

/// The answer to a settings form: a form without a token, or with a token
/// of white space alone, is refused; any other is sent on to the dashboard.
pub open spec fn settings_answer(form: SettingsForm) -> ResponseText {
    if trim(form.readwise_token@).len() == 0 {
        ResponseText::Status { code: BAD_REQUEST, body: "Readwise token is required"@ }
    } else {
        ResponseText::Redirect("/dashboard?saved=true"@)
    }
}

/// The answer to a settings form.
pub fn update_settings(form: &SettingsForm) -> (response: Response)
    ensures
        response@ == settings_answer(*form),
{
    let token = trim_chars(&chars_of(form.readwise_token.as_str()));
    if token.len() == 0 {
        Response::Status { code: BAD_REQUEST, body: String::from_str("Readwise token is required") }
    } else {
        Response::Redirect(String::from_str("/dashboard?saved=true"))
    }
}

} // verus!
