//! The settings page.

use crate::web::pages::SETTINGS_PAGE;
use crate::web::response::{Response, ResponseText};
use vstd::prelude::*;

verus! {

/// The page with the settings form.
pub fn settings() -> (response: Response)
    ensures
        response@ == ResponseText::Html(SETTINGS_PAGE@),
{
    Response::Html(String::from_str(SETTINGS_PAGE))
}

} // verus!
