//! The landing page and the health check.

use crate::web::pages::INDEX_PAGE;
use crate::web::response::{Response, ResponseText};
use vstd::prelude::*;

verus! {

/// What the health check answers.
pub const HEALTHY: &'static str = "ok";

/// The landing page.
pub fn index() -> (response: Response)
    ensures
        response@ == ResponseText::Html(INDEX_PAGE@),
{
    Response::Html(String::from_str(INDEX_PAGE))
}

/// The answer of the health check.
pub fn health() -> (text: &'static str)
    ensures
        text@ == HEALTHY@,
{
    HEALTHY
}

} // verus!
