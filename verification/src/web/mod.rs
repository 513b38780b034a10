//! The web front end: what each request is answered with. Listening,
//! routing and the session are done elsewhere.

pub mod handlers;
pub mod pages;
pub mod response;
