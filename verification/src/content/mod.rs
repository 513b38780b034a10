//! From posts and threads to payloads.

pub mod formatter;
pub mod links;


