//! What each request is answered with.

pub mod api;
pub mod auth;
pub mod dashboard;
pub mod pages;
