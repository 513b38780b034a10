//! What is kept about users between runs.

pub mod models;

pub use models::{ProcessedBookmark, ProcessedDm, User, UserSettings, UserToken};
