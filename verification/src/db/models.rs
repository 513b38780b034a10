//! The records that are stored, as plain values. Identifiers are the 128
//! bits of a UUID.

use crate::time::Timestamp;
use vstd::prelude::*;

verus! {

/// A registered user.
#[derive(Debug, Clone)]
pub struct User {
    pub id: u128,
    pub bluesky_did: String,
    pub bluesky_handle: String,
    pub created_at: Timestamp,
}

/// The tokens of a user's sign-in.
#[derive(Debug, Clone)]
pub struct UserToken {
    pub user_id: u128,
    pub access_token: String,
    pub refresh_token: Option<String>,
    pub expires_at: Option<Timestamp>,
    pub updated_at: Timestamp,
}

/// What a user has chosen.
#[derive(Debug, Clone)]
pub struct UserSettings {
    pub user_id: u128,
    pub readwise_token: String,
    pub bookmark_sync_enabled: bool,
    pub extract_links: bool,
    pub last_bookmark_cursor: Option<String>,
    pub updated_at: Timestamp,
}

/// A bookmark that has been processed.
#[derive(Debug, Clone)]
pub struct ProcessedBookmark {
    pub id: u128,
    pub user_id: u128,
    pub post_uri: String,
    pub processed_at: Timestamp,
}

/// A direct message that has been processed.
#[derive(Debug, Clone)]
pub struct ProcessedDm {
    pub id: u128,
    pub user_id: u128,
    pub message_id: String,
    pub post_uri: Option<String>,
    pub status: String,
    pub processed_at: Timestamp,
}

} // verus!
