//! What the social network hands out: posts, threads and bookmarks.

pub mod client;
pub mod oauth;
pub mod types;

pub use client::HttpBlueskyClient;
pub use types::{
    Author, BookmarkItem, BookmarkResponse, BookmarkView, ByteSlice, Facet, FacetFeature,
    PostRecord, PostView, ReplyRef, StrongRef, ThreadResponse, ThreadViewPost,
};
