//! Posts, threads and bookmarks as plain values.

use crate::text::{chars_of, opt_str_text, same_text};
use crate::time::Timestamp;
use vstd::prelude::*;

verus! {

/// One page of a user's bookmarks, and the cursor for the next page.
#[derive(Debug, Clone)]
pub struct BookmarkResponse {
    pub cursor: Option<String>,
    pub bookmarks: Vec<BookmarkView>,
}

/// What a bookmark points at.
#[derive(Debug, Clone, Copy, PartialEq, Eq, Structural)]
pub enum BookmarkItem {
    /// A post that can be read.
    Post,
    /// A post whose author blocks the reader, or is blocked.
    BlockedPost,
    /// A post that is gone.
    NotFoundPost,
}

/// The type tag of a post that can be read.
pub const POST_VIEW_TYPE: &'static str = "app.bsky.feed.defs#postView";

/// The type tag of a blocked post.
pub const BLOCKED_POST_TYPE: &'static str = "app.bsky.feed.defs#blockedPost";

/// The type tag of a post that is gone.
pub const NOT_FOUND_POST_TYPE: &'static str = "app.bsky.feed.defs#notFoundPost";

impl BookmarkItem {
    /// What a type tag stands for: one of the three kinds, or nothing
    /// where the tag is none of theirs.
    pub open spec fn of_tag(tag: Seq<char>) -> Option<BookmarkItem> {
        if tag == POST_VIEW_TYPE@ {
            Some(BookmarkItem::Post)
        } else if tag == BLOCKED_POST_TYPE@ {
            Some(BookmarkItem::BlockedPost)
        } else if tag == NOT_FOUND_POST_TYPE@ {
            Some(BookmarkItem::NotFoundPost)
        } else {
            None
        }
    }

    /// The kind of a bookmark's item, by its type tag where it has one: an
    /// item without a tag, or with a tag of no known kind, counts as a post
    /// that was not found.
    pub open spec fn of_optional_tag(tag: Option<Seq<char>>) -> BookmarkItem {
        match tag {
            Some(tag) => match BookmarkItem::of_tag(tag) {
                Some(item) => item,
                None => BookmarkItem::NotFoundPost,
            },
            None => BookmarkItem::NotFoundPost,
        }
    }

    /// The kind of a bookmark's item, by its type tag where it has one.
    pub fn from_optional_tag(tag: Option<&str>) -> (item: BookmarkItem)
        ensures
            item == BookmarkItem::of_optional_tag(opt_str_text(tag)),
    {
        match tag {
            Some(tag) => match BookmarkItem::from_type_tag(tag) {
                Some(item) => item,
                None => BookmarkItem::NotFoundPost,
            },
            None => BookmarkItem::NotFoundPost,
        }
    }

    /// What the type tag of a bookmark's item stands for.
    pub fn from_type_tag(tag: &str) -> (item: Option<BookmarkItem>)
        ensures
            item == BookmarkItem::of_tag(tag@),
    {
        let tag = chars_of(tag);
        if same_text(&tag, &chars_of(POST_VIEW_TYPE)) {
            Some(BookmarkItem::Post)
        } else if same_text(&tag, &chars_of(BLOCKED_POST_TYPE)) {
            Some(BookmarkItem::BlockedPost)
        } else if same_text(&tag, &chars_of(NOT_FOUND_POST_TYPE)) {
            Some(BookmarkItem::NotFoundPost)
        } else {
            None
        }
    }
}

/// A bookmark: the post it refers to and when it was made.
#[derive(Debug, Clone)]
pub struct BookmarkView {
    pub subject: StrongRef,
    pub created_at: Timestamp,
    pub item: BookmarkItem,
}

/// A reference to one version of a record: its URI and content identifier.
#[derive(Debug, Clone)]
pub struct StrongRef {
    pub uri: String,
    pub cid: String,
}

/// The answer to a request for a thread.
#[derive(Debug)]
pub struct ThreadResponse {
    pub thread: ThreadViewPost,
}

/// A post with what is known of its thread: the post it answers, which
/// carries its own parent in turn, and the direct answers to it.
#[derive(Debug)]
pub struct ThreadViewPost {
    pub post: PostView,
    pub parent: Option<Box<ThreadViewPost>>,
    pub replies: Option<Vec<ThreadViewPost>>,
}

/// A post as the network shows it.
#[derive(Debug, Clone)]
pub struct PostView {
    pub uri: String,
    pub cid: String,
    pub author: Author,
    pub record: PostRecord,
    pub indexed_at: Timestamp,
}

/// Who wrote a post.
#[derive(Debug, Clone)]
pub struct Author {
    pub did: String,
    pub handle: String,
    pub display_name: Option<String>,
}

/// What the author wrote.
#[derive(Debug, Clone)]
pub struct PostRecord {
    pub text: String,
    pub created_at: Timestamp,
    pub reply: Option<ReplyRef>,
    pub facets: Option<Vec<Facet>>,
}

/// The mark of an answer: the thread's first post and the post answered.
#[derive(Debug, Clone)]
pub struct ReplyRef {
    pub root: StrongRef,
    pub parent: StrongRef,
}

/// An annotation of a range of a post's text.
#[derive(Debug, Clone)]
pub struct Facet {
    pub index: ByteSlice,
    pub features: Vec<FacetFeature>,
}

/// A range of bytes of a post's text.
#[derive(Debug, Clone, Copy, PartialEq, Eq, Structural)]
pub struct ByteSlice {
    pub byte_start: usize,
    pub byte_end: usize,
}

/// What a facet marks its range as.
#[derive(Debug, Clone)]
pub enum FacetFeature {
    Link { uri: String },
    Mention { did: String },
    Tag { tag: String },
}

} // verus!
