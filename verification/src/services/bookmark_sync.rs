//! Keeping up with a user's bookmarks: at each tick a page of bookmarks is
//! asked for, and each bookmark that has not been processed before is handed
//! on for processing, in the order of the page.
//!
//! The waiting, fetching and processing are done elsewhere.
//! [`BookmarkSyncService`] decides: it is handed each outcome as an event and
//! answers with what to do next.

use crate::bindings::{duration_from_secs, span_of_secs};
use crate::bluesky::{BookmarkResponse, BookmarkView};
use crate::db::models::UserSettings;
use crate::error::ProcessError;
use crate::services::processor::ProcessOptions;
use crate::text::{contains_string, opt_text, string_texts};
use std::time::Duration;
use vstd::prelude::*;

verus! {

/// How often a user's bookmarks are looked at.
#[derive(Debug, Clone, Copy, PartialEq, Eq, Structural)]
pub struct BookmarkSyncConfig {
    /// Seconds between two polls.
    pub poll_interval_secs: u64,
}

impl Default for BookmarkSyncConfig {
    fn default() -> (config: BookmarkSyncConfig)
        ensures
            config.poll_interval_secs == 30,
    {
        BookmarkSyncConfig { poll_interval_secs: 30 }
    }
}

impl BookmarkSyncConfig {
    /// The time between two polls: the span of `poll_interval_secs` whole
    /// seconds.
    pub fn poll_interval(&self) -> (span: Duration)
        ensures
            span == span_of_secs(self.poll_interval_secs),
    {
        duration_from_secs(self.poll_interval_secs)
    }
}

/// Where a user's synchronisation stands.
#[derive(Debug)]
pub enum SyncState {
    /// Waiting for the next tick.
    Idle,
    /// A page of bookmarks has been asked for.
    Fetching,
    /// The first of `pending` is being processed, the others wait; `done`
    /// are the posts processed since the tick, and `cursor` came with the
    /// page.
    Processing { pending: Vec<String>, cursor: Option<String>, done: Vec<String> },
}

/// What has happened since the last step.
#[derive(Debug)]
pub enum SyncEvent {
    /// The time for a poll has come.
    Tick,
    /// The request for a page has ended.
    PageFetched(Result<BookmarkResponse, ProcessError>),
    /// The processing of the post that was handed on last has ended.
    ItemProcessed(Result<(), ProcessError>),
}

/// What to do next.
#[derive(Debug)]
pub enum SyncAction {
    /// Nothing: the event was not expected where the synchronisation
    /// stands.
    Ignore,
    /// Ask for the bookmarks that follow `cursor`.
    FetchBookmarks { cursor: Option<String> },
    /// Process the post at `post_uri`.
    ProcessPost { post_uri: String, readwise_token: String, options: ProcessOptions },
    /// The tick is over: `processed` are the posts that were processed, and
    /// `new_cursor` is to be kept for the next tick where there is one.
    TickDone { processed: Vec<String>, new_cursor: Option<String> },
    /// The tick is over because the page could not be fetched. Nothing was
    /// processed and the cursor stays.
    TickFailed(ProcessError),
}

/// A state with its texts as character sequences.
pub enum SyncStateText {
    Idle,
    Fetching,
    Processing { pending: Seq<Seq<char>>, cursor: Option<Seq<char>>, done: Seq<Seq<char>> },
}

/// An action with its texts as character sequences.
pub enum SyncActionText {
    Ignore,
    FetchBookmarks { cursor: Option<Seq<char>> },
    ProcessPost { post_uri: Seq<char>, readwise_token: Seq<char>, extract_links: bool },
    TickDone { processed: Seq<Seq<char>>, new_cursor: Option<Seq<char>> },
    TickFailed(ProcessError),
}

impl View for SyncState {
    type V = SyncStateText;

    open spec fn view(&self) -> SyncStateText {
        match self {
            SyncState::Idle => SyncStateText::Idle,
            SyncState::Fetching => SyncStateText::Fetching,
            SyncState::Processing { pending, cursor, done } => SyncStateText::Processing {
                pending: string_texts(pending@),
                cursor: opt_text(*cursor),
                done: string_texts(done@),
            },
        }
    }
}

impl SyncAction {
    /// Whether the action is what `text` says, and, where a post is handed
    /// on, carries no note.
    pub open spec fn shows(self, text: SyncActionText) -> bool {
        match self {
            SyncAction::Ignore => text is Ignore,
            SyncAction::FetchBookmarks { cursor } => text == (SyncActionText::FetchBookmarks {
                cursor: opt_text(cursor),
            }),
            SyncAction::ProcessPost { post_uri, readwise_token, options } => {
                &&& text == (SyncActionText::ProcessPost {
                    post_uri: post_uri@,
                    readwise_token: readwise_token@,
                    extract_links: options.extract_links,
                })
                &&& options.note is None
            },
            SyncAction::TickDone { processed, new_cursor } => text == (SyncActionText::TickDone {
                processed: string_texts(processed@),
                new_cursor: opt_text(new_cursor),
            }),
            SyncAction::TickFailed(e) => text == SyncActionText::TickFailed(e),
        }
    }
}

/// What a synchronisation knows and where it stands.
pub struct SyncText {
    /// The token for the saves.
    pub token: Seq<char>,
    /// Whether links are saved with a post.
    pub extract_links: bool,
    /// The cursor that the next page is asked with.
    pub cursor: Option<Seq<char>>,
    /// The posts that have been processed, now or earlier.
    pub seen: Seq<Seq<char>>,
    /// Where the synchronisation stands.
    pub state: SyncStateText,
}

/// The posts that the bookmarks of a page refer to, in order.
pub open spec fn subjects(bookmarks: Seq<BookmarkView>) -> Seq<Seq<char>> {
    bookmarks.map_values(|b: BookmarkView| b.subject.uri@)
}

/// `pending` without the posts at its head that have been processed.
pub open spec fn skip_seen(seen: Seq<Seq<char>>, pending: Seq<Seq<char>>) -> Seq<Seq<char>>
    decreases pending.len(),
{
    if pending.len() > 0 && seen.contains(pending[0]) {
        skip_seen(seen, pending.skip(1))
    } else {
        pending
    }
}

/// What follows when the next post is due: the first of `pending` that has
/// not been processed is handed on; where none is left the tick is over,
/// and the cursor of the page, if it came with one, is kept for the next.
pub open spec fn advance(
    m: SyncText,
    pending: Seq<Seq<char>>,
    cursor: Option<Seq<char>>,
    done: Seq<Seq<char>>,
) -> (SyncText, SyncActionText) {
    let left = skip_seen(m.seen, pending);
    if left.len() == 0 {
        (
            SyncText {
                cursor: if cursor is Some {
                    cursor
                } else {
                    m.cursor
                },
                state: SyncStateText::Idle,
                ..m
            },
            SyncActionText::TickDone { processed: done, new_cursor: cursor },
        )
    } else {
        (
            SyncText { state: SyncStateText::Processing { pending: left, cursor, done }, ..m },
            SyncActionText::ProcessPost {
                post_uri: left[0],
                readwise_token: m.token,
                extract_links: m.extract_links,
            },
        )
    }
}

/// One step: what the synchronisation knows and does after an event.
///
/// - A tick is taken only while idle: the page after the kept cursor is
///   asked for.
/// - A page that cannot be fetched ends the tick: nothing is processed and
///   the cursor stays.
/// - Of a fetched page each bookmark is handed on in order, but for those
///   that have been processed before.
/// - A post that was processed is remembered; one that failed is not, and
///   the next bookmark is handed on either way.
/// - Any other event changes nothing.
pub open spec fn next(m: SyncText, event: SyncEvent) -> (SyncText, SyncActionText) {
    match (m.state, event) {
        (SyncStateText::Idle, SyncEvent::Tick) => (
            SyncText { state: SyncStateText::Fetching, ..m },
            SyncActionText::FetchBookmarks { cursor: m.cursor },
        ),
        (SyncStateText::Fetching, SyncEvent::PageFetched(Err(e))) => (
            SyncText { state: SyncStateText::Idle, ..m },
            SyncActionText::TickFailed(e),
        ),
        (SyncStateText::Fetching, SyncEvent::PageFetched(Ok(page))) => advance(
            m,
            subjects(page.bookmarks@),
            opt_text(page.cursor),
            Seq::empty(),
        ),
        (SyncStateText::Processing { pending, cursor, done }, SyncEvent::ItemProcessed(result)) => {
            if pending.len() == 0 {
                advance(m, pending, cursor, done)
            } else if result is Ok {
                advance(
                    SyncText { seen: m.seen.push(pending[0]), ..m },
                    pending.skip(1),
                    cursor,
                    done.push(pending[0]),
                )
            } else {
                advance(m, pending.skip(1), cursor, done)
            }
        },
        _ => (m, SyncActionText::Ignore),
    }
}

/// What `skip_seen` leaves begins with a post that has not been processed,
/// is a tail of what it was given, and everything it dropped has been
/// processed.
pub proof fn lemma_skip_seen(seen: Seq<Seq<char>>, pending: Seq<Seq<char>>)
    ensures
        skip_seen(seen, pending).len() <= pending.len(),
        skip_seen(seen, pending) == pending.skip(pending.len() - skip_seen(seen, pending).len()),
        skip_seen(seen, pending).len() > 0 ==> !seen.contains(skip_seen(seen, pending)[0]),
        forall|i: int|
            0 <= i < pending.len() - skip_seen(seen, pending).len() ==> seen.contains(
                #[trigger] pending[i],
            ),
    decreases pending.len(),
{
    if pending.len() > 0 && seen.contains(pending[0]) {
        let rest = pending.skip(1);
        lemma_skip_seen(seen, rest);
        let k = rest.len() - skip_seen(seen, rest).len();
        assert(rest.skip(k) == pending.skip(k + 1));
        assert forall|i: int|
            0 <= i < pending.len() - skip_seen(seen, pending).len() implies seen.contains(
            #[trigger] pending[i],
        ) by {
            if i > 0 {
                assert(pending[i] == rest[i - 1]);
            }
        }
    } else {
        assert(pending.skip(0) == pending);
    }
}

/// No post is handed on twice: a post that is handed on has not been
/// processed before, and where its processing succeeds it counts as
/// processed from then on.
pub proof fn lemma_handed_on_once(m: SyncText, event: SyncEvent, result: Result<(), ProcessError>)
    ensures
        next(m, event).1 matches SyncActionText::ProcessPost { post_uri, .. } ==> {
            &&& !next(m, event).0.seen.contains(post_uri)
            &&& result is Ok ==> next(
                next(m, event).0,
                SyncEvent::ItemProcessed(result),
            ).0.seen.contains(post_uri)
        },
{
    let (m1, action) = next(m, event);
    if let SyncActionText::ProcessPost { post_uri, .. } = action {
        match (m.state, event) {
            (SyncStateText::Fetching, SyncEvent::PageFetched(Ok(page))) => {
                lemma_skip_seen(m.seen, subjects(page.bookmarks@));
            },
            (
                SyncStateText::Processing { pending, cursor, done },
                SyncEvent::ItemProcessed(r),
            ) => {
                if pending.len() > 0 {
                    if r is Ok {
                        lemma_skip_seen(m.seen.push(pending[0]), pending.skip(1));
                    } else {
                        lemma_skip_seen(m.seen, pending.skip(1));
                    }
                } else {
                    lemma_skip_seen(m.seen, pending);
                }
            },
            _ => {},
        }
        if result is Ok {
            let pending = m1.state->Processing_pending;
            assert(pending[0] == post_uri);
            let seen2 = m1.seen.push(post_uri);
            assert(seen2[seen2.len() - 1] == post_uri);
            assert(seen2.contains(post_uri));
        }
    }
}

/// A post whose processing fails does not stop the tick: the bookmark after
/// it is handed on, unless it has been processed before.
pub proof fn lemma_failure_does_not_stop(
    m: SyncText,
    pending: Seq<Seq<char>>,
    cursor: Option<Seq<char>>,
    done: Seq<Seq<char>>,
    e: ProcessError,
)
    requires
        m.state == (SyncStateText::Processing { pending, cursor, done }),
        pending.len() >= 2,
        !m.seen.contains(pending[1]),
    ensures
        next(m, SyncEvent::ItemProcessed(Err(e))).1 == (SyncActionText::ProcessPost {
            post_uri: pending[1],
            readwise_token: m.token,
            extract_links: m.extract_links,
        }),
        next(m, SyncEvent::ItemProcessed(Err(e))).0.seen == m.seen,
        next(m, SyncEvent::ItemProcessed(Err(e))).0.cursor == m.cursor,
{
    assert(pending.skip(1)[0] == pending[1]);
}

/// A page that cannot be fetched leaves the cursor and the processed posts
/// as they were, and the next tick asks for the same page again.
pub proof fn lemma_failed_fetch_keeps_cursor(m: SyncText, e: ProcessError)
    requires
        m.state is Fetching,
    ensures
        next(m, SyncEvent::PageFetched(Err(e))).0 == (SyncText { state: SyncStateText::Idle, ..m }),
        next(next(m, SyncEvent::PageFetched(Err(e))).0, SyncEvent::Tick).1 == (
        SyncActionText::FetchBookmarks { cursor: m.cursor }),
{
}

/// What the synchronisation knows in the end, and the actions given, in
/// order, when `events` arrive one after another.
pub open spec fn run(m: SyncText, events: Seq<SyncEvent>) -> (SyncText, Seq<SyncActionText>)
    decreases events.len(),
{
    if events.len() == 0 {
        (m, Seq::empty())
    } else {
        let (m1, action) = next(m, events[0]);
        let (m2, actions) = run(m1, events.skip(1));
        (m2, seq![action] + actions)
    }
}

/// The events that report the outcomes `results` of processing, in order.
pub open spec fn processed(results: Seq<Result<(), ProcessError>>) -> Seq<SyncEvent> {
    results.map_values(|r: Result<(), ProcessError>| SyncEvent::ItemProcessed(r))
}

/// The handing on of `posts`, one action each, in order.
pub open spec fn hand_ons(m: SyncText, posts: Seq<Seq<char>>) -> Seq<SyncActionText> {
    posts.map_values(
        |uri: Seq<char>|
            SyncActionText::ProcessPost {
                post_uri: uri,
                readwise_token: m.token,
                extract_links: m.extract_links,
            },
    )
}

/// Those of `posts` whose processing succeeded, where `results[i]` is the
/// outcome of processing `posts[i]`.
pub open spec fn succeeded(posts: Seq<Seq<char>>, results: Seq<Result<(), ProcessError>>) -> Seq<
    Seq<char>,
>
    decreases posts.len(),
{
    if posts.len() == 0 || results.len() == 0 {
        Seq::empty()
    } else if results[0] is Ok {
        seq![posts[0]] + succeeded(posts.skip(1), results.skip(1))
    } else {
        succeeded(posts.skip(1), results.skip(1))
    }
}

/// A page of posts that are all different and none of which has been
/// processed before: every one of them is handed on exactly once, in the
/// order of the page, whatever came of the ones before it; the tick ends
/// with the posts that were processed, which then count as processed, and
/// with the cursor of the page kept for the next tick if there is one.
pub proof fn lemma_page_processed_in_order(
    m: SyncText,
    pending: Seq<Seq<char>>,
    cursor: Option<Seq<char>>,
    done: Seq<Seq<char>>,
    results: Seq<Result<(), ProcessError>>,
)
    requires
        m.state == (SyncStateText::Processing { pending, cursor, done }),
        pending.len() >= 1,
        results.len() == pending.len(),
        pending.no_duplicates(),
        forall|i: int| 0 <= i < pending.len() ==> !m.seen.contains(#[trigger] pending[i]),
    ensures
        run(m, processed(results)) == (
            SyncText {
                cursor: if cursor is Some {
                    cursor
                } else {
                    m.cursor
                },
                seen: m.seen + succeeded(pending, results),
                state: SyncStateText::Idle,
                ..m
            },
            hand_ons(m, pending.skip(1)) + seq![
                SyncActionText::TickDone {
                    processed: done + succeeded(pending, results),
                    new_cursor: cursor,
                },
            ],
        ),
    decreases pending.len(),
{
    let events = processed(results);
    let rest = pending.skip(1);
    let good = results[0] is Ok;
    let seen1 = if good {
        m.seen.push(pending[0])
    } else {
        m.seen
    };
    let done1 = if good {
        done.push(pending[0])
    } else {
        done
    };
    let m1 = SyncText { seen: seen1, ..m };
    assert(events[0] == SyncEvent::ItemProcessed(results[0]));
    assert(next(m, events[0]) == advance(m1, rest, cursor, done1));
    assert(events.skip(1) == processed(results.skip(1)));
    assert forall|i: int| 0 <= i < rest.len() implies !seen1.contains(#[trigger] rest[i]) by {
        assert(rest[i] == pending[i + 1]);
        if seen1.contains(rest[i]) {
            let k = choose|k: int| 0 <= k < seen1.len() && seen1[k] == rest[i];
            if k < m.seen.len() {
                assert(m.seen[k] == rest[i]);
                assert(m.seen.contains(pending[i + 1]));
            } else {
                assert(pending[0] == pending[i + 1]);
            }
        }
    }
    assert(m.seen + succeeded(pending, results) == seen1 + succeeded(rest, results.skip(1)))
        by {
        if good {
            assert(m.seen + (seq![pending[0]] + succeeded(rest, results.skip(1)))
                == m.seen.push(pending[0]) + succeeded(rest, results.skip(1)));
        }
    }
    assert(done + succeeded(pending, results) == done1 + succeeded(rest, results.skip(1))) by {
        if good {
            assert(done + (seq![pending[0]] + succeeded(rest, results.skip(1))) == done.push(
                pending[0],
            ) + succeeded(rest, results.skip(1)));
        }
    }
    let none = Seq::<SyncActionText>::empty();
    if rest.len() == 0 {
        assert(skip_seen(seen1, rest) == rest);
        assert(succeeded(rest, results.skip(1)) == Seq::<Seq<char>>::empty());
        assert(seen1 + Seq::<Seq<char>>::empty() == seen1);
        assert(done1 + Seq::<Seq<char>>::empty() == done1);
        let end = advance(m1, rest, cursor, done1);
        assert(run(end.0, events.skip(1)) == (end.0, none));
        assert(hand_ons(m, rest) == none);
        assert(seq![end.1] + none == none + seq![end.1]);
    } else {
        assert(!seen1.contains(rest[0]));
        assert(skip_seen(seen1, rest) == rest);
        assert(rest.no_duplicates()) by {
            assert forall|i: int, j: int| 0 <= i < rest.len() && 0 <= j < rest.len() && i
                != j implies rest[i] != rest[j] by {
                assert(rest[i] == pending[i + 1]);
                assert(rest[j] == pending[j + 1]);
            }
        }
        let m2 = SyncText {
            state: SyncStateText::Processing { pending: rest, cursor, done: done1 },
            ..m1
        };
        lemma_page_processed_in_order(m2, rest, cursor, done1, results.skip(1));
        let first = SyncActionText::ProcessPost {
            post_uri: rest[0],
            readwise_token: m.token,
            extract_links: m.extract_links,
        };
        let last = seq![
            SyncActionText::TickDone {
                processed: done1 + succeeded(rest, results.skip(1)),
                new_cursor: cursor,
            },
        ];
        assert(hand_ons(m2, rest.skip(1)) == hand_ons(m, rest.skip(1)));
        assert(hand_ons(m, rest) == seq![first] + hand_ons(m, rest.skip(1)));
        assert(seq![first] + (hand_ons(m, rest.skip(1)) + last) == (seq![first] + hand_ons(
            m,
            rest.skip(1),
        )) + last);
    }
}

/// The synchronisation of one user's bookmarks.
#[derive(Debug)]
pub struct BookmarkSyncService {
    pub config: BookmarkSyncConfig,
    pub settings: UserSettings,
    /// The posts that have been processed, now or earlier.
    pub seen: Vec<String>,
    pub state: SyncState,
}

fn subjects_of(bookmarks: &Vec<BookmarkView>) -> (uris: Vec<String>)
    ensures
        string_texts(uris@) == subjects(bookmarks@),
{
    let mut uris: Vec<String> = Vec::new();
    let mut i: usize = 0;
    while i < bookmarks.len()
        invariant
            i <= bookmarks.len(),
            string_texts(uris@) == subjects(bookmarks@).take(i as int),
        decreases bookmarks.len() - i,
    {
        let ghost before = string_texts(uris@);
        uris.push(bookmarks[i].subject.uri.clone());
        assert(string_texts(uris@) == before.push(bookmarks@[i as int].subject.uri@));
        assert(subjects(bookmarks@).take(i + 1) == subjects(bookmarks@).take(i as int).push(
            bookmarks@[i as int].subject.uri@,
        ));
        i += 1;
    }
    assert(subjects(bookmarks@).take(bookmarks.len() as int) == subjects(bookmarks@));
    uris
}

fn drop_seen(seen: &Vec<String>, pending: Vec<String>) -> (left: Vec<String>)
    ensures
        string_texts(left@) == skip_seen(string_texts(seen@), string_texts(pending@)),
{
    let mut left = pending;
    while left.len() > 0 && contains_string(seen, &left[0])
        invariant
            skip_seen(string_texts(seen@), string_texts(left@)) == skip_seen(
                string_texts(seen@),
                string_texts(pending@),
            ),
        decreases left.len(),
    {
        let ghost before = string_texts(left@);
        assert(before[0] == left@[0]@);
        left.remove(0);
        assert(string_texts(left@) == before.skip(1));
    }
    proof {
        if left.len() > 0 {
            assert(string_texts(left@)[0] == left@[0]@);
        }
    }
    left
}

impl BookmarkSyncService {
    /// What the synchronisation knows and where it stands.
    pub open spec fn view(self) -> SyncText {
        SyncText {
            token: self.settings.readwise_token@,
            extract_links: self.settings.extract_links,
            cursor: opt_text(self.settings.last_bookmark_cursor),
            seen: string_texts(self.seen@),
            state: self.state@,
        }
    }

    /// Whether `self` is for the same user as `before`, with the same
    /// settings but for the cursor, and polls as often: what no step
    /// changes.
    pub open spec fn same_account(self, before: BookmarkSyncService) -> bool {
        &&& self.config == before.config
        &&& self.settings.user_id == before.settings.user_id
        &&& self.settings.readwise_token == before.settings.readwise_token
        &&& self.settings.bookmark_sync_enabled == before.settings.bookmark_sync_enabled
        &&& self.settings.extract_links == before.settings.extract_links
        &&& self.settings.updated_at == before.settings.updated_at
    }

    /// A synchronisation that waits for its first tick. `seen` are the posts
    /// that were processed in earlier runs.
    pub fn new(config: BookmarkSyncConfig, settings: UserSettings, seen: Vec<String>) -> (service:
        BookmarkSyncService)
        ensures
            service.config == config,
            service.settings == settings,
            service.seen == seen,
            service.state is Idle,
    {
        BookmarkSyncService { config, settings, seen, state: SyncState::Idle }
    }

    fn proceed(self, pending: Vec<String>, cursor: Option<String>, done: Vec<String>) -> (r: (
        BookmarkSyncService,
        SyncAction,
    ))
        ensures
            r.0.same_account(self),
            r.1.shows(
                advance(self.view(), string_texts(pending@), opt_text(cursor), string_texts(done@)).1,
            ),
            r.0.view() == advance(
                self.view(),
                string_texts(pending@),
                opt_text(cursor),
                string_texts(done@),
            ).0,
    {
        let BookmarkSyncService { config, settings, seen, state } = self;
        let left = drop_seen(&seen, pending);
        if left.len() == 0 {
            let UserSettings {
                user_id,
                readwise_token,
                bookmark_sync_enabled,
                extract_links,
                last_bookmark_cursor,
                updated_at,
            } = settings;
            let kept = match &cursor {
                Some(c) => Some(c.clone()),
                None => last_bookmark_cursor,
            };
            (
                BookmarkSyncService {
                    config,
                    settings: UserSettings {
                        user_id,
                        readwise_token,
                        bookmark_sync_enabled,
                        extract_links,
                        last_bookmark_cursor: kept,
                        updated_at,
                    },
                    seen,
                    state: SyncState::Idle,
                },
                SyncAction::TickDone { processed: done, new_cursor: cursor },
            )
        } else {
            let action = SyncAction::ProcessPost {
                post_uri: left[0].clone(),
                readwise_token: settings.readwise_token.clone(),
                options: ProcessOptions { extract_links: settings.extract_links, note: None },
            };
            assert(string_texts(left@)[0] == left@[0]@);
            (
                BookmarkSyncService {
                    config,
                    settings,
                    seen,
                    state: SyncState::Processing { pending: left, cursor, done },
                },
                action,
            )
        }
    }

    /// Takes an event, and answers with the synchronisation as it stands
    /// after it and with what to do next. The user, the settings other than
    /// the cursor, and the polling interval never change.
    pub fn step(self, event: SyncEvent) -> (r: (BookmarkSyncService, SyncAction))
        ensures
            r.0.same_account(self),
            r.0.view() == next(self.view(), event).0,
            r.1.shows(next(self.view(), event).1),
    {
        let BookmarkSyncService { config, settings, seen, state } = self;
        match (state, event) {
            (SyncState::Idle, SyncEvent::Tick) => {
                let cursor = match &settings.last_bookmark_cursor {
                    Some(c) => Some(c.clone()),
                    None => None,
                };
                (
                    BookmarkSyncService { config, settings, seen, state: SyncState::Fetching },
                    SyncAction::FetchBookmarks { cursor },
                )
            },
            (SyncState::Fetching, SyncEvent::PageFetched(Err(e))) => (
                BookmarkSyncService { config, settings, seen, state: SyncState::Idle },
                SyncAction::TickFailed(e),
            ),
            (SyncState::Fetching, SyncEvent::PageFetched(Ok(page))) => {
                let this = BookmarkSyncService { config, settings, seen, state: SyncState::Fetching };
                let pending = subjects_of(&page.bookmarks);
                let done: Vec<String> = Vec::new();
                assert(string_texts(done@) == Seq::<Seq<char>>::empty());
                this.proceed(pending, page.cursor, done)
            },
            (
                SyncState::Processing { pending, cursor, done },
                SyncEvent::ItemProcessed(result),
            ) => {
                let mut seen = seen;
                let mut pending = pending;
                let mut done = done;
                if pending.len() > 0 {
                    let ghost before = string_texts(pending@);
                    let ghost seen_before = string_texts(seen@);
                    let ghost done_before = string_texts(done@);
                    let first = pending.remove(0);
                    assert(string_texts(pending@) == before.skip(1));
                    assert(first@ == before[0]);
                    if result.is_ok() {
                        seen.push(first.clone());
                        done.push(first);
                        assert(string_texts(seen@) == seen_before.push(before[0]));
                        assert(string_texts(done@) == done_before.push(before[0]));
                    }
                }
                let this = BookmarkSyncService { config, settings, seen, state: SyncState::Idle };
                this.proceed(pending, cursor, done)
            },
            (state, _) => (BookmarkSyncService { config, settings, seen, state }, SyncAction::Ignore),
        }
    }
}

} // verus!
