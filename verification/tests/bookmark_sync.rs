use readwise_autosave::bluesky::{BookmarkItem, BookmarkResponse, BookmarkView, StrongRef};
use readwise_autosave::db::models::UserSettings;
use readwise_autosave::error::ProcessError;
use readwise_autosave::services::bookmark_sync::{
    BookmarkSyncConfig, BookmarkSyncService, SyncAction, SyncEvent, SyncState,
};
use readwise_autosave::time::Timestamp;

fn settings(cursor: Option<&str>, extract_links: bool) -> UserSettings {
    UserSettings {
        user_id: 7,
        readwise_token: "tok".to_string(),
        bookmark_sync_enabled: true,
        extract_links,
        last_bookmark_cursor: cursor.map(|c| c.to_string()),
        updated_at: Timestamp::new(0, 0),
    }
}

fn bookmark(uri: &str) -> BookmarkView {
    BookmarkView {
        subject: StrongRef { uri: uri.to_string(), cid: "cid".to_string() },
        created_at: Timestamp::new(0, 0),
        item: BookmarkItem::Post,
    }
}

fn page(uris: &[&str], cursor: Option<&str>) -> BookmarkResponse {
    BookmarkResponse {
        cursor: cursor.map(|c| c.to_string()),
        bookmarks: uris.iter().map(|u| bookmark(u)).collect(),
    }
}

/// Runs one tick: the page is `fetched`, and the processing of a post fails
/// where its address is in `failing`. Returns the service, the cursors that
/// were asked with, the posts that were handed on, and the last action.
fn tick(
    service: BookmarkSyncService,
    fetched: Result<BookmarkResponse, ProcessError>,
    failing: &[&str],
) -> (BookmarkSyncService, Vec<Option<String>>, Vec<String>, SyncAction) {
    let mut fetched = Some(fetched);
    let mut asked = Vec::new();
    let mut handed = Vec::new();
    let (mut service, mut action) = service.step(SyncEvent::Tick);
    loop {
        let event = match action {
            SyncAction::FetchBookmarks { cursor } => {
                asked.push(cursor);
                SyncEvent::PageFetched(fetched.take().expect("one fetch a tick"))
            }
            SyncAction::ProcessPost { post_uri, readwise_token, options } => {
                assert_eq!(readwise_token, "tok");
                assert!(options.note.is_none());
                let fails = failing.contains(&post_uri.as_str());
                handed.push(post_uri);
                SyncEvent::ItemProcessed(if fails {
                    Err(ProcessError::UpstreamApiError { status: 502, body: String::new() })
                } else {
                    Ok(())
                })
            }
            done => return (service, asked, handed, done),
        };
        let next = service.step(event);
        service = next.0;
        action = next.1;
    }
}

#[test]
fn first_tick_asks_without_cursor_and_processes_in_order() {
    let service =
        BookmarkSyncService::new(BookmarkSyncConfig::default(), settings(None, false), vec![]);
    let (service, asked, handed, done) =
        tick(service, Ok(page(&["at://a", "at://b", "at://c"], Some("c1"))), &[]);
    assert_eq!(asked, vec![None]);
    assert_eq!(handed, vec!["at://a", "at://b", "at://c"]);
    match done {
        SyncAction::TickDone { processed, new_cursor } => {
            assert_eq!(processed, vec!["at://a", "at://b", "at://c"]);
            assert_eq!(new_cursor, Some("c1".to_string()));
        }
        other => panic!("unexpected {:?}", other),
    }
    assert!(matches!(service.state, SyncState::Idle));
    assert_eq!(service.settings.last_bookmark_cursor, Some("c1".to_string()));
    assert_eq!(service.seen, vec!["at://a", "at://b", "at://c"]);
}

#[test]
fn next_tick_starts_from_the_new_cursor() {
    let service =
        BookmarkSyncService::new(BookmarkSyncConfig::default(), settings(Some("c0"), false), vec![]);
    let (service, asked, _, _) = tick(service, Ok(page(&["at://a"], Some("c1"))), &[]);
    assert_eq!(asked, vec![Some("c0".to_string())]);
    let (service, asked, handed, _) = tick(service, Ok(page(&[], None)), &[]);
    assert_eq!(asked, vec![Some("c1".to_string())]);
    assert!(handed.is_empty());
    // A page without a cursor leaves the kept one in place.
    assert_eq!(service.settings.last_bookmark_cursor, Some("c1".to_string()));
}

#[test]
fn failing_item_does_not_stop_the_page() {
    let service =
        BookmarkSyncService::new(BookmarkSyncConfig::default(), settings(None, true), vec![]);
    let (service, _, handed, done) =
        tick(service, Ok(page(&["at://a", "at://b", "at://c"], None)), &["at://b"]);
    assert_eq!(handed, vec!["at://a", "at://b", "at://c"]);
    match done {
        SyncAction::TickDone { processed, .. } => assert_eq!(processed, vec!["at://a", "at://c"]),
        other => panic!("unexpected {:?}", other),
    }
    // What failed is not remembered, and is tried again when it shows up.
    assert_eq!(service.seen, vec!["at://a", "at://c"]);
    let (_, _, handed, _) = tick(service, Ok(page(&["at://a", "at://b"], None)), &[]);
    assert_eq!(handed, vec!["at://b"]);
}

#[test]
fn failing_fetch_ends_the_tick_and_keeps_the_cursor() {
    let service =
        BookmarkSyncService::new(BookmarkSyncConfig::default(), settings(Some("c0"), false), vec![]);
    let (service, asked, handed, done) =
        tick(service, Err(ProcessError::AuthenticationRequired), &[]);
    assert_eq!(asked, vec![Some("c0".to_string())]);
    assert!(handed.is_empty());
    assert!(matches!(done, SyncAction::TickFailed(ProcessError::AuthenticationRequired)));
    assert!(matches!(service.state, SyncState::Idle));
    assert_eq!(service.settings.last_bookmark_cursor, Some("c0".to_string()));
    // The loop goes on with the next tick.
    let (_, asked, handed, _) = tick(service, Ok(page(&["at://a"], None)), &[]);
    assert_eq!(asked, vec![Some("c0".to_string())]);
    assert_eq!(handed, vec!["at://a"]);
}

#[test]
fn posts_processed_before_are_skipped() {
    let service = BookmarkSyncService::new(
        BookmarkSyncConfig::default(),
        settings(None, false),
        vec!["at://a".to_string(), "at://c".to_string()],
    );
    let (_, _, handed, done) =
        tick(service, Ok(page(&["at://a", "at://b", "at://c", "at://b", "at://d"], None)), &[]);
    // The second bookmark of `at://b` comes after its first was processed.
    assert_eq!(handed, vec!["at://b", "at://d"]);
    match done {
        SyncAction::TickDone { processed, .. } => assert_eq!(processed, vec!["at://b", "at://d"]),
        other => panic!("unexpected {:?}", other),
    }
}

#[test]
fn options_follow_the_settings() {
    let service =
        BookmarkSyncService::new(BookmarkSyncConfig::default(), settings(None, true), vec![]);
    let (service, _) = service.step(SyncEvent::Tick);
    let (_, action) = service.step(SyncEvent::PageFetched(Ok(page(&["at://a"], None))));
    match action {
        SyncAction::ProcessPost { options, .. } => assert!(options.extract_links),
        other => panic!("unexpected {:?}", other),
    }
}

#[test]
fn steps_leave_user_and_settings_alone() {
    let service =
        BookmarkSyncService::new(BookmarkSyncConfig::default(), settings(Some("c0"), true), vec![]);
    let (service, _, _, _) = tick(service, Ok(page(&["at://a", "at://b"], Some("c1"))), &["at://a"]);
    assert_eq!(service.config, BookmarkSyncConfig::default());
    assert_eq!(service.settings.user_id, 7);
    assert_eq!(service.settings.readwise_token, "tok");
    assert!(service.settings.bookmark_sync_enabled);
    assert!(service.settings.extract_links);
    assert_eq!(service.settings.updated_at, Timestamp::new(0, 0));
    assert_eq!(service.settings.last_bookmark_cursor, Some("c1".to_string()));
}

#[test]
fn sync_ignores_unexpected_events() {
    let service =
        BookmarkSyncService::new(BookmarkSyncConfig::default(), settings(None, false), vec![]);
    let (service, action) = service.step(SyncEvent::ItemProcessed(Ok(())));
    assert!(matches!(action, SyncAction::Ignore));
    assert!(matches!(service.state, SyncState::Idle));
    let (service, _) = service.step(SyncEvent::Tick);
    let (service, action) = service.step(SyncEvent::Tick);
    assert!(matches!(action, SyncAction::Ignore));
    assert!(matches!(service.state, SyncState::Fetching));
}
