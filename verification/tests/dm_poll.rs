use readwise_autosave::error::ProcessError;
use readwise_autosave::services::dm_bot::{DmBotConfig, DmBotService, DmStep};
use readwise_autosave::services::dm_poll::{
    DmPoller, IncomingMessage, PollAction, PollEvent, PollState,
};

fn message(id: &str, text: &str) -> IncomingMessage {
    IncomingMessage {
        id: id.to_string(),
        convo_id: format!("convo-{}", id),
        text: text.to_string(),
        readwise_token: format!("token-{}", id),
    }
}

fn poller(seen: &[&str]) -> DmPoller {
    DmPoller::new(
        DmBotService::new(DmBotConfig::default()),
        seen.iter().map(|s| s.to_string()).collect(),
    )
}

/// Runs one tick. A message fails where its step is a failure or its
/// identifier is in `failing`. Returns the poller, the steps handed on with
/// their messages, and the last action.
fn poll(
    poller: DmPoller,
    listed: Result<Vec<IncomingMessage>, ProcessError>,
    failing: &[&str],
) -> (DmPoller, Vec<(String, DmStep)>, PollAction) {
    let mut listed = Some(listed);
    let mut handed = Vec::new();
    let (mut poller, mut action) = poller.step(PollEvent::Tick);
    loop {
        let event = match action {
            PollAction::ListMessages => PollEvent::MessagesListed(listed.take().expect("one listing")),
            PollAction::Handle { message_id, step } => {
                let outcome = match &step {
                    DmStep::Fail(e) => Err(e.clone()),
                    _ if failing.contains(&message_id.as_str()) => {
                        Err(ProcessError::UpstreamApiError { status: 500, body: String::new() })
                    }
                    _ => Ok(()),
                };
                handed.push((message_id, step));
                PollEvent::MessageHandled(outcome)
            }
            done => return (poller, handed, done),
        };
        let next = poller.step(event);
        poller = next.0;
        action = next.1;
    }
}

#[test]
fn messages_are_read_and_handed_on_in_order() {
    let (poller, handed, done) = poll(
        poller(&[]),
        Ok(vec![
            message("m1", "help"),
            message("m2", "https://bsky.app/profile/a.example/post/k1 +links"),
            message("m3", "register abc"),
        ]),
        &[],
    );
    assert_eq!(handed.len(), 3);
    assert_eq!(handed[0].0, "m1");
    match &handed[0].1 {
        DmStep::Reply { convo_id, text } => {
            assert_eq!(convo_id, "convo-m1");
            assert_eq!(*text, DmBotService::help_message());
        }
        other => panic!("unexpected {:?}", other),
    }
    match &handed[1].1 {
        DmStep::Process { convo_id, post_uri, readwise_token, options } => {
            assert_eq!(convo_id, "convo-m2");
            assert_eq!(post_uri, "at://a.example/app.bsky.feed.post/k1");
            assert_eq!(readwise_token, "token-m2");
            assert!(options.extract_links);
        }
        other => panic!("unexpected {:?}", other),
    }
    assert!(matches!(&handed[2].1, DmStep::Register { readwise_token, .. } if readwise_token == "abc"));
    match done {
        PollAction::TickDone { handled } => assert_eq!(handled, vec!["m1", "m2", "m3"]),
        other => panic!("unexpected {:?}", other),
    }
    assert!(matches!(poller.state, PollState::Idle));
    assert_eq!(poller.seen, vec!["m1", "m2", "m3"]);
}

#[test]
fn handled_messages_are_not_handled_again() {
    let (poller, handed, _) = poll(
        poller(&["m1"]),
        Ok(vec![message("m1", "help"), message("m2", "help"), message("m2", "settings")]),
        &[],
    );
    assert_eq!(handed.len(), 1);
    assert_eq!(handed[0].0, "m2");
    let (_, handed, done) = poll(poller, Ok(vec![message("m1", "help"), message("m2", "help")]), &[]);
    assert!(handed.is_empty());
    assert!(matches!(done, PollAction::TickDone { handled } if handled.is_empty()));
}

#[test]
fn failing_message_does_not_stop_the_others() {
    let (poller, handed, done) = poll(
        poller(&[]),
        Ok(vec![message("m1", "help"), message("m2", "help"), message("m3", "help")]),
        &["m2"],
    );
    assert_eq!(handed.len(), 3);
    assert!(matches!(done, PollAction::TickDone { handled } if handled == vec!["m1", "m3"]));
    assert_eq!(poller.seen, vec!["m1", "m3"]);
}

#[test]
fn failing_listing_ends_the_tick() {
    let (poller, handed, done) = poll(poller(&[]), Err(ProcessError::AuthenticationRequired), &[]);
    assert!(handed.is_empty());
    assert!(matches!(done, PollAction::TickFailed(ProcessError::AuthenticationRequired)));
    assert!(matches!(poller.state, PollState::Idle));
    let (_, handed, _) = poll(poller, Ok(vec![message("m1", "help")]), &[]);
    assert_eq!(handed.len(), 1);
}

#[test]
fn poller_ignores_unexpected_events() {
    let (poller, action) = poller(&[]).step(PollEvent::MessageHandled(Ok(())));
    assert!(matches!(action, PollAction::Ignore));
    assert!(matches!(poller.state, PollState::Idle));
}
