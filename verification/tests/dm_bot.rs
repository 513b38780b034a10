use readwise_autosave::bindings::TextMatch;
use readwise_autosave::error::ProcessError;
use readwise_autosave::services::dm_bot::{DmBotConfig, DmBotService, DmCommand, DmStep};
use std::time::Duration;

#[test]
fn test_parse_save_post() {
    let msg = "https://bsky.app/profile/test.bsky.social/post/abc123";
    let cmd = DmBotService::parse_message(msg);

    match cmd {
        DmCommand::SavePost { post_url, note, extract_links } => {
            assert_eq!(post_url, "https://bsky.app/profile/test.bsky.social/post/abc123");
            assert!(note.is_none());
            assert!(!extract_links);
        }
        _ => panic!("Expected SavePost command"),
    }
}

#[test]
fn test_parse_save_post_with_links() {
    let msg = "https://bsky.app/profile/test.bsky.social/post/abc123 +links";
    let cmd = DmBotService::parse_message(msg);

    match cmd {
        DmCommand::SavePost { extract_links, .. } => {
            assert!(extract_links);
        }
        _ => panic!("Expected SavePost command"),
    }
}

#[test]
fn test_parse_save_post_with_note() {
    let msg = "https://bsky.app/profile/test.bsky.social/post/abc123 Great thread!";
    let cmd = DmBotService::parse_message(msg);

    match cmd {
        DmCommand::SavePost { note, .. } => {
            assert_eq!(note, Some("Great thread!".to_string()));
        }
        _ => panic!("Expected SavePost command"),
    }
}

#[test]
fn test_parse_help() {
    let cmd = DmBotService::parse_message("help");
    assert_eq!(cmd, DmCommand::Help);
}

#[test]
fn test_parse_register() {
    let cmd = DmBotService::parse_message("register abc123token");
    match cmd {
        DmCommand::Register { readwise_token } => {
            assert_eq!(readwise_token, "abc123token");
        }
        _ => panic!("Expected Register command"),
    }
}

#[test]
fn test_url_to_at_uri() {
    let url = "https://bsky.app/profile/test.bsky.social/post/abc123";
    let uri = DmBotService::url_to_at_uri(url).unwrap();
    assert_eq!(uri, "at://test.bsky.social/app.bsky.feed.post/abc123");
}

#[test]
fn parse_keywords_in_any_case() {
    assert_eq!(DmBotService::parse_message("help"), DmCommand::Help);
    assert_eq!(DmBotService::parse_message("HELP"), DmCommand::Help);
    assert_eq!(DmBotService::parse_message("  Help \n"), DmCommand::Help);
    assert_eq!(DmBotService::parse_message("settings"), DmCommand::Settings);
    assert_eq!(DmBotService::parse_message("SeTTings"), DmCommand::Settings);
}

#[test]
fn parse_register_trims_token() {
    assert_eq!(
        DmBotService::parse_message("register tok123"),
        DmCommand::Register { readwise_token: "tok123".to_string() }
    );
    assert_eq!(
        DmBotService::parse_message("  register    tok123  "),
        DmCommand::Register { readwise_token: "tok123".to_string() }
    );
    // The prefix is matched as written: another case is no registration.
    assert_eq!(
        DmBotService::parse_message("Register tok123"),
        DmCommand::Unknown("Register tok123".to_string())
    );
    // Without a token nothing follows the word, so the prefix is not there.
    assert_eq!(DmBotService::parse_message("register "), DmCommand::Unknown("register".to_string()));
}

#[test]
fn parse_flag_and_note_in_either_order() {
    let url = "https://bsky.app/profile/alice.example/post/abc123";
    let expected = DmCommand::SavePost {
        post_url: url.to_string(),
        note: Some("my note".to_string()),
        extract_links: true,
    };
    assert_eq!(DmBotService::parse_message(&format!("{} +links my note", url)), expected);
    assert_eq!(DmBotService::parse_message(&format!("{} my note +links", url)), expected);
    assert_eq!(DmBotService::parse_message(&format!("{}   my note   +links  ", url)), expected);
}

#[test]
fn parse_bare_permalink() {
    let url = "https://bsky.app/profile/alice.example/post/abc123";
    assert_eq!(
        DmBotService::parse_message(url),
        DmCommand::SavePost { post_url: url.to_string(), note: None, extract_links: false }
    );
}

#[test]
fn parse_uses_first_permalink_and_ignores_what_precedes() {
    let msg = "look: https://bsky.app/profile/a.example/post/one and https://bsky.app/profile/b.example/post/two";
    assert_eq!(
        DmBotService::parse_message(msg),
        DmCommand::SavePost {
            post_url: "https://bsky.app/profile/a.example/post/one".to_string(),
            note: Some("and https://bsky.app/profile/b.example/post/two".to_string()),
            extract_links: false,
        }
    );
}

#[test]
fn parse_flag_before_permalink_counts() {
    let msg = "+links https://bsky.app/profile/a.example/post/one";
    assert_eq!(
        DmBotService::parse_message(msg),
        DmCommand::SavePost {
            post_url: "https://bsky.app/profile/a.example/post/one".to_string(),
            note: None,
            extract_links: true,
        }
    );
}

#[test]
fn parse_unknown_keeps_trimmed_text() {
    assert_eq!(
        DmBotService::parse_message("  what is this?  "),
        DmCommand::Unknown("what is this?".to_string())
    );
    assert_eq!(DmBotService::parse_message(""), DmCommand::Unknown(String::new()));
    assert_eq!(
        DmBotService::parse_message("https://example.com/profile/a/post/b"),
        DmCommand::Unknown("https://example.com/profile/a/post/b".to_string())
    );
}

#[test]
fn parse_is_repeatable() {
    let msg = "https://bsky.app/profile/alice.example/post/abc123 +links twice";
    assert_eq!(DmBotService::parse_message(msg), DmBotService::parse_message(msg));
}

#[test]
fn parse_trims_unicode_white_space() {
    assert_eq!(DmBotService::parse_message("\u{3000}help\u{2003}"), DmCommand::Help);
}

#[test]
fn url_conversion_rejects_short_urls() {
    assert_eq!(
        DmBotService::url_to_at_uri("https://bsky.app/profile/alice.example"),
        Err(ProcessError::MalformedReference)
    );
    assert_eq!(
        DmBotService::url_to_at_uri("https://bsky.app/profile/alice.example/post"),
        Err(ProcessError::MalformedReference)
    );
    assert_eq!(DmBotService::url_to_at_uri(""), Err(ProcessError::MalformedReference));
}

#[test]
fn url_conversion_round_trips_handle_and_key() {
    assert_eq!(
        DmBotService::url_to_at_uri("https://bsky.app/profile/alice.example/post/3kabc"),
        Ok("at://alice.example/app.bsky.feed.post/3kabc".to_string())
    );
    // An empty record key is a seventh piece all the same.
    assert_eq!(
        DmBotService::url_to_at_uri("https://bsky.app/profile/alice.example/post/"),
        Ok("at://alice.example/app.bsky.feed.post/".to_string())
    );
}

#[test]
fn dispatch_answers_help_settings_and_unknown() {
    let bot = DmBotService::new(DmBotConfig::default());
    match bot.process_message("c1", "help", "tok") {
        DmStep::Reply { convo_id, text } => {
            assert_eq!(convo_id, "c1");
            assert_eq!(text, DmBotService::help_message());
            assert!(text.starts_with("\u{1F4DA} Readwise Autosave Bot\n\nCommands:\n\u{2022} Send a post URL to save it\n"));
            assert!(text.ends_with("/post/abc123 Great thread!"));
        }
        other => panic!("unexpected step {:?}", other),
    }
    match bot.process_message("c1", "settings", "tok") {
        DmStep::Reply { text, .. } => {
            assert_eq!(text, "\u{2699}\u{FE0F} Visit https://your-domain.com/dashboard to manage settings");
        }
        other => panic!("unexpected step {:?}", other),
    }
    match bot.process_message("c1", " nonsense ", "tok") {
        DmStep::Reply { text, .. } => {
            assert_eq!(
                text,
                format!("\u{2753} I didn't understand that. nonsense\n\n{}", DmBotService::help_message())
            );
        }
        other => panic!("unexpected step {:?}", other),
    }
}

#[test]
fn dispatch_registers_and_processes() {
    let bot = DmBotService::new(DmBotConfig::default());
    match bot.process_message("c2", "register secret", "old") {
        DmStep::Register { convo_id, readwise_token, text } => {
            assert_eq!(convo_id, "c2");
            assert_eq!(readwise_token, "secret");
            assert_eq!(text, "\u{2705} Registered! You can now DM me post URLs to save them.");
        }
        other => panic!("unexpected step {:?}", other),
    }
    match bot.process_message("c2", "https://bsky.app/profile/a.example/post/k1 +links note", "tok") {
        DmStep::Process { convo_id, post_uri, readwise_token, options } => {
            assert_eq!(convo_id, "c2");
            assert_eq!(post_uri, "at://a.example/app.bsky.feed.post/k1");
            assert_eq!(readwise_token, "tok");
            assert!(options.extract_links);
            assert_eq!(options.note, Some("note".to_string()));
        }
        other => panic!("unexpected step {:?}", other),
    }
}

#[test]
fn dispatch_fails_on_malformed_permalink() {
    let cmd = DmCommand::SavePost { post_url: "https://bsky.app/x".to_string(), note: None, extract_links: false };
    match DmBotService::dispatch("c", cmd, "tok") {
        DmStep::Fail(e) => assert_eq!(e, ProcessError::MalformedReference),
        other => panic!("unexpected step {:?}", other),
    }
}

#[test]
fn save_reply_acknowledges_or_passes_the_error_on() {
    assert_eq!(DmBotService::save_reply(Ok(())), Ok("\u{2705} Saved to Readwise!".to_string()));
    let e = ProcessError::UpstreamApiError { status: 500, body: "oops".to_string() };
    assert_eq!(DmBotService::save_reply(Err(e.clone())), Err(e));
}

#[test]
fn dm_bot_polls_every_ten_seconds() {
    let config = DmBotConfig::default();
    assert_eq!(config.poll_interval_secs, 10);
    assert_eq!(config.poll_interval(), Duration::from_secs(10));
}

#[test]
fn parse_permalink_with_flag_and_note() {
    let cmd = DmBotService::parse_message(
        "https://socialapp.example/profile/alice.example/post/abc123 +links my note",
    );
    assert_eq!(
        cmd,
        DmCommand::SavePost {
            post_url: "https://socialapp.example/profile/alice.example/post/abc123".to_string(),
            note: Some("my note".to_string()),
            extract_links: true,
        }
    );
    // The place of the flag does not matter.
    assert_eq!(
        DmBotService::parse_message(
            "https://socialapp.example/profile/alice.example/post/abc123 my note +links",
        ),
        cmd
    );
}

#[test]
fn parse_permalink_alone() {
    let cmd = DmBotService::parse_message(
        "https://socialapp.example/profile/alice.example/post/abc123",
    );
    assert_eq!(
        cmd,
        DmCommand::SavePost {
            post_url: "https://socialapp.example/profile/alice.example/post/abc123".to_string(),
            note: None,
            extract_links: false,
        }
    );
}

#[test]
fn parse_takes_the_domains_as_written() {
    // The dot of a domain stands for a dot only.
    assert_eq!(
        DmBotService::parse_message("https://bskyXapp/profile/h/post/k"),
        DmCommand::Unknown("https://bskyXapp/profile/h/post/k".to_string())
    );
    assert_eq!(
        DmBotService::parse_message("https://socialappXexample/profile/h/post/k"),
        DmCommand::Unknown("https://socialappXexample/profile/h/post/k".to_string())
    );
    // A domain that only ends in one of the two is another domain.
    assert_eq!(
        DmBotService::parse_message("https://notbsky.app/profile/h/post/k"),
        DmCommand::Unknown("https://notbsky.app/profile/h/post/k".to_string())
    );
}

#[test]
fn command_from_a_given_find() {
    use_find(
        "  see https://x.example/p  +links  rest ",
        Some(("see ", "https://x.example/p", "  +links  rest")),
        DmCommand::SavePost {
            post_url: "https://x.example/p".to_string(),
            note: Some("rest".to_string()),
            extract_links: true,
        },
    );
    // Keywords win over a find, and without a find the text is unknown.
    use_find("help", Some(("", "help", "")), DmCommand::Help);
    use_find("register t", Some(("", "r", "")), DmCommand::Register { readwise_token: "t".to_string() });
    use_find(" what ", None, DmCommand::Unknown("what".to_string()));
    // A note of nothing but flags is no note.
    use_find(
        "u +links +links",
        Some(("", "u", " +links +links")),
        DmCommand::SavePost { post_url: "u".to_string(), note: None, extract_links: true },
    );
}

fn use_find(text: &str, found: Option<(&str, &str, &str)>, expected: DmCommand) {
    let found = found.map(|(before, matched, after)| TextMatch {
        before: before.to_string(),
        matched: matched.to_string(),
        after: after.to_string(),
    });
    assert_eq!(DmBotService::command_from_match(text, found), expected);
}
