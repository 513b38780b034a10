use readwise_autosave::bluesky::{
    Author, ByteSlice, Facet, FacetFeature, PostRecord, PostView, ReplyRef, StrongRef,
    ThreadViewPost,
};
use readwise_autosave::content::formatter::{
    collect_thread_posts, extract_rkey, format_post_as_highlight, format_post_block,
    format_posts_as_document, format_posts_as_html, format_thread_as_document, format_timestamp,
    html_escape, is_thread,
};
use readwise_autosave::content::links::{extract_links, extract_links_from_facet};
use readwise_autosave::time::Timestamp;

fn post(handle: &str, name: Option<&str>, rkey: &str, text: &str, secs: i64) -> PostView {
    PostView {
        uri: format!("at://did:plc:{}/app.bsky.feed.post/{}", handle, rkey),
        cid: format!("cid-{}", rkey),
        author: Author {
            did: format!("did:plc:{}", handle),
            handle: handle.to_string(),
            display_name: name.map(|n| n.to_string()),
        },
        record: PostRecord {
            text: text.to_string(),
            created_at: Timestamp::new(secs, 0),
            reply: None,
            facets: None,
        },
        indexed_at: Timestamp::new(secs, 0),
    }
}

fn node(p: PostView) -> ThreadViewPost {
    ThreadViewPost { post: p, parent: None, replies: None }
}

#[test]
fn test_extract_rkey() {
    let uri = "at://did:plc:abc123/app.bsky.feed.post/xyz789";
    assert_eq!(extract_rkey(uri), "xyz789");
}

#[test]
fn test_html_escape() {
    assert_eq!(html_escape("<script>"), "&lt;script&gt;");
    assert_eq!(html_escape("a & b"), "a &amp; b");
}

#[test]
fn test_extract_links_empty() {
    let record = PostRecord {
        text: "No links here".to_string(),
        created_at: Timestamp::new(1_700_000_000, 0),
        reply: None,
        facets: None,
    };
    assert!(extract_links(&record).is_empty());
}

#[test]
fn test_extract_links_with_link() {
    let record = PostRecord {
        text: "Check this out: https://example.com".to_string(),
        created_at: Timestamp::new(1_700_000_000, 0),
        reply: None,
        facets: Some(vec![Facet {
            index: ByteSlice { byte_start: 16, byte_end: 35 },
            features: vec![FacetFeature::Link { uri: "https://example.com".to_string() }],
        }]),
    };
    let links = extract_links(&record);
    assert_eq!(links.len(), 1);
    assert_eq!(links[0], "https://example.com");
}

#[test]
fn extract_rkey_edge_cases() {
    assert_eq!(extract_rkey("no-slash"), "no-slash");
    assert_eq!(extract_rkey("ends/with/"), "");
    assert_eq!(extract_rkey(""), "");
    assert_eq!(extract_rkey("/"), "");
    assert_eq!(extract_rkey("a/b"), "b");
}

#[test]
fn html_escape_covers_all_four_and_nothing_else() {
    assert_eq!(html_escape("&<>\""), "&amp;&lt;&gt;&quot;");
    assert_eq!(html_escape("it's \u{00e9}\u{1F600} fine"), "it's \u{00e9}\u{1F600} fine");
    assert_eq!(html_escape(""), "");
    assert_eq!(html_escape("&amp;"), "&amp;amp;");
    assert_eq!(html_escape("a \"b\" <c> & d"), "a &quot;b&quot; &lt;c&gt; &amp; d");
}

#[test]
fn extract_links_keeps_order_and_skips_mentions_and_tags() {
    let record = PostRecord {
        text: "x".to_string(),
        created_at: Timestamp::new(0, 0),
        reply: None,
        facets: Some(vec![
            Facet {
                index: ByteSlice { byte_start: 0, byte_end: 1 },
                features: vec![
                    FacetFeature::Mention { did: "did:plc:m".to_string() },
                    FacetFeature::Link { uri: "https://one.example".to_string() },
                ],
            },
            Facet {
                index: ByteSlice { byte_start: 1, byte_end: 2 },
                features: vec![FacetFeature::Tag { tag: "rust".to_string() }],
            },
            Facet { index: ByteSlice { byte_start: 2, byte_end: 3 }, features: vec![] },
            Facet {
                index: ByteSlice { byte_start: 3, byte_end: 4 },
                features: vec![
                    FacetFeature::Link { uri: "https://two.example".to_string() },
                    FacetFeature::Link { uri: "https://three.example".to_string() },
                ],
            },
        ]),
    };
    assert_eq!(
        extract_links(&record),
        vec![
            "https://one.example".to_string(),
            "https://two.example".to_string(),
            "https://three.example".to_string()
        ]
    );
    let facets = record.facets.unwrap();
    assert_eq!(extract_links_from_facet(&facets[0]), vec!["https://one.example".to_string()]);
    assert!(extract_links_from_facet(&facets[1]).is_empty());
    assert!(extract_links_from_facet(&facets[2]).is_empty());
}

#[test]
fn extract_links_of_empty_facet_list() {
    let record = PostRecord {
        text: "x".to_string(),
        created_at: Timestamp::new(0, 0),
        reply: None,
        facets: Some(vec![]),
    };
    assert!(extract_links(&record).is_empty());
}

#[test]
fn highlight_has_all_fields() {
    let p = post("test.bsky.social", Some("Test User"), "abc123", "Hello, world!", 0);
    let h = format_post_as_highlight(&p, Some("a note"));
    assert_eq!(h.text, "Hello, world!");
    assert_eq!(h.title, Some("Post by @test.bsky.social".to_string()));
    assert_eq!(h.author, Some("Test User".to_string()));
    assert_eq!(
        h.source_url,
        Some("https://bsky.app/profile/test.bsky.social/post/abc123".to_string())
    );
    assert_eq!(h.category, Some("tweets".to_string()));
    assert_eq!(h.note, Some("a note".to_string()));
}

#[test]
fn highlight_falls_back_to_handle_and_no_note() {
    let p = post("anon.example", None, "k", "text", 0);
    let h = format_post_as_highlight(&p, None);
    assert_eq!(h.author, Some("anon.example".to_string()));
    assert_eq!(h.note, None);
}

#[test]
fn is_thread_follows_the_reply_mark() {
    let mut p = post("a.example", None, "k", "text", 0);
    assert!(!is_thread(&p));
    p.record.reply = Some(ReplyRef {
        root: StrongRef { uri: "at://r".to_string(), cid: "c".to_string() },
        parent: StrongRef { uri: "at://p".to_string(), cid: "c".to_string() },
    });
    assert!(is_thread(&p));
}

#[test]
fn timestamp_is_written_in_utc() {
    assert_eq!(format_timestamp(&Timestamp::new(0, 0)), "1970-01-01 00:00:00 UTC");
    assert_eq!(format_timestamp(&Timestamp::new(1431648000, 0)), "2015-05-15 00:00:00 UTC");
    assert_eq!(
        format_timestamp(&Timestamp::new(1_700_000_000, 999_999_999)),
        "2023-11-14 22:13:20 UTC"
    );
    assert_eq!(format_timestamp(&Timestamp::new(-1, 0)), "1969-12-31 23:59:59 UTC");
}

#[test]
fn timestamp_out_of_range_is_empty() {
    assert_eq!(format_timestamp(&Timestamp::new(i64::MAX, 0)), "");
    assert_eq!(format_timestamp(&Timestamp::new(0, 2_000_000_000)), "");
}

#[test]
fn post_block_is_escaped() {
    let p = post("h.example", Some("A <b> & \"C\""), "k", "1 < 2 & 3 > 2", 0);
    assert_eq!(
        format_post_block(&p, "ST<AMP>"),
        "<div class=\"post\">\n<p class=\"author\"><strong>A &lt;b&gt; &amp; &quot;C&quot;</strong> <span class=\"handle\">@h.example</span></p>\n<p class=\"content\">1 &lt; 2 &amp; 3 &gt; 2</p>\n<p class=\"timestamp\">ST&lt;AMP&gt;</p>\n</div>\n"
    );
}

#[test]
fn thread_posts_run_from_root_to_replies() {
    let root = node(post("root.example", Some("Root"), "r0", "first", 10));
    let mid = ThreadViewPost {
        post: post("mid.example", None, "m1", "second", 20),
        parent: Some(Box::new(root)),
        replies: None,
    };
    let thread = ThreadViewPost {
        post: post("leaf.example", None, "l2", "third", 30),
        parent: Some(Box::new(mid)),
        replies: Some(vec![
            ThreadViewPost {
                post: post("r1.example", None, "a", "reply one", 40),
                parent: None,
                // Answers to answers are not shown.
                replies: Some(vec![node(post("deep.example", None, "d", "deep", 50))]),
            },
            node(post("r2.example", None, "b", "reply two", 60)),
        ]),
    };
    let nodes = collect_thread_posts(&thread);
    let texts: Vec<&str> = nodes.iter().map(|n| n.post.record.text.as_str()).collect();
    assert_eq!(texts, vec!["first", "second", "third", "reply one", "reply two"]);

    let doc = format_thread_as_document(&thread);
    assert_eq!(doc.url, "https://bsky.app/profile/root.example/post/r0");
    assert_eq!(doc.title, Some("Thread by @root.example".to_string()));
    assert_eq!(doc.author, Some("Root".to_string()));
    assert_eq!(doc.tags, Some(vec!["source-platform".to_string(), "thread".to_string()]));
    let html = doc.html.unwrap();
    assert!(html.starts_with("<article class=\"bluesky-thread\">\n<div class=\"post\">\n"));
    assert!(html.ends_with("</div>\n</article>"));
    assert_eq!(html.matches("<div class=\"post\">").count(), 5);
    let first = html.find("first").unwrap();
    let third = html.find("third").unwrap();
    let reply_two = html.find("reply two").unwrap();
    assert!(first < third && third < reply_two);
    assert!(!html.contains("deep"));
    assert!(html.contains("<p class=\"timestamp\">1970-01-01 00:00:10 UTC</p>"));
}

#[test]
fn thread_of_one_post_is_that_post() {
    let thread = node(post("solo.example", None, "s", "alone", 0));
    let nodes = collect_thread_posts(&thread);
    assert_eq!(nodes.len(), 1);
    let doc = format_thread_as_document(&thread);
    assert_eq!(doc.url, "https://bsky.app/profile/solo.example/post/s");
    assert_eq!(doc.author, Some("solo.example".to_string()));
    assert_eq!(
        doc.html,
        Some(
            "<article class=\"bluesky-thread\">\n<div class=\"post\">\n<p class=\"author\"><strong>solo.example</strong> <span class=\"handle\">@solo.example</span></p>\n<p class=\"content\">alone</p>\n<p class=\"timestamp\">1970-01-01 00:00:00 UTC</p>\n</div>\n</article>"
                .to_string()
        )
    );
}

#[test]
fn document_of_no_posts_falls_back() {
    let nodes: Vec<&ThreadViewPost> = Vec::new();
    assert_eq!(format_posts_as_html(&nodes), "<article class=\"bluesky-thread\">\n</article>");
    let doc = format_posts_as_document(&nodes);
    assert_eq!(doc.url, "");
    assert_eq!(doc.title, Some("Thread".to_string()));
    assert_eq!(doc.author, Some("Unknown".to_string()));
    assert_eq!(doc.tags, Some(vec!["source-platform".to_string(), "thread".to_string()]));
}
