//! Payloads from posts and threads: a single post becomes a highlight, a
//! thread becomes a document whose page shows its posts one after another.

use crate::bindings::{format_utc, push_char, utc_text};
use crate::bluesky::{Author, PostView, ThreadViewPost};
use crate::readwise::client::{Document, DocumentText, Highlight, HighlightText};
use crate::text::{
    chars_of, lemma_split_last, occurs_at, opt_str_text, split, split_chars, string_of, string_texts,
    texts,
};
use crate::time::Timestamp;
use vstd::prelude::*;

verus! {

/// The tag that names the platform the posts come from.
pub const PLATFORM_TAG: &'static str = "source-platform";

/// The tag of a document that shows a thread.
pub const THREAD_TAG: &'static str = "thread";

/// The category of a highlight that shows a post of the platform.
pub const HIGHLIGHT_CATEGORY: &'static str = "tweets";

/// How the time of a post is written on a thread's page.
pub const TIMESTAMP_FORMAT: &'static str = "%Y-%m-%d %H:%M:%S UTC";

// ---------------------------------------------------------------------------
// Escaping
// ---------------------------------------------------------------------------

/// What stands for `c` in HTML text: an entity for `&`, `<`, `>` and `"`,
/// and `c` itself for every other character.
pub open spec fn escape_char(c: char) -> Seq<char> {
    if c == '&' {
        "&amp;"@
    } else if c == '<' {
        "&lt;"@
    } else if c == '>' {
        "&gt;"@
    } else if c == '"' {
        "&quot;"@
    } else {
        seq![c]
    }
}

/// `s` escaped character by character.
pub open spec fn escaped(s: Seq<char>) -> Seq<char> {
    s.flat_map(|c: char| escape_char(c))
}

/// Whether `c` is one of the four characters that are escaped.
pub open spec fn is_markup(c: char) -> bool {
    c == '&' || c == '<' || c == '>' || c == '"'
}

/// Escaping a text with one more character appends what stands for that
/// character.
pub proof fn lemma_escaped_push(s: Seq<char>, c: char)
    ensures
        escaped(s.push(c)) == escaped(s) + escape_char(c),
{
    s.lemma_flat_map_push(|c: char| escape_char(c), c);
}

/// Escaping goes piece by piece: the escaped form of two texts joined is
/// their escaped forms joined.
pub proof fn lemma_escaped_concat(a: Seq<char>, b: Seq<char>)
    ensures
        escaped(a + b) == escaped(a) + escaped(b),
    decreases b.len(),
{
    if b.len() == 0 {
        assert(a + b == a);
        assert(escaped(b) == Seq::<char>::empty());
        assert(escaped(a) + Seq::<char>::empty() == escaped(a));
    } else {
        let init = b.drop_last();
        lemma_escaped_concat(a, init);
        assert(init.push(b.last()) == b);
        assert((a + init).push(b.last()) == a + b);
        lemma_escaped_push(a + init, b.last());
        lemma_escaped_push(init, b.last());
        assert((escaped(a) + escaped(init)) + escape_char(b.last()) == escaped(a) + (escaped(init)
            + escape_char(b.last())));
    }
}

/// No `<`, `>` or `"` is left in an escaped text, whatever the text was.
pub proof fn lemma_escaped_has_no_raw_markup(s: Seq<char>)
    ensures
        forall|i: int|
            0 <= i < escaped(s).len() ==> {
                let c = #[trigger] escaped(s)[i];
                c != '<' && c != '>' && c != '"'
            },
    decreases s.len(),
{
    reveal_strlit("&amp;");
    reveal_strlit("&lt;");
    reveal_strlit("&gt;");
    reveal_strlit("&quot;");
    if s.len() > 0 {
        let init = s.drop_last();
        lemma_escaped_has_no_raw_markup(init);
        assert(init.push(s.last()) == s);
        lemma_escaped_push(init, s.last());
        assert forall|i: int| 0 <= i < escaped(s).len() implies {
            let c = #[trigger] escaped(s)[i];
            c != '<' && c != '>' && c != '"'
        } by {
            if i < escaped(init).len() {
                assert(escaped(s)[i] == escaped(init)[i]);
            } else {
                assert(escaped(s)[i] == escape_char(s.last())[i - escaped(init).len()]);
            }
        }
    }
}

/// Every `&` in an escaped text begins one of the four entities.
pub proof fn lemma_escaped_ampersands_begin_entities(s: Seq<char>)
    ensures
        forall|i: int|
            0 <= i < escaped(s).len() && #[trigger] escaped(s)[i] == '&' ==> {
                ||| occurs_at(escaped(s), "&amp;"@, i)
                ||| occurs_at(escaped(s), "&lt;"@, i)
                ||| occurs_at(escaped(s), "&gt;"@, i)
                ||| occurs_at(escaped(s), "&quot;"@, i)
            },
    decreases s.len(),
{
    reveal_strlit("&amp;");
    reveal_strlit("&lt;");
    reveal_strlit("&gt;");
    reveal_strlit("&quot;");
    if s.len() > 0 {
        let init = s.drop_last();
        lemma_escaped_ampersands_begin_entities(init);
        assert(init.push(s.last()) == s);
        lemma_escaped_push(init, s.last());
        let e = escaped(s);
        let n = escaped(init).len() as int;
        assert forall|i: int| 0 <= i < e.len() && #[trigger] e[i] == '&' implies {
            ||| occurs_at(e, "&amp;"@, i)
            ||| occurs_at(e, "&lt;"@, i)
            ||| occurs_at(e, "&gt;"@, i)
            ||| occurs_at(e, "&quot;"@, i)
        } by {
            if i < n {
                assert(escaped(init)[i] == '&');
                let p = if occurs_at(escaped(init), "&amp;"@, i) {
                    "&amp;"@
                } else if occurs_at(escaped(init), "&lt;"@, i) {
                    "&lt;"@
                } else if occurs_at(escaped(init), "&gt;"@, i) {
                    "&gt;"@
                } else {
                    "&quot;"@
                };
                assert(occurs_at(escaped(init), p, i));
                assert(e.subrange(i, i + p.len()) == escaped(init).subrange(i, i + p.len()));
            } else {
                let tail = escape_char(s.last());
                assert(e[i] == tail[i - n]);
                assert(i == n);
                assert(e.subrange(n, n + tail.len()) == tail);
            }
        }
    }
}

/// A text without any of the four characters is left as it is, so no other
/// character is ever changed.
pub proof fn lemma_escaped_plain(s: Seq<char>)
    requires
        forall|i: int| 0 <= i < s.len() ==> !is_markup(#[trigger] s[i]),
    ensures
        escaped(s) == s,
    decreases s.len(),
{
    if s.len() == 0 {
        assert(escaped(s) == Seq::<char>::empty());
    } else {
        let init = s.drop_last();
        assert forall|i: int| 0 <= i < init.len() implies !is_markup(#[trigger] init[i]) by {
            assert(init[i] == s[i]);
        }
        lemma_escaped_plain(init);
        assert(init.push(s.last()) == s);
        lemma_escaped_push(init, s.last());
        assert(!is_markup(s[s.len() - 1]));
        assert(init + seq![s.last()] == s);
    }
}

/// `s` with `&`, `<`, `>` and `"` replaced by their entities, and nothing
/// else changed.
pub fn html_escape(s: &str) -> (r: String)
    ensures
        r@ == escaped(s@),
{
    let mut out = String::new();
    assert(escaped(s@.take(0)) == Seq::<char>::empty());
    for c in it: s.chars()
        invariant
            it.seq() == s@,
            out@ == escaped(s@.take(it.index() as int)),
    {
        proof {
            let k = it.index() as int;
            lemma_escaped_push(s@.take(k), c);
            assert(s@.take(k).push(c) == s@.take(k + 1));
        }
        if c == '&' {
            out.append("&amp;");
        } else if c == '<' {
            out.append("&lt;");
        } else if c == '>' {
            out.append("&gt;");
        } else if c == '"' {
            out.append("&quot;");
        } else {
            let ghost before = out@;
            push_char(&mut out, c);
            assert(before.push(c) == before + seq![c]);
        }
    }
    assert(s@.take(s@.len() as int) == s@);
    out
}

// ---------------------------------------------------------------------------
// Names and addresses
// ---------------------------------------------------------------------------

/// The name an author is shown under: the display name, or the handle where
/// there is none.
pub open spec fn shown_name(author: Author) -> Seq<char> {
    match author.display_name {
        Some(name) => name@,
        None => author.handle@,
    }
}

/// The record key of a record URI: what follows its last slash, or all of
/// it where it has none.
pub open spec fn record_key(uri: Seq<char>) -> Seq<char> {
    split(uri, '/').last()
}

/// The permalink of the post with record key `rkey` by the account `handle`.
pub open spec fn permalink(handle: Seq<char>, rkey: Seq<char>) -> Seq<char> {
    "https://bsky.app/profile/"@ + handle + "/post/"@ + rkey
}

/// The permalink of a post.
pub open spec fn source_url(post: PostView) -> Seq<char> {
    permalink(post.author.handle@, record_key(post.uri@))
}

/// The record key of a record URI. It holds no slash, and the URI ends with
/// it.
pub fn extract_rkey(uri: &str) -> (rkey: String)
    ensures
        rkey@ == record_key(uri@),
        !rkey@.contains('/'),
        rkey@.is_suffix_of(uri@),
{
    proof {
        lemma_split_last(uri@, '/');
    }
    let chars = chars_of(uri);
    let parts = split_chars(&chars, '/');
    let last = &parts[parts.len() - 1];
    assert(texts(parts@).last() == parts@[parts.len() - 1]@);
    string_of(last)
}

fn name_of(author: &Author) -> (name: String)
    ensures
        name@ == shown_name(*author),
{
    match &author.display_name {
        Some(name) => name.clone(),
        None => author.handle.clone(),
    }
}

fn permalink_of(post: &PostView) -> (url: String)
    ensures
        url@ == source_url(*post),
{
    let rkey = extract_rkey(post.uri.as_str());
    let mut url = String::from_str("https://bsky.app/profile/");
    url.append(post.author.handle.as_str());
    url.append("/post/");
    url.append(rkey.as_str());
    url
}

// ---------------------------------------------------------------------------
// A single post
// ---------------------------------------------------------------------------

/// The highlight for a post: its text, `Post by @` and the handle as title,
/// the author's shown name, the post's permalink, the category of the
/// platform, and the note as it was given.
pub open spec fn highlight_of(post: PostView, note: Option<Seq<char>>) -> HighlightText {
    HighlightText {
        text: post.record.text@,
        title: Some("Post by @"@ + post.author.handle@),
        author: Some(shown_name(post.author)),
        source_url: Some(source_url(post)),
        category: Some(HIGHLIGHT_CATEGORY@),
        note: note,
    }
}

/// The highlight for a single post.
pub fn format_post_as_highlight(post: &PostView, note: Option<&str>) -> (highlight: Highlight)
    ensures
        highlight@ == highlight_of(*post, opt_str_text(note)),
{
    let mut title = String::from_str("Post by @");
    title.append(post.author.handle.as_str());
    Highlight {
        text: post.record.text.clone(),
        title: Some(title),
        author: Some(name_of(&post.author)),
        source_url: Some(permalink_of(post)),
        category: Some(String::from_str(HIGHLIGHT_CATEGORY)),
        note: match note {
            Some(n) => Some(String::from_str(n)),
            None => None,
        },
    }
}

/// Whether a post says of itself that it answers another.
pub fn is_thread(post: &PostView) -> (r: bool)
    ensures
        r == post.record.reply is Some,
{
    post.record.reply.is_some()
}

// ---------------------------------------------------------------------------
// A thread
// ---------------------------------------------------------------------------

/// The posts above a post, from the first post of the thread down to the
/// post's own parent.
pub open spec fn lineage(parent: Option<Box<ThreadViewPost>>) -> Seq<PostView>
    decreases parent,
{
    match parent {
        None => Seq::empty(),
        Some(p) => lineage(p.parent).push(p.post),
    }
}

/// The posts of a list of thread nodes.
pub open spec fn posts_of(nodes: Seq<ThreadViewPost>) -> Seq<PostView> {
    nodes.map_values(|t: ThreadViewPost| t.post)
}

/// The posts that a list of references to thread nodes points to.
pub open spec fn posts_at(nodes: Seq<&ThreadViewPost>) -> Seq<PostView> {
    nodes.map_values(|t: &ThreadViewPost| t.post)
}

/// The direct answers to a post, in the order given; none where they are
/// not known.
pub open spec fn reply_posts(thread: ThreadViewPost) -> Seq<PostView> {
    match thread.replies {
        Some(replies) => posts_of(replies@),
        None => Seq::empty(),
    }
}

/// The posts of a thread in the order they are shown: the posts above the
/// given one from the first down, the given post, then the direct answers.
pub open spec fn thread_posts(thread: ThreadViewPost) -> Seq<PostView> {
    lineage(thread.parent).push(thread.post) + reply_posts(thread)
}

/// The nodes of a thread in the order they are shown.
pub fn collect_thread_posts(thread: &ThreadViewPost) -> (posts: Vec<&ThreadViewPost>)
    ensures
        posts_at(posts@) == thread_posts(*thread),
        posts@.len() >= 1,
{
    let mut chain: Vec<&ThreadViewPost> = Vec::new();
    let mut current: &Option<Box<ThreadViewPost>> = &thread.parent;
    assert(posts_at(chain@).reverse() == Seq::<PostView>::empty());
    loop
        invariant_except_break
            lineage(*current) + posts_at(chain@).reverse() == lineage(thread.parent),
        ensures
            posts_at(chain@).reverse() == lineage(thread.parent),
        decreases *current,
    {
        match current {
            None => {
                break;
            },
            Some(p) => {
                let ghost before = posts_at(chain@);
                chain.push(&**p);
                assert(posts_at(chain@) == before.push(p.post));
                assert(before.push(p.post).reverse() == seq![p.post] + before.reverse());
                assert(lineage(p.parent).push(p.post) + before.reverse() == lineage(p.parent) + (
                seq![p.post] + before.reverse()));
                current = &p.parent;
            },
        }
    }
    let mut posts: Vec<&ThreadViewPost> = Vec::new();
    let mut i: usize = chain.len();
    while i > 0
        invariant
            i <= chain.len(),
            posts_at(posts@) == posts_at(chain@).reverse().take(chain.len() - i),
        decreases i,
    {
        i -= 1;
        let ghost before = posts_at(posts@);
        posts.push(chain[i]);
        assert(posts_at(posts@) == before.push(chain@[i as int].post));
        assert(posts_at(chain@).reverse().take(chain.len() - i) == posts_at(chain@).reverse().take(
            chain.len() - i - 1,
        ).push(chain@[i as int].post));
    }
    assert(posts_at(chain@).reverse().take(chain.len() as int) == posts_at(chain@).reverse());
    let ghost above = posts_at(posts@);
    posts.push(thread);
    assert(posts_at(posts@) == above.push(thread.post));
    match &thread.replies {
        None => {
            assert(above.push(thread.post) + Seq::<PostView>::empty() == above.push(thread.post));
        },
        Some(replies) => {
            let mut k: usize = 0;
            while k < replies.len()
                invariant
                    k <= replies.len(),
                    posts@.len() >= 1,
                    posts_at(posts@) == above.push(thread.post) + posts_of(replies@).take(k as int),
                decreases replies.len() - k,
            {
                let ghost before = posts_at(posts@);
                posts.push(&replies[k]);
                assert(posts_at(posts@) == before.push(replies@[k as int].post));
                assert(posts_of(replies@).take(k + 1) == posts_of(replies@).take(k as int).push(
                    replies@[k as int].post,
                ));
                k += 1;
            }
            assert(posts_of(replies@).take(replies.len() as int) == posts_of(replies@));
        },
    }
    posts
}

/// The time of a post as the page shows it: written after
/// [`TIMESTAMP_FORMAT`], and empty where the instant cannot be written.
pub open spec fn stamp_text(when: Timestamp) -> Seq<char> {
    match utc_text(when.secs, when.nanos, TIMESTAMP_FORMAT@) {
        Some(text) => text,
        None => Seq::empty(),
    }
}

/// The block that shows one post: the author's shown name in bold, the
/// handle, the text and the time, each of them escaped.
pub open spec fn post_block(post: PostView, stamp: Seq<char>) -> Seq<char> {
    "<div class=\"post\">\n<p class=\"author\"><strong>"@ + escaped(shown_name(post.author))
        + "</strong> <span class=\"handle\">@"@ + escaped(post.author.handle@)
        + "</span></p>\n<p class=\"content\">"@ + escaped(post.record.text@)
        + "</p>\n<p class=\"timestamp\">"@ + escaped(stamp) + "</p>\n</div>\n"@
}

/// The blocks of `posts`, one after another.
pub open spec fn post_blocks(posts: Seq<PostView>) -> Seq<char> {
    posts.flat_map(|p: PostView| post_block(p, stamp_text(p.record.created_at)))
}

/// The page that shows `posts`: an `article` element around their blocks.
pub open spec fn thread_html(posts: Seq<PostView>) -> Seq<char> {
    "<article class=\"bluesky-thread\">\n"@ + post_blocks(posts) + "</article>"@
}

/// The block that shows one post, given the text of its time.
pub fn format_post_block(post: &PostView, stamp: &str) -> (html: String)
    ensures
        html@ == post_block(*post, stamp@),
{
    let name = name_of(&post.author);
    let name_html = html_escape(name.as_str());
    let handle_html = html_escape(post.author.handle.as_str());
    let text_html = html_escape(post.record.text.as_str());
    let stamp_html = html_escape(stamp);
    let mut html = String::from_str("<div class=\"post\">\n<p class=\"author\"><strong>");
    html.append(name_html.as_str());
    html.append("</strong> <span class=\"handle\">@");
    html.append(handle_html.as_str());
    html.append("</span></p>\n<p class=\"content\">");
    html.append(text_html.as_str());
    html.append("</p>\n<p class=\"timestamp\">");
    html.append(stamp_html.as_str());
    html.append("</p>\n</div>\n");
    html
}

/// The time of a post as the page shows it.
pub fn format_timestamp(when: &Timestamp) -> (text: String)
    ensures
        text@ == stamp_text(*when),
{
    match format_utc(when.secs, when.nanos, TIMESTAMP_FORMAT) {
        Some(text) => text,
        None => String::new(),
    }
}

/// The page that shows the posts of `nodes`, in their order.
pub fn format_posts_as_html(nodes: &Vec<&ThreadViewPost>) -> (html: String)
    ensures
        html@ == thread_html(posts_at(nodes@)),
{
    let mut html = String::from_str("<article class=\"bluesky-thread\">\n");
    let ghost posts = posts_at(nodes@);
    let mut i: usize = 0;
    assert(post_blocks(posts.take(0)) == Seq::<char>::empty());
    assert("<article class=\"bluesky-thread\">\n"@ + Seq::<char>::empty()
        == "<article class=\"bluesky-thread\">\n"@);
    while i < nodes.len()
        invariant
            i <= nodes.len(),
            posts == posts_at(nodes@),
            html@ == "<article class=\"bluesky-thread\">\n"@ + post_blocks(posts.take(i as int)),
        decreases nodes.len() - i,
    {
        let post = &nodes[i].post;
        let stamp = format_timestamp(&post.record.created_at);
        let block = format_post_block(post, stamp.as_str());
        proof {
            posts.take(i as int).lemma_flat_map_push(
                |p: PostView| post_block(p, stamp_text(p.record.created_at)),
                *post,
            );
            assert(posts.take(i as int).push(*post) == posts.take(i + 1));
            assert(("<article class=\"bluesky-thread\">\n"@ + post_blocks(posts.take(i as int)))
                + block@ == "<article class=\"bluesky-thread\">\n"@ + (post_blocks(
                posts.take(i as int),
            ) + block@));
        }
        html.append(block.as_str());
        i += 1;
    }
    assert(posts.take(nodes.len() as int) == posts);
    html.append("</article>");
    html
}

/// The document for a list of posts: the page that shows them, with title,
/// author and address taken from the first of them, and the tags of the
/// platform and of threads. An empty list gives the title `Thread`, the author
/// `Unknown` and an empty address.
pub open spec fn document_of_posts(posts: Seq<PostView>) -> DocumentText {
    DocumentText {
        url: if posts.len() > 0 {
            source_url(posts[0])
        } else {
            Seq::empty()
        },
        html: Some(thread_html(posts)),
        title: Some(
            if posts.len() > 0 {
                "Thread by @"@ + posts[0].author.handle@
            } else {
                "Thread"@
            },
        ),
        author: Some(
            if posts.len() > 0 {
                shown_name(posts[0].author)
            } else {
                "Unknown"@
            },
        ),
        tags: Some(seq![PLATFORM_TAG@, THREAD_TAG@]),
    }
}

/// The document for a thread: [`document_of_posts`] of its posts in the
/// order they are shown.
pub open spec fn document_of(thread: ThreadViewPost) -> DocumentText {
    document_of_posts(thread_posts(thread))
}

/// The document for a list of thread nodes.
pub fn format_posts_as_document(nodes: &Vec<&ThreadViewPost>) -> (document: Document)
    ensures
        document@ == document_of_posts(posts_at(nodes@)),
{
    let html = format_posts_as_html(nodes);
    let mut tags: Vec<String> = Vec::new();
    tags.push(String::from_str(PLATFORM_TAG));
    tags.push(String::from_str(THREAD_TAG));
    assert(string_texts(tags@) == seq![PLATFORM_TAG@, THREAD_TAG@]);
    if nodes.len() > 0 {
        let first = &nodes[0].post;
        let mut title = String::from_str("Thread by @");
        title.append(first.author.handle.as_str());
        Document {
            url: permalink_of(first),
            html: Some(html),
            title: Some(title),
            author: Some(name_of(&first.author)),
            tags: Some(tags),
        }
    } else {
        Document {
            url: String::new(),
            html: Some(html),
            title: Some(String::from_str("Thread")),
            author: Some(String::from_str("Unknown")),
            tags: Some(tags),
        }
    }
}

/// The document for a thread.
pub fn format_thread_as_document(thread: &ThreadViewPost) -> (document: Document)
    ensures
        document@ == document_of(*thread),
{
    let nodes = collect_thread_posts(thread);
    format_posts_as_document(&nodes)
}

} // verus!
