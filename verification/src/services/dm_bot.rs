//! Commands sent to the bot as direct messages: how a message is read, and
//! what is done and answered for each command.

use crate::bindings::{
    duration_from_secs, find_first, match_view, regex_first_match, span_of_secs, TextMatch,
};
use crate::content::formatter::permalink;
use crate::error::ProcessError;
use crate::services::processor::ProcessOptions;
use crate::text::{
    ascii_lower_seq, chars_eq_ignore_ascii_case, chars_of, contains_chars, contains_text,
    eq_ignore_ascii_case, extend_chars, is_whitespace, lemma_split_head, lemma_split_whole,
    lemma_trim_fixed, lemma_without_absent, lemma_without_after, lemma_without_at_head,
    occurs_at, opt_text, remove_all, slice_of, split, split_chars, starts_with_chars, string_of,
    texts, trim, trim_chars, trim_end, trim_start, without,
};
use std::time::Duration;
use vstd::prelude::*;

verus! {

/// The regular expression that finds a post's permalink in a message: one
/// of the platform's two domains, `bsky.app` and `socialapp.example`, then
/// `/profile/`, an account name without a slash, `/post/` and a record key
/// of ASCII letters and digits.
pub const PERMALINK_PATTERN: &'static str =
    "https://(?:bsky\\.app|socialapp\\.example)/profile/[^/]+/post/[a-zA-Z0-9]+";

/// The help text.
pub const HELP_MESSAGE: &'static str =
    "\u{1F4DA} Readwise Autosave Bot\n\nCommands:\n\u{2022} Send a post URL to save it\n\u{2022} URL +links - Also save linked content\n\u{2022} URL Your note here - Add a note\n\u{2022} register <token> - Register with Readwise token\n\u{2022} settings - Get link to settings\n\u{2022} help - Show this message\n\nExamples:\nhttps://bsky.app/profile/user.bsky.social/post/abc123\nhttps://bsky.app/profile/user.bsky.social/post/abc123 +links\nhttps://bsky.app/profile/user.bsky.social/post/abc123 Great thread!";

/// The answer to a post that was saved.
pub const SAVED_REPLY: &'static str = "\u{2705} Saved to Readwise!";

/// The answer to a registration.
pub const REGISTERED_REPLY: &'static str =
    "\u{2705} Registered! You can now DM me post URLs to save them.";

/// The answer to `settings`.
pub const SETTINGS_REPLY: &'static str =
    "\u{2699}\u{FE0F} Visit https://your-domain.com/dashboard to manage settings";

/// How the answer to a message that was not understood begins.
pub const UNKNOWN_REPLY: &'static str = "\u{2753} I didn't understand that. ";

/// What a direct message asks for.
#[derive(Debug, Clone, PartialEq)]
pub enum DmCommand {
    /// Save a post, with an optional note, and its links too if asked.
    SavePost { post_url: String, note: Option<String>, extract_links: bool },
    /// Register with a token for the read-it-later service.
    Register { readwise_token: String },
    /// Show the help text.
    Help,
    /// Show where the settings are.
    Settings,
    /// Anything else, with the message as it was sent, trimmed.
    Unknown(String),
}

/// A command with its texts as character sequences.
pub enum CommandText {
    SavePost { post_url: Seq<char>, note: Option<Seq<char>>, extract_links: bool },
    Register { readwise_token: Seq<char> },
    Help,
    Settings,
    Unknown(Seq<char>),
}

impl View for DmCommand {
    type V = CommandText;

    open spec fn view(&self) -> CommandText {
        match self {
            DmCommand::SavePost { post_url, note, extract_links } => CommandText::SavePost {
                post_url: post_url@,
                note: match note {
                    Some(n) => Some(n@),
                    None => None,
                },
                extract_links: *extract_links,
            },
            DmCommand::Register { readwise_token } => CommandText::Register {
                readwise_token: readwise_token@,
            },
            DmCommand::Help => CommandText::Help,
            DmCommand::Settings => CommandText::Settings,
            DmCommand::Unknown(raw) => CommandText::Unknown(raw@),
        }
    }
}

/// The note that follows a permalink: what stands after it, trimmed, with
/// every `+links` taken out and trimmed again; none where nothing is left.
pub open spec fn note_of(after: Seq<char>) -> Option<Seq<char>> {
    let note = trim(without(trim(after), "+links"@));
    if note.len() == 0 {
        None
    } else {
        Some(note)
    }
}

/// The command that `text` stands for, given the permalink found in the
/// trimmed text: first the bare words `help` and `settings` in any case,
/// then the prefix `register `, then the permalink, and `Unknown` where none
/// of these applies.
pub open spec fn command_of(text: Seq<char>, found: Option<(Seq<char>, Seq<char>, Seq<char>)>)
    -> CommandText {
    let t = trim(text);
    if eq_ignore_ascii_case(t, "help"@) {
        CommandText::Help
    } else if eq_ignore_ascii_case(t, "settings"@) {
        CommandText::Settings
    } else if "register "@.is_prefix_of(t) {
        CommandText::Register { readwise_token: trim(t.skip("register "@.len() as int)) }
    } else {
        match found {
            Some((_, url, after)) => CommandText::SavePost {
                post_url: url,
                note: note_of(after),
                extract_links: contains_text(t, "+links"@),
            },
            None => CommandText::Unknown(t),
        }
    }
}

/// The command that `text` stands for: [`command_of`] with the first
/// permalink that [`PERMALINK_PATTERN`] finds in the trimmed text.
pub open spec fn parsed(text: Seq<char>) -> CommandText {
    command_of(text, regex_first_match(PERMALINK_PATTERN@, trim(text)))
}

/// Whether `note` can stand as a note beside the flag: it is not empty,
/// neither begins nor ends with white space, and does not hold the flag.
pub open spec fn is_plain_note(note: Seq<char>) -> bool {
    &&& note.len() > 0
    &&& !is_whitespace(note[0])
    &&& !is_whitespace(note.last())
    &&& !contains_text(note, "+links"@)
}

proof fn lemma_flag_text()
    ensures
        "+links"@ == seq!['+', 'l', 'i', 'n', 'k', 's'],
        " +links "@ == seq![' '] + "+links"@ + seq![' '],
        " +links"@ == seq![' '] + "+links"@,
        " "@ == seq![' '],
{
    reveal_strlit("+links");
    reveal_strlit(" +links ");
    reveal_strlit(" +links");
    reveal_strlit(" ");
    assert("+links"@ =~= seq!['+', 'l', 'i', 'n', 'k', 's']);
    assert(" +links "@ =~= seq![' '] + "+links"@ + seq![' ']);
    assert(" +links"@ =~= seq![' '] + "+links"@);
    assert(" "@ =~= seq![' ']);
}

proof fn lemma_note_after_flag(note: Seq<char>)
    requires
        is_plain_note(note),
    ensures
        note_of(" +links "@ + note) == Some(note),
{
    lemma_flag_text();
    let flag = "+links"@;
    let sp = seq![' '];
    let after = " +links "@ + note;
    let x = flag + (sp + note);
    assert(after =~= sp + x);
    assert(after.skip(1) =~= x);
    assert(after[0] == ' ');
    assert(x[0] == '+');
    assert(trim_start(after) == trim_start(x));
    assert(trim_start(x) == x);
    assert(x.last() == note.last());
    assert(trim(after) == x);
    lemma_without_at_head(sp + note, flag);
    let y = sp + note;
    assert forall|i: int| !occurs_at(y, flag, i) by {
        if occurs_at(y, flag, i) {
            if i == 0 {
                assert(y.subrange(0, 6)[0] == ' ');
            } else {
                assert(y.subrange(i, i + 6) =~= note.subrange(i - 1, i + 5));
                assert(occurs_at(note, flag, i - 1));
            }
        }
    }
    lemma_without_absent(y, flag);
    assert(y.skip(1) =~= note);
    assert(y[0] == ' ');
    assert(trim_start(y) == trim_start(note));
    assert(trim(y) == note);
}

proof fn lemma_note_before_flag(note: Seq<char>)
    requires
        is_plain_note(note),
    ensures
        note_of(" "@ + note + " +links"@) == Some(note),
{
    lemma_flag_text();
    let flag = "+links"@;
    let sp = seq![' '];
    let after = " "@ + note + " +links"@;
    let head = note + sp;
    let y = head + flag;
    assert(after =~= sp + y);
    assert(after.skip(1) =~= y);
    assert(after[0] == ' ');
    assert(y[0] == note[0]);
    assert(trim_start(after) == trim_start(y));
    assert(trim_start(y) == y);
    assert(y.last() == 's');
    assert(trim(after) == y);
    assert forall|i: int| 0 <= i < head.len() implies !occurs_at(y, flag, i) by {
        if occurs_at(y, flag, i) {
            let found = y.subrange(i, i + 6);
            if i + 6 <= note.len() {
                assert(found =~= note.subrange(i, i + 6));
                assert(occurs_at(note, flag, i));
            } else {
                let k = note.len() - i;
                assert(found[k] == y[note.len() as int]);
                assert(y[note.len() as int] == ' ');
                assert(flag[k] != ' ');
            }
        }
    }
    lemma_without_after(head, flag, flag);
    let empty = Seq::<char>::empty();
    assert(flag + empty =~= flag);
    lemma_without_at_head(empty, flag);
    assert(without(flag, flag) == empty);
    assert(head + empty =~= head);
    assert(without(y, flag) == head);
    assert(head[0] == note[0]);
    assert(trim_start(head) == head);
    assert(head.last() == ' ');
    assert(head.drop_last() =~= note);
    assert(trim_end(head) == trim_end(note));
    assert(trim(head) == note);
}

proof fn lemma_permalink_message(url: Seq<char>, after: Seq<char>, flag_at: int)
    requires
        "https://"@.is_prefix_of(url),
        after.len() > 0,
        !is_whitespace(after.last()),
        0 <= flag_at,
        occurs_at(url + after, "+links"@, flag_at),
    ensures
        trim(url + after) == url + after,
        command_of(url + after, Some((Seq::<char>::empty(), url, after))) == (
        CommandText::SavePost { post_url: url, note: note_of(after), extract_links: true }),
{
    reveal_strlit("https://");
    reveal_strlit("help");
    reveal_strlit("settings");
    reveal_strlit("register ");
    let text = url + after;
    assert(url[0] == "https://"@.subrange(0, 8)[0]);
    assert(text[0] == 'h');
    assert(text.last() == after.last());
    lemma_trim_fixed(text);
    assert(ascii_lower_seq(text).len() == text.len());
    assert(ascii_lower_seq("help"@).len() == 4);
    assert(ascii_lower_seq("settings"@).len() == 8);
    assert(!"register "@.is_prefix_of(text)) by {
        if "register "@.is_prefix_of(text) {
            assert(text.subrange(0, 9)[0] == "register "@[0]);
        }
    }
    assert(contains_text(text, "+links"@));
}

/// The place of the flag relative to the note does not matter. For a
/// permalink that is found at the head of the message, and a note that is
/// not empty, neither begins nor ends with white space and does not hold
/// the flag: the flag before the note and the flag after it give the same
/// command, which saves the post with that note and with its links. So
/// does the parser, wherever the pattern finds that permalink as the first
/// in the message.
pub proof fn lemma_flag_place_does_not_matter(url: Seq<char>, note: Seq<char>)
    requires
        "https://"@.is_prefix_of(url),
        is_plain_note(note),
    ensures
        command_of(
            url + (" +links "@ + note),
            Some((Seq::<char>::empty(), url, " +links "@ + note)),
        ) == (CommandText::SavePost { post_url: url, note: Some(note), extract_links: true }),
        command_of(
            url + (" "@ + note + " +links"@),
            Some((Seq::<char>::empty(), url, " "@ + note + " +links"@)),
        ) == (CommandText::SavePost { post_url: url, note: Some(note), extract_links: true }),
        regex_first_match(PERMALINK_PATTERN@, url + (" +links "@ + note)) == Some(
            (Seq::<char>::empty(), url, " +links "@ + note),
        ) ==> parsed(url + (" +links "@ + note)) == (CommandText::SavePost {
            post_url: url,
            note: Some(note),
            extract_links: true,
        }),
        regex_first_match(PERMALINK_PATTERN@, url + (" "@ + note + " +links"@)) == Some(
            (Seq::<char>::empty(), url, " "@ + note + " +links"@),
        ) ==> parsed(url + (" "@ + note + " +links"@)) == (CommandText::SavePost {
            post_url: url,
            note: Some(note),
            extract_links: true,
        }),
{
    lemma_flag_text();
    let flag = "+links"@;
    let first = " +links "@ + note;
    let last = " "@ + note + " +links"@;
    lemma_note_after_flag(note);
    lemma_note_before_flag(note);
    assert(first.last() == note.last());
    assert(last.last() == 's');
    let u = url.len() as int;
    let n = note.len() as int;
    assert((url + first).subrange(u + 1, u + 7) =~= flag);
    lemma_permalink_message(url, first, u + 1);
    assert((url + last).subrange(u + n + 2, u + n + 8) =~= flag);
    lemma_permalink_message(url, last, u + n + 2);
}

fn note_from(after: &str) -> (note: Option<String>)
    ensures
        opt_text(note) == note_of(after@),
{
    let after_chars = chars_of(after);
    let trimmed = trim_chars(&after_chars);
    let flag = chars_of("+links");
    let cleaned = remove_all(&trimmed, &flag);
    let note = trim_chars(&cleaned);
    if note.len() == 0 {
        None
    } else {
        Some(string_of(&note))
    }
}

/// The record URI of the post with record key `rkey` in the repository of
/// `authority`.
pub open spec fn post_uri(authority: Seq<char>, rkey: Seq<char>) -> Seq<char> {
    "at://"@ + authority + "/app.bsky.feed.post/"@ + rkey
}

/// The record URI that a permalink stands for: its fifth and seventh pieces
/// between slashes are the account and the record key. None where the URL
/// has fewer than seven pieces.
pub open spec fn at_uri_of(url: Seq<char>) -> Option<Seq<char>> {
    let parts = split(url, '/');
    if parts.len() < 7 {
        None
    } else {
        Some(post_uri(parts[4], parts[6]))
    }
}

/// The permalink of the post with record key `rkey` by the account
/// `handle`, on the domain `domain`.
pub open spec fn permalink_on(domain: Seq<char>, handle: Seq<char>, rkey: Seq<char>) -> Seq<
    char,
> {
    "https://"@ + domain + "/profile/"@ + handle + "/post/"@ + rkey
}

/// Converting the permalink of a post gives back its account and its record
/// key, whatever the domain: for every domain, account name and record key
/// without a slash, the permalink made of them converts to the record URI
/// made of the account name and the record key.
pub proof fn lemma_permalink_round_trip_on(
    domain: Seq<char>,
    handle: Seq<char>,
    rkey: Seq<char>,
)
    requires
        forall|j: int| 0 <= j < domain.len() ==> #[trigger] domain[j] != '/',
        forall|j: int| 0 <= j < handle.len() ==> #[trigger] handle[j] != '/',
        forall|j: int| 0 <= j < rkey.len() ==> #[trigger] rkey[j] != '/',
    ensures
        at_uri_of(permalink_on(domain, handle, rkey)) == Some(post_uri(handle, rkey)),
{
    reveal_strlit("https://");
    reveal_strlit("/profile/");
    reveal_strlit("/post/");
    let sep = seq!['/'];
    let scheme = seq!['h', 't', 't', 'p', 's', ':'];
    let empty = Seq::<char>::empty();
    let profile = seq!['p', 'r', 'o', 'f', 'i', 'l', 'e'];
    let post = seq!['p', 'o', 's', 't'];
    let s6 = rkey;
    let s5 = post + sep + s6;
    let s4 = handle + sep + s5;
    let s3 = profile + sep + s4;
    let s2 = domain + sep + s3;
    let s1 = empty + sep + s2;
    let s0 = scheme + sep + s1;
    assert(permalink_on(domain, handle, rkey) =~= s0);
    lemma_split_whole(s6, '/');
    lemma_split_head(post, s6, '/');
    lemma_split_head(handle, s5, '/');
    lemma_split_head(profile, s4, '/');
    lemma_split_head(domain, s3, '/');
    lemma_split_head(empty, s2, '/');
    lemma_split_head(scheme, s1, '/');
    assert(split(s0, '/') =~= seq![scheme, empty, domain, profile, handle, post, rkey]);
}

/// Converting the permalink that is given as the source of a saved post
/// gives back its account and its record key.
pub proof fn lemma_permalink_round_trip(handle: Seq<char>, rkey: Seq<char>)
    requires
        forall|j: int| 0 <= j < handle.len() ==> #[trigger] handle[j] != '/',
        forall|j: int| 0 <= j < rkey.len() ==> #[trigger] rkey[j] != '/',
    ensures
        at_uri_of(permalink(handle, rkey)) == Some(post_uri(handle, rkey)),
{
    reveal_strlit("https://bsky.app/profile/");
    reveal_strlit("https://");
    reveal_strlit("/profile/");
    reveal_strlit("bsky.app");
    assert("https://bsky.app/profile/"@ =~= "https://"@ + "bsky.app"@ + "/profile/"@);
    assert(permalink(handle, rkey) =~= permalink_on("bsky.app"@, handle, rkey));
    lemma_permalink_round_trip_on("bsky.app"@, handle, rkey);
}

/// A URL with fewer than six slashes converts to nothing.
pub proof fn lemma_short_url_is_malformed(url: Seq<char>)
    requires
        split(url, '/').len() < 7,
    ensures
        at_uri_of(url) is None,
{
}

/// How often the bot looks for new messages.
#[derive(Debug, Clone, Copy, PartialEq, Eq, Structural)]
pub struct DmBotConfig {
    /// Seconds between two polls.
    pub poll_interval_secs: u64,
}

impl Default for DmBotConfig {
    fn default() -> (config: DmBotConfig)
        ensures
            config.poll_interval_secs == 10,
    {
        DmBotConfig { poll_interval_secs: 10 }
    }
}

impl DmBotConfig {
    /// The time between two polls: the span of `poll_interval_secs` whole
    /// seconds.
    pub fn poll_interval(&self) -> (span: Duration)
        ensures
            span == span_of_secs(self.poll_interval_secs),
    {
        duration_from_secs(self.poll_interval_secs)
    }
}

/// The bot that answers direct messages.
#[derive(Debug, Clone, Copy)]
pub struct DmBotService {
    pub config: DmBotConfig,
}

/// What to do about a message.
#[derive(Debug)]
pub enum DmStep {
    /// Answer in the conversation `convo_id` with `text`.
    Reply { convo_id: String, text: String },
    /// Keep the sender's token for the read-it-later service, then answer
    /// in the conversation `convo_id` with `text`.
    Register { convo_id: String, readwise_token: String, text: String },
    /// Process the post at `post_uri`, then answer in the conversation
    /// `convo_id` with what [`DmBotService::save_reply`] makes of the
    /// outcome.
    Process { convo_id: String, post_uri: String, readwise_token: String, options: ProcessOptions },
    /// Give up on the message with this error.
    Fail(ProcessError),
}

/// A step with its texts as character sequences.
pub enum DmStepText {
    Reply { convo_id: Seq<char>, text: Seq<char> },
    Register { convo_id: Seq<char>, readwise_token: Seq<char>, text: Seq<char> },
    Process {
        convo_id: Seq<char>,
        post_uri: Seq<char>,
        readwise_token: Seq<char>,
        extract_links: bool,
        note: Option<Seq<char>>,
    },
    Fail(ProcessError),
}

impl View for DmStep {
    type V = DmStepText;

    open spec fn view(&self) -> DmStepText {
        match self {
            DmStep::Reply { convo_id, text } => DmStepText::Reply {
                convo_id: convo_id@,
                text: text@,
            },
            DmStep::Register { convo_id, readwise_token, text } => DmStepText::Register {
                convo_id: convo_id@,
                readwise_token: readwise_token@,
                text: text@,
            },
            DmStep::Process { convo_id, post_uri, readwise_token, options } => DmStepText::Process {
                convo_id: convo_id@,
                post_uri: post_uri@,
                readwise_token: readwise_token@,
                extract_links: options.extract_links,
                note: opt_text(options.note),
            },
            DmStep::Fail(e) => DmStepText::Fail(*e),
        }
    }
}

/// The help text.
pub open spec fn help_text() -> Seq<char> {
    HELP_MESSAGE@
}

/// What is done about a command that came in the conversation `convo` from
/// a sender with the token `token`:
///
/// - a post is processed, with the options of the command, unless its
///   permalink cannot be converted, which fails the message;
/// - a registration keeps the token of the command and is acknowledged;
/// - `help` and `settings` are answered with fixed texts;
/// - anything else is answered with the message itself and the help text.
pub open spec fn dispatch_of(convo: Seq<char>, command: CommandText, token: Seq<char>)
    -> DmStepText {
    match command {
        CommandText::SavePost { post_url, note, extract_links } => match at_uri_of(post_url) {
            Some(uri) => DmStepText::Process {
                convo_id: convo,
                post_uri: uri,
                readwise_token: token,
                extract_links,
                note,
            },
            None => DmStepText::Fail(ProcessError::MalformedReference),
        },
        CommandText::Register { readwise_token } => DmStepText::Register {
            convo_id: convo,
            readwise_token,
            text: REGISTERED_REPLY@,
        },
        CommandText::Help => DmStepText::Reply { convo_id: convo, text: help_text() },
        CommandText::Settings => DmStepText::Reply { convo_id: convo, text: SETTINGS_REPLY@ },
        CommandText::Unknown(raw) => DmStepText::Reply {
            convo_id: convo,
            text: UNKNOWN_REPLY@ + raw + "\n\n"@ + help_text(),
        },
    }
}

impl DmBotService {
    /// Reads a message as a command, given the permalink that was found in
    /// the trimmed message, if any.
    pub fn command_from_match(text: &str, found: Option<TextMatch>) -> (cmd: DmCommand)
        ensures
            cmd@ == command_of(text@, match_view(found)),
    {
        let chars = chars_of(text);
        let t = trim_chars(&chars);
        let help = chars_of("help");
        let settings = chars_of("settings");
        let register = chars_of("register ");
        if chars_eq_ignore_ascii_case(&t, &help) {
            return DmCommand::Help;
        }
        if chars_eq_ignore_ascii_case(&t, &settings) {
            return DmCommand::Settings;
        }
        if starts_with_chars(&t, &register) {
            let rest = slice_of(&t, register.len(), t.len());
            let token = trim_chars(&rest);
            assert(t@.subrange(register.len() as int, t.len() as int) == t@.skip(
                "register "@.len() as int,
            ));
            return DmCommand::Register { readwise_token: string_of(&token) };
        }
        match found {
            Some(m) => {
                let flag = chars_of("+links");
                let extract_links = contains_chars(&t, &flag);
                let note = note_from(m.after.as_str());
                DmCommand::SavePost { post_url: m.matched, note, extract_links }
            },
            None => DmCommand::Unknown(string_of(&t)),
        }
    }

    /// Turns a permalink into the record URI of its post, or fails with
    /// `MalformedReference` where the URL has too few pieces.
    pub fn url_to_at_uri(url: &str) -> (r: Result<String, ProcessError>)
        ensures
            match r {
                Ok(uri) => at_uri_of(url@) == Some(uri@),
                Err(e) => at_uri_of(url@) is None && e is MalformedReference,
            },
    {
        let chars = chars_of(url);
        let parts = split_chars(&chars, '/');
        if parts.len() < 7 {
            return Err(ProcessError::MalformedReference);
        }
        assert(texts(parts@)[4] == parts@[4]@);
        assert(texts(parts@)[6] == parts@[6]@);
        let mut uri = chars_of("at://");
        extend_chars(&mut uri, &parts[4]);
        let middle = chars_of("/app.bsky.feed.post/");
        extend_chars(&mut uri, &middle);
        extend_chars(&mut uri, &parts[6]);
        Ok(string_of(&uri))
    }

    /// A bot with the given settings.
    pub fn new(config: DmBotConfig) -> (bot: DmBotService)
        ensures
            bot.config == config,
    {
        DmBotService { config }
    }

    /// The help text.
    pub fn help_message() -> (text: String)
        ensures
            text@ == help_text(),
    {
        String::from_str(HELP_MESSAGE)
    }

    /// What to do about a command that came in the conversation `convo_id`
    /// from a sender with `readwise_token`.
    pub fn dispatch(convo_id: &str, command: DmCommand, readwise_token: &str) -> (step: DmStep)
        ensures
            step@ == dispatch_of(convo_id@, command@, readwise_token@),
    {
        let convo_id = String::from_str(convo_id);
        match command {
            DmCommand::SavePost { post_url, note, extract_links } => {
                match DmBotService::url_to_at_uri(post_url.as_str()) {
                    Ok(post_uri) => DmStep::Process {
                        convo_id,
                        post_uri,
                        readwise_token: String::from_str(readwise_token),
                        options: ProcessOptions { extract_links, note },
                    },
                    Err(e) => DmStep::Fail(ProcessError::MalformedReference),
                }
            },
            DmCommand::Register { readwise_token } => DmStep::Register {
                convo_id,
                readwise_token,
                text: String::from_str(REGISTERED_REPLY),
            },
            DmCommand::Help => DmStep::Reply { convo_id, text: DmBotService::help_message() },
            DmCommand::Settings => DmStep::Reply {
                convo_id,
                text: String::from_str(SETTINGS_REPLY),
            },
            DmCommand::Unknown(raw) => {
                let help = DmBotService::help_message();
                let mut text = String::from_str(UNKNOWN_REPLY);
                text.append(raw.as_str());
                text.append("\n\n");
                text.append(help.as_str());
                DmStep::Reply { convo_id, text }
            },
        }
    }

    /// What to do about a message: the message is read as a command, and
    /// the command decides.
    pub fn process_message(&self, convo_id: &str, message_text: &str, readwise_token: &str) -> (step:
        DmStep)
        ensures
            step@ == dispatch_of(convo_id@, parsed(message_text@), readwise_token@),
    {
        let command = DmBotService::parse_message(message_text);
        DmBotService::dispatch(convo_id, command, readwise_token)
    }

    /// The answer once the post of a message was processed: an
    /// acknowledgement where it was saved, and the error where it was not.
    pub fn save_reply(outcome: Result<(), ProcessError>) -> (reply: Result<String, ProcessError>)
        ensures
            match outcome {
                Ok(_) => reply matches Ok(text) && text@ == SAVED_REPLY@,
                Err(e) => reply == Err::<String, ProcessError>(e),
            },
    {
        match outcome {
            Ok(_) => Ok(String::from_str(SAVED_REPLY)),
            Err(e) => Err(e),
        }
    }

    /// Reads a message as a command. Every message is read as some command,
    /// and the same message always as the same one.
    pub fn parse_message(text: &str) -> (cmd: DmCommand)
        ensures
            cmd@ == parsed(text@),
    {
        let chars = chars_of(text);
        let t = trim_chars(&chars);
        let help = chars_of("help");
        let settings = chars_of("settings");
        let register = chars_of("register ");
        let by_keyword = chars_eq_ignore_ascii_case(&t, &help) || chars_eq_ignore_ascii_case(
            &t,
            &settings,
        ) || starts_with_chars(&t, &register);
        let found = if by_keyword {
            None
        } else {
            let trimmed = string_of(&t);
            find_first(PERMALINK_PATTERN, trimmed.as_str())
        };
        DmBotService::command_from_match(text, found)
    }
}

} // verus!
