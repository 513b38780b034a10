//! Processing one post: fetch its thread, decide whether it is a single post
//! or part of a thread, save it as a highlight or as a document, and save
//! its links if that was asked for.
//!
//! The fetching and saving are done elsewhere. [`PostProcessor`] decides:
//! it is handed each outcome as an event and answers with what to do next.

use crate::bluesky::{ThreadResponse, ThreadViewPost};
use crate::content::formatter::{
    document_of, format_post_as_highlight, format_thread_as_document, highlight_of, is_thread,
    PLATFORM_TAG,
};
use crate::content::links::{extract_links, record_links};
use crate::error::ProcessError;
use crate::readwise::client::{Document, DocumentText, Highlight, HighlightText};
use crate::text::{opt_text, string_texts};
use vstd::prelude::*;

verus! {

/// What to do with a post besides saving it.
#[derive(Debug, Clone)]
pub struct ProcessOptions {
    /// Save the links found in the post as well.
    pub extract_links: bool,
    /// A note to attach to the highlight.
    pub note: Option<String>,
}

impl Default for ProcessOptions {
    fn default() -> (options: ProcessOptions)
        ensures
            !options.extract_links,
            options.note is None,
    {
        ProcessOptions { extract_links: false, note: None }
    }
}

/// Whether a fetched post belongs to a thread: it has a parent, or at least
/// one answer, or says of itself that it answers another post.
pub open spec fn part_of_thread(thread: ThreadViewPost) -> bool {
    ||| thread.parent is Some
    ||| (thread.replies matches Some(replies) && replies@.len() > 0)
    ||| thread.post.record.reply is Some
}

/// The tag of a document that saves a link found in a post.
pub const LINK_TAG: &'static str = "extracted-link";

/// The document that saves one link found in a post: the address alone,
/// with the tags of the platform and of links.
pub open spec fn link_document(url: Seq<char>) -> DocumentText {
    DocumentText {
        url: url,
        html: None,
        title: None,
        author: None,
        tags: Some(seq![PLATFORM_TAG@, LINK_TAG@]),
    }
}

/// The document that saves one link found in a post.
pub fn format_link_document(url: &String) -> (document: Document)
    ensures
        document@ == link_document(url@),
{
    let mut tags: Vec<String> = Vec::new();
    tags.push(String::from_str(PLATFORM_TAG));
    tags.push(String::from_str(LINK_TAG));
    assert(string_texts(tags@) == seq![PLATFORM_TAG@, LINK_TAG@]);
    Document { url: url.clone(), html: None, title: None, author: None, tags: Some(tags) }
}

/// Where the processing of a post stands.
#[derive(Debug)]
pub enum ProcessState {
    /// Nothing has been asked for yet.
    Idle,
    /// The thread has been asked for.
    Fetching,
    /// The highlight or the document is being saved; `links` are to be
    /// saved after it.
    SavingPrimary { links: Vec<String> },
    /// The first of `pending` is being saved, the others wait; `failed`
    /// are the links whose save has failed so far.
    SavingLinks { pending: Vec<String>, failed: Vec<String> },
    /// The outcome has been given.
    Finished,
}

/// What has happened since the last step.
#[derive(Debug)]
pub enum ProcessEvent {
    /// A post is to be processed.
    Start { post_uri: String },
    /// The request for the thread has ended.
    ThreadFetched(Result<ThreadResponse, ProcessError>),
    /// The save that was asked for last has ended.
    Saved(Result<(), ProcessError>),
}

/// What came of processing a post that was saved.
#[derive(Debug, Clone, PartialEq, Eq)]
pub struct ProcessReport {
    /// The links that could not be saved.
    pub failed_links: Vec<String>,
}

/// What to do next.
#[derive(Debug)]
pub enum ProcessAction {
    /// Nothing: the event was not expected where the processing stands.
    Ignore,
    /// Fetch the thread of the post at `uri`.
    FetchThread { uri: String },
    /// Save a highlight.
    SaveHighlight { token: String, highlight: Highlight },
    /// Save a document.
    SaveDocument { token: String, document: Document },
    /// The processing has ended, with this outcome.
    Done(Result<ProcessReport, ProcessError>),
}

/// A state with its texts as character sequences.
pub enum StateText {
    Idle,
    Fetching,
    SavingPrimary { links: Seq<Seq<char>> },
    SavingLinks { pending: Seq<Seq<char>>, failed: Seq<Seq<char>> },
    Finished,
}

/// An action with its texts as character sequences.
pub enum ActionText {
    Ignore,
    FetchThread { uri: Seq<char> },
    SaveHighlight { token: Seq<char>, highlight: HighlightText },
    SaveDocument { token: Seq<char>, document: DocumentText },
    Done(Result<Seq<Seq<char>>, ProcessError>),
}

impl View for ProcessState {
    type V = StateText;

    open spec fn view(&self) -> StateText {
        match self {
            ProcessState::Idle => StateText::Idle,
            ProcessState::Fetching => StateText::Fetching,
            ProcessState::SavingPrimary { links } => StateText::SavingPrimary {
                links: string_texts(links@),
            },
            ProcessState::SavingLinks { pending, failed } => StateText::SavingLinks {
                pending: string_texts(pending@),
                failed: string_texts(failed@),
            },
            ProcessState::Finished => StateText::Finished,
        }
    }
}

impl View for ProcessAction {
    type V = ActionText;

    open spec fn view(&self) -> ActionText {
        match self {
            ProcessAction::Ignore => ActionText::Ignore,
            ProcessAction::FetchThread { uri } => ActionText::FetchThread { uri: uri@ },
            ProcessAction::SaveHighlight { token, highlight } => ActionText::SaveHighlight {
                token: token@,
                highlight: highlight@,
            },
            ProcessAction::SaveDocument { token, document } => ActionText::SaveDocument {
                token: token@,
                document: document@,
            },
            ProcessAction::Done(Ok(report)) => ActionText::Done(
                Ok(string_texts(report.failed_links@)),
            ),
            ProcessAction::Done(Err(e)) => ActionText::Done(Err(*e)),
        }
    }
}

impl ProcessReport {
    /// The failure that a report stands for: none where every link was
    /// saved, and a partial failure with the number of failed links
    /// otherwise.
    pub fn partial_failure(&self) -> (failure: Option<ProcessError>)
        ensures
            self.failed_links@.len() == 0 ==> failure is None,
            self.failed_links@.len() > 0 ==> failure == Some(
                ProcessError::PartialFailure { failed: self.failed_links.len() },
            ),
    {
        if self.failed_links.len() == 0 {
            None
        } else {
            Some(ProcessError::PartialFailure { failed: self.failed_links.len() })
        }
    }
}

/// What is fixed while one post is processed: the token for the saves, and
/// the options.
pub struct Job {
    pub token: Seq<char>,
    pub note: Option<Seq<char>>,
    pub extract_links: bool,
}

/// The save for the post itself: a document where the post belongs to a
/// thread, a highlight with the note where it stands alone.
pub open spec fn primary_save(job: Job, thread: ThreadViewPost) -> ActionText {
    if part_of_thread(thread) {
        ActionText::SaveDocument { token: job.token, document: document_of(thread) }
    } else {
        ActionText::SaveHighlight {
            token: job.token,
            highlight: highlight_of(thread.post, job.note),
        }
    }
}

/// The links that are saved with a post: those of the fetched post's own
/// record where the options ask for links, none otherwise.
pub open spec fn links_to_save(job: Job, thread: ThreadViewPost) -> Seq<Seq<char>> {
    if job.extract_links {
        record_links(thread.post.record)
    } else {
        Seq::empty()
    }
}

/// What follows a save once the post itself is saved: the save of the first
/// of `pending`, or the end where none is left.
pub open spec fn after_save(job: Job, pending: Seq<Seq<char>>, failed: Seq<Seq<char>>) -> (
    StateText,
    ActionText,
) {
    if pending.len() == 0 {
        (StateText::Finished, ActionText::Done(Ok(failed)))
    } else {
        (
            StateText::SavingLinks { pending: pending, failed: failed },
            ActionText::SaveDocument { token: job.token, document: link_document(pending[0]) },
        )
    }
}

/// One step: the state and the action that follow from a state and an
/// event.
///
/// - A start is taken only where nothing has been asked for.
/// - A failed fetch ends the processing with its error. A fetched thread is
///   classified, once, and its save is asked for.
/// - A failed save of the post itself ends the processing with its error,
///   and no link is saved.
/// - A failed save of a link is noted, and the next link is saved all the
///   same; the outcome is a success that lists the failed links.
/// - Any other event changes nothing.
pub open spec fn next(job: Job, state: StateText, event: ProcessEvent) -> (StateText, ActionText) {
    match (state, event) {
        (StateText::Idle, ProcessEvent::Start { post_uri }) => (
            StateText::Fetching,
            ActionText::FetchThread { uri: post_uri@ },
        ),
        (StateText::Fetching, ProcessEvent::ThreadFetched(Err(e))) => (
            StateText::Finished,
            ActionText::Done(Err(e)),
        ),
        (StateText::Fetching, ProcessEvent::ThreadFetched(Ok(response))) => (
            StateText::SavingPrimary { links: links_to_save(job, response.thread) },
            primary_save(job, response.thread),
        ),
        (StateText::SavingPrimary { links }, ProcessEvent::Saved(Err(e))) => (
            StateText::Finished,
            ActionText::Done(Err(e)),
        ),
        (StateText::SavingPrimary { links }, ProcessEvent::Saved(Ok(_))) => after_save(
            job,
            links,
            Seq::empty(),
        ),
        (StateText::SavingLinks { pending, failed }, ProcessEvent::Saved(result)) => {
            if pending.len() == 0 {
                after_save(job, pending, failed)
            } else if result is Err {
                after_save(job, pending.skip(1), failed.push(pending[0]))
            } else {
                after_save(job, pending.skip(1), failed)
            }
        },
        (state, _) => (state, ActionText::Ignore),
    }
}

/// The processing of one post.
#[derive(Debug)]
pub struct PostProcessor {
    pub readwise_token: String,
    pub options: ProcessOptions,
    pub state: ProcessState,
}

impl PostProcessor {
    /// What is fixed while this post is processed.
    pub open spec fn job(self) -> Job {
        Job {
            token: self.readwise_token@,
            note: opt_text(self.options.note),
            extract_links: self.options.extract_links,
        }
    }

    /// A processing that has not begun.
    pub fn new(readwise_token: String, options: ProcessOptions) -> (processor: PostProcessor)
        ensures
            processor.readwise_token == readwise_token,
            processor.options == options,
            processor.state is Idle,
    {
        PostProcessor { readwise_token, options, state: ProcessState::Idle }
    }

    /// Whether a fetched post belongs to a thread.
    pub fn is_part_of_thread(thread: &ThreadViewPost) -> (r: bool)
        ensures
            r == part_of_thread(*thread),
    {
        let has_replies = match &thread.replies {
            Some(replies) => replies.len() > 0,
            None => false,
        };
        thread.parent.is_some() || has_replies || is_thread(&thread.post)
    }

    fn save_for(&self, thread: &ThreadViewPost) -> (action: ProcessAction)
        ensures
            action@ == primary_save(self.job(), *thread),
    {
        if PostProcessor::is_part_of_thread(thread) {
            ProcessAction::SaveDocument {
                token: self.readwise_token.clone(),
                document: format_thread_as_document(thread),
            }
        } else {
            let note = match &self.options.note {
                Some(n) => Some(n.as_str()),
                None => None,
            };
            ProcessAction::SaveHighlight {
                token: self.readwise_token.clone(),
                highlight: format_post_as_highlight(&thread.post, note),
            }
        }
    }

    fn links_for(&self, thread: &ThreadViewPost) -> (links: Vec<String>)
        ensures
            string_texts(links@) == links_to_save(self.job(), *thread),
    {
        if self.options.extract_links {
            extract_links(&thread.post.record)
        } else {
            let links: Vec<String> = Vec::new();
            assert(string_texts(links@) == Seq::<Seq<char>>::empty());
            links
        }
    }

    fn proceed(self, pending: Vec<String>, failed: Vec<String>) -> (r: (
        PostProcessor,
        ProcessAction,
    ))
        ensures
            r.0.readwise_token == self.readwise_token,
            r.0.options == self.options,
            (r.0.state@, r.1@) == after_save(
                self.job(),
                string_texts(pending@),
                string_texts(failed@),
            ),
    {
        if pending.len() == 0 {
            (
                PostProcessor {
                    readwise_token: self.readwise_token,
                    options: self.options,
                    state: ProcessState::Finished,
                },
                ProcessAction::Done(Ok(ProcessReport { failed_links: failed })),
            )
        } else {
            let document = format_link_document(&pending[0]);
            let token = self.readwise_token.clone();
            assert(string_texts(pending@)[0] == pending@[0]@);
            (
                PostProcessor {
                    readwise_token: self.readwise_token,
                    options: self.options,
                    state: ProcessState::SavingLinks { pending, failed },
                },
                ProcessAction::SaveDocument { token, document },
            )
        }
    }

    /// Takes an event, and answers with the processing as it stands after
    /// it and with what to do next. Token and options never change.
    pub fn step(self, event: ProcessEvent) -> (r: (PostProcessor, ProcessAction))
        ensures
            r.0.readwise_token == self.readwise_token,
            r.0.options == self.options,
            (r.0.state@, r.1@) == next(self.job(), self.state@, event),
    {
        let PostProcessor { readwise_token, options, state } = self;
        match (state, event) {
            (ProcessState::Idle, ProcessEvent::Start { post_uri }) => (
                PostProcessor { readwise_token, options, state: ProcessState::Fetching },
                ProcessAction::FetchThread { uri: post_uri },
            ),
            (ProcessState::Fetching, ProcessEvent::ThreadFetched(Err(e))) => (
                PostProcessor { readwise_token, options, state: ProcessState::Finished },
                ProcessAction::Done(Err(e)),
            ),
            (ProcessState::Fetching, ProcessEvent::ThreadFetched(Ok(response))) => {
                let this = PostProcessor { readwise_token, options, state: ProcessState::Fetching };
                let links = this.links_for(&response.thread);
                let action = this.save_for(&response.thread);
                (
                    PostProcessor {
                        readwise_token: this.readwise_token,
                        options: this.options,
                        state: ProcessState::SavingPrimary { links },
                    },
                    action,
                )
            },
            (ProcessState::SavingPrimary { links }, ProcessEvent::Saved(Err(e))) => (
                PostProcessor { readwise_token, options, state: ProcessState::Finished },
                ProcessAction::Done(Err(e)),
            ),
            (ProcessState::SavingPrimary { links }, ProcessEvent::Saved(Ok(_))) => {
                let this = PostProcessor { readwise_token, options, state: ProcessState::Finished };
                let failed: Vec<String> = Vec::new();
                assert(string_texts(failed@) == Seq::<Seq<char>>::empty());
                this.proceed(links, failed)
            },
            (ProcessState::SavingLinks { pending, failed }, ProcessEvent::Saved(result)) => {
                let this = PostProcessor { readwise_token, options, state: ProcessState::Finished };
                let mut pending = pending;
                let mut failed = failed;
                if pending.len() == 0 {
                    this.proceed(pending, failed)
                } else {
                    let ghost before = string_texts(pending@);
                    let ghost failed_before = string_texts(failed@);
                    let first = pending.remove(0);
                    assert(string_texts(pending@) == before.skip(1));
                    assert(first@ == before[0]);
                    if result.is_err() {
                        failed.push(first);
                        assert(string_texts(failed@) == failed_before.push(before[0]));
                    }
                    this.proceed(pending, failed)
                }
            },
            (state, _) => (PostProcessor { readwise_token, options, state }, ProcessAction::Ignore),
        }
    }
}

// ---------------------------------------------------------------------------
// Whole runs
// ---------------------------------------------------------------------------

/// The state reached and the actions given, in order, when `events` arrive
/// one after another.
pub open spec fn run(job: Job, state: StateText, events: Seq<ProcessEvent>) -> (
    StateText,
    Seq<ActionText>,
)
    decreases events.len(),
{
    if events.len() == 0 {
        (state, Seq::empty())
    } else {
        let (state1, action) = next(job, state, events[0]);
        let (state2, actions) = run(job, state1, events.skip(1));
        (state2, seq![action] + actions)
    }
}

/// The events that report the outcomes `results` of saves, in order.
pub open spec fn saved(results: Seq<Result<(), ProcessError>>) -> Seq<ProcessEvent> {
    results.map_values(|r: Result<(), ProcessError>| ProcessEvent::Saved(r))
}

/// The saves of `links`, one document each, in order.
pub open spec fn link_saves(job: Job, links: Seq<Seq<char>>) -> Seq<ActionText> {
    links.map_values(
        |url: Seq<char>| ActionText::SaveDocument { token: job.token, document: link_document(url) },
    )
}

/// Those of `links` whose save failed, where `results[i]` is the outcome of
/// saving `links[i]`.
pub open spec fn failed_among(links: Seq<Seq<char>>, results: Seq<Result<(), ProcessError>>) -> Seq<
    Seq<char>,
>
    decreases links.len(),
{
    if links.len() == 0 || results.len() == 0 {
        Seq::empty()
    } else if results[0] is Err {
        seq![links[0]] + failed_among(links.skip(1), results.skip(1))
    } else {
        failed_among(links.skip(1), results.skip(1))
    }
}

/// While links are saved, every link is tried once whatever came of the
/// ones before it, and the end is a success that lists the failed ones.
pub proof fn lemma_links_all_tried(
    job: Job,
    pending: Seq<Seq<char>>,
    failed: Seq<Seq<char>>,
    results: Seq<Result<(), ProcessError>>,
)
    requires
        pending.len() >= 1,
        results.len() == pending.len(),
    ensures
        run(job, StateText::SavingLinks { pending, failed }, saved(results)) == (
            StateText::Finished,
            link_saves(job, pending.skip(1)) + seq![
                ActionText::Done(Ok(failed + failed_among(pending, results))),
            ],
        ),
    decreases pending.len(),
{
    let events = saved(results);
    let state = StateText::SavingLinks { pending, failed };
    let failed1 = if results[0] is Err {
        failed.push(pending[0])
    } else {
        failed
    };
    let rest = pending.skip(1);
    assert(events[0] == ProcessEvent::Saved(results[0]));
    assert(next(job, state, events[0]) == after_save(job, rest, failed1));
    assert(events.skip(1) == saved(results.skip(1)));
    assert(failed + failed_among(pending, results) == failed1 + failed_among(
        rest,
        results.skip(1),
    )) by {
        if results[0] is Err {
            assert(failed + (seq![pending[0]] + failed_among(rest, results.skip(1)))
                == failed.push(pending[0]) + failed_among(rest, results.skip(1)));
        }
    }
    if rest.len() == 0 {
        assert(failed_among(rest, results.skip(1)) == Seq::<Seq<char>>::empty());
        assert(failed1 + Seq::<Seq<char>>::empty() == failed1);
        assert(run(job, StateText::Finished, events.skip(1)).1 == Seq::<ActionText>::empty());
        assert(link_saves(job, rest) == Seq::<ActionText>::empty());
        assert(seq![ActionText::Done(Ok(failed1))] + Seq::<ActionText>::empty()
            == Seq::<ActionText>::empty() + seq![ActionText::Done(Ok(failed1))]);
    } else {
        lemma_links_all_tried(job, rest, failed1, results.skip(1));
        let first = ActionText::SaveDocument { token: job.token, document: link_document(rest[0]) };
        let done = seq![ActionText::Done(Ok(failed1 + failed_among(rest, results.skip(1))))];
        assert(link_saves(job, rest) == seq![first] + link_saves(job, rest.skip(1)));
        assert(seq![first] + (link_saves(job, rest.skip(1)) + done) == (seq![first] + link_saves(
            job,
            rest.skip(1),
        )) + done);
    }
}

/// A post whose thread is fetched and whose own save goes through: the
/// thread is asked for, then one save is made for the post (a highlight
/// where it stands alone, a document where it belongs to a thread), then
/// one document is saved for each link, in order, and the end is a success
/// that lists the links whose save failed.
pub proof fn lemma_run_saved(
    job: Job,
    post_uri: String,
    response: ThreadResponse,
    results: Seq<Result<(), ProcessError>>,
)
    requires
        results.len() == links_to_save(job, response.thread).len(),
    ensures
        run(
            job,
            StateText::Idle,
            seq![
                ProcessEvent::Start { post_uri },
                ProcessEvent::ThreadFetched(Ok(response)),
                ProcessEvent::Saved(Ok(())),
            ] + saved(results),
        ) == (
            StateText::Finished,
            seq![
                ActionText::FetchThread { uri: post_uri@ },
                primary_save(job, response.thread),
            ] + link_saves(job, links_to_save(job, response.thread)) + seq![
                ActionText::Done(Ok(failed_among(links_to_save(job, response.thread), results))),
            ],
        ),
{
    let links = links_to_save(job, response.thread);
    let head = seq![
        ProcessEvent::Start { post_uri },
        ProcessEvent::ThreadFetched(Ok(response)),
        ProcessEvent::Saved(Ok(())),
    ];
    let events = head + saved(results);
    let e1 = events.skip(1);
    let e2 = e1.skip(1);
    let e3 = e2.skip(1);
    assert(events[0] == head[0]);
    assert(e1[0] == head[1]);
    assert(e2[0] == head[2]);
    assert(e3 == saved(results));
    let fetch = ActionText::FetchThread { uri: post_uri@ };
    let primary = primary_save(job, response.thread);
    let empty = Seq::<Seq<char>>::empty();
    let done = ActionText::Done(Ok(failed_among(links, results)));
    let waiting = StateText::SavingPrimary { links };
    let (state3, action3) = after_save(job, links, empty);
    assert(next(job, StateText::Idle, events[0]) == (StateText::Fetching, fetch));
    assert(next(job, StateText::Fetching, e1[0]) == (waiting, primary));
    assert(next(job, waiting, e2[0]) == (state3, action3));
    let tail = if links.len() == 0 {
        seq![done]
    } else {
        link_saves(job, links) + seq![done]
    };
    let r2 = run(job, waiting, e2);
    let r3 = run(job, state3, e3);
    assert(r2 == (r3.0, seq![action3] + r3.1));
    assert(r2 == (StateText::Finished, tail)) by {
        if links.len() == 0 {
            assert(failed_among(links, results) == empty);
            assert(e3.len() == 0);
            assert(r3 == (StateText::Finished, Seq::<ActionText>::empty()));
            assert(seq![done] + Seq::<ActionText>::empty() == seq![done]);
        } else {
            lemma_links_all_tried(job, links, empty, results);
            assert(empty + failed_among(links, results) == failed_among(links, results));
            assert(r3 == (StateText::Finished, link_saves(job, links.skip(1)) + seq![done]));
            assert(link_saves(job, links) == seq![action3] + link_saves(job, links.skip(1)));
            assert(seq![action3] + (link_saves(job, links.skip(1)) + seq![done]) == (seq![action3]
                + link_saves(job, links.skip(1))) + seq![done]);
        }
    }
    let r1 = run(job, StateText::Fetching, e1);
    assert(r1 == (StateText::Finished, seq![primary] + tail));
    let r0 = run(job, StateText::Idle, events);
    assert(r0 == (StateText::Finished, seq![fetch] + (seq![primary] + tail)));
    assert(seq![fetch] + (seq![primary] + tail) == seq![fetch, primary] + link_saves(job, links)
        + seq![done]) by {
        if links.len() == 0 {
            assert(link_saves(job, links) == Seq::<ActionText>::empty());
        }
    }
}

/// A post whose thread cannot be fetched, or whose own save fails: the
/// processing ends with that error, and nothing is saved after it.
pub proof fn lemma_run_failed(job: Job, post_uri: String, response: ThreadResponse, e: ProcessError)
    ensures
        run(
            job,
            StateText::Idle,
            seq![ProcessEvent::Start { post_uri }, ProcessEvent::ThreadFetched(Err(e))],
        ) == (
            StateText::Finished,
            seq![ActionText::FetchThread { uri: post_uri@ }, ActionText::Done(Err(e))],
        ),
        run(
            job,
            StateText::Idle,
            seq![
                ProcessEvent::Start { post_uri },
                ProcessEvent::ThreadFetched(Ok(response)),
                ProcessEvent::Saved(Err(e)),
            ],
        ) == (
            StateText::Finished,
            seq![
                ActionText::FetchThread { uri: post_uri@ },
                primary_save(job, response.thread),
                ActionText::Done(Err(e)),
            ],
        ),
{
    let fetch = ActionText::FetchThread { uri: post_uri@ };
    let failed = ActionText::Done(Err(e));
    let none = Seq::<ActionText>::empty();
    let a = seq![ProcessEvent::Start { post_uri }, ProcessEvent::ThreadFetched(Err(e))];
    let a1 = a.skip(1);
    let a2 = a1.skip(1);
    assert(a1[0] == a[1]);
    assert(a2.len() == 0);
    assert(next(job, StateText::Idle, a[0]) == (StateText::Fetching, fetch));
    assert(next(job, StateText::Fetching, a1[0]) == (StateText::Finished, failed));
    assert(run(job, StateText::Finished, a2) == (StateText::Finished, none));
    assert(run(job, StateText::Fetching, a1) == (StateText::Finished, seq![failed] + none));
    assert(run(job, StateText::Idle, a) == (
        StateText::Finished,
        seq![fetch] + (seq![failed] + none),
    ));
    assert(seq![fetch] + (seq![failed] + none) == seq![fetch, failed]);
    let primary = primary_save(job, response.thread);
    let waiting = StateText::SavingPrimary { links: links_to_save(job, response.thread) };
    let b = seq![
        ProcessEvent::Start { post_uri },
        ProcessEvent::ThreadFetched(Ok(response)),
        ProcessEvent::Saved(Err(e)),
    ];
    let b1 = b.skip(1);
    let b2 = b1.skip(1);
    let b3 = b2.skip(1);
    assert(b1[0] == b[1]);
    assert(b2[0] == b[2]);
    assert(b3.len() == 0);
    assert(next(job, StateText::Idle, b[0]) == (StateText::Fetching, fetch));
    assert(next(job, StateText::Fetching, b1[0]) == (waiting, primary));
    assert(next(job, waiting, b2[0]) == (StateText::Finished, failed));
    assert(run(job, StateText::Finished, b3) == (StateText::Finished, none));
    assert(run(job, waiting, b2) == (StateText::Finished, seq![failed] + none));
    assert(run(job, StateText::Fetching, b1) == (
        StateText::Finished,
        seq![primary] + (seq![failed] + none),
    ));
    assert(run(job, StateText::Idle, b) == (
        StateText::Finished,
        seq![fetch] + (seq![primary] + (seq![failed] + none)),
    ));
    assert(seq![fetch] + (seq![primary] + (seq![failed] + none)) == seq![fetch, primary, failed]);
}

/// Once the outcome has been given, no event brings an action any more.
pub proof fn lemma_finished_is_final(job: Job, event: ProcessEvent)
    ensures
        next(job, StateText::Finished, event) == (StateText::Finished, ActionText::Ignore),
{
}

} // verus!
