//! Keeping up with the bot's direct messages: at each tick the new messages
//! are asked for, and each message that has not been handled before is read
//! and handed on with what is to be done about it, in the order given.
//!
//! The waiting, the listing and the doing are done elsewhere. [`DmPoller`]
//! decides: it is handed each outcome as an event and answers with what to
//! do next.

use crate::error::ProcessError;
use crate::services::dm_bot::{dispatch_of, parsed, DmBotService, DmStep, DmStepText};
use crate::text::{contains_string, string_texts};
use vstd::prelude::*;

verus! {

/// A direct message as it comes in, with the sender's token for the
/// read-it-later service as it is kept for the sender.
#[derive(Debug, Clone)]
pub struct IncomingMessage {
    pub id: String,
    pub convo_id: String,
    pub text: String,
    pub readwise_token: String,
}

/// A message with its texts as character sequences.
pub struct MessageText {
    pub id: Seq<char>,
    pub convo_id: Seq<char>,
    pub text: Seq<char>,
    pub readwise_token: Seq<char>,
}

impl View for IncomingMessage {
    type V = MessageText;

    open spec fn view(&self) -> MessageText {
        MessageText {
            id: self.id@,
            convo_id: self.convo_id@,
            text: self.text@,
            readwise_token: self.readwise_token@,
        }
    }
}

/// The messages of a list, with their texts as character sequences.
pub open spec fn message_texts(messages: Seq<IncomingMessage>) -> Seq<MessageText> {
    messages.map_values(|m: IncomingMessage| m@)
}

/// Where the polling stands.
#[derive(Debug)]
pub enum PollState {
    /// Waiting for the next tick.
    Idle,
    /// The new messages have been asked for.
    Listing,
    /// The first of `pending` is being handled, the others wait; `handled`
    /// are the messages handled since the tick.
    Handling { pending: Vec<IncomingMessage>, handled: Vec<String> },
}

/// What has happened since the last step.
#[derive(Debug)]
pub enum PollEvent {
    /// The time for a poll has come.
    Tick,
    /// The request for the new messages has ended.
    MessagesListed(Result<Vec<IncomingMessage>, ProcessError>),
    /// What was to be done about the message handed on last has ended.
    MessageHandled(Result<(), ProcessError>),
}

/// What to do next.
#[derive(Debug)]
pub enum PollAction {
    /// Nothing: the event was not expected where the polling stands.
    Ignore,
    /// Ask for the new messages.
    ListMessages,
    /// Do `step` about the message `message_id`.
    Handle { message_id: String, step: DmStep },
    /// The tick is over: `handled` are the messages that were handled.
    TickDone { handled: Vec<String> },
    /// The tick is over because the messages could not be listed.
    TickFailed(ProcessError),
}

/// A state with its texts as character sequences.
pub enum PollStateText {
    Idle,
    Listing,
    Handling { pending: Seq<MessageText>, handled: Seq<Seq<char>> },
}

/// An action with its texts as character sequences.
pub enum PollActionText {
    Ignore,
    ListMessages,
    Handle { message_id: Seq<char>, step: DmStepText },
    TickDone { handled: Seq<Seq<char>> },
    TickFailed(ProcessError),
}

impl View for PollState {
    type V = PollStateText;

    open spec fn view(&self) -> PollStateText {
        match self {
            PollState::Idle => PollStateText::Idle,
            PollState::Listing => PollStateText::Listing,
            PollState::Handling { pending, handled } => PollStateText::Handling {
                pending: message_texts(pending@),
                handled: string_texts(handled@),
            },
        }
    }
}

impl View for PollAction {
    type V = PollActionText;

    open spec fn view(&self) -> PollActionText {
        match self {
            PollAction::Ignore => PollActionText::Ignore,
            PollAction::ListMessages => PollActionText::ListMessages,
            PollAction::Handle { message_id, step } => PollActionText::Handle {
                message_id: message_id@,
                step: step@,
            },
            PollAction::TickDone { handled } => PollActionText::TickDone {
                handled: string_texts(handled@),
            },
            PollAction::TickFailed(e) => PollActionText::TickFailed(*e),
        }
    }
}

/// What a polling knows and where it stands.
pub struct PollText {
    /// The messages that have been handled, now or earlier.
    pub seen: Seq<Seq<char>>,
    /// Where the polling stands.
    pub state: PollStateText,
}

/// `pending` without the messages at its head that have been handled.
pub open spec fn skip_handled(seen: Seq<Seq<char>>, pending: Seq<MessageText>) -> Seq<MessageText>
    decreases pending.len(),
{
    if pending.len() > 0 && seen.contains(pending[0].id) {
        skip_handled(seen, pending.skip(1))
    } else {
        pending
    }
}

/// What is to be done about a message: what its text, read as a command,
/// asks for.
pub open spec fn step_for(message: MessageText) -> DmStepText {
    dispatch_of(message.convo_id, parsed(message.text), message.readwise_token)
}

/// What follows when the next message is due: the first of `pending` that
/// has not been handled is handed on with what is to be done about it;
/// where none is left the tick is over.
pub open spec fn advance(m: PollText, pending: Seq<MessageText>, handled: Seq<Seq<char>>) -> (
    PollText,
    PollActionText,
) {
    let left = skip_handled(m.seen, pending);
    if left.len() == 0 {
        (PollText { state: PollStateText::Idle, ..m }, PollActionText::TickDone { handled })
    } else {
        (
            PollText { state: PollStateText::Handling { pending: left, handled }, ..m },
            PollActionText::Handle { message_id: left[0].id, step: step_for(left[0]) },
        )
    }
}

/// One step: what the polling knows and does after an event.
///
/// - A tick is taken only while idle: the new messages are asked for.
/// - Messages that cannot be listed end the tick.
/// - Each listed message is handed on in order, but for those that have
///   been handled before.
/// - A message that was handled is remembered; one that failed is not, and
///   the next message is handed on either way.
/// - Any other event changes nothing.
pub open spec fn next(m: PollText, event: PollEvent) -> (PollText, PollActionText) {
    match (m.state, event) {
        (PollStateText::Idle, PollEvent::Tick) => (
            PollText { state: PollStateText::Listing, ..m },
            PollActionText::ListMessages,
        ),
        (PollStateText::Listing, PollEvent::MessagesListed(Err(e))) => (
            PollText { state: PollStateText::Idle, ..m },
            PollActionText::TickFailed(e),
        ),
        (PollStateText::Listing, PollEvent::MessagesListed(Ok(messages))) => advance(
            m,
            message_texts(messages@),
            Seq::empty(),
        ),
        (PollStateText::Handling { pending, handled }, PollEvent::MessageHandled(result)) => {
            if pending.len() == 0 {
                advance(m, pending, handled)
            } else if result is Ok {
                advance(
                    PollText { seen: m.seen.push(pending[0].id), ..m },
                    pending.skip(1),
                    handled.push(pending[0].id),
                )
            } else {
                advance(m, pending.skip(1), handled)
            }
        },
        _ => (m, PollActionText::Ignore),
    }
}

/// What `skip_handled` leaves begins with a message that has not been
/// handled.
pub proof fn lemma_skip_handled(seen: Seq<Seq<char>>, pending: Seq<MessageText>)
    ensures
        skip_handled(seen, pending).len() <= pending.len(),
        skip_handled(seen, pending).len() > 0 ==> !seen.contains(skip_handled(seen, pending)[0].id),
    decreases pending.len(),
{
    if pending.len() > 0 && seen.contains(pending[0].id) {
        lemma_skip_handled(seen, pending.skip(1));
    }
}

/// No message is handed on once it has been handled: a message that is
/// handed on has not been handled before, and where handling it succeeds it
/// counts as handled from then on.
pub proof fn lemma_handed_on_once(m: PollText, event: PollEvent, result: Result<(), ProcessError>)
    ensures
        next(m, event).1 matches PollActionText::Handle { message_id, .. } ==> {
            &&& !next(m, event).0.seen.contains(message_id)
            &&& result is Ok ==> next(
                next(m, event).0,
                PollEvent::MessageHandled(result),
            ).0.seen.contains(message_id)
        },
{
    let (m1, action) = next(m, event);
    if let PollActionText::Handle { message_id, .. } = action {
        match (m.state, event) {
            (PollStateText::Listing, PollEvent::MessagesListed(Ok(messages))) => {
                lemma_skip_handled(m.seen, message_texts(messages@));
            },
            (PollStateText::Handling { pending, handled }, PollEvent::MessageHandled(r)) => {
                if pending.len() > 0 {
                    if r is Ok {
                        lemma_skip_handled(m.seen.push(pending[0].id), pending.skip(1));
                    } else {
                        lemma_skip_handled(m.seen, pending.skip(1));
                    }
                } else {
                    lemma_skip_handled(m.seen, pending);
                }
            },
            _ => {},
        }
        if result is Ok {
            let pending = m1.state->Handling_pending;
            assert(pending[0].id == message_id);
            let seen2 = m1.seen.push(message_id);
            assert(seen2[seen2.len() - 1] == message_id);
            assert(seen2.contains(message_id));
        }
    }
}

/// A message that fails does not stop the tick: the message after it is
/// handed on, unless it has been handled before.
pub proof fn lemma_failure_does_not_stop(
    m: PollText,
    pending: Seq<MessageText>,
    handled: Seq<Seq<char>>,
    e: ProcessError,
)
    requires
        m.state == (PollStateText::Handling { pending, handled }),
        pending.len() >= 2,
        !m.seen.contains(pending[1].id),
    ensures
        next(m, PollEvent::MessageHandled(Err(e))).1 == (PollActionText::Handle {
            message_id: pending[1].id,
            step: step_for(pending[1]),
        }),
        next(m, PollEvent::MessageHandled(Err(e))).0.seen == m.seen,
{
    assert(pending.skip(1)[0] == pending[1]);
}

/// The polling of the bot's direct messages.
#[derive(Debug)]
pub struct DmPoller {
    pub bot: DmBotService,
    /// The messages that have been handled, now or earlier.
    pub seen: Vec<String>,
    pub state: PollState,
}

fn drop_handled(seen: &Vec<String>, pending: Vec<IncomingMessage>) -> (left: Vec<IncomingMessage>)
    ensures
        message_texts(left@) == skip_handled(string_texts(seen@), message_texts(pending@)),
{
    let mut left = pending;
    while left.len() > 0 && contains_string(seen, &left[0].id)
        invariant
            skip_handled(string_texts(seen@), message_texts(left@)) == skip_handled(
                string_texts(seen@),
                message_texts(pending@),
            ),
        decreases left.len(),
    {
        let ghost before = message_texts(left@);
        assert(before[0] == left@[0]@);
        left.remove(0);
        assert(message_texts(left@) == before.skip(1));
    }
    proof {
        if left.len() > 0 {
            assert(message_texts(left@)[0] == left@[0]@);
        }
    }
    left
}

impl DmPoller {
    /// What the polling knows and where it stands.
    pub open spec fn view(self) -> PollText {
        PollText { seen: string_texts(self.seen@), state: self.state@ }
    }

    /// A polling that waits for its first tick. `seen` are the messages
    /// that were handled in earlier runs.
    pub fn new(bot: DmBotService, seen: Vec<String>) -> (poller: DmPoller)
        ensures
            poller.bot == bot,
            poller.seen == seen,
            poller.state is Idle,
    {
        DmPoller { bot, seen, state: PollState::Idle }
    }

    fn proceed(self, pending: Vec<IncomingMessage>, handled: Vec<String>) -> (r: (
        DmPoller,
        PollAction,
    ))
        ensures
            r.0.bot == self.bot,
            (r.0.view(), r.1@) == advance(
                self.view(),
                message_texts(pending@),
                string_texts(handled@),
            ),
    {
        let DmPoller { bot, seen, state } = self;
        let left = drop_handled(&seen, pending);
        if left.len() == 0 {
            (DmPoller { bot, seen, state: PollState::Idle }, PollAction::TickDone { handled })
        } else {
            let first = &left[0];
            let step = bot.process_message(
                first.convo_id.as_str(),
                first.text.as_str(),
                first.readwise_token.as_str(),
            );
            let message_id = first.id.clone();
            assert(message_texts(left@)[0] == left@[0]@);
            (
                DmPoller { bot, seen, state: PollState::Handling { pending: left, handled } },
                PollAction::Handle { message_id, step },
            )
        }
    }

    /// Takes an event, and answers with the polling as it stands after it
    /// and with what to do next.
    pub fn step(self, event: PollEvent) -> (r: (DmPoller, PollAction))
        ensures
            r.0.bot == self.bot,
            (r.0.view(), r.1@) == next(self.view(), event),
    {
        let DmPoller { bot, seen, state } = self;
        match (state, event) {
            (PollState::Idle, PollEvent::Tick) => (
                DmPoller { bot, seen, state: PollState::Listing },
                PollAction::ListMessages,
            ),
            (PollState::Listing, PollEvent::MessagesListed(Err(e))) => (
                DmPoller { bot, seen, state: PollState::Idle },
                PollAction::TickFailed(e),
            ),
            (PollState::Listing, PollEvent::MessagesListed(Ok(messages))) => {
                let this = DmPoller { bot, seen, state: PollState::Listing };
                let handled: Vec<String> = Vec::new();
                assert(string_texts(handled@) == Seq::<Seq<char>>::empty());
                this.proceed(messages, handled)
            },
            (PollState::Handling { pending, handled }, PollEvent::MessageHandled(result)) => {
                let mut seen = seen;
                let mut pending = pending;
                let mut handled = handled;
                if pending.len() > 0 {
                    let ghost before = message_texts(pending@);
                    let ghost seen_before = string_texts(seen@);
                    let ghost handled_before = string_texts(handled@);
                    assert(before[0] == pending@[0]@);
                    let first = pending.remove(0);
                    assert(message_texts(pending@) == before.skip(1));
                    if result.is_ok() {
                        seen.push(first.id.clone());
                        handled.push(first.id);
                        assert(string_texts(seen@) == seen_before.push(before[0].id));
                        assert(string_texts(handled@) == handled_before.push(before[0].id));
                    }
                }
                let this = DmPoller { bot, seen, state: PollState::Idle };
                this.proceed(pending, handled)
            },
            (state, _) => (DmPoller { bot, seen, state }, PollAction::Ignore),
        }
    }
}

} // verus!
