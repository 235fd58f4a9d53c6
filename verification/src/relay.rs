//! The relay of one request: a state machine between a provider that
//! streams an answer and a client that receives it.
//!
//! The relay does no waiting of its own.  Whoever drives it tells it what
//! happened, one event at a time, and does what the relay answers; in
//! between, the relay gathers the answer for the record.

use crate::chat_stream::{ChatParams, ChatRecord, ChatRecordView, ConversationId};
use crate::chat_stream::{ProviderRequest, ProviderRequestView};
use crate::config::AppConfig;
use crate::memory::joined;
use crate::persistence::{PersistenceDropped, PersistenceQueue};
use crate::store::{lookup, turned, ConversationStore};
use vstd::prelude::*;
use vstd::string::*;

verus! {

/// Where a relay stands.
#[derive(Clone, Copy, Debug, PartialEq, Eq, Structural)]
pub enum RelayState {
    /// Made, with nothing asked of the provider yet.
    Init,
    /// The provider was asked; its stream is being relayed.
    Streaming,
    /// The stream is over, by its end or by an error; the turn waits to be
    /// recorded.
    Completing,
    /// Nothing is left to do: the turn was recorded, or the client went
    /// away and it was given up.
    Done,
}

/// What happened on one of the two sides of a relay.
#[derive(Debug, PartialEq, Eq)]
pub enum RelayEvent {
    /// The provider sent the next piece of its answer.
    Fragment(String),
    /// The provider failed, on being asked or in the middle of its answer;
    /// the message says how.
    ProviderError(String),
    /// The provider's answer is complete.
    StreamEnd,
    /// The client is no longer there to receive.
    ClientGone,
}

/// A [`RelayEvent`] as contracts see it.
pub enum RelayEventView {
    Fragment(Seq<char>),
    ProviderError(Seq<char>),
    StreamEnd,
    ClientGone,
}

impl View for RelayEvent {
    type V = RelayEventView;

    open spec fn view(&self) -> RelayEventView {
        match self {
            RelayEvent::Fragment(text) => RelayEventView::Fragment(text@),
            RelayEvent::ProviderError(message) => RelayEventView::ProviderError(message@),
            RelayEvent::StreamEnd => RelayEventView::StreamEnd,
            RelayEvent::ClientGone => RelayEventView::ClientGone,
        }
    }
}

/// What whoever drives a relay does in answer to an event.
#[derive(Debug, PartialEq, Eq)]
pub enum RelayAction {
    /// Send the text to the client, and only then ask the provider for its
    /// next piece: a client that is slow to receive slows the stream down,
    /// and nothing is dropped on the way.
    Forward(String),
    /// Send the text, which tells of the provider's failure, to the client;
    /// the stream is over, so complete the turn.
    ForwardError(String),
    /// The stream is over; complete the turn.
    Complete,
    /// Let go of the provider's stream at once; there is nothing to record.
    Cancel,
    /// The relay is not streaming; the event means nothing to it.
    Ignore,
}

/// A [`RelayAction`] as contracts see it.
pub enum RelayActionView {
    Forward(Seq<char>),
    ForwardError(Seq<char>),
    Complete,
    Cancel,
    Ignore,
}

impl View for RelayAction {
    type V = RelayActionView;

    open spec fn view(&self) -> RelayActionView {
        match self {
            RelayAction::Forward(text) => RelayActionView::Forward(text@),
            RelayAction::ForwardError(text) => RelayActionView::ForwardError(text@),
            RelayAction::Complete => RelayActionView::Complete,
            RelayAction::Cancel => RelayActionView::Cancel,
            RelayAction::Ignore => RelayActionView::Ignore,
        }
    }
}

/// The relay of one request: it takes in what the provider streams, says
/// what the client is to receive, and gathers the answer for the record.
#[derive(Debug)]
pub struct StreamRelay {
    id: ConversationId,
    prompt: String,
    state: RelayState,
    accumulated: String,
}

/// A [`StreamRelay`] as contracts see it.
pub struct RelayView {
    /// The conversation that the request belongs to.
    pub id: ConversationId,
    /// What the user asked.
    pub prompt: Seq<char>,
    /// Where the relay stands.
    pub state: RelayState,
    /// The answer as far as it was relayed.
    pub accumulated: Seq<char>,
}

impl View for StreamRelay {
    type V = RelayView;

    closed spec fn view(&self) -> RelayView {
        RelayView {
            id: self.id,
            prompt: self.prompt@,
            state: self.state,
            accumulated: self.accumulated@,
        }
    }
}

/// The text that tells a client of a provider's failure.
pub open spec fn error_text(message: Seq<char>) -> Seq<char> {
    "error: "@ + message
}

/// The relay after `event`, and what is to be done about it.
///
/// Only a streaming relay takes events in.  A fragment joins the answer and
/// goes to the client as it came.  A failure goes to the client as an error
/// text, which joins the answer too, and ends the stream, as its regular end
/// does.  When the client is gone the answer so far is thrown away and the
/// relay is done.
pub open spec fn stepped(relay: RelayView, event: RelayEventView) -> (RelayView, RelayActionView) {
    if relay.state != RelayState::Streaming {
        (relay, RelayActionView::Ignore)
    } else {
        match event {
            RelayEventView::Fragment(text) => (
                RelayView { accumulated: relay.accumulated + text, ..relay },
                RelayActionView::Forward(text),
            ),
            RelayEventView::ProviderError(message) => (
                RelayView {
                    accumulated: relay.accumulated + error_text(message),
                    state: RelayState::Completing,
                    ..relay
                },
                RelayActionView::ForwardError(error_text(message)),
            ),
            RelayEventView::StreamEnd => (
                RelayView { state: RelayState::Completing, ..relay },
                RelayActionView::Complete,
            ),
            RelayEventView::ClientGone => (
                RelayView { state: RelayState::Done, accumulated: Seq::empty(), ..relay },
                RelayActionView::Cancel,
            ),
        }
    }
}

/// The record of the turn that `relay` is ready to complete: that of its
/// prompt and of the answer as it was relayed.  A relay whose stream is not
/// over, or which is done, has none.
pub open spec fn recorded(relay: RelayView) -> Option<ChatRecordView> {
    if relay.state == RelayState::Completing {
        Some(
            ChatRecordView {
                userid: relay.id.user,
                chatid: relay.id.chat,
                prompt: relay.prompt,
                response: relay.accumulated,
            },
        )
    } else {
        None
    }
}

/// The relay after `events`, one after the other, and what was to be done
/// about each.
pub open spec fn run(relay: RelayView, events: Seq<RelayEventView>) -> (
    RelayView,
    Seq<RelayActionView>,
)
    decreases events.len(),
{
    if events.len() == 0 {
        (relay, Seq::empty())
    } else {
        let (next, action) = stepped(relay, events.first());
        let (last, actions) = run(next, events.drop_first());
        (last, seq![action] + actions)
    }
}

/// The texts that `actions` send to the client, in order.
pub open spec fn delivered(actions: Seq<RelayActionView>) -> Seq<Seq<char>>
    decreases actions.len(),
{
    if actions.len() == 0 {
        Seq::empty()
    } else {
        let later = delivered(actions.drop_first());
        match actions.first() {
            RelayActionView::Forward(text) => seq![text] + later,
            RelayActionView::ForwardError(text) => seq![text] + later,
            _ => later,
        }
    }
}

/// The first of `events` that is no fragment: what ends the stream, if
/// anything does.
pub open spec fn ending(events: Seq<RelayEventView>) -> Option<RelayEventView>
    decreases events.len(),
{
    if events.len() == 0 {
        None
    } else {
        match events.first() {
            RelayEventView::Fragment(_) => ending(events.drop_first()),
            other => Some(other),
        }
    }
}

/// The texts that the provider's side of `events` carries until the stream
/// is over, in order: the fragments, and behind them the error text where a
/// failure ends the stream.
pub open spec fn arrived(events: Seq<RelayEventView>) -> Seq<Seq<char>>
    decreases events.len(),
{
    if events.len() == 0 {
        Seq::empty()
    } else {
        match events.first() {
            RelayEventView::Fragment(text) => seq![text] + arrived(events.drop_first()),
            RelayEventView::ProviderError(message) => seq![error_text(message)],
            _ => Seq::empty(),
        }
    }
}

/// How many fragments come before the stream of `events` is over.
pub open spec fn fragments_before_ending(events: Seq<RelayEventView>) -> nat
    decreases events.len(),
{
    if events.len() == 0 {
        0
    } else {
        match events.first() {
            RelayEventView::Fragment(_) => 1 + fragments_before_ending(events.drop_first()),
            _ => 0,
        }
    }
}

/// A relay that is not streaming ignores whatever comes.
pub proof fn lemma_idle_relay_ignores(relay: RelayView, events: Seq<RelayEventView>)
    requires
        relay.state != RelayState::Streaming,
    ensures
        run(relay, events).0 == relay,
        run(relay, events).1.len() == events.len(),
        forall|i: int|
            0 <= i < events.len() ==> (#[trigger] run(relay, events).1[i])
                == RelayActionView::Ignore,
        delivered(run(relay, events).1) == Seq::<Seq<char>>::empty(),
    decreases events.len(),
{
    if events.len() > 0 {
        lemma_idle_relay_ignores(relay, events.drop_first());
        let actions = run(relay, events).1;
        assert(actions.drop_first() =~= run(relay, events.drop_first()).1);
    }
}

/// The client receives what the provider sent, piece by piece and in the
/// order in which it arrived, whatever the events: every fragment until the
/// stream is over, then the error text if a failure ended it, and nothing
/// after that.  Each event is answered by one action.  Where the stream
/// ends of itself or by a failure, the turn to record holds the texts that
/// the client received, joined in that order behind what the relay had
/// gathered; until then there is no turn to record.
pub proof fn lemma_delivery_follows_arrival(relay: RelayView, events: Seq<RelayEventView>)
    requires
        relay.state == RelayState::Streaming,
    ensures
        run(relay, events).1.len() == events.len(),
        delivered(run(relay, events).1) == arrived(events),
        ending(events) is None ==> run(relay, events).0 == (RelayView {
            accumulated: relay.accumulated + arrived(events).flatten(),
            ..relay
        }),
        ending(events) is Some && ending(events) != Some(RelayEventView::ClientGone) ==> recorded(
            run(relay, events).0,
        ) == Some(
            ChatRecordView {
                userid: relay.id.user,
                chatid: relay.id.chat,
                prompt: relay.prompt,
                response: relay.accumulated + arrived(events).flatten(),
            },
        ),
    decreases events.len(),
{
    let actions = run(relay, events).1;
    if events.len() == 0 {
        assert(relay.accumulated + arrived(events).flatten() =~= relay.accumulated);
    } else {
        let (next, action) = stepped(relay, events.first());
        let later = events.drop_first();
        assert(actions.drop_first() =~= run(next, later).1);
        match events.first() {
            RelayEventView::Fragment(text) => {
                lemma_delivery_follows_arrival(next, later);
                assert(arrived(events).drop_first() =~= arrived(later));
                assert(relay.accumulated + arrived(events).flatten() =~= next.accumulated
                    + arrived(later).flatten());
            },
            RelayEventView::ProviderError(message) => {
                lemma_idle_relay_ignores(next, later);
                arrived(events).lemma_flatten_one_element();
                assert(delivered(actions) =~= arrived(events));
            },
            _ => {
                lemma_idle_relay_ignores(next, later);
                assert(relay.accumulated + arrived(events).flatten() =~= relay.accumulated);
            },
        }
    }
}

/// When the client goes away while the provider streams, the relay gives
/// the stream up in the very step in which it learns of it, and no turn is
/// recorded: the answer so far is thrown away, the relay is done, and it
/// ignores whatever comes after.
pub proof fn lemma_disconnect_records_nothing(relay: RelayView, events: Seq<RelayEventView>)
    requires
        relay.state == RelayState::Streaming,
        ending(events) == Some(RelayEventView::ClientGone),
    ensures
        fragments_before_ending(events) < events.len(),
        run(relay, events).1.len() == events.len(),
        run(relay, events).1[fragments_before_ending(events) as int] == RelayActionView::Cancel,
        forall|i: int|
            fragments_before_ending(events) < i < events.len() ==> (#[trigger] run(
                relay,
                events,
            ).1[i]) == RelayActionView::Ignore,
        run(relay, events).0 == (RelayView {
            state: RelayState::Done,
            accumulated: Seq::empty(),
            ..relay
        }),
        recorded(run(relay, events).0) is None,
    decreases events.len(),
{
    let actions = run(relay, events).1;
    let (next, action) = stepped(relay, events.first());
    let later = events.drop_first();
    assert(actions.drop_first() =~= run(next, later).1);
    match events.first() {
        RelayEventView::Fragment(text) => {
            lemma_disconnect_records_nothing(next, later);
            assert forall|i: int| fragments_before_ending(events) < i < events.len() implies (
            #[trigger] actions[i]) == RelayActionView::Ignore by {
                assert(actions[i] == actions.drop_first()[i - 1]);
            }
            assert(actions[fragments_before_ending(events) as int] == actions.drop_first()[
                fragments_before_ending(later) as int
            ]);
        },
        _ => {
            lemma_idle_relay_ignores(next, later);
            assert forall|i: int| 0 < i < events.len() implies (#[trigger] actions[i])
                == RelayActionView::Ignore by {
                assert(actions[i] == actions.drop_first()[i - 1]);
            }
        },
    }
}

/// How a turn was completed.
#[derive(Debug, PartialEq, Eq)]
pub struct Completion {
    /// The record of the turn, as the store now holds it.
    pub record: ChatRecord,
    /// Why the record will not be written durably, if the queue turned it
    /// away.
    pub dropped: Option<PersistenceDropped>,
}

fn error_fragment(message: &String) -> (text: String)
    ensures
        text@ == error_text(message@),
{
    let mut text = "error: ".to_owned();
    text.append(message.as_str());
    text
}

impl StreamRelay {
    /// A relay for a request of conversation `id`, with nothing asked of
    /// the provider yet.
    pub fn new(id: ConversationId, params: ChatParams) -> (relay: Self)
        ensures
            relay@ == (RelayView {
                id,
                prompt: params.prompt@,
                state: RelayState::Init,
                accumulated: Seq::empty(),
            }),
    {
        Self { id, prompt: params.prompt, state: RelayState::Init, accumulated: String::new() }
    }

    /// Where the relay stands.
    pub fn state(&self) -> (state: RelayState)
        ensures
            state == self@.state,
    {
        self.state
    }

    /// The conversation that the request belongs to.
    pub fn conversation_id(&self) -> (id: ConversationId)
        ensures
            id == self@.id,
    {
        self.id
    }

    /// Starts the turn: looks the conversation up in `store`, which starts
    /// it where it is new, and says what to ask of the provider: the model
    /// and the bound on tokens of `config`, the conversation's memory as
    /// context, and the prompt.  The relay is streaming from then on.  A
    /// relay that was started before gives nothing and changes nothing.
    pub fn open(&mut self, config: &AppConfig, store: &mut ConversationStore) -> (request: Option<
        ProviderRequest,
    >)
        ensures
            final(store).spec_window_capacity() == old(store).spec_window_capacity(),
            old(self)@.state == RelayState::Init ==> {
                &&& request matches Some(asked)
                &&& asked@ == (ProviderRequestView {
                    model: config.llm_to_use@,
                    max_tokens: config.max_tokens,
                    context: joined(lookup(old(store)@, old(self)@.id).memory),
                    prompt: old(self)@.prompt,
                })
                &&& final(self)@ == (RelayView { state: RelayState::Streaming, ..old(self)@ })
                &&& final(store)@ == old(store)@.insert(
                    old(self)@.id,
                    lookup(old(store)@, old(self)@.id),
                )
            },
            old(self)@.state != RelayState::Init ==> {
                &&& request is None
                &&& final(self)@ == old(self)@
                &&& final(store)@ == old(store)@
            },
    {
        if self.state != RelayState::Init {
            return None;
        }
        let (_, memory) = store.get_or_create(self.id);
        self.state = RelayState::Streaming;
        Some(
            ProviderRequest {
                model: config.llm_to_use.clone(),
                max_tokens: config.max_tokens,
                context: memory.to_string(),
                prompt: self.prompt.clone(),
            },
        )
    }

    /// Takes in `event` and says what is to be done about it.
    pub fn step(&mut self, event: RelayEvent) -> (action: RelayAction)
        ensures
            (final(self)@, action@) == stepped(old(self)@, event@),
    {
        if self.state != RelayState::Streaming {
            return RelayAction::Ignore;
        }
        match event {
            RelayEvent::Fragment(text) => {
                self.accumulated.append(text.as_str());
                RelayAction::Forward(text)
            },
            RelayEvent::ProviderError(message) => {
                let text = error_fragment(&message);
                self.accumulated.append(text.as_str());
                self.state = RelayState::Completing;
                RelayAction::ForwardError(text)
            },
            RelayEvent::StreamEnd => {
                self.state = RelayState::Completing;
                RelayAction::Complete
            },
            RelayEvent::ClientGone => {
                self.accumulated = String::new();
                self.state = RelayState::Done;
                RelayAction::Cancel
            },
        }
    }

    /// Completes the turn of a relay whose stream is over: the record of
    /// the prompt and the gathered answer replaces the conversation's
    /// record in `store`, whose memory takes the turn in, and goes to
    /// `queue` to be written, without waiting.  The relay is done from then
    /// on.  A relay that is anywhere else gives nothing and changes nothing:
    /// no turn is recorded before the stream is over, twice, or after the
    /// client went away.
    pub fn complete(&mut self, store: &mut ConversationStore, queue: &mut PersistenceQueue) -> (done:
        Option<Completion>)
        ensures
            final(store).spec_window_capacity() == old(store).spec_window_capacity(),
            final(queue).spec_capacity() == old(queue).spec_capacity(),
            final(queue).spec_is_shut_down() == old(queue).spec_is_shut_down(),
            match recorded(old(self)@) {
                Some(record) => {
                    &&& done matches Some(completion)
                    &&& completion.record@ == record
                    &&& final(self)@ == (RelayView { state: RelayState::Done, ..old(self)@ })
                    &&& final(store)@ == old(store)@.insert(
                        old(self)@.id,
                        turned(
                            lookup(old(store)@, old(self)@.id),
                            record,
                            old(store).spec_window_capacity(),
                        ),
                    )
                    &&& completion.dropped == match old(queue).admission() {
                        Ok(_) => None,
                        Err(reason) => Some(reason),
                    }
                    &&& final(queue)@ == if old(queue).admission() is Ok {
                        old(queue)@.push(record)
                    } else {
                        old(queue)@
                    }
                },
                None => {
                    &&& done is None
                    &&& final(self)@ == old(self)@
                    &&& final(store)@ == old(store)@
                    &&& final(queue)@ == old(queue)@
                },
            },
    {
        if self.state != RelayState::Completing {
            return None;
        }
        let record = ChatRecord::new(self.id, self.prompt.clone(), self.accumulated.clone());
        store.update(self.id, record.clone());
        let dropped = match queue.submit(record.clone()) {
            Ok(()) => None,
            Err(reason) => Some(reason),
        };
        self.state = RelayState::Done;
        Some(Completion { record, dropped })
    }
}

} // verus!
