//! The values that travel through one request: who asks, what is asked of
//! the provider, what the provider streams back, and the record that stays.

use vstd::prelude::*;

verus! {

/// The identity of one dialogue: a user and one of that user's chats, each
/// a 128-bit identifier.
#[derive(Clone, Copy, Debug, PartialEq, Eq, Structural, Hash)]
pub struct ConversationId {
    pub user: u128,
    pub chat: u128,
}

/// What a client sends to start a turn.
#[derive(Debug, PartialEq, Eq)]
pub struct ChatParams {
    pub prompt: String,
}

/// The latest completed turn of a conversation.
#[derive(Debug, PartialEq, Eq)]
pub struct ChatRecord {
    pub userid: u128,
    pub chatid: u128,
    pub prompt: String,
    pub response: String,
}

/// A [`ChatRecord`] as contracts see it.
pub struct ChatRecordView {
    pub userid: u128,
    pub chatid: u128,
    pub prompt: Seq<char>,
    pub response: Seq<char>,
}

impl View for ChatRecord {
    type V = ChatRecordView;

    open spec fn view(&self) -> ChatRecordView {
        ChatRecordView {
            userid: self.userid,
            chatid: self.chatid,
            prompt: self.prompt@,
            response: self.response@,
        }
    }
}

impl ChatRecordView {
    /// The conversation that the record belongs to.
    pub open spec fn id(self) -> ConversationId {
        ConversationId { user: self.userid, chat: self.chatid }
    }
}

impl ChatRecord {
    /// The record of a turn of conversation `id`.
    pub fn new(id: ConversationId, prompt: String, response: String) -> (record: Self)
        ensures
            record@.id() == id,
            record@.prompt == prompt@,
            record@.response == response@,
    {
        Self { userid: id.user, chatid: id.chat, prompt, response }
    }

    /// The conversation that the record belongs to.
    pub fn conversation_id(&self) -> (id: ConversationId)
        ensures
            id == self@.id(),
    {
        ConversationId { user: self.userid, chat: self.chatid }
    }
}

impl Clone for ChatRecord {
    fn clone(&self) -> (copy: Self)
        ensures
            copy@ == self@,
    {
        Self {
            userid: self.userid,
            chatid: self.chatid,
            prompt: self.prompt.clone(),
            response: self.response.clone(),
        }
    }
}

/// What is asked of the provider for one turn.
#[derive(Debug, PartialEq, Eq)]
pub struct ProviderRequest {
    /// The provider's name for the model that answers.
    pub model: String,
    /// The most tokens that the provider may generate.
    pub max_tokens: u32,
    /// What the conversation remembers, as one text.
    pub context: String,
    /// What the user asks now.
    pub prompt: String,
}

/// A [`ProviderRequest`] as contracts see it.
pub struct ProviderRequestView {
    pub model: Seq<char>,
    pub max_tokens: u32,
    pub context: Seq<char>,
    pub prompt: Seq<char>,
}

impl View for ProviderRequest {
    type V = ProviderRequestView;

    open spec fn view(&self) -> ProviderRequestView {
        ProviderRequestView {
            model: self.model@,
            max_tokens: self.max_tokens,
            context: self.context@,
            prompt: self.prompt@,
        }
    }
}

/// Who speaks in a message to the provider.
#[derive(Clone, Copy, Debug, PartialEq, Eq, Structural)]
pub enum Role {
    /// The relay, setting the scene.
    System,
    /// The user who asks.
    User,
}

/// One message of the conversation that the provider is to continue.
#[derive(Debug, PartialEq, Eq)]
pub struct ProviderMessage {
    pub role: Role,
    pub content: String,
}

/// A [`ProviderMessage`] as contracts see it.
pub struct ProviderMessageView {
    pub role: Role,
    pub content: Seq<char>,
}

impl View for ProviderMessage {
    type V = ProviderMessageView;

    open spec fn view(&self) -> ProviderMessageView {
        ProviderMessageView { role: self.role, content: self.content@ }
    }
}

impl DeepView for ProviderMessage {
    type V = ProviderMessageView;

    open spec fn deep_view(&self) -> ProviderMessageView {
        self@
    }
}

impl ProviderRequestView {
    /// The messages that carry the request: the context, where there is
    /// any, as a system message, and behind it the prompt as the user's.
    pub open spec fn messages(self) -> Seq<ProviderMessageView> {
        let asks = ProviderMessageView { role: Role::User, content: self.prompt };
        if self.context.len() == 0 {
            seq![asks]
        } else {
            seq![ProviderMessageView { role: Role::System, content: self.context }, asks]
        }
    }
}

impl ProviderRequest {
    /// The messages to send to the provider for this request.
    pub fn messages(&self) -> (messages: Vec<ProviderMessage>)
        ensures
            messages.deep_view() == self@.messages(),
    {
        let mut messages: Vec<ProviderMessage> = Vec::new();
        if !self.context.as_str().is_empty() {
            messages.push(ProviderMessage { role: Role::System, content: self.context.clone() });
        }
        messages.push(ProviderMessage { role: Role::User, content: self.prompt.clone() });
        assert(messages.deep_view() =~= self@.messages());
        messages
    }
}
/// The texts among `deltas`, in order.
pub open spec fn texts_of(deltas: Seq<Option<Seq<char>>>) -> Seq<Seq<char>>
    decreases deltas.len(),
{
    if deltas.len() == 0 {
        Seq::empty()
    } else {
        let earlier = texts_of(deltas.drop_last());
        match deltas.last() {
            Some(text) => earlier.push(text),
            None => earlier,
        }
    }
}

/// The fragments of one chunk of a provider's stream.  A chunk holds one
/// delta for each choice, and a delta may come without text: the fragments
/// are the texts that are there, in the order of the choices.
pub fn chunk_fragments(deltas: &Vec<Option<String>>) -> (fragments: Vec<String>)
    ensures
        fragments.deep_view() == texts_of(deltas.deep_view()),
{
    let mut fragments: Vec<String> = Vec::new();
    let n = deltas.len();
    let mut i: usize = 0;
    while i < n
        invariant
            i <= n,
            n == deltas.len(),
            fragments.deep_view() == texts_of(deltas.deep_view().take(i as int)),
        decreases n - i,
    {
        proof {
            assert(deltas.deep_view().take(i + 1).drop_last() =~= deltas.deep_view().take(
                i as int,
            ));
        }
        let ghost before = fragments.deep_view();
        match &deltas[i] {
            Some(text) => {
                fragments.push(text.clone());
                assert(fragments.deep_view() =~= before.push(text@));
            },
            None => {},
        }
        i += 1;
    }
    assert(deltas.deep_view().take(n as int) =~= deltas.deep_view());
    fragments
}

} // verus!
