//! The conversations that the process knows, each with its latest record
//! and its memory.
//!
//! Every operation takes the store by exclusive reference and is one step:
//! whoever shares a store between tasks puts it behind a lock, and each
//! interleaving of their calls is then a sequence of these steps.

use crate::chat_stream::{ChatRecord, ChatRecordView, ConversationId};
use crate::memory::{lemma_newest_of_push, newest, pushed, SlidingWindow};
use std::collections::HashMap;
use vstd::prelude::*;

verus! {

/// What the store holds of one conversation, as contracts see it.
pub struct ConversationView {
    /// The latest completed turn, if any was completed.
    pub record: Option<ChatRecordView>,
    /// The entries of the conversation's memory, oldest first.
    pub memory: Seq<Seq<char>>,
}

/// A conversation of which nothing is known yet.
pub open spec fn fresh() -> ConversationView {
    ConversationView { record: None, memory: Seq::empty() }
}

/// What `conversations` holds of `id`; a fresh conversation where it holds
/// none.
pub open spec fn lookup(
    conversations: Map<ConversationId, ConversationView>,
    id: ConversationId,
) -> ConversationView {
    if conversations.contains_key(id) {
        conversations[id]
    } else {
        fresh()
    }
}

/// The conversation once `record` completed a turn of it: the record
/// replaces the one before, and the memory, which holds `capacity` entries,
/// takes in the prompt and then the response.
pub open spec fn turned(
    conversation: ConversationView,
    record: ChatRecordView,
    capacity: nat,
) -> ConversationView {
    ConversationView {
        record: Some(record),
        memory: pushed(
            pushed(conversation.memory, capacity, record.prompt),
            capacity,
            record.response,
        ),
    }
}

/// A call on the store, as contracts see it.
pub enum StoreCall {
    GetOrCreate(ConversationId),
    Update(ConversationId, ChatRecordView),
}

impl StoreCall {
    /// The conversation that the call is about.
    pub open spec fn id(self) -> ConversationId {
        match self {
            StoreCall::GetOrCreate(id) => id,
            StoreCall::Update(id, _) => id,
        }
    }
}

/// The conversations of a store after `call`, as `get_or_create` and
/// `update` leave them.
pub open spec fn after_call(
    conversations: Map<ConversationId, ConversationView>,
    capacity: nat,
    call: StoreCall,
) -> Map<ConversationId, ConversationView> {
    match call {
        StoreCall::GetOrCreate(id) => conversations.insert(id, lookup(conversations, id)),
        StoreCall::Update(id, record) => conversations.insert(
            id,
            turned(lookup(conversations, id), record, capacity),
        ),
    }
}

/// The conversations of a store after `calls`, one after the other.
pub open spec fn after_calls(
    conversations: Map<ConversationId, ConversationView>,
    capacity: nat,
    calls: Seq<StoreCall>,
) -> Map<ConversationId, ConversationView>
    decreases calls.len(),
{
    if calls.len() == 0 {
        conversations
    } else {
        after_call(after_calls(conversations, capacity, calls.drop_last()), capacity, calls.last())
    }
}

/// The records that the updates among `calls` gave for conversation `id`,
/// in the order of the calls.
pub open spec fn updates_of(calls: Seq<StoreCall>, id: ConversationId) -> Seq<ChatRecordView>
    decreases calls.len(),
{
    if calls.len() == 0 {
        Seq::empty()
    } else {
        let earlier = updates_of(calls.drop_last(), id);
        match calls.last() {
            StoreCall::Update(to, record) => if to == id {
                earlier.push(record)
            } else {
                earlier
            },
            StoreCall::GetOrCreate(_) => earlier,
        }
    }
}

/// The texts of the turns of `records`, in order: of each its prompt, then
/// its response.
pub open spec fn turn_texts(records: Seq<ChatRecordView>) -> Seq<Seq<char>>
    decreases records.len(),
{
    if records.len() == 0 {
        Seq::empty()
    } else {
        turn_texts(records.drop_last()).push(records.last().prompt).push(records.last().response)
    }
}

/// Whether one of `calls` is about conversation `id`.
pub open spec fn touches(calls: Seq<StoreCall>, id: ConversationId) -> bool {
    exists|i: int| 0 <= i < calls.len() && (#[trigger] calls[i]).id() == id
}

/// Whatever the order in which calls reach a store, a conversation's record
/// and its memory agree: the record is the one that the last update for the
/// conversation gave, and the memory holds the newest texts of all its
/// updates, as many as fit, behind what it held before.  Calls about other
/// conversations change nothing of it, and the store holds it once a call
/// was about it.
pub proof fn lemma_record_matches_memory(
    start: Map<ConversationId, ConversationView>,
    capacity: nat,
    calls: Seq<StoreCall>,
    id: ConversationId,
)
    ensures
        after_calls(start, capacity, calls).contains_key(id) <==> start.contains_key(id)
            || touches(calls, id),
        updates_of(calls, id).len() == 0 ==> lookup(after_calls(start, capacity, calls), id)
            == lookup(start, id),
        updates_of(calls, id).len() > 0 ==> lookup(after_calls(start, capacity, calls), id)
            == (ConversationView {
            record: Some(updates_of(calls, id).last()),
            memory: newest(lookup(start, id).memory + turn_texts(updates_of(calls, id)), capacity),
        }),
    decreases calls.len(),
{
    if calls.len() == 0 {
    } else {
        let earlier = calls.drop_last();
        let held = after_calls(start, capacity, earlier);
        lemma_record_matches_memory(start, capacity, earlier, id);
        assert(touches(calls, id) <==> touches(earlier, id) || calls.last().id() == id) by {
            if touches(earlier, id) {
                let i = choose|i: int| 0 <= i < earlier.len() && (#[trigger] earlier[i]).id() == id;
                assert(calls[i].id() == id);
            }
            if calls.last().id() == id {
                assert(calls[calls.len() - 1].id() == id);
            }
            if touches(calls, id) {
                let i = choose|i: int| 0 <= i < calls.len() && (#[trigger] calls[i]).id() == id;
                if i < earlier.len() {
                    assert(earlier[i].id() == id);
                }
            }
        }
        match calls.last() {
            StoreCall::Update(to, record) => {
                if to == id {
                    let before = updates_of(earlier, id);
                    let memory = lookup(held, id).memory;
                    let first = lookup(start, id).memory;
                    lemma_newest_of_push(memory.push(record.prompt), capacity, record.response);
                    if before.len() == 0 {
                        assert(first + turn_texts(before) =~= first);
                        lemma_newest_of_push(first, capacity, record.prompt);
                    } else {
                        lemma_newest_of_push(first + turn_texts(before), capacity, record.prompt);
                    }
                    lemma_newest_of_push(
                        (first + turn_texts(before)).push(record.prompt),
                        capacity,
                        record.response,
                    );
                    assert((first + turn_texts(before)).push(record.prompt).push(record.response)
                        =~= first + turn_texts(before.push(record))) by {
                        assert(before.push(record).drop_last() =~= before);
                    }
                    assert(pushed(pushed(memory, capacity, record.prompt), capacity, record.response)
                        =~= newest(first + turn_texts(before.push(record)), capacity));
                }
            },
            StoreCall::GetOrCreate(_) => {},
        }
    }
}

struct Conversation {
    record: Option<ChatRecord>,
    memory: SlidingWindow,
}

impl View for Conversation {
    type V = ConversationView;

    closed spec fn view(&self) -> ConversationView {
        ConversationView {
            record: match self.record {
                Some(record) => Some(record@),
                None => None,
            },
            memory: self.memory@,
        }
    }
}

/// The store of conversations.  A conversation comes into being when it is
/// first asked for and stays for as long as the store lives.
pub struct ConversationStore {
    users: HashMap<u128, HashMap<u128, Conversation>>,
    window_capacity: usize,
}

spec fn holds(users: Map<u128, HashMap<u128, Conversation>>, id: ConversationId) -> bool {
    users.contains_key(id.user) && users[id.user]@.contains_key(id.chat)
}

spec fn windows_sized(users: Map<u128, HashMap<u128, Conversation>>, capacity: nat) -> bool {
    forall|id: ConversationId| #[trigger]
        holds(users, id) ==> users[id.user]@[id.chat].memory.spec_capacity() == capacity
}

spec fn conversations(users: Map<u128, HashMap<u128, Conversation>>) -> Map<
    ConversationId,
    ConversationView,
> {
    Map::new(|id: ConversationId| holds(users, id), |id: ConversationId| users[id.user]@[id.chat]@)
}

impl View for ConversationStore {
    type V = Map<ConversationId, ConversationView>;

    /// The conversations held, by identity.
    closed spec fn view(&self) -> Map<ConversationId, ConversationView> {
        conversations(self.users@)
    }
}

spec fn same_at(
    before: Map<u128, HashMap<u128, Conversation>>,
    after: Map<u128, HashMap<u128, Conversation>>,
    id: ConversationId,
) -> bool {
    after[id.user]@[id.chat] == before[id.user]@[id.chat]
}

/// Takes conversation `id` out of `users`, if it is there.
fn take(users: &mut HashMap<u128, HashMap<u128, Conversation>>, id: ConversationId) -> (taken:
    Option<Conversation>)
    ensures
        match taken {
            Some(conversation) => {
                &&& holds(old(users)@, id)
                &&& conversation == old(users)@[id.user]@[id.chat]
            },
            None => !holds(old(users)@, id),
        },
        !holds(final(users)@, id),
        forall|other: ConversationId|
            #![trigger holds(final(users)@, other)]
            #![trigger holds(old(users)@, other)]
            other != id ==> {
                &&& holds(final(users)@, other) == holds(old(users)@, other)
                &&& holds(old(users)@, other) ==> same_at(old(users)@, final(users)@, other)
            },
{
    let mut chats = match users.remove(&id.user) {
        Some(chats) => chats,
        None => HashMap::new(),
    };
    let taken = chats.remove(&id.chat);
    users.insert(id.user, chats);
    taken
}

/// Files `conversation` under `id` in `users`, which holds none for it.
fn put(
    users: &mut HashMap<u128, HashMap<u128, Conversation>>,
    id: ConversationId,
    conversation: Conversation,
)
    requires
        !holds(old(users)@, id),
    ensures
        holds(final(users)@, id),
        final(users)@[id.user]@[id.chat] == conversation,
        forall|other: ConversationId|
            #![trigger holds(final(users)@, other)]
            #![trigger holds(old(users)@, other)]
            other != id ==> {
                &&& holds(final(users)@, other) == holds(old(users)@, other)
                &&& holds(old(users)@, other) ==> same_at(old(users)@, final(users)@, other)
            },
{
    let mut chats = match users.remove(&id.user) {
        Some(chats) => chats,
        None => HashMap::new(),
    };
    chats.insert(id.chat, conversation);
    users.insert(id.user, chats);
}

impl ConversationStore {
    #[verifier::type_invariant]
    spec fn well_formed(&self) -> bool {
        windows_sized(self.users@, self.window_capacity as nat)
    }

    /// How many entries the memory of each conversation holds.
    pub closed spec fn spec_window_capacity(&self) -> nat {
        self.window_capacity as nat
    }

    /// An empty store whose conversations each remember `window_capacity`
    /// entries.
    pub fn new(window_capacity: usize) -> (store: Self)
        ensures
            store@ == Map::<ConversationId, ConversationView>::empty(),
            store.spec_window_capacity() == window_capacity,
    {
        let store = Self { users: HashMap::new(), window_capacity };
        assert(store@ =~= Map::<ConversationId, ConversationView>::empty());
        store
    }

    /// How many entries the memory of each conversation holds.
    pub fn window_capacity(&self) -> (capacity: usize)
        ensures
            capacity == self.spec_window_capacity(),
    {
        self.window_capacity
    }

    /// Whether the store holds conversation `id`.
    pub fn contains(&self, id: ConversationId) -> (held: bool)
        ensures
            held == self@.contains_key(id),
    {
        match self.users.get(&id.user) {
            Some(chats) => chats.contains_key(&id.chat),
            None => false,
        }
    }

    /// What the store holds of conversation `id`, which it starts, empty,
    /// where it did not hold it: a copy of the latest record, if a turn was
    /// completed, and a copy of the memory.
    pub fn get_or_create(&mut self, id: ConversationId) -> (found: (
        Option<ChatRecord>,
        SlidingWindow,
    ))
        ensures
            final(self).spec_window_capacity() == old(self).spec_window_capacity(),
            final(self)@ == old(self)@.insert(id, lookup(old(self)@, id)),
            match found.0 {
                Some(record) => Some(record@),
                None => None,
            } == lookup(old(self)@, id).record,
            found.1@ == lookup(old(self)@, id).memory,
            found.1.spec_capacity() == old(self).spec_window_capacity(),
    {
        proof {
            use_type_invariant(&*self);
        }
        let mut users = HashMap::new();
        std::mem::swap(&mut users, &mut self.users);
        let ghost before = users@;
        let conversation = match take(&mut users, id) {
            Some(conversation) => conversation,
            None => Conversation { record: None, memory: SlidingWindow::new(self.window_capacity) },
        };
        let record = match &conversation.record {
            Some(record) => Some(record.clone()),
            None => None,
        };
        let memory = conversation.memory.clone();
        put(&mut users, id, conversation);
        assert(conversations(users@) =~= conversations(before).insert(
            id,
            lookup(conversations(before), id),
        ));
        self.users = users;
        (record, memory)
    }

    /// Completes a turn of conversation `id`, which the store starts where
    /// it did not hold it: `record` replaces the latest record, and the
    /// memory takes in the record's prompt and then its response.  The store
    /// files the record under `id` and keeps it as it came.
    pub fn update(&mut self, id: ConversationId, record: ChatRecord)
        ensures
            final(self).spec_window_capacity() == old(self).spec_window_capacity(),
            final(self)@ == old(self)@.insert(
                id,
                turned(lookup(old(self)@, id), record@, old(self).spec_window_capacity()),
            ),
    {
        proof {
            use_type_invariant(&*self);
        }
        let mut users = HashMap::new();
        std::mem::swap(&mut users, &mut self.users);
        let ghost before = users@;
        let mut memory = match take(&mut users, id) {
            Some(conversation) => conversation.memory,
            None => SlidingWindow::new(self.window_capacity),
        };
        memory.add(record.prompt.clone());
        memory.add(record.response.clone());
        put(&mut users, id, Conversation { record: Some(record), memory });
        assert(conversations(users@) =~= conversations(before).insert(
            id,
            turned(lookup(conversations(before), id), record@, self.window_capacity as nat),
        ));
        self.users = users;
    }
}

} // verus!
