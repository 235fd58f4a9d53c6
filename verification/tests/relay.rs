use chat_relay::chat_stream::{
    chunk_fragments, ChatParams, ChatRecord, ConversationId, ProviderMessage, ProviderRequest,
    Role,
};
use chat_relay::relay::{Completion, RelayAction, RelayEvent, RelayState, StreamRelay};
use chat_relay::config::AppConfig;
use chat_relay::persistence::{ConsumerStep, PersistenceDropped, PersistenceQueue};
use chat_relay::store::ConversationStore;

fn config() -> AppConfig {
    AppConfig {
        llm_to_use: "gpt-4".to_string(),
        max_tokens: 512,
        sliding_window_size: 4,
        client_url: "http://localhost:3000".to_string(),
    }
}

fn id() -> ConversationId {
    ConversationId {
        user: 0x67e55044_10b1_426f_9247_bb680e5fe0c8,
        chat: 0x0102_0304_0506_0708_090a_0b0c_0d0e_0f10,
    }
}

fn relay(prompt: &str) -> StreamRelay {
    StreamRelay::new(id(), ChatParams { prompt: prompt.to_string() })
}

fn streaming(prompt: &str, store: &mut ConversationStore) -> StreamRelay {
    let mut relay = relay(prompt);
    assert!(relay.open(&config(), store).is_some());
    relay
}

fn fragment(text: &str) -> RelayEvent {
    RelayEvent::Fragment(text.to_string())
}

#[test]
fn new_relay_waits_to_be_opened() {
    let relay = relay("Hi");
    assert_eq!(relay.state(), RelayState::Init);
    assert_eq!(relay.conversation_id(), id());
}

#[test]
fn open_asks_the_provider_with_memory_as_context() {
    let mut store = ConversationStore::new(4);
    store.update(id(), ChatRecord::new(id(), "Hi".to_string(), "Hello".to_string()));
    let mut relay = relay("And now?");
    let request = relay.open(&config(), &mut store);
    assert_eq!(
        request,
        Some(ProviderRequest {
            model: "gpt-4".to_string(),
            max_tokens: 512,
            context: "Hi\nHello".to_string(),
            prompt: "And now?".to_string(),
        })
    );
    assert_eq!(relay.state(), RelayState::Streaming);
}

#[test]
fn open_starts_an_unknown_conversation() {
    let mut store = ConversationStore::new(4);
    let mut relay = relay("Hi");
    let request = relay.open(&config(), &mut store).unwrap();
    assert_eq!(request.context, "");
    assert_eq!(request.prompt, "Hi");
    assert!(store.contains(id()));
    let (latest, memory) = store.get_or_create(id());
    assert_eq!(latest, None);
    assert!(memory.is_empty());
}

#[test]
fn open_works_once() {
    let mut store = ConversationStore::new(4);
    let mut relay = streaming("Hi", &mut store);
    assert_eq!(relay.open(&config(), &mut store), None);
    assert_eq!(relay.state(), RelayState::Streaming);
}

#[test]
fn fragments_reach_the_client_in_order_and_make_the_response() {
    let mut store = ConversationStore::new(4);
    let mut queue = PersistenceQueue::new(10);
    let mut relay = streaming("Hi", &mut store);

    assert_eq!(relay.step(fragment("Hel")), RelayAction::Forward("Hel".to_string()));
    assert_eq!(relay.state(), RelayState::Streaming);
    assert_eq!(relay.step(fragment("lo")), RelayAction::Forward("lo".to_string()));
    assert_eq!(relay.step(RelayEvent::StreamEnd), RelayAction::Complete);
    assert_eq!(relay.state(), RelayState::Completing);

    let expected = ChatRecord::new(id(), "Hi".to_string(), "Hello".to_string());
    let done = relay.complete(&mut store, &mut queue);
    assert_eq!(done, Some(Completion { record: expected.clone(), dropped: None }));
    assert_eq!(relay.state(), RelayState::Done);

    let (latest, memory) = store.get_or_create(id());
    assert_eq!(latest, Some(expected.clone()));
    assert_eq!(memory.to_string(), "Hi\nHello");
    assert_eq!(queue.len(), 1);
    assert_eq!(queue.next_step(), ConsumerStep::Write(expected));
}

#[test]
fn many_fragments_keep_their_order() {
    let mut store = ConversationStore::new(4);
    let mut queue = PersistenceQueue::new(10);
    let mut relay = streaming("count", &mut store);
    let mut sent: Vec<String> = Vec::new();
    let mut received: Vec<String> = Vec::new();
    for n in 0..50 {
        let text = format!("<{}>", n);
        sent.push(text.clone());
        match relay.step(RelayEvent::Fragment(text)) {
            RelayAction::Forward(text) => received.push(text),
            other => panic!("unexpected action {:?}", other),
        }
    }
    assert_eq!(received, sent);
    assert_eq!(relay.step(RelayEvent::StreamEnd), RelayAction::Complete);
    let done = relay.complete(&mut store, &mut queue).unwrap();
    assert_eq!(done.record.response, sent.concat());
}

#[test]
fn empty_stream_gives_an_empty_response() {
    let mut store = ConversationStore::new(4);
    let mut queue = PersistenceQueue::new(10);
    let mut relay = streaming("Hi", &mut store);
    assert_eq!(relay.step(RelayEvent::StreamEnd), RelayAction::Complete);
    let done = relay.complete(&mut store, &mut queue).unwrap();
    assert_eq!(done.record, ChatRecord::new(id(), "Hi".to_string(), String::new()));
}

#[test]
fn failure_in_the_middle_is_shown_and_recorded() {
    let mut store = ConversationStore::new(4);
    let mut queue = PersistenceQueue::new(10);
    let mut relay = streaming("Hi", &mut store);
    assert_eq!(relay.step(fragment("Hel")), RelayAction::Forward("Hel".to_string()));
    assert_eq!(
        relay.step(RelayEvent::ProviderError("connection reset".to_string())),
        RelayAction::ForwardError("error: connection reset".to_string())
    );
    assert_eq!(relay.state(), RelayState::Completing);
    // the stream is over: what comes later is not relayed
    assert_eq!(relay.step(fragment("lo")), RelayAction::Ignore);
    assert_eq!(relay.step(RelayEvent::StreamEnd), RelayAction::Ignore);

    let done = relay.complete(&mut store, &mut queue).unwrap();
    assert_eq!(done.record.response, "Helerror: connection reset");
    assert_eq!(done.dropped, None);
    let (latest, _) = store.get_or_create(id());
    assert_eq!(latest, Some(done.record));
}

#[test]
fn failure_on_opening_is_one_error_fragment() {
    let mut store = ConversationStore::new(4);
    let mut queue = PersistenceQueue::new(10);
    let mut relay = streaming("Hi", &mut store);
    assert_eq!(
        relay.step(RelayEvent::ProviderError("invalid api key".to_string())),
        RelayAction::ForwardError("error: invalid api key".to_string())
    );
    let done = relay.complete(&mut store, &mut queue).unwrap();
    assert_eq!(done.record.prompt, "Hi");
    assert_eq!(done.record.response, "error: invalid api key");
}

#[test]
fn client_gone_cancels_and_records_nothing() {
    let mut store = ConversationStore::new(4);
    let mut queue = PersistenceQueue::new(10);
    let mut relay = streaming("Hi", &mut store);
    assert_eq!(relay.step(fragment("Hel")), RelayAction::Forward("Hel".to_string()));
    assert_eq!(relay.step(RelayEvent::ClientGone), RelayAction::Cancel);
    assert_eq!(relay.state(), RelayState::Done);
    assert_eq!(relay.step(fragment("lo")), RelayAction::Ignore);
    assert_eq!(relay.step(RelayEvent::StreamEnd), RelayAction::Ignore);
    assert_eq!(relay.state(), RelayState::Done);

    assert_eq!(relay.complete(&mut store, &mut queue), None);
    let (latest, memory) = store.get_or_create(id());
    assert_eq!(latest, None);
    assert_eq!(memory.to_string(), "");
    assert_eq!(queue.len(), 0);
}

#[test]
fn events_mean_nothing_before_the_relay_is_opened() {
    let mut store = ConversationStore::new(4);
    let mut queue = PersistenceQueue::new(10);
    let mut relay = relay("Hi");
    assert_eq!(relay.step(fragment("Hel")), RelayAction::Ignore);
    assert_eq!(relay.step(RelayEvent::ClientGone), RelayAction::Ignore);
    assert_eq!(relay.state(), RelayState::Init);
    assert_eq!(relay.complete(&mut store, &mut queue), None);
    assert!(!store.contains(id()));
    // it can still be opened, and nothing of what was ignored is in the answer
    assert!(relay.open(&config(), &mut store).is_some());
    assert_eq!(relay.step(RelayEvent::StreamEnd), RelayAction::Complete);
    assert_eq!(relay.complete(&mut store, &mut queue).unwrap().record.response, "");
}

#[test]
fn turn_is_not_recorded_while_streaming_nor_twice() {
    let mut store = ConversationStore::new(4);
    let mut queue = PersistenceQueue::new(10);
    let mut relay = streaming("Hi", &mut store);
    assert_eq!(relay.step(fragment("a")), RelayAction::Forward("a".to_string()));
    assert_eq!(relay.complete(&mut store, &mut queue), None);
    assert_eq!(relay.state(), RelayState::Streaming);
    assert_eq!(relay.step(RelayEvent::StreamEnd), RelayAction::Complete);
    assert!(relay.complete(&mut store, &mut queue).is_some());
    assert_eq!(relay.complete(&mut store, &mut queue), None);
    assert_eq!(queue.len(), 1);
    let (_, memory) = store.get_or_create(id());
    assert_eq!(memory.to_string(), "Hi\na");
}

#[test]
fn full_queue_drops_the_record_but_the_store_has_it() {
    let mut store = ConversationStore::new(4);
    let mut queue = PersistenceQueue::new(1);
    let waiting = ChatRecord::new(id(), "old".to_string(), "job".to_string());
    assert_eq!(queue.submit(waiting.clone()), Ok(()));

    let mut relay = streaming("Hi", &mut store);
    assert_eq!(relay.step(fragment("Hello")), RelayAction::Forward("Hello".to_string()));
    assert_eq!(relay.step(RelayEvent::StreamEnd), RelayAction::Complete);
    let done = relay.complete(&mut store, &mut queue).unwrap();
    assert_eq!(done.dropped, Some(PersistenceDropped::QueueFull));
    assert_eq!(done.record.response, "Hello");
    assert_eq!(relay.state(), RelayState::Done);

    let (latest, _) = store.get_or_create(id());
    assert_eq!(latest, Some(done.record));
    assert_eq!(queue.len(), 1);
    assert_eq!(queue.next_step(), ConsumerStep::Write(waiting));
    assert_eq!(queue.next_step(), ConsumerStep::Wait);
}

#[test]
fn shut_down_queue_is_named_as_the_reason() {
    let mut store = ConversationStore::new(4);
    let mut queue = PersistenceQueue::new(5);
    queue.shut_down();
    let mut relay = streaming("Hi", &mut store);
    assert_eq!(relay.step(RelayEvent::StreamEnd), RelayAction::Complete);
    let done = relay.complete(&mut store, &mut queue).unwrap();
    assert_eq!(done.dropped, Some(PersistenceDropped::ShutDown));
    assert_eq!(queue.len(), 0);
}

#[test]
fn second_turn_sees_the_first_as_context() {
    let mut store = ConversationStore::new(4);
    let mut queue = PersistenceQueue::new(10);
    let mut first = streaming("Hi", &mut store);
    first.step(fragment("Hello"));
    first.step(RelayEvent::StreamEnd);
    first.complete(&mut store, &mut queue);

    let mut second = relay("Who are you?");
    let request = second.open(&config(), &mut store).unwrap();
    assert_eq!(request.context, "Hi\nHello");
    assert_eq!(request.prompt, "Who are you?");
    assert_eq!(request.max_tokens, 512);
    assert_eq!(request.model, "gpt-4");
}

#[test]
fn chunk_gives_the_texts_that_are_there() {
    let deltas = vec![
        Some("a".to_string()),
        None,
        Some(String::new()),
        Some("b".to_string()),
        None,
    ];
    assert_eq!(
        chunk_fragments(&deltas),
        vec!["a".to_string(), String::new(), "b".to_string()]
    );
    assert_eq!(chunk_fragments(&vec![None, None]), Vec::<String>::new());
    assert_eq!(chunk_fragments(&Vec::new()), Vec::<String>::new());
}

#[test]
fn request_with_context_is_two_messages() {
    let request = ProviderRequest {
        model: "gpt-4".to_string(),
        max_tokens: 512,
        context: "Hi\nHello".to_string(),
        prompt: "And now?".to_string(),
    };
    assert_eq!(
        request.messages(),
        vec![
            ProviderMessage { role: Role::System, content: "Hi\nHello".to_string() },
            ProviderMessage { role: Role::User, content: "And now?".to_string() },
        ]
    );
}

#[test]
fn request_without_context_is_the_prompt_alone() {
    let request = ProviderRequest {
        model: "gpt-4".to_string(),
        max_tokens: 512,
        context: String::new(),
        prompt: "Hi".to_string(),
    };
    assert_eq!(
        request.messages(),
        vec![ProviderMessage { role: Role::User, content: "Hi".to_string() }]
    );
}

#[test]
fn record_names_its_conversation() {
    let record = ChatRecord::new(id(), "Hi".to_string(), "Hello".to_string());
    assert_eq!(record.conversation_id(), id());
    assert_eq!(record.userid, id().user);
    assert_eq!(record.chatid, id().chat);
    assert_eq!(record.prompt, "Hi");
    assert_eq!(record.response, "Hello");
    assert_eq!(record.clone(), record);
}

#[test]
fn two_requests_of_one_conversation_are_recorded_one_after_the_other() {
    let mut store = ConversationStore::new(4);
    let mut queue = PersistenceQueue::new(10);
    let mut first = streaming("one", &mut store);
    let mut second = streaming("two", &mut store);

    // their streams interleave
    assert_eq!(first.step(fragment("1a")), RelayAction::Forward("1a".to_string()));
    assert_eq!(second.step(fragment("2a")), RelayAction::Forward("2a".to_string()));
    assert_eq!(first.step(fragment("1b")), RelayAction::Forward("1b".to_string()));
    assert_eq!(second.step(RelayEvent::StreamEnd), RelayAction::Complete);
    assert_eq!(first.step(RelayEvent::StreamEnd), RelayAction::Complete);

    let second_done = second.complete(&mut store, &mut queue).unwrap();
    let (latest, memory) = store.get_or_create(id());
    assert_eq!(latest, Some(second_done.record.clone()));
    assert_eq!(memory.to_string(), "two\n2a");

    let first_done = first.complete(&mut store, &mut queue).unwrap();
    let (latest, memory) = store.get_or_create(id());
    assert_eq!(latest, Some(first_done.record.clone()));
    assert_eq!(first_done.record.response, "1a1b");
    assert_eq!(memory.to_string(), "two\n2a\none\n1a1b");

    assert_eq!(queue.next_step(), ConsumerStep::Write(second_done.record));
    assert_eq!(queue.next_step(), ConsumerStep::Write(first_done.record));
}
