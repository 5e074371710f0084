use fleet_speed::errors::StreamError;
use fleet_speed::stream::bearer_header;
use fleet_speed::stream::ingest;
use fleet_speed::stream::open_session;
use fleet_speed::stream::ChunkEvent;
use fleet_speed::stream::SessionState;
use fleet_speed::stream::StepOutcome;

fn data(s: &str) -> ChunkEvent {
    ChunkEvent::Data(s.as_bytes().to_vec())
}

#[test]
fn empty_chunks_are_skipped_not_end_of_stream() {
    let events = vec![data("a"), data(""), data("b"), data("c"), ChunkEvent::Closed];
    let (state, items) = ingest(events);
    assert_eq!(state, SessionState::Ended);
    assert_eq!(
        items,
        vec![
            Ok(String::from("a")),
            Ok(String::from("b")),
            Ok(String::from("c")),
        ]
    );
}

#[test]
fn read_error_yields_one_error_item_and_no_more() {
    let events = vec![data("a"), ChunkEvent::Failed(String::from("connection reset"))];
    let (state, items) = ingest(events);
    assert_eq!(state, SessionState::Errored);
    assert_eq!(items.len(), 2);
    assert_eq!(items[0], Ok(String::from("a")));
    assert_eq!(items[1], Err(StreamError::Read(String::from("connection reset"))));
}

#[test]
fn nothing_follows_a_read_error() {
    let events = vec![
        data("a"),
        ChunkEvent::Failed(String::from("boom")),
        data("late"),
        ChunkEvent::Closed,
    ];
    let (state, items) = ingest(events);
    assert_eq!(state, SessionState::Errored);
    assert_eq!(
        items,
        vec![
            Ok(String::from("a")),
            Err(StreamError::Read(String::from("boom"))),
        ]
    );
}

#[test]
fn nothing_follows_a_clean_close() {
    let events = vec![data("a"), ChunkEvent::Closed, data("late")];
    let (state, items) = ingest(events);
    assert_eq!(state, SessionState::Ended);
    assert_eq!(items, vec![Ok(String::from("a"))]);
}

#[test]
fn rapid_chunks_keep_delivery_order() {
    let chunks = ["r1", "r2", "r3", "r4", "r5", "r6", "r7", "r8"];
    let mut events: Vec<ChunkEvent> = chunks.iter().map(|c| data(c)).collect();
    events.push(ChunkEvent::Closed);
    let (state, items) = ingest(events);
    assert_eq!(state, SessionState::Ended);
    let texts: Vec<String> = items.into_iter().map(|it| it.unwrap()).collect();
    assert_eq!(texts, chunks.iter().map(|c| String::from(*c)).collect::<Vec<String>>());
}

#[test]
fn no_events_leave_the_session_streaming() {
    let (state, items) = ingest(Vec::new());
    assert_eq!(state, SessionState::Streaming);
    assert!(items.is_empty());
}

#[test]
fn step_decodes_a_nonempty_chunk_in_place() {
    let (state, outcome) = SessionState::Streaming.step(data("hello"));
    assert_eq!(state, SessionState::Streaming);
    assert_eq!(outcome, StepOutcome::Record(String::from("hello")));
}

#[test]
fn step_skips_an_empty_chunk() {
    let (state, outcome) = SessionState::Streaming.step(data(""));
    assert_eq!(state, SessionState::Streaming);
    assert_eq!(outcome, StepOutcome::Skip);
}

#[test]
fn step_ends_on_a_clean_close() {
    let (state, outcome) = SessionState::Streaming.step(ChunkEvent::Closed);
    assert_eq!(state, SessionState::Ended);
    assert_eq!(outcome, StepOutcome::Finish);
}

#[test]
fn terminal_states_consume_nothing() {
    let (state, outcome) = SessionState::Ended.step(data("x"));
    assert_eq!(state, SessionState::Ended);
    assert_eq!(outcome, StepOutcome::Finish);
    let (state, outcome) = SessionState::Errored.step(ChunkEvent::Closed);
    assert_eq!(state, SessionState::Errored);
    assert_eq!(outcome, StepOutcome::Finish);
}

#[test]
fn invalid_bytes_decode_to_replacement_characters() {
    let events = vec![ChunkEvent::Data(vec![0xff, 0xfe]), ChunkEvent::Closed];
    let (_, items) = ingest(events);
    assert_eq!(items, vec![Ok(String::from("\u{FFFD}\u{FFFD}"))]);
}

#[test]
fn opened_connection_starts_a_streaming_session() {
    assert_eq!(open_session(Ok(())), Ok(SessionState::Streaming));
}

#[test]
fn failed_connection_open_is_a_terminal_connect_error() {
    let r = open_session(Err(String::from("401 unauthorized")));
    assert_eq!(r, Err(StreamError::Connect(String::from("401 unauthorized"))));
}

#[test]
fn bearer_header_prefixes_the_token_unchanged() {
    assert_eq!(bearer_header("tok-123"), String::from("Bearer tok-123"));
}

#[test]
fn fixed_streaming_endpoint() {
    assert_eq!(fleet_speed::stream::stream_url(), "https://live.ais.barentswatch.no/v1/ais");
}

#[test]
fn read_error_message_carries_cause() {
    let e = StreamError::Read(String::from("timed out"));
    assert!(e.message().contains("timed out"));
    let e = StreamError::Connect(String::from("dns failure"));
    assert!(e.message().contains("dns failure"));
}
