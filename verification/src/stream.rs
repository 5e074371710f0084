//! The stream ingestor: turning the chunk events of one open, authenticated
//! connection into an ordered sequence of text records.
//!
//! The connection itself is held and read by the caller; each read produces a
//! [`ChunkEvent`] (a chunk of bytes, a clean close, or a failed read), and
//! [`SessionState::step`] decides what that event means for the session: a
//! decoded record, a skipped empty chunk, one error item, or the end. The
//! session moves `Streaming -> {Ended, Errored}` and never leaves a terminal
//! state. [`ingest`] runs the same decision over a whole delivery of events,
//! and the lemmas at the end state the ordering and termination laws of that
//! sequence.

use vstd::prelude::*;
use vstd::string::*;

use crate::errors::StreamError;

verus! {

/// The result of the lossy UTF-8 decoding of `bytes`: the decoded characters,
/// with each invalid sequence replaced. The value depends on the bytes alone;
/// it is given meaning only by the contract of [`decode_chunk`].
pub uninterp spec fn lossy_utf8(bytes: Seq<u8>) -> Seq<char>;

/// Relies on `String::from_utf8_lossy`: the decoding depends on the bytes
/// alone, and every byte contributes at least one decoded character or is
/// part of a sequence replaced by one, so a non-empty chunk never decodes to
/// an empty string.
#[verifier::external_body]
fn decode_chunk(bytes: &Vec<u8>) -> (r: String)
    ensures
        r@ == lossy_utf8(bytes@),
        bytes@.len() > 0 ==> r@.len() > 0,
{
    String::from_utf8_lossy(bytes).into_owned()
}

/// One observation made on the open connection: a delivered chunk of bytes,
/// a clean end of the body, or a failed read carrying its message.
#[derive(Debug, Clone, PartialEq, Eq)]
pub enum ChunkEvent {
    Data(Vec<u8>),
    Closed,
    Failed(String),
}

/// The state of one stream session. `Streaming` is the only state in which
/// events are consumed; `Ended` (clean end of body) and `Errored` (failed
/// read) are terminal.
#[derive(Debug, Clone, Copy, PartialEq, Eq)]
pub enum SessionState {
    Streaming,
    Ended,
    Errored,
}

/// What one event means for the record sequence: one decoded record, one
/// error item, nothing (an empty chunk, skipped), or the end of the sequence.
#[derive(Debug, Clone, PartialEq, Eq)]
pub enum StepOutcome {
    Record(String),
    ErrorItem(StreamError),
    Skip,
    Finish,
}

/// Decides the opening transition of a session: a connection that opened
/// (headers accepted) moves the session to `Streaming`; one that never
/// opened is a terminal `Connect` error carrying the transport's message,
/// and no session exists.
pub fn open_session(connect: Result<(), String>) -> (r: Result<SessionState, StreamError>)
    ensures
        connect is Ok ==> r matches Ok(SessionState::Streaming),
        connect matches Err(m) ==> (r matches Err(StreamError::Connect(m2)) && m2@ == m@),
{
    match connect {
        Ok(()) => Ok(SessionState::Streaming),
        Err(m) => Err(StreamError::Connect(m)),
    }
}

impl SessionState {
    /// Whether the session still consumes events.
    pub fn is_streaming(&self) -> (b: bool)
        ensures
            b <==> (*self is Streaming),
    {
        match self {
            SessionState::Streaming => true,
            _ => false,
        }
    }

    /// Decides what one event means for the session.
    ///
    /// While streaming: a non-empty chunk is decoded into exactly one record,
    /// in place; an empty chunk is skipped — it is neither a record nor the
    /// end; a clean close ends the sequence; a failed read yields exactly one
    /// error item carrying the read failure's message and moves the session
    /// to `Errored`. A terminal session consumes nothing and stays where it
    /// is.
    pub fn step(self, ev: ChunkEvent) -> (r: (SessionState, StepOutcome))
        ensures
            self is Streaming ==> match ev {
                ChunkEvent::Data(d) => if d@.len() > 0 {
                    r.0 is Streaming && (r.1 matches StepOutcome::Record(s) && s@ == lossy_utf8(
                        d@,
                    ) && s@.len() > 0)
                } else {
                    r.0 is Streaming && r.1 is Skip
                },
                ChunkEvent::Closed => r.0 is Ended && r.1 is Finish,
                ChunkEvent::Failed(m) => r.0 is Errored && (r.1 matches StepOutcome::ErrorItem(e)
                    && e matches StreamError::Read(m2) && m2@ == m@),
            },
            !(self is Streaming) ==> r.0 == self && r.1 is Finish,
    {
        match self {
            SessionState::Streaming => match ev {
                ChunkEvent::Data(d) => {
                    if d.len() > 0 {
                        let s = decode_chunk(&d);
                        (SessionState::Streaming, StepOutcome::Record(s))
                    } else {
                        (SessionState::Streaming, StepOutcome::Skip)
                    }
                },
                ChunkEvent::Closed => (SessionState::Ended, StepOutcome::Finish),
                ChunkEvent::Failed(m) => (
                    SessionState::Errored,
                    StepOutcome::ErrorItem(StreamError::Read(m)),
                ),
            },
            SessionState::Ended => (SessionState::Ended, StepOutcome::Finish),
            SessionState::Errored => (SessionState::Errored, StepOutcome::Finish),
        }
    }
}

/// The record sequence that a delivery of events produces: each non-empty
/// chunk contributes its decoding (`Ok`), in delivery order; empty chunks
/// contribute nothing; a clean close ends the sequence; a failed read
/// contributes exactly one `Err` holding its message and ends it. Events
/// after the first terminal one are never consumed.
pub open spec fn spec_items(evs: Seq<ChunkEvent>) -> Seq<Result<Seq<char>, Seq<char>>>
    decreases evs.len(),
{
    if evs.len() == 0 {
        Seq::<Result<Seq<char>, Seq<char>>>::empty()
    } else {
        match evs[0] {
            ChunkEvent::Data(d) => if d@.len() > 0 {
                seq![Result::<Seq<char>, Seq<char>>::Ok(lossy_utf8(d@))] + spec_items(evs.skip(1))
            } else {
                spec_items(evs.skip(1))
            },
            ChunkEvent::Closed => Seq::<Result<Seq<char>, Seq<char>>>::empty(),
            ChunkEvent::Failed(m) => seq![Result::<Seq<char>, Seq<char>>::Err(m@)],
        }
    }
}

/// The state a session is left in by a delivery of events: `Streaming` while
/// no terminal event arrived, `Ended` on a clean close, `Errored` on a
/// failed read, whichever comes first.
pub open spec fn spec_final(evs: Seq<ChunkEvent>) -> SessionState
    decreases evs.len(),
{
    if evs.len() == 0 {
        SessionState::Streaming
    } else {
        match evs[0] {
            ChunkEvent::Data(_) => spec_final(evs.skip(1)),
            ChunkEvent::Closed => SessionState::Ended,
            ChunkEvent::Failed(_) => SessionState::Errored,
        }
    }
}

/// The mathematical value of one produced item: the decoded text of a
/// record, or the message of a read failure.
pub open spec fn item_view(it: Result<String, StreamError>) -> Result<Seq<char>, Seq<char>> {
    match it {
        Ok(s) => Ok(s@),
        Err(StreamError::Connect(m)) => Err(m@),
        Err(StreamError::Read(m)) => Err(m@),
    }
}

/// The mathematical value of a produced item sequence, element for element.
pub open spec fn items_view(s: Seq<Result<String, StreamError>>) -> Seq<
    Result<Seq<char>, Seq<char>>,
> {
    s.map_values(|it: Result<String, StreamError>| item_view(it))
}

/// Consumes a whole delivery of events and returns the state the session is
/// left in together with every item the session produced, in order: exactly
/// [`spec_final`] and [`spec_items`] of the delivery.
pub fn ingest(events: Vec<ChunkEvent>) -> (r: (SessionState, Vec<Result<String, StreamError>>))
    ensures
        r.0 == spec_final(events@),
        items_view(r.1@) == spec_items(events@),
{
    let ghost all = events@;
    let mut evs = events;
    let mut out: Vec<Result<String, StreamError>> = Vec::new();
    let mut state = SessionState::Streaming;
    proof {
        assert(items_view(out@) + spec_items(evs@) =~= spec_items(all));
    }
    while state.is_streaming() && evs.len() > 0
        invariant
            state is Streaming ==> items_view(out@) + spec_items(evs@) == spec_items(all)
                && spec_final(evs@) == spec_final(all),
            !(state is Streaming) ==> items_view(out@) == spec_items(all) && state == spec_final(
                all,
            ),
        decreases evs.len(),
    {
        let ghost pre_evs = evs@;
        let ghost pre_out = out@;
        let ev = evs.remove(0);
        let ghost gev = ev;
        proof {
            assert(pre_evs[0] == gev);
            assert(evs@ =~= pre_evs.skip(1));
        }
        let (next, outcome) = state.step(ev);
        let ghost goutcome = outcome;
        match outcome {
            StepOutcome::Record(s) => out.push(Ok(s)),
            StepOutcome::ErrorItem(e) => out.push(Err(e)),
            StepOutcome::Skip => (),
            StepOutcome::Finish => (),
        }
        state = next;
        proof {
            match gev {
                ChunkEvent::Data(d) => {
                    if d@.len() > 0 {
                        assert(goutcome matches StepOutcome::Record(s) && out@ == pre_out.push(
                            Result::<String, StreamError>::Ok(s),
                        ));
                        assert(items_view(out@) =~= items_view(pre_out) + seq![
                            Result::<Seq<char>, Seq<char>>::Ok(lossy_utf8(d@)),
                        ]);
                        assert(items_view(out@) + spec_items(evs@) =~= items_view(pre_out)
                            + spec_items(pre_evs));
                    } else {
                        assert(out@ == pre_out);
                        assert(spec_items(pre_evs) == spec_items(evs@));
                    }
                },
                ChunkEvent::Closed => {
                    assert(out@ == pre_out);
                    assert(spec_items(pre_evs) =~= Seq::<Result<Seq<char>, Seq<char>>>::empty());
                    assert(items_view(out@) =~= items_view(pre_out) + spec_items(pre_evs));
                },
                ChunkEvent::Failed(m) => {
                    assert(goutcome matches StepOutcome::ErrorItem(e) && out@ == pre_out.push(
                        Result::<String, StreamError>::Err(e),
                    ));
                    assert(spec_items(pre_evs) =~= seq![
                        Result::<Seq<char>, Seq<char>>::Err(m@),
                    ]);
                    assert(items_view(out@) =~= items_view(pre_out) + spec_items(pre_evs));
                },
            }
        }
    }
    proof {
        if state is Streaming {
            assert(evs@.len() == 0);
            assert(spec_items(evs@) =~= Seq::<Result<Seq<char>, Seq<char>>>::empty());
            assert(items_view(out@) =~= items_view(out@) + spec_items(evs@));
        }
    }
    (state, out)
}

/// Every event of the delivery is a data chunk: no close and no failed read.
pub open spec fn all_data(evs: Seq<ChunkEvent>) -> bool {
    forall|i: int| 0 <= i < evs.len() ==> evs[i] is Data
}

/// The payloads of the non-empty chunks of a delivery, in delivery order.
pub open spec fn nonempty_payloads(evs: Seq<ChunkEvent>) -> Seq<Seq<u8>>
    decreases evs.len(),
{
    if evs.len() == 0 {
        Seq::<Seq<u8>>::empty()
    } else {
        let rest = nonempty_payloads(evs.skip(1));
        match evs[0] {
            ChunkEvent::Data(d) => if d@.len() > 0 {
                seq![d@] + rest
            } else {
                rest
            },
            ChunkEvent::Closed => rest,
            ChunkEvent::Failed(_) => rest,
        }
    }
}

/// The record a chunk payload becomes.
pub open spec fn decoded(c: Seq<u8>) -> Result<Seq<char>, Seq<char>> {
    Ok(lossy_utf8(c))
}

/// Ordering law: over a delivery of data chunks alone, the produced items
/// are exactly the decodings of the non-empty chunks, in delivery order —
/// no reordering, no duplication, no record lost, and no item for an empty
/// chunk.
pub proof fn lemma_records_preserve_chunk_order(evs: Seq<ChunkEvent>)
    requires
        all_data(evs),
    ensures
        spec_items(evs) == nonempty_payloads(evs).map_values(|c: Seq<u8>| decoded(c)),
    decreases evs.len(),
{
    if evs.len() > 0 {
        assert(evs[0] is Data);
        assert(all_data(evs.skip(1))) by {
            assert(forall|i: int|
                0 <= i < evs.skip(1).len() ==> evs.skip(1)[i] == evs[i + 1]);
        }
        lemma_records_preserve_chunk_order(evs.skip(1));
        match evs[0] {
            ChunkEvent::Data(d) => {
                if d@.len() > 0 {
                    assert(nonempty_payloads(evs) == seq![d@] + nonempty_payloads(evs.skip(1)));
                    assert(spec_items(evs) =~= nonempty_payloads(evs).map_values(
                        |c: Seq<u8>| decoded(c),
                    ));
                }
            },
            ChunkEvent::Closed => {},
            ChunkEvent::Failed(_) => {},
        }
    }
}

/// Termination law for a clean close: after data chunks alone, a close adds
/// no item and leaves the session cleanly ended.
pub proof fn lemma_clean_close_adds_nothing(evs: Seq<ChunkEvent>)
    requires
        all_data(evs),
    ensures
        spec_items(evs + seq![ChunkEvent::Closed]) == spec_items(evs),
        spec_final(evs + seq![ChunkEvent::Closed]) == SessionState::Ended,
    decreases evs.len(),
{
    let whole = evs + seq![ChunkEvent::Closed];
    if evs.len() == 0 {
        assert(whole[0] == ChunkEvent::Closed);
        assert(spec_items(whole) =~= spec_items(evs));
    } else {
        assert(whole[0] == evs[0]);
        assert(all_data(evs.skip(1))) by {
            assert(forall|i: int|
                0 <= i < evs.skip(1).len() ==> evs.skip(1)[i] == evs[i + 1]);
        }
        assert(whole.skip(1) =~= evs.skip(1) + seq![ChunkEvent::Closed]);
        lemma_clean_close_adds_nothing(evs.skip(1));
        match evs[0] {
            ChunkEvent::Data(d) => {
                if d@.len() > 0 {
                    assert(spec_items(whole) =~= spec_items(evs));
                }
            },
            ChunkEvent::Closed => {},
            ChunkEvent::Failed(_) => {},
        }
    }
}

/// Failure law for a mid-stream read error: after data chunks alone, a
/// failed read yields exactly one more item, an error holding the failure's
/// message, and leaves the session in its errored terminal state.
pub proof fn lemma_read_error_yields_one_item(evs: Seq<ChunkEvent>, msg: String)
    requires
        all_data(evs),
    ensures
        spec_items(evs + seq![ChunkEvent::Failed(msg)]) == spec_items(evs) + seq![
            Result::<Seq<char>, Seq<char>>::Err(msg@),
        ],
        spec_final(evs + seq![ChunkEvent::Failed(msg)]) == SessionState::Errored,
    decreases evs.len(),
{
    let whole = evs + seq![ChunkEvent::Failed(msg)];
    if evs.len() == 0 {
        assert(whole[0] == ChunkEvent::Failed(msg));
        assert(spec_items(whole) =~= spec_items(evs) + seq![
            Result::<Seq<char>, Seq<char>>::Err(msg@),
        ]);
    } else {
        assert(whole[0] == evs[0]);
        assert(all_data(evs.skip(1))) by {
            assert(forall|i: int|
                0 <= i < evs.skip(1).len() ==> evs.skip(1)[i] == evs[i + 1]);
        }
        assert(whole.skip(1) =~= evs.skip(1) + seq![ChunkEvent::Failed(msg)]);
        lemma_read_error_yields_one_item(evs.skip(1), msg);
        match evs[0] {
            ChunkEvent::Data(_) => {
                assert(spec_items(whole) =~= spec_items(evs) + seq![
                    Result::<Seq<char>, Seq<char>>::Err(msg@),
                ]);
            },
            ChunkEvent::Closed => {},
            ChunkEvent::Failed(_) => {},
        }
    }
}

/// Terminal law: once a delivery has ended or errored the session, any later
/// events add no item and do not move the session — the sequence yields no
/// further items.
pub proof fn lemma_terminal_ignores_later_events(pre: Seq<ChunkEvent>, later: Seq<ChunkEvent>)
    requires
        !(spec_final(pre) is Streaming),
    ensures
        spec_items(pre + later) == spec_items(pre),
        spec_final(pre + later) == spec_final(pre),
    decreases pre.len(),
{
    let whole = pre + later;
    assert(pre.len() > 0);
    assert(whole[0] == pre[0]);
    match pre[0] {
        ChunkEvent::Data(d) => {
            assert(whole.skip(1) =~= pre.skip(1) + later);
            lemma_terminal_ignores_later_events(pre.skip(1), later);
            if d@.len() > 0 {
                assert(spec_items(whole) =~= spec_items(pre));
            }
        },
        ChunkEvent::Closed => {
            assert(spec_items(whole) =~= spec_items(pre));
        },
        ChunkEvent::Failed(_) => {
            assert(spec_items(whole) =~= spec_items(pre));
        },
    }
}

/// The fixed streaming endpoint.
pub fn stream_url() -> (r: &'static str)
    ensures
        r@ == "https://live.ais.barentswatch.no/v1/ais"@,
{
    "https://live.ais.barentswatch.no/v1/ais"
}

/// The authorization header value for `token`: the bearer prefix, then the
/// token exactly as the credential provider returned it.
pub fn bearer_header(token: &str) -> (r: String)
    ensures
        r@ == "Bearer "@ + token@,
{
    let mut s = String::from_str("Bearer ");
    s.append(token);
    s
}

} // verus!
