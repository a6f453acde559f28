//! Guarantees over whole exchanges.
//!
//! [`run`] folds the transition relation [`crate::routine::next`] over a
//! sequence of events and collects the actions the machine emits. The proof
//! functions here state, over that fold, what any driver observes on the
//! wire: the raw writes of a completed exchange are exactly the source's
//! chunks in receipt order followed by one zero-length write; a rejected
//! decision packet fails the exchange before any raw write; success registers
//! exactly one empty pending result; and a connection failure at the
//! acknowledgement read surfaces as that very error with nothing registered.

use vstd::prelude::*;

use crate::routine::ActionView;
use crate::routine::EventView;
use crate::routine::ResultSummary;
use crate::routine::RoutineError;
use crate::routine::State;
use crate::routine::file_request;
use crate::routine::next;

verus! {

/// Fold the machine over a sequence of events: the state it ends in and the
/// actions it emits, one per event, in order.
pub open spec fn run<E>(s: State, evs: Seq<EventView<E>>) -> (State, Seq<ActionView<E>>)
    decreases evs.len(),
{
    if evs.len() == 0 {
        (s, Seq::empty())
    } else {
        let first = next(s, evs[0]);
        let rest = run(first.0, evs.drop_first());
        (rest.0, seq![first.1] + rest.1)
    }
}

/// The payloads of the raw writes among `acts`, in order.
pub open spec fn raw_writes<E>(acts: Seq<ActionView<E>>) -> Seq<Seq<u8>>
    decreases acts.len(),
{
    if acts.len() == 0 {
        Seq::empty()
    } else {
        let rest = raw_writes(acts.drop_first());
        match acts[0] {
            ActionView::WriteRaw(b) => seq![b] + rest,
            _ => rest,
        }
    }
}

/// The pending-result markers registered by `acts`, in order.
pub open spec fn registrations<E>(acts: Seq<ActionView<E>>) -> Seq<ResultSummary>
    decreases acts.len(),
{
    if acts.len() == 0 {
        Seq::empty()
    } else {
        let rest = registrations(acts.drop_first());
        match acts[0] {
            ActionView::Register(r) => seq![r] + rest,
            _ => rest,
        }
    }
}

/// One unfolding of [`run`] on a sequence given by its head and tail.
pub proof fn lemma_run_cons<E>(s: State, e: EventView<E>, rest: Seq<EventView<E>>)
    ensures
        run(s, seq![e] + rest) == ({
            let first = next(s, e);
            let r = run(first.0, rest);
            (r.0, seq![first.1] + r.1)
        }),
{
    let evs = seq![e] + rest;
    assert(evs[0] == e);
    assert(evs.drop_first() =~= rest);
}

/// One unfolding of [`raw_writes`] on a sequence given by its head and tail.
pub proof fn lemma_raw_writes_cons<E>(a: ActionView<E>, rest: Seq<ActionView<E>>)
    ensures
        raw_writes(seq![a] + rest) == (match a {
            ActionView::WriteRaw(b) => seq![b] + raw_writes(rest),
            _ => raw_writes(rest),
        }),
{
    let acts = seq![a] + rest;
    assert(acts[0] == a);
    assert(acts.drop_first() =~= rest);
}

/// One unfolding of [`registrations`] on a sequence given by its head and
/// tail.
pub proof fn lemma_registrations_cons<E>(a: ActionView<E>, rest: Seq<ActionView<E>>)
    ensures
        registrations(seq![a] + rest) == (match a {
            ActionView::Register(r) => seq![r] + registrations(rest),
            _ => registrations(rest),
        }),
{
    let acts = seq![a] + rest;
    assert(acts[0] == a);
    assert(acts.drop_first() =~= rest);
}

/// The events of the streaming phase while the source yields `chunks` in
/// order: each chunk arrives and its raw write completes.
pub open spec fn stream_events<E>(chunks: Seq<Seq<u8>>) -> Seq<EventView<E>>
    decreases chunks.len(),
{
    if chunks.len() == 0 {
        Seq::empty()
    } else {
        seq![EventView::Chunk(chunks[0]), EventView::Completed] + stream_events(
            chunks.drop_first(),
        )
    }
}

/// The actions of that streaming phase: each chunk is written verbatim and
/// the next chunk is requested.
pub open spec fn stream_actions<E>(chunks: Seq<Seq<u8>>) -> Seq<ActionView<E>>
    decreases chunks.len(),
{
    if chunks.len() == 0 {
        Seq::empty()
    } else {
        seq![ActionView::WriteRaw(chunks[0]), ActionView::RecvChunk] + stream_actions(
            chunks.drop_first(),
        )
    }
}

/// The events that end a drained exchange: the source closes, the
/// terminating zero-length write completes, the acknowledgement packet
/// arrives, and the registration completes.
pub open spec fn finish_events<E>(ack: Seq<u8>) -> Seq<EventView<E>> {
    seq![
        EventView::Closed,
        EventView::Completed,
        EventView::Packet(ack),
        EventView::Completed,
    ]
}

/// The actions those final events elicit: the zero-length write, exactly one
/// acknowledgement read, the registration of the empty marker, success.
pub open spec fn finish_actions<E>() -> Seq<ActionView<E>> {
    seq![
        ActionView::WriteRaw(Seq::empty()),
        ActionView::ReadPacket,
        ActionView::Register(ResultSummary { column_count: 0, row_count: 0 }),
        ActionView::Succeed,
    ]
}

/// Every event of one complete exchange: the command write completes, the
/// decision packet arrives, the source streams `chunks`, and the exchange is
/// wound down.
pub open spec fn load_events<E>(decision: Seq<u8>, chunks: Seq<Seq<u8>>, ack: Seq<u8>) -> Seq<
    EventView<E>,
> {
    seq![EventView::Completed, EventView::Packet(decision)] + stream_events(chunks)
        + finish_events(ack)
}

/// Streaming composes: the machine at the streaming state emits the write of
/// each chunk in order, then runs on over whatever events follow.
pub proof fn lemma_run_stream<E>(chunks: Seq<Seq<u8>>, tail: Seq<EventView<E>>)
    ensures
        run(State::AwaitChunk, stream_events(chunks) + tail) == ({
            let r = run(State::AwaitChunk, tail);
            (r.0, stream_actions::<E>(chunks) + r.1)
        }),
    decreases chunks.len(),
{
    let r = run(State::AwaitChunk, tail);
    if chunks.len() == 0 {
        assert(stream_events::<E>(chunks) + tail =~= tail);
        assert(stream_actions::<E>(chunks) + r.1 =~= r.1);
    } else {
        let c0 = chunks[0];
        let rest = chunks.drop_first();
        let evs1 = seq![EventView::<E>::Completed] + (stream_events::<E>(rest) + tail);
        assert(stream_events::<E>(chunks) + tail =~= seq![EventView::<E>::Chunk(c0)] + evs1);
        lemma_run_cons(State::AwaitChunk, EventView::<E>::Chunk(c0), evs1);
        lemma_run_cons(State::AwaitChunkWritten, EventView::<E>::Completed, stream_events::<E>(rest) + tail);
        lemma_run_stream::<E>(rest, tail);
        assert(seq![ActionView::<E>::WriteRaw(c0)] + (seq![ActionView::<E>::RecvChunk] + (
        stream_actions::<E>(rest) + r.1)) =~= stream_actions::<E>(chunks) + r.1);
    }
}

/// Winding down from the streaming state emits exactly the final actions and
/// finishes the machine.
pub proof fn lemma_run_finish<E>(ack: Seq<u8>)
    ensures
        run::<E>(State::AwaitChunk, finish_events(ack)) == (State::Finished, finish_actions::<
            E,
        >()),
{
    let e3 = seq![EventView::<E>::Completed];
    let e4 = Seq::<EventView<E>>::empty();
    assert(finish_events::<E>(ack) =~= seq![EventView::<E>::Closed] + (seq![
        EventView::<E>::Completed,
    ] + (seq![EventView::<E>::Packet(ack)] + (e3 + e4))));
    lemma_run_cons(State::AwaitChunk, EventView::<E>::Closed, seq![EventView::<E>::Completed] + (
    seq![EventView::<E>::Packet(ack)] + (e3 + e4)));
    lemma_run_cons(State::AwaitTerminatorWritten, EventView::<E>::Completed, seq![
        EventView::<E>::Packet(ack),
    ] + (e3 + e4));
    lemma_run_cons(State::AwaitAck, EventView::<E>::Packet(ack), e3 + e4);
    lemma_run_cons(State::AwaitRegistered, EventView::<E>::Completed, e4);
    assert(seq![ActionView::<E>::WriteRaw(Seq::empty())] + (seq![ActionView::<E>::ReadPacket] + (
    seq![
        ActionView::<E>::Register(ResultSummary { column_count: 0, row_count: 0 }),
    ] + (seq![ActionView::<E>::Succeed] + Seq::<ActionView<E>>::empty()))) =~= finish_actions::<
        E,
    >());
}

/// [`raw_writes`] distributes over concatenation.
pub proof fn lemma_raw_writes_concat<E>(a: Seq<ActionView<E>>, b: Seq<ActionView<E>>)
    ensures
        raw_writes(a + b) == raw_writes(a) + raw_writes(b),
    decreases a.len(),
{
    if a.len() == 0 {
        assert(a + b =~= b);
        assert(raw_writes::<E>(a) + raw_writes::<E>(b) =~= raw_writes::<E>(b));
    } else {
        assert(a =~= seq![a[0]] + a.drop_first());
        assert(a + b =~= seq![a[0]] + (a.drop_first() + b));
        lemma_raw_writes_cons(a[0], a.drop_first() + b);
        lemma_raw_writes_cons(a[0], a.drop_first());
        lemma_raw_writes_concat(a.drop_first(), b);
        match a[0] {
            ActionView::WriteRaw(bytes) => {
                assert(seq![bytes] + (raw_writes(a.drop_first()) + raw_writes::<E>(b)) =~= (seq![
                    bytes,
                ] + raw_writes(a.drop_first())) + raw_writes::<E>(b));
            },
            _ => {},
        }
    }
}

/// [`registrations`] distributes over concatenation.
pub proof fn lemma_registrations_concat<E>(a: Seq<ActionView<E>>, b: Seq<ActionView<E>>)
    ensures
        registrations(a + b) == registrations(a) + registrations(b),
    decreases a.len(),
{
    if a.len() == 0 {
        assert(a + b =~= b);
        assert(registrations::<E>(a) + registrations::<E>(b) =~= registrations::<E>(b));
    } else {
        assert(a =~= seq![a[0]] + a.drop_first());
        assert(a + b =~= seq![a[0]] + (a.drop_first() + b));
        lemma_registrations_cons(a[0], a.drop_first() + b);
        lemma_registrations_cons(a[0], a.drop_first());
        lemma_registrations_concat(a.drop_first(), b);
        match a[0] {
            ActionView::Register(r) => {
                assert(seq![r] + (registrations(a.drop_first()) + registrations::<E>(b)) =~= (seq![
                    r,
                ] + registrations(a.drop_first())) + registrations::<E>(b));
            },
            _ => {},
        }
    }
}

/// The streaming phase writes exactly the chunks, in order, and registers
/// nothing.
pub proof fn lemma_stream_actions_writes<E>(chunks: Seq<Seq<u8>>)
    ensures
        raw_writes(stream_actions::<E>(chunks)) == chunks,
        registrations(stream_actions::<E>(chunks)) == Seq::<ResultSummary>::empty(),
    decreases chunks.len(),
{
    if chunks.len() == 0 {
        assert(raw_writes(stream_actions::<E>(chunks)) =~= chunks);
    } else {
        let rest = stream_actions::<E>(chunks.drop_first());
        assert(stream_actions::<E>(chunks) =~= seq![ActionView::<E>::WriteRaw(chunks[0])] + (seq![
            ActionView::<E>::RecvChunk,
        ] + rest));
        lemma_raw_writes_cons(ActionView::<E>::WriteRaw(chunks[0]), seq![
            ActionView::<E>::RecvChunk,
        ] + rest);
        lemma_raw_writes_cons(ActionView::<E>::RecvChunk, rest);
        lemma_registrations_cons(ActionView::<E>::WriteRaw(chunks[0]), seq![
            ActionView::<E>::RecvChunk,
        ] + rest);
        lemma_registrations_cons(ActionView::<E>::RecvChunk, rest);
        lemma_stream_actions_writes::<E>(chunks.drop_first());
        assert(seq![chunks[0]] + chunks.drop_first() =~= chunks);
    }
}

/// The wind-down writes exactly the one zero-length terminator and registers
/// exactly the empty marker.
pub proof fn lemma_finish_actions_effects<E>()
    ensures
        raw_writes(finish_actions::<E>()) == seq![Seq::<u8>::empty()],
        registrations(finish_actions::<E>()) == seq![
            ResultSummary { column_count: 0, row_count: 0 },
        ],
{
    let reg = ActionView::<E>::Register(ResultSummary { column_count: 0, row_count: 0 });
    let t3 = seq![ActionView::<E>::Succeed] + Seq::<ActionView<E>>::empty();
    let t2 = seq![reg] + t3;
    let t1 = seq![ActionView::<E>::ReadPacket] + t2;
    assert(finish_actions::<E>() =~= seq![ActionView::<E>::WriteRaw(Seq::empty())] + t1);
    lemma_raw_writes_cons(ActionView::<E>::WriteRaw(Seq::empty()), t1);
    lemma_raw_writes_cons(ActionView::<E>::ReadPacket, t2);
    lemma_raw_writes_cons(reg, t3);
    lemma_raw_writes_cons(ActionView::<E>::Succeed, Seq::<ActionView<E>>::empty());
    lemma_registrations_cons(ActionView::<E>::WriteRaw(Seq::empty()), t1);
    lemma_registrations_cons(ActionView::<E>::ReadPacket, t2);
    lemma_registrations_cons(reg, t3);
    lemma_registrations_cons(ActionView::<E>::Succeed, Seq::<ActionView<E>>::empty());
    assert(raw_writes(finish_actions::<E>()) =~= seq![Seq::<u8>::empty()]);
    assert(registrations(finish_actions::<E>()) =~= seq![
        ResultSummary { column_count: 0, row_count: 0 },
    ]);
}

/// A complete exchange — command sent, file content requested, source
/// drained, transfer wound down — runs to the finished state and emits
/// exactly the expected actions, ending in success.
pub proof fn lemma_completed_run<E>(decision: Seq<u8>, chunks: Seq<Seq<u8>>, ack: Seq<u8>)
    requires
        file_request(decision),
    ensures
        ({
            let r = run::<E>(State::AwaitCommandSent, load_events(decision, chunks, ack));
            &&& r.0 == State::Finished
            &&& r.1 == seq![ActionView::<E>::ReadPacket, ActionView::<E>::RecvChunk]
                + stream_actions::<E>(chunks) + finish_actions::<E>()
        }),
{
    let evs2 = stream_events::<E>(chunks) + finish_events::<E>(ack);
    let evs1 = seq![EventView::<E>::Packet(decision)] + evs2;
    assert(load_events::<E>(decision, chunks, ack) =~= seq![EventView::<E>::Completed] + evs1);
    lemma_run_cons(State::AwaitCommandSent, EventView::<E>::Completed, evs1);
    lemma_run_cons(State::AwaitDecision, EventView::<E>::Packet(decision), evs2);
    lemma_run_stream::<E>(chunks, finish_events::<E>(ack));
    lemma_run_finish::<E>(ack);
    assert(seq![ActionView::<E>::ReadPacket] + (seq![ActionView::<E>::RecvChunk] + (
    stream_actions::<E>(chunks) + finish_actions::<E>())) =~= seq![
        ActionView::<E>::ReadPacket,
        ActionView::<E>::RecvChunk,
    ] + stream_actions::<E>(chunks) + finish_actions::<E>());
}

/// For every sequence of zero or more chunks fed through the source, the raw
/// writes of the completed exchange are exactly those chunks, in receipt
/// order, followed by exactly one zero-length write; and the exchange ends
/// in success.
pub proof fn lemma_wire_is_chunks_then_terminator<E>(
    decision: Seq<u8>,
    chunks: Seq<Seq<u8>>,
    ack: Seq<u8>,
)
    requires
        file_request(decision),
    ensures
        ({
            let r = run::<E>(State::AwaitCommandSent, load_events(decision, chunks, ack));
            &&& r.0 == State::Finished
            &&& raw_writes(r.1) == chunks.push(Seq::<u8>::empty())
            &&& r.1.last() == ActionView::<E>::Succeed
        }),
{
    lemma_completed_run::<E>(decision, chunks, ack);
    let prefix = seq![ActionView::<E>::ReadPacket, ActionView::<E>::RecvChunk];
    let acts = prefix + stream_actions::<E>(chunks) + finish_actions::<E>();
    lemma_raw_writes_concat::<E>(prefix + stream_actions::<E>(chunks), finish_actions::<E>());
    lemma_raw_writes_concat::<E>(prefix, stream_actions::<E>(chunks));
    lemma_raw_writes_cons(ActionView::<E>::ReadPacket, seq![ActionView::<E>::RecvChunk]);
    lemma_raw_writes_cons(ActionView::<E>::RecvChunk, Seq::<ActionView<E>>::empty());
    assert(prefix =~= seq![ActionView::<E>::ReadPacket] + seq![ActionView::<E>::RecvChunk]);
    assert(seq![ActionView::<E>::RecvChunk] =~= seq![ActionView::<E>::RecvChunk] + Seq::<
        ActionView<E>,
    >::empty());
    assert(raw_writes(prefix) =~= Seq::<Seq<u8>>::empty());
    lemma_stream_actions_writes::<E>(chunks);
    lemma_finish_actions_effects::<E>();
    assert(raw_writes(acts) =~= chunks.push(Seq::<u8>::empty()));
    assert(acts.last() == ActionView::<E>::Succeed);
}

/// The bytes that reach the wire unframed during a completed exchange are
/// exactly the source's chunks concatenated in receipt order: the one
/// terminating zero-length write adds nothing.
pub proof fn lemma_wire_bytes_equal_chunks_concatenated<E>(
    decision: Seq<u8>,
    chunks: Seq<Seq<u8>>,
    ack: Seq<u8>,
)
    requires
        file_request(decision),
    ensures
        ({
            let r = run::<E>(State::AwaitCommandSent, load_events(decision, chunks, ack));
            raw_writes(r.1).flatten() == chunks.flatten()
        }),
{
    lemma_wire_is_chunks_then_terminator::<E>(decision, chunks, ack);
    chunks.lemma_flatten_push(Seq::<u8>::empty());
    assert(chunks.flatten() + Seq::<u8>::empty() =~= chunks.flatten());
}

/// If the first byte of the decision packet is not the file-request
/// sentinel (or the packet is empty), the exchange fails at once with the
/// unsupported-response error: no raw byte is ever written and nothing is
/// registered.
pub proof fn lemma_unsupported_response_writes_nothing<E>(decision: Seq<u8>)
    requires
        !file_request(decision),
    ensures
        ({
            let r = run::<E>(
                State::AwaitCommandSent,
                seq![EventView::Completed, EventView::Packet(decision)],
            );
            &&& r.0 == State::Finished
            &&& r.1 == seq![
                ActionView::<E>::ReadPacket,
                ActionView::<E>::Fail(RoutineError::UnsupportedResponse),
            ]
            &&& raw_writes(r.1) == Seq::<Seq<u8>>::empty()
            &&& registrations(r.1) == Seq::<ResultSummary>::empty()
        }),
{
    let fail = ActionView::<E>::Fail(RoutineError::UnsupportedResponse);
    let evs1 = seq![EventView::<E>::Packet(decision)] + Seq::<EventView<E>>::empty();
    assert(seq![EventView::<E>::Completed, EventView::<E>::Packet(decision)] =~= seq![
        EventView::<E>::Completed,
    ] + evs1);
    lemma_run_cons(State::AwaitCommandSent, EventView::<E>::Completed, evs1);
    lemma_run_cons(State::AwaitDecision, EventView::<E>::Packet(decision), Seq::<
        EventView<E>,
    >::empty());
    let acts = seq![ActionView::<E>::ReadPacket] + (seq![fail] + Seq::<ActionView<E>>::empty());
    assert(acts =~= seq![ActionView::<E>::ReadPacket, fail]);
    lemma_raw_writes_cons(ActionView::<E>::ReadPacket, seq![fail] + Seq::<ActionView<E>>::empty());
    lemma_raw_writes_cons(fail, Seq::<ActionView<E>>::empty());
    lemma_registrations_cons(ActionView::<E>::ReadPacket, seq![fail] + Seq::<
        ActionView<E>,
    >::empty());
    lemma_registrations_cons(fail, Seq::<ActionView<E>>::empty());
    assert(seq![fail] + Seq::<ActionView<E>>::empty() =~= seq![fail]);
    assert(raw_writes(acts) =~= Seq::<Seq<u8>>::empty());
    assert(registrations(acts) =~= Seq::<ResultSummary>::empty());
}

/// A completed exchange registers exactly one pending-result marker, and
/// that marker denotes a result set of zero columns and zero rows.
pub proof fn lemma_success_registers_empty_result<E>(
    decision: Seq<u8>,
    chunks: Seq<Seq<u8>>,
    ack: Seq<u8>,
)
    requires
        file_request(decision),
    ensures
        ({
            let r = run::<E>(State::AwaitCommandSent, load_events(decision, chunks, ack));
            &&& r.0 == State::Finished
            &&& registrations(r.1) == seq![ResultSummary { column_count: 0, row_count: 0 }]
            &&& (ResultSummary { column_count: 0, row_count: 0 }).denotes_empty_set()
        }),
{
    lemma_completed_run::<E>(decision, chunks, ack);
    let prefix = seq![ActionView::<E>::ReadPacket, ActionView::<E>::RecvChunk];
    lemma_registrations_concat::<E>(prefix + stream_actions::<E>(chunks), finish_actions::<E>());
    lemma_registrations_concat::<E>(prefix, stream_actions::<E>(chunks));
    lemma_registrations_cons(ActionView::<E>::ReadPacket, seq![ActionView::<E>::RecvChunk]);
    lemma_registrations_cons(ActionView::<E>::RecvChunk, Seq::<ActionView<E>>::empty());
    assert(prefix =~= seq![ActionView::<E>::ReadPacket] + seq![ActionView::<E>::RecvChunk]);
    assert(seq![ActionView::<E>::RecvChunk] =~= seq![ActionView::<E>::RecvChunk] + Seq::<
        ActionView<E>,
    >::empty());
    assert(registrations(prefix) =~= Seq::<ResultSummary>::empty());
    lemma_stream_actions_writes::<E>(chunks);
    lemma_finish_actions_effects::<E>();
    let acts = prefix + stream_actions::<E>(chunks) + finish_actions::<E>();
    assert(registrations(acts) =~= seq![ResultSummary { column_count: 0, row_count: 0 }]);
}

/// A source closed before yielding any chunk still drives the exchange to
/// success, with the terminating zero-length write and exactly one
/// acknowledgement read: the whole action trace is spelled out.
pub proof fn lemma_empty_source_still_terminates<E>(decision: Seq<u8>, ack: Seq<u8>)
    requires
        file_request(decision),
    ensures
        ({
            let r = run::<E>(
                State::AwaitCommandSent,
                load_events(decision, Seq::empty(), ack),
            );
            &&& r.0 == State::Finished
            &&& r.1 == seq![
                ActionView::<E>::ReadPacket,
                ActionView::<E>::RecvChunk,
                ActionView::<E>::WriteRaw(Seq::empty()),
                ActionView::<E>::ReadPacket,
                ActionView::<E>::Register(ResultSummary { column_count: 0, row_count: 0 }),
                ActionView::<E>::Succeed,
            ]
            &&& raw_writes(r.1) == seq![Seq::<u8>::empty()]
        }),
{
    lemma_completed_run::<E>(decision, Seq::empty(), ack);
    lemma_wire_is_chunks_then_terminator::<E>(decision, Seq::empty(), ack);
    let prefix = seq![ActionView::<E>::ReadPacket, ActionView::<E>::RecvChunk];
    assert(prefix + stream_actions::<E>(Seq::empty()) + finish_actions::<E>() =~= seq![
        ActionView::<E>::ReadPacket,
        ActionView::<E>::RecvChunk,
        ActionView::<E>::WriteRaw(Seq::empty()),
        ActionView::<E>::ReadPacket,
        ActionView::<E>::Register(ResultSummary { column_count: 0, row_count: 0 }),
        ActionView::<E>::Succeed,
    ]);
    assert(Seq::<Seq<u8>>::empty().push(Seq::<u8>::empty()) =~= seq![Seq::<u8>::empty()]);
}

/// The events of an exchange whose acknowledgement read fails: the source
/// was drained and the terminator written, then the connection failed with
/// `err` at the one acknowledgement read.
pub open spec fn ack_failure_events<E>(decision: Seq<u8>, chunks: Seq<Seq<u8>>, err: E) -> Seq<
    EventView<E>,
> {
    seq![EventView::Completed, EventView::Packet(decision)] + stream_events(chunks) + seq![
        EventView::Closed,
        EventView::Completed,
        EventView::Failed(err),
    ]
}

/// A connection failure injected at the acknowledgement read surfaces as
/// exactly that error, and no pending-result marker is ever registered.
pub proof fn lemma_ack_failure_surfaces_unregistered<E>(
    decision: Seq<u8>,
    chunks: Seq<Seq<u8>>,
    err: E,
)
    requires
        file_request(decision),
    ensures
        ({
            let r = run::<E>(State::AwaitCommandSent, ack_failure_events(decision, chunks, err));
            &&& r.0 == State::Finished
            &&& r.1.last() == ActionView::<E>::Fail(RoutineError::Connection(err))
            &&& registrations(r.1) == Seq::<ResultSummary>::empty()
        }),
{
    let fail = ActionView::<E>::Fail(RoutineError::Connection(err));
    let tail_evs = seq![
        EventView::<E>::Closed,
        EventView::<E>::Completed,
        EventView::<E>::Failed(err),
    ];
    let tail_acts = seq![
        ActionView::<E>::WriteRaw(Seq::empty()),
        ActionView::<E>::ReadPacket,
        fail,
    ];
    // The wind-down under the injected failure.
    let e3 = Seq::<EventView<E>>::empty();
    let e2 = seq![EventView::<E>::Failed(err)] + e3;
    let e1 = seq![EventView::<E>::Completed] + e2;
    assert(tail_evs =~= seq![EventView::<E>::Closed] + e1);
    lemma_run_cons(State::AwaitChunk, EventView::<E>::Closed, e1);
    lemma_run_cons(State::AwaitTerminatorWritten, EventView::<E>::Completed, e2);
    lemma_run_cons(State::AwaitAck, EventView::<E>::Failed(err), e3);
    assert(seq![ActionView::<E>::WriteRaw(Seq::empty())] + (seq![ActionView::<E>::ReadPacket] + (
    seq![fail] + Seq::<ActionView<E>>::empty())) =~= tail_acts);
    assert(run(State::AwaitChunk, tail_evs) == (State::Finished, tail_acts));
    // The whole run.
    let evs2 = stream_events::<E>(chunks) + tail_evs;
    let evs1 = seq![EventView::<E>::Packet(decision)] + evs2;
    assert(ack_failure_events(decision, chunks, err) =~= seq![EventView::<E>::Completed] + evs1);
    lemma_run_cons(State::AwaitCommandSent, EventView::<E>::Completed, evs1);
    lemma_run_cons(State::AwaitDecision, EventView::<E>::Packet(decision), evs2);
    lemma_run_stream::<E>(chunks, tail_evs);
    let acts = seq![ActionView::<E>::ReadPacket] + (seq![ActionView::<E>::RecvChunk] + (
    stream_actions::<E>(chunks) + tail_acts));
    assert(run(State::AwaitCommandSent, ack_failure_events(decision, chunks, err)) == (
        State::Finished,
        acts,
    ));
    assert(acts.last() == fail);
    // Nothing is registered anywhere in the trace.
    lemma_registrations_cons(ActionView::<E>::ReadPacket, seq![ActionView::<E>::RecvChunk] + (
    stream_actions::<E>(chunks) + tail_acts));
    lemma_registrations_cons(ActionView::<E>::RecvChunk, stream_actions::<E>(chunks) + tail_acts);
    lemma_registrations_concat::<E>(stream_actions::<E>(chunks), tail_acts);
    lemma_stream_actions_writes::<E>(chunks);
    lemma_registrations_cons(ActionView::<E>::WriteRaw(Seq::empty()), seq![
        ActionView::<E>::ReadPacket,
        fail,
    ]);
    lemma_registrations_cons(ActionView::<E>::ReadPacket, seq![fail]);
    lemma_registrations_cons(fail, Seq::<ActionView<E>>::empty());
    assert(tail_acts =~= seq![ActionView::<E>::WriteRaw(Seq::empty())] + seq![
        ActionView::<E>::ReadPacket,
        fail,
    ]);
    assert(seq![ActionView::<E>::ReadPacket, fail] =~= seq![ActionView::<E>::ReadPacket] + seq![
        fail,
    ]);
    assert(seq![fail] =~= seq![fail] + Seq::<ActionView<E>>::empty());
    assert(registrations(acts) =~= Seq::<ResultSummary>::empty());
}

} // verus!
