//! The per-request upload pipeline, as a verified state machine.
//!
//! A request is handled in strict order: method validation, identifier
//! allocation, sink creation, chunk-by-chunk streaming of the body into the
//! sink, and exactly one response. The I/O itself (opening the sink, reading
//! a body chunk, writing a chunk) is performed by the surrounding process,
//! which drives the machine: it inspects the current [`HandlerState`],
//! performs the one suspension-point action that state calls for, and feeds
//! the outcome back as a [`HandlerEvent`] through [`step`]. Streaming one
//! chunk at a time keeps memory bounded and lets the sink's write pace gate
//! how fast chunks are pulled from the network.
//!
//! Every transition is specified by the total function [`spec_step`] over
//! the abstract [`ModelState`]; the lemmas at the bottom prove, over any
//! run of the machine, that a completed upload responds with the decimal
//! identifier and stores exactly the bytes that arrived, in order, and that
//! every failure maps to a server-error response that preserves whatever
//! was already written.

use vstd::prelude::*;
use vstd::string::StringExecFns;
use crate::context::Context;
use crate::decimal::spec_decimal;
use crate::decimal::u64_to_decimal;
use crate::http::Error;
use crate::http::Method;
use crate::http::Response;
use crate::http::STATUS_BAD_REQUEST;
use crate::http::STATUS_INTERNAL_SERVER_ERROR;
use crate::http::STATUS_OK;

verus! {

/// Abstract state of one request's pipeline, over mathematical values.
pub enum ModelState {
    /// An identifier is allocated; the sink named by it is being opened.
    Opening { id: u64 },
    /// The sink is open; the next body chunk is being read. `copied` holds
    /// every byte written to the sink so far, in order.
    Reading { id: u64, copied: Seq<u8> },
    /// A chunk has arrived and is being written to the sink.
    Writing { id: u64, chunk: Seq<u8>, copied: Seq<u8> },
    /// The request is over: exactly one response, and `stored` is what the
    /// sink holds — the whole body on success, the prefix written before
    /// the failure otherwise (partial data is kept, never rolled back).
    Done { status: u16, body: Seq<char>, stored: Seq<u8> },
}

/// Abstract outcome of one suspension-point action.
pub enum ModelEvent {
    /// The sink was created.
    SinkOpened,
    /// The sink could not be created; the description of the failure.
    SinkOpenFailed { message: Seq<char> },
    /// The next body chunk arrived.
    ChunkArrived { chunk: Seq<u8> },
    /// The body ended: every chunk has been read and written.
    BodyEnded,
    /// Reading the next chunk failed; the description of the failure.
    ReadFailed { message: Seq<char> },
    /// The pending chunk was written to the sink in full.
    ChunkWritten,
    /// Writing the pending chunk failed; the description of the failure.
    WriteFailed { message: Seq<char> },
}

/// Executable state of one request's pipeline. Its view is the
/// [`ModelState`] all contracts are stated over.
pub enum HandlerState {
    Opening { id: u64 },
    Reading { id: u64, copied: Ghost<Seq<u8>> },
    Writing { id: u64, chunk: Vec<u8>, copied: Ghost<Seq<u8>> },
    Done { response: Response, stored: Ghost<Seq<u8>> },
}

impl View for HandlerState {
    type V = ModelState;

    open spec fn view(&self) -> ModelState {
        match self {
            HandlerState::Opening { id } => ModelState::Opening { id: *id },
            HandlerState::Reading { id, copied } => ModelState::Reading {
                id: *id,
                copied: copied@,
            },
            HandlerState::Writing { id, chunk, copied } => ModelState::Writing {
                id: *id,
                chunk: chunk@,
                copied: copied@,
            },
            HandlerState::Done { response, stored } => ModelState::Done {
                status: response.status,
                body: response.body@,
                stored: stored@,
            },
        }
    }
}

/// Executable outcome of one suspension-point action, as the surrounding
/// process reports it. Its view is the matching [`ModelEvent`].
pub enum HandlerEvent {
    SinkOpened,
    SinkOpenFailed { message: String },
    ChunkArrived { chunk: Vec<u8> },
    BodyEnded,
    ReadFailed { message: String },
    ChunkWritten,
    WriteFailed { message: String },
}

impl View for HandlerEvent {
    type V = ModelEvent;

    open spec fn view(&self) -> ModelEvent {
        match self {
            HandlerEvent::SinkOpened => ModelEvent::SinkOpened,
            HandlerEvent::SinkOpenFailed { message } => ModelEvent::SinkOpenFailed {
                message: message@,
            },
            HandlerEvent::ChunkArrived { chunk } => ModelEvent::ChunkArrived { chunk: chunk@ },
            HandlerEvent::BodyEnded => ModelEvent::BodyEnded,
            HandlerEvent::ReadFailed { message } => ModelEvent::ReadFailed { message: message@ },
            HandlerEvent::ChunkWritten => ModelEvent::ChunkWritten,
            HandlerEvent::WriteFailed { message } => ModelEvent::WriteFailed { message: message@ },
        }
    }
}

/// The complete transition relation of the pipeline, one suspension point
/// at a time. An event that does not belong to the current state leaves the
/// state unchanged.
pub open spec fn spec_step(s: ModelState, e: ModelEvent) -> ModelState {
    match (s, e) {
        (ModelState::Opening { id }, ModelEvent::SinkOpened) => ModelState::Reading {
            id,
            copied: Seq::empty(),
        },
        (ModelState::Opening { id }, ModelEvent::SinkOpenFailed { message }) => ModelState::Done {
            status: STATUS_INTERNAL_SERVER_ERROR,
            body: message,
            stored: Seq::empty(),
        },
        (ModelState::Reading { id, copied }, ModelEvent::ChunkArrived { chunk }) => ModelState::Writing {
            id,
            chunk,
            copied,
        },
        (ModelState::Reading { id, copied }, ModelEvent::BodyEnded) => ModelState::Done {
            status: STATUS_OK,
            body: spec_decimal(id as nat),
            stored: copied,
        },
        (ModelState::Reading { id, copied }, ModelEvent::ReadFailed { message }) => ModelState::Done {
            status: STATUS_INTERNAL_SERVER_ERROR,
            body: message,
            stored: copied,
        },
        (ModelState::Writing { id, chunk, copied }, ModelEvent::ChunkWritten) => ModelState::Reading {
            id,
            copied: copied + chunk,
        },
        (ModelState::Writing { id, chunk, copied }, ModelEvent::WriteFailed { message }) => ModelState::Done {
            status: STATUS_INTERNAL_SERVER_ERROR,
            body: message,
            stored: copied,
        },
        (s, _) => s,
    }
}

/// Begin handling one request: validate the method and, for the write
/// method, allocate the identifier that names this upload's sink.
///
/// Any method other than POST is rejected at once with a 400 response and
/// the fixed body "invalid method"; the context is untouched, so the
/// rejected request consumes no identifier. A POST draws exactly one fresh
/// identifier and moves to `Opening`, before any sink exists and before any
/// body byte is read — a later failure burns the identifier for good.
pub fn handle_request(ctx: &mut Context, method: Method) -> (r: HandlerState)
    requires
        old(ctx).wf(),
        method == Method::Post ==> old(ctx).issued().len() < u64::MAX,
    ensures
        final(ctx).wf(),
        method != Method::Post ==> *final(ctx) == *old(ctx),
        method != Method::Post ==> r@ == (ModelState::Done {
            status: STATUS_BAD_REQUEST,
            body: "invalid method"@,
            stored: Seq::<u8>::empty(),
        }),
        method == Method::Post ==> final(ctx).issued() == old(ctx).issued().push(
            old(ctx).issued().len() as u64,
        ),
        method == Method::Post ==> r@ == (ModelState::Opening {
            id: old(ctx).issued().len() as u64,
        }),
{
    if method != Method::Post {
        let message = String::from_str("invalid method");
        let error = Error::new(STATUS_BAD_REQUEST, message);
        return HandlerState::Done {
            response: error.into_response(),
            stored: Ghost(Seq::empty()),
        };
    }
    let id = ctx.allocate();
    HandlerState::Opening { id }
}

/// Advance the pipeline by one suspension point: consume the outcome of the
/// action the current state called for and produce the next state, exactly
/// as [`spec_step`] maps the abstract values.
pub fn step(state: HandlerState, event: HandlerEvent) -> (r: HandlerState)
    ensures
        r@ == spec_step(state@, event@),
{
    match (state, event) {
        (HandlerState::Opening { id }, HandlerEvent::SinkOpened) => HandlerState::Reading {
            id,
            copied: Ghost(Seq::empty()),
        },
        (HandlerState::Opening { id: _ }, HandlerEvent::SinkOpenFailed { message }) => {
            let error = Error::io(message);
            HandlerState::Done { response: error.into_response(), stored: Ghost(Seq::empty()) }
        },
        (HandlerState::Reading { id, copied }, HandlerEvent::ChunkArrived { chunk }) => {
            HandlerState::Writing { id, chunk, copied }
        },
        (HandlerState::Reading { id, copied }, HandlerEvent::BodyEnded) => {
            let body = u64_to_decimal(id);
            HandlerState::Done { response: Response { status: STATUS_OK, body }, stored: copied }
        },
        (HandlerState::Reading { id: _, copied }, HandlerEvent::ReadFailed { message }) => {
            let error = Error::io(message);
            HandlerState::Done { response: error.into_response(), stored: copied }
        },
        (HandlerState::Writing { id, chunk, copied }, HandlerEvent::ChunkWritten) => {
            HandlerState::Reading { id, copied: Ghost(copied@ + chunk@) }
        },
        (HandlerState::Writing { id: _, chunk: _, copied }, HandlerEvent::WriteFailed {
            message,
        }) => {
            let error = Error::io(message);
            HandlerState::Done { response: error.into_response(), stored: copied }
        },
        (s, _) => s,
    }
}

/// Run the machine over a whole sequence of events, oldest first.
pub open spec fn run(s: ModelState, events: Seq<ModelEvent>) -> ModelState
    decreases events.len(),
{
    if events.len() == 0 {
        s
    } else {
        run(spec_step(s, events[0]), events.drop_first())
    }
}

/// The events of an upload whose body arrives as the given chunks, each
/// chunk read and then written in full.
pub open spec fn chunk_events(chunks: Seq<Seq<u8>>) -> Seq<ModelEvent>
    decreases chunks.len(),
{
    if chunks.len() == 0 {
        Seq::empty()
    } else {
        seq![
            ModelEvent::ChunkArrived { chunk: chunks[0] },
            ModelEvent::ChunkWritten,
        ] + chunk_events(chunks.drop_first())
    }
}

/// The complete event sequence of a failure-free upload: the sink opens,
/// every chunk is read and written, then the body ends.
pub open spec fn upload_events(chunks: Seq<Seq<u8>>) -> Seq<ModelEvent> {
    seq![ModelEvent::SinkOpened] + chunk_events(chunks) + seq![ModelEvent::BodyEnded]
}

/// The bytes of a body given as chunks, in arrival order.
pub open spec fn concat_chunks(chunks: Seq<Seq<u8>>) -> Seq<u8>
    decreases chunks.len(),
{
    if chunks.len() == 0 {
        Seq::empty()
    } else {
        chunks[0] + concat_chunks(chunks.drop_first())
    }
}

proof fn lemma_stream_from_reading(id: u64, copied: Seq<u8>, chunks: Seq<Seq<u8>>)
    ensures
        run(
            ModelState::Reading { id, copied },
            chunk_events(chunks) + seq![ModelEvent::BodyEnded],
        ) == (ModelState::Done {
            status: STATUS_OK,
            body: spec_decimal(id as nat),
            stored: copied + concat_chunks(chunks),
        }),
    decreases chunks.len(),
{
    let events = chunk_events(chunks) + seq![ModelEvent::BodyEnded];
    let s0 = ModelState::Reading { id, copied };
    if chunks.len() == 0 {
        assert(events =~= seq![ModelEvent::BodyEnded]);
        let s1 = spec_step(s0, events[0]);
        assert(run(s0, events) == run(s1, events.drop_first()));
        assert(events.drop_first() =~= Seq::<ModelEvent>::empty());
        assert(run(s1, Seq::empty()) == s1);
        assert(copied + concat_chunks(chunks) =~= copied);
    } else {
        assert(chunk_events(chunks)[0] == (ModelEvent::ChunkArrived { chunk: chunks[0] }));
        assert(chunk_events(chunks)[1] == ModelEvent::ChunkWritten);
        assert(events[0] == (ModelEvent::ChunkArrived { chunk: chunks[0] }));
        assert(events[1] == ModelEvent::ChunkWritten);
        let s1 = spec_step(s0, events[0]);
        assert(s1 == (ModelState::Writing { id, chunk: chunks[0], copied }));
        assert(run(s0, events) == run(s1, events.drop_first()));
        let s2 = spec_step(s1, events[1]);
        assert(s2 == (ModelState::Reading { id, copied: copied + chunks[0] }));
        assert(events.drop_first()[0] == events[1]);
        assert(run(s1, events.drop_first()) == run(s2, events.drop_first().drop_first()));
        assert(events.drop_first().drop_first() =~= chunk_events(chunks.drop_first()) + seq![
            ModelEvent::BodyEnded,
        ]);
        lemma_stream_from_reading(id, copied + chunks[0], chunks.drop_first());
        assert((copied + chunks[0]) + concat_chunks(chunks.drop_first()) =~= copied
            + concat_chunks(chunks));
    }
}

/// Round trip: an upload whose sink opens and whose chunks all arrive and
/// are written without error — whatever their number or size, including
/// none — ends with exactly one 200 response whose body is the decimal
/// identifier, and the sink holds exactly the bytes that arrived, in
/// order, with no truncation or duplication.
pub proof fn lemma_upload_round_trip(id: u64, chunks: Seq<Seq<u8>>)
    ensures
        run(ModelState::Opening { id }, upload_events(chunks)) == (ModelState::Done {
            status: STATUS_OK,
            body: spec_decimal(id as nat),
            stored: concat_chunks(chunks),
        }),
{
    let events = upload_events(chunks);
    assert(events[0] == ModelEvent::SinkOpened);
    let s0 = ModelState::Opening { id };
    let s1 = spec_step(s0, events[0]);
    assert(s1 == (ModelState::Reading { id, copied: Seq::<u8>::empty() }));
    assert(run(s0, events) == run(s1, events.drop_first()));
    assert(events.drop_first() =~= chunk_events(chunks) + seq![ModelEvent::BodyEnded]);
    lemma_stream_from_reading(id, Seq::empty(), chunks);
    assert(Seq::<u8>::empty() + concat_chunks(chunks) =~= concat_chunks(chunks));
}

/// Storage-failure mapping: if the sink cannot be created, the request ends
/// at once with a 500 response whose body is the failure's description, and
/// nothing was stored. The identifier already drawn stays consumed, and the
/// shared context is untouched by the failure, so later requests are served
/// as usual.
pub proof fn lemma_sink_failure_maps_to_server_error(id: u64, message: Seq<char>)
    ensures
        run(ModelState::Opening { id }, seq![ModelEvent::SinkOpenFailed { message }])
            == (ModelState::Done {
            status: STATUS_INTERNAL_SERVER_ERROR,
            body: message,
            stored: Seq::<u8>::empty(),
        }),
{
    let events = seq![ModelEvent::SinkOpenFailed { message }];
    let s0 = ModelState::Opening { id };
    let s1 = spec_step(s0, events[0]);
    assert(run(s0, events) == run(s1, events.drop_first()));
    assert(events.drop_first() =~= Seq::<ModelEvent>::empty());
    assert(run(s1, Seq::empty()) == s1);
}

/// Failure during streaming: if reading the next chunk or writing the
/// pending chunk fails, the request ends with a 500 response whose body is
/// the failure's description, and the bytes already written remain stored —
/// partial data is kept, never rolled back.
pub proof fn lemma_stream_failure_maps_to_server_error(
    id: u64,
    copied: Seq<u8>,
    chunk: Seq<u8>,
    message: Seq<char>,
)
    ensures
        spec_step(
            ModelState::Reading { id, copied },
            ModelEvent::ReadFailed { message },
        ) == (ModelState::Done {
            status: STATUS_INTERNAL_SERVER_ERROR,
            body: message,
            stored: copied,
        }),
        spec_step(
            ModelState::Writing { id, chunk, copied },
            ModelEvent::WriteFailed { message },
        ) == (ModelState::Done {
            status: STATUS_INTERNAL_SERVER_ERROR,
            body: message,
            stored: copied,
        }),
{
}

} // verus!
