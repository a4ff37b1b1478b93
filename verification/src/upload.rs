//! One upload request, step by step.
//!
//! Serving an upload alternates between waiting for the outside world (the
//! transport yields a field or a chunk, storage finishes a write, the engine
//! returns from a scan) and deciding what to do next. The deciding is here:
//! `Upload::step` takes what has just happened and answers with what to do
//! now. Whoever drives it does what the answer says and comes back with the
//! event that followed, and does nothing else in between.
//!
//! The order this gives: a chunk is written in full, then digested, and only
//! then is the next chunk asked for; a field is flushed after its last chunk
//! and scanned only after the flush; a failure of the transport or of
//! storage ends the whole request, a failure of the engine only marks the
//! entry of its field.

use vstd::prelude::*;
use crate::app_config::AppConfig;
use crate::av::{AvContext, AvContextView};
use crate::av_settings::AvSettings;
use crate::controller::{
    body_verdict, entry_of, map_io_error_to_500, map_mp_error_to_400, map_result, reply_outcome,
    response_of, AvResponse, AvResponseView, AvResultView, UploadSession, BAD_REQUEST,
    INTERNAL_SERVER_ERROR, PAYLOAD_TOO_LARGE,
};
use crate::dates::utc_text;
use crate::digest::{fed_by, MAX_INPUT_LEN};
use crate::ingest::{artifact_of, FieldIngest, TempArtifact, TempArtifactView};
use crate::scan_bridge::{ScanOutcomeView, ScanReply};
use crate::sniff::content_type_of;

verus! {

/// What came back from scanning a stored field: the leading bytes of what is
/// stored, the time of the scan in seconds since the epoch, and what the
/// native call left behind, or nothing where it was never reached.
#[derive(Debug, PartialEq, Eq)]
pub struct ScanReport {
    pub head: Vec<u8>,
    pub scanned_at: i64,
    pub reply: Option<ScanReply>,
}

/// What has just happened.
#[derive(Debug, PartialEq, Eq)]
pub enum UploadEvent {
    /// The transport yielded the next field, with the name declared for it.
    Field(Option<String>),
    /// The transport reached the end of the body.
    NoMoreFields,
    /// Storage created the temporary file for the field.
    TempCreated,
    /// The transport yielded the next chunk of the field.
    Chunk(Vec<u8>),
    /// The transport reached the end of the field.
    NoMoreChunks,
    /// Storage wrote the pending chunk in full.
    Written,
    /// Storage made everything written durable.
    Flushed,
    /// The scan of the stored field returned.
    Scanned(ScanReport),
    /// The transport found the body malformed.
    MalformedBody(String),
    /// Storage failed to create, write or flush.
    StorageFailed(String),
}

/// An `UploadEvent` in plain values, a scan with the outcome it stands for.
pub enum UploadEventView {
    Field(Option<Seq<char>>),
    NoMoreFields,
    TempCreated,
    Chunk(Seq<u8>),
    NoMoreChunks,
    Written,
    Flushed,
    Scanned { head: Seq<u8>, scanned_at: i64, outcome: ScanOutcomeView },
    MalformedBody(Seq<char>),
    StorageFailed(Seq<char>),
}

impl View for UploadEvent {
    type V = UploadEventView;

    open spec fn view(&self) -> UploadEventView {
        match self {
            UploadEvent::Field(name) => UploadEventView::Field(name.deep_view()),
            UploadEvent::NoMoreFields => UploadEventView::NoMoreFields,
            UploadEvent::TempCreated => UploadEventView::TempCreated,
            UploadEvent::Chunk(bytes) => UploadEventView::Chunk(bytes@),
            UploadEvent::NoMoreChunks => UploadEventView::NoMoreChunks,
            UploadEvent::Written => UploadEventView::Written,
            UploadEvent::Flushed => UploadEventView::Flushed,
            UploadEvent::Scanned(report) => UploadEventView::Scanned {
                head: report.head@,
                scanned_at: report.scanned_at,
                outcome: reply_outcome(report.reply),
            },
            UploadEvent::MalformedBody(message) => UploadEventView::MalformedBody(message@),
            UploadEvent::StorageFailed(message) => UploadEventView::StorageFailed(message@),
        }
    }
}

/// What to do now.
#[derive(Debug)]
pub enum UploadAction {
    /// Ask the transport for the next field.
    NextField,
    /// Create a temporary file for the field.
    CreateTemp,
    /// Ask the transport for the next chunk of the field.
    NextChunk,
    /// Write the pending chunk to the temporary file, in full.
    Write,
    /// Make everything written to the temporary file durable.
    Flush,
    /// Scan the temporary file under these settings, which belong to this
    /// scan alone.
    Scan(AvSettings),
    /// Answer the request with this body. The request is over.
    Respond(AvResponse),
    /// Answer the request with this status and message. The request is over.
    Reject(u16, String),
}

/// An `UploadAction` in plain values.
pub enum UploadActionView {
    NextField,
    CreateTemp,
    NextChunk,
    Write,
    Flush,
    Scan(AvSettings),
    Respond(AvResponseView),
    Reject(u16, Seq<char>),
}

impl View for UploadAction {
    type V = UploadActionView;

    open spec fn view(&self) -> UploadActionView {
        match self {
            UploadAction::NextField => UploadActionView::NextField,
            UploadAction::CreateTemp => UploadActionView::CreateTemp,
            UploadAction::NextChunk => UploadActionView::NextChunk,
            UploadAction::Write => UploadActionView::Write,
            UploadAction::Flush => UploadActionView::Flush,
            UploadAction::Scan(settings) => UploadActionView::Scan(*settings),
            UploadAction::Respond(response) => UploadActionView::Respond(response@),
            UploadAction::Reject(status, message) => UploadActionView::Reject(*status, message@),
        }
    }
}

/// Where a request stands: what it is waiting for, and what it holds of the
/// field at hand.
pub enum PhaseView {
    /// Waiting for the next field, or for the end of the body.
    AwaitField,
    /// Waiting for the temporary file of the field.
    AwaitTemp { name: Option<Seq<char>> },
    /// Waiting for the next chunk, or for the end of the field. `stored` is
    /// what has been written and digested so far.
    AwaitChunk { name: Option<Seq<char>>, stored: Seq<u8> },
    /// Waiting for `pending` to be written.
    AwaitWrite { name: Option<Seq<char>>, stored: Seq<u8>, pending: Seq<u8> },
    /// Waiting for the flush of the field, whose description is complete.
    AwaitFlush { name: Option<Seq<char>>, artifact: TempArtifactView },
    /// Waiting for the scan of the flushed field.
    AwaitScan { name: Option<Seq<char>>, artifact: TempArtifactView },
    /// The request has been answered.
    Closed,
}

/// A request in plain values: where it stands, and the entries of the fields
/// that are done.
pub struct UploadView {
    pub phase: PhaseView,
    pub entries: Seq<AvResultView>,
}

/// What a step answers to an event that nothing was waiting for.
pub open spec fn out_of_order_text() -> Seq<char> {
    "event out of order"@
}

/// What a step answers to a chunk that would take a field beyond
/// `MAX_INPUT_LEN` bytes.
pub open spec fn field_too_large_text() -> Seq<char> {
    "field too large"@
}

/// What `Upload::begin` answers to a body beyond the limit.
pub open spec fn body_too_large_text() -> Seq<char> {
    "length limit exceeded"@
}

/// The request after its answer.
pub open spec fn closed() -> UploadView {
    UploadView { phase: PhaseView::Closed, entries: Seq::empty() }
}

/// The step that ends the request with a status and a message.
pub open spec fn rejected(status: u16, message: Seq<char>) -> (UploadView, UploadActionView) {
    (closed(), UploadActionView::Reject(status, message))
}

/// What a step makes of a request and an event: the request afterwards, and
/// what to do now.
pub open spec fn transition(state: UploadView, ctx: AvContextView, event: UploadEventView) -> (
    UploadView,
    UploadActionView,
) {
    match (state.phase, event) {
        (PhaseView::Closed, _) => rejected(INTERNAL_SERVER_ERROR, out_of_order_text()),
        (_, UploadEventView::MalformedBody(message)) => rejected(BAD_REQUEST, message),
        (_, UploadEventView::StorageFailed(message)) => rejected(INTERNAL_SERVER_ERROR, message),
        (PhaseView::AwaitField, UploadEventView::Field(name)) => (
            UploadView { phase: PhaseView::AwaitTemp { name }, entries: state.entries },
            UploadActionView::CreateTemp,
        ),
        (PhaseView::AwaitField, UploadEventView::NoMoreFields) => (
            closed(),
            UploadActionView::Respond(response_of(ctx, state.entries)),
        ),
        (PhaseView::AwaitTemp { name }, UploadEventView::TempCreated) => (
            UploadView {
                phase: PhaseView::AwaitChunk { name, stored: Seq::empty() },
                entries: state.entries,
            },
            UploadActionView::NextChunk,
        ),
        (PhaseView::AwaitChunk { name, stored }, UploadEventView::Chunk(bytes)) => if stored.len()
            + bytes.len() <= MAX_INPUT_LEN {
            (
                UploadView {
                    phase: PhaseView::AwaitWrite { name, stored, pending: bytes },
                    entries: state.entries,
                },
                UploadActionView::Write,
            )
        } else {
            rejected(PAYLOAD_TOO_LARGE, field_too_large_text())
        },
        (PhaseView::AwaitChunk { name, stored }, UploadEventView::NoMoreChunks) => (
            UploadView {
                phase: PhaseView::AwaitFlush { name, artifact: artifact_of(stored) },
                entries: state.entries,
            },
            UploadActionView::Flush,
        ),
        (PhaseView::AwaitWrite { name, stored, pending }, UploadEventView::Written) => (
            UploadView {
                phase: PhaseView::AwaitChunk { name, stored: stored + pending },
                entries: state.entries,
            },
            UploadActionView::NextChunk,
        ),
        (PhaseView::AwaitFlush { name, artifact }, UploadEventView::Flushed) => (
            UploadView { phase: PhaseView::AwaitScan { name, artifact }, entries: state.entries },
            UploadActionView::Scan(ctx.settings),
        ),
        (
            PhaseView::AwaitScan { name, artifact },
            UploadEventView::Scanned { head, scanned_at, outcome },
        ) => (
            UploadView {
                phase: PhaseView::AwaitField,
                entries: state.entries.push(
                    entry_of(
                        name,
                        artifact,
                        content_type_of(head),
                        utc_text(scanned_at),
                        outcome,
                    ),
                ),
            },
            UploadActionView::NextField,
        ),
        _ => rejected(INTERNAL_SERVER_ERROR, out_of_order_text()),
    }
}

enum Phase {
    AwaitField,
    AwaitTemp(Option<String>),
    AwaitChunk(FieldIngest),
    AwaitWrite(FieldIngest, Vec<u8>),
    AwaitFlush(Option<String>, TempArtifact),
    AwaitScan(Option<String>, TempArtifact),
    Closed,
}

/// One upload request between its admission and its answer.
pub struct Upload {
    phase: Phase,
    session: UploadSession,
}

impl View for Upload {
    type V = UploadView;

    closed spec fn view(&self) -> UploadView {
        UploadView {
            phase: match self.phase {
                Phase::AwaitField => PhaseView::AwaitField,
                Phase::AwaitTemp(name) => PhaseView::AwaitTemp { name: name.deep_view() },
                Phase::AwaitChunk(field) => PhaseView::AwaitChunk {
                    name: field.name(),
                    stored: field.stored(),
                },
                Phase::AwaitWrite(field, pending) => PhaseView::AwaitWrite {
                    name: field.name(),
                    stored: field.stored(),
                    pending: pending@,
                },
                Phase::AwaitFlush(name, artifact) => PhaseView::AwaitFlush {
                    name: name.deep_view(),
                    artifact: artifact@,
                },
                Phase::AwaitScan(name, artifact) => PhaseView::AwaitScan {
                    name: name.deep_view(),
                    artifact: artifact@,
                },
                Phase::Closed => PhaseView::Closed,
            },
            entries: self.session.entries(),
        }
    }
}

impl Upload {
    /// The digests of the field at hand have seen exactly what is stored of
    /// it, a pending chunk still fits, and an answered request holds no
    /// entries.
    pub closed spec fn wf(&self) -> bool {
        match self.phase {
            Phase::AwaitChunk(field) => field.wf(),
            Phase::AwaitWrite(field, pending) => field.wf() && field.stored().len() + pending@.len()
                <= MAX_INPUT_LEN,
            Phase::Closed => self.session.entries() == Seq::<AvResultView>::empty(),
            _ => true,
        }
    }

    /// Admits a request whose body has `body_len` bytes, or refuses it before
    /// anything is stored for it. An admitted request waits for its first
    /// field.
    pub fn begin(cfg: &AppConfig, body_len: u64) -> (admitted: Result<Self, (u16, String)>)
        ensures
            match admitted {
                Ok(upload) => {
                    &&& body_verdict(*cfg, body_len).is_ok()
                    &&& upload.wf()
                    &&& upload@ == (UploadView {
                        phase: PhaseView::AwaitField,
                        entries: Seq::empty(),
                    })
                },
                Err(refusal) => {
                    &&& body_verdict(*cfg, body_len) == Err::<(), u16>(refusal.0)
                    &&& refusal.1@ == body_too_large_text()
                },
            },
    {
        match UploadSession::begin(cfg, body_len) {
            Ok(session) => Ok(Upload { phase: Phase::AwaitField, session }),
            Err(status) => Err((status, "length limit exceeded".to_owned())),
        }
    }

    /// The chunk that storage is to write, while one is pending.
    pub fn pending_chunk(&self) -> (chunk: Option<&Vec<u8>>)
        ensures
            match chunk {
                Some(bytes) => self@.phase matches PhaseView::AwaitWrite { pending, .. }
                    && pending == bytes@,
                None => !(self@.phase is AwaitWrite),
            },
    {
        match &self.phase {
            Phase::AwaitWrite(_, pending) => Some(pending),
            _ => None,
        }
    }

    /// Whether the request has been answered.
    pub fn is_closed(&self) -> (closed: bool)
        ensures
            closed == (self@.phase is Closed),
    {
        match &self.phase {
            Phase::Closed => true,
            _ => false,
        }
    }

    /// The number of fields that are done.
    pub fn fields_done(&self) -> (n: usize)
        ensures
            n == self@.entries.len(),
    {
        self.session.len()
    }

    /// Takes what has just happened, and answers with what to do now.
    pub fn step(self, ctx: &AvContext, event: UploadEvent) -> (next: (Self, UploadAction))
        requires
            self.wf(),
        ensures
            next.0.wf(),
            (next.0@, next.1@) == transition(self@, ctx@, event@),
    {
        let Upload { phase, session } = self;
        if let Phase::Closed = phase {
            return out_of_order();
        }
        match event {
            UploadEvent::MalformedBody(message) => reject(map_mp_error_to_400(message)),
            UploadEvent::StorageFailed(message) => reject(map_io_error_to_500(message)),
            UploadEvent::Field(name) => match phase {
                Phase::AwaitField => (
                    Upload { phase: Phase::AwaitTemp(name), session },
                    UploadAction::CreateTemp,
                ),
                _ => out_of_order(),
            },
            UploadEvent::NoMoreFields => match phase {
                Phase::AwaitField => {
                    let response = session.finish(ctx);
                    (closed_upload(), UploadAction::Respond(response))
                },
                _ => out_of_order(),
            },
            UploadEvent::TempCreated => match phase {
                Phase::AwaitTemp(name) => (
                    Upload { phase: Phase::AwaitChunk(FieldIngest::begin(name)), session },
                    UploadAction::NextChunk,
                ),
                _ => out_of_order(),
            },
            UploadEvent::Chunk(bytes) => match phase {
                Phase::AwaitChunk(field) => {
                    if field.has_room(bytes.len()) {
                        (
                            Upload { phase: Phase::AwaitWrite(field, bytes), session },
                            UploadAction::Write,
                        )
                    } else {
                        reject((PAYLOAD_TOO_LARGE, "field too large".to_owned()))
                    }
                },
                _ => out_of_order(),
            },
            UploadEvent::NoMoreChunks => match phase {
                Phase::AwaitChunk(field) => {
                    let (name, artifact) = field.finish();
                    (
                        Upload { phase: Phase::AwaitFlush(name, artifact), session },
                        UploadAction::Flush,
                    )
                },
                _ => out_of_order(),
            },
            UploadEvent::Written => match phase {
                Phase::AwaitWrite(field, pending) => {
                    let mut field = field;
                    field.accept(pending.as_slice());
                    (Upload { phase: Phase::AwaitChunk(field), session }, UploadAction::NextChunk)
                },
                _ => out_of_order(),
            },
            UploadEvent::Flushed => match phase {
                Phase::AwaitFlush(name, artifact) => (
                    Upload { phase: Phase::AwaitScan(name, artifact), session },
                    UploadAction::Scan(ctx.scan_settings()),
                ),
                _ => out_of_order(),
            },
            UploadEvent::Scanned(report) => match phase {
                Phase::AwaitScan(name, artifact) => {
                    let mut session = session;
                    let entry = map_result(
                        ctx,
                        name,
                        artifact,
                        report.head.as_slice(),
                        report.scanned_at,
                        report.reply,
                    );
                    session.record(entry);
                    (Upload { phase: Phase::AwaitField, session }, UploadAction::NextField)
                },
                _ => out_of_order(),
            },
        }
    }
}

/// An answered request.
fn closed_upload() -> (upload: Upload)
    ensures
        upload.wf(),
        upload@ == closed(),
{
    Upload { phase: Phase::Closed, session: UploadSession::empty() }
}

/// The step that ends the request with the given answer.
fn reject(answer: (u16, String)) -> (next: (Upload, UploadAction))
    ensures
        next.0.wf(),
        (next.0@, next.1@) == rejected(answer.0, answer.1@),
{
    (closed_upload(), UploadAction::Reject(answer.0, answer.1))
}

/// The step that answers an event that nothing was waiting for.
fn out_of_order() -> (next: (Upload, UploadAction))
    ensures
        next.0.wf(),
        (next.0@, next.1@) == rejected(INTERNAL_SERVER_ERROR, out_of_order_text()),
{
    reject((INTERNAL_SERVER_ERROR, "event out of order".to_owned()))
}

/// The request after a run of events, each taken in turn.
pub open spec fn run(state: UploadView, ctx: AvContextView, events: Seq<UploadEventView>)
    -> UploadView
    decreases events.len(),
{
    if events.len() == 0 {
        state
    } else {
        transition(run(state, ctx, events.drop_last()), ctx, events.last()).0
    }
}

/// The events of taking in `chunks`: each chunk arrives and is written
/// before the next arrives.
pub open spec fn chunk_events(chunks: Seq<Seq<u8>>) -> Seq<UploadEventView>
    decreases chunks.len(),
{
    if chunks.len() == 0 {
        Seq::empty()
    } else {
        chunk_events(chunks.drop_last()).push(UploadEventView::Chunk(chunks.last())).push(
            UploadEventView::Written,
        )
    }
}

/// A scan is asked for only once the field has been flushed.
pub proof fn lemma_scan_follows_flush(
    state: UploadView,
    ctx: AvContextView,
    event: UploadEventView,
)
    requires
        transition(state, ctx, event).1 is Scan,
    ensures
        state.phase is AwaitFlush,
        event is Flushed,
        transition(state, ctx, event).1 == UploadActionView::Scan(ctx.settings),
{
}

/// A flush is asked for only at the end of a field, and by then the
/// description of the field is that of exactly the bytes stored.
pub proof fn lemma_flush_follows_last_chunk(
    state: UploadView,
    ctx: AvContextView,
    event: UploadEventView,
)
    requires
        transition(state, ctx, event).1 is Flush,
    ensures
        event is NoMoreChunks,
        state.phase matches PhaseView::AwaitChunk { name, stored } && transition(
            state,
            ctx,
            event,
        ).0.phase == (PhaseView::AwaitFlush { name, artifact: artifact_of(stored) }),
{
}

/// The next chunk is asked for only when nothing is pending: right after the
/// temporary file was created, or after the chunk before was written, and
/// then that chunk has become the end of what is stored.
pub proof fn lemma_next_chunk_follows_write(
    state: UploadView,
    ctx: AvContextView,
    event: UploadEventView,
)
    requires
        transition(state, ctx, event).1 is NextChunk,
    ensures
        match state.phase {
            PhaseView::AwaitTemp { name } => event is TempCreated && transition(
                state,
                ctx,
                event,
            ).0.phase == (PhaseView::AwaitChunk { name, stored: Seq::empty() }),
            PhaseView::AwaitWrite { name, stored, pending } => event is Written && transition(
                state,
                ctx,
                event,
            ).0.phase == (PhaseView::AwaitChunk { name, stored: stored + pending }),
            _ => false,
        },
{
}

/// A failure of the transport or of storage ends an open request at once:
/// the first with the status of a client error, the second with that of a
/// server error, both with the message of the failure and without entries.
pub proof fn lemma_failure_ends_request(state: UploadView, ctx: AvContextView, message: Seq<char>)
    requires
        !(state.phase is Closed),
    ensures
        transition(state, ctx, UploadEventView::MalformedBody(message)) == rejected(
            BAD_REQUEST,
            message,
        ),
        transition(state, ctx, UploadEventView::StorageFailed(message)) == rejected(
            INTERNAL_SERVER_ERROR,
            message,
        ),
        rejected(BAD_REQUEST, message).0 == closed(),
{
}

/// Whatever a scan comes back with, an error of the engine included, the
/// request goes on with the next field: the entry of the scanned field is
/// added after the entries of the fields before it, which stay as they were.
pub proof fn lemma_scan_outcome_is_local(
    entries: Seq<AvResultView>,
    name: Option<Seq<char>>,
    artifact: TempArtifactView,
    ctx: AvContextView,
    head: Seq<u8>,
    scanned_at: i64,
    outcome: ScanOutcomeView,
)
    ensures
        ({
            let state = UploadView { phase: PhaseView::AwaitScan { name, artifact }, entries };
            let event = UploadEventView::Scanned { head, scanned_at, outcome };
            let entry = entry_of(
                name,
                artifact,
                content_type_of(head),
                utc_text(scanned_at),
                outcome,
            );
            let (after, action) = transition(state, ctx, event);
            &&& action == UploadActionView::NextField
            &&& after.phase == PhaseView::AwaitField
            &&& after.entries == entries.push(entry)
            &&& forall|i: int| 0 <= i < entries.len() ==> after.entries[i] == entries[i]
        }),
{
}

/// An answered request stays answered: every further event is refused.
pub proof fn lemma_closed_stays_closed(ctx: AvContextView, event: UploadEventView)
    ensures
        transition(closed(), ctx, event) == rejected(INTERNAL_SERVER_ERROR, out_of_order_text()),
{
}

/// Chunks that arrive and are written one after the other leave the field
/// with exactly their concatenation stored, however the bytes were cut into
/// chunks.
pub proof fn lemma_chunks_are_stored(
    entries: Seq<AvResultView>,
    name: Option<Seq<char>>,
    ctx: AvContextView,
    chunks: Seq<Seq<u8>>,
)
    requires
        fed_by(chunks).len() <= MAX_INPUT_LEN,
    ensures
        run(
            UploadView { phase: PhaseView::AwaitChunk { name, stored: Seq::empty() }, entries },
            ctx,
            chunk_events(chunks),
        ) == (UploadView { phase: PhaseView::AwaitChunk { name, stored: fed_by(chunks) }, entries }),
    decreases chunks.len(),
{
    let start = UploadView { phase: PhaseView::AwaitChunk { name, stored: Seq::empty() }, entries };
    if chunks.len() > 0 {
        let before = chunks.drop_last();
        lemma_chunks_are_stored(entries, name, ctx, before);
        let arrived = chunk_events(before).push(UploadEventView::Chunk(chunks.last()));
        let written = arrived.push(UploadEventView::Written);
        assert(chunk_events(chunks) == written);
        assert(written.drop_last() =~= arrived);
        assert(arrived.drop_last() =~= chunk_events(before));
        assert(run(start, ctx, arrived) == transition(
            run(start, ctx, chunk_events(before)),
            ctx,
            arrived.last(),
        ).0);
        assert(run(start, ctx, written) == transition(
            run(start, ctx, arrived),
            ctx,
            written.last(),
        ).0);
    }
}

} // verus!
