//! From a native scan to exactly one outcome.
//!
//! A scan either runs on the caller's own thread of execution, and its
//! return is read directly, or it runs elsewhere and reports over a channel:
//! progress notes first, then one result. Either way one `ScanOutcome` comes
//! out, and a failure keeps both its native code and its message.

use vstd::prelude::*;
use crate::av::AvError;
use crate::av_engine::{scan_verdict, AvScanResult, AvScanResultView, Engine};

verus! {

/// The outcome of scanning one file.
#[derive(Debug, PartialEq, Eq)]
pub enum ScanOutcome {
    Clean,
    Whitelisted,
    Virus(String),
    Error(u32, String),
}

/// A `ScanOutcome` with its texts as sequences of characters.
pub enum ScanOutcomeView {
    Clean,
    Whitelisted,
    Virus(Seq<char>),
    Error(u32, Seq<char>),
}

impl View for ScanOutcome {
    type V = ScanOutcomeView;

    open spec fn view(&self) -> ScanOutcomeView {
        match self {
            ScanOutcome::Clean => ScanOutcomeView::Clean,
            ScanOutcome::Whitelisted => ScanOutcomeView::Whitelisted,
            ScanOutcome::Virus(name) => ScanOutcomeView::Virus(name@),
            ScanOutcome::Error(code, message) => ScanOutcomeView::Error(*code, message@),
        }
    }
}

impl DeepView for ScanOutcome {
    type V = ScanOutcomeView;

    open spec fn deep_view(&self) -> ScanOutcomeView {
        self@
    }
}

/// What the native scan call left behind: its return code, the bytes of the
/// name it reported for a match, and the engine's text for the code.
#[derive(Debug, PartialEq, Eq)]
pub struct ScanReply {
    pub code: u32,
    pub virname: Vec<u8>,
    pub message: String,
}

/// The code of the outcome that stands in where a scan ended without any
/// result. No native code has this value.
pub const NO_RESULT: u32 = 0xffff_ffff;

/// The message that goes with `NO_RESULT`.
pub open spec fn no_result_text() -> Seq<char> {
    "scan ended without a result"@
}

/// The outcome that a native scan with the given return stands for.
pub open spec fn outcome_of(code: u32, virname: Seq<u8>, message: Seq<char>) -> ScanOutcomeView {
    match scan_verdict(code, virname) {
        Ok(AvScanResultView::Clean) => ScanOutcomeView::Clean,
        Ok(AvScanResultView::Whitelisted) => ScanOutcomeView::Whitelisted,
        Ok(AvScanResultView::Virus(name)) => ScanOutcomeView::Virus(name),
        Err(c) => ScanOutcomeView::Error(c, message),
    }
}

/// The outcome that stands in where a scan ended without any result.
pub open spec fn no_result() -> ScanOutcomeView {
    ScanOutcomeView::Error(NO_RESULT, no_result_text())
}

/// One notification of a scan that runs elsewhere.
#[derive(Debug, PartialEq, Eq)]
pub enum ScanEvent {
    /// The scan is still running.
    Progress,
    /// The scan is over, with this outcome.
    Result(ScanOutcome),
}

impl DeepView for ScanEvent {
    type V = Option<ScanOutcomeView>;

    /// The outcome that the event carries, if it is the terminal one.
    open spec fn deep_view(&self) -> Option<ScanOutcomeView> {
        match self {
            ScanEvent::Progress => None,
            ScanEvent::Result(outcome) => Some(outcome@),
        }
    }
}

/// The outcome of a stream of events that has closed: that of its first
/// terminal event, or `no_result` where no event was terminal.
pub open spec fn stream_outcome(events: Seq<Option<ScanOutcomeView>>) -> ScanOutcomeView
    decreases events.len(),
{
    if events.len() == 0 {
        no_result()
    } else {
        match events[0] {
            Some(outcome) => outcome,
            None => stream_outcome(events.skip(1)),
        }
    }
}

impl ScanOutcome {
    /// Puts what the engine found, or the error it gave together with the
    /// engine's text for it, into one outcome.
    pub fn normalize(found: Result<AvScanResult, AvError>, message: String) -> (outcome: Self)
        ensures
            outcome@ == (match found {
                Ok(AvScanResult::Clean) => ScanOutcomeView::Clean,
                Ok(AvScanResult::Whitelisted) => ScanOutcomeView::Whitelisted,
                Ok(AvScanResult::Virus(name)) => ScanOutcomeView::Virus(name@),
                Err(e) => ScanOutcomeView::Error(e.code(), message@),
            }),
    {
        match found {
            Ok(AvScanResult::Clean) => ScanOutcome::Clean,
            Ok(AvScanResult::Whitelisted) => ScanOutcome::Whitelisted,
            Ok(AvScanResult::Virus(name)) => ScanOutcome::Virus(name),
            Err(e) => ScanOutcome::Error(e.code(), message),
        }
    }

    /// A second value with the same content.
    pub fn duplicate(&self) -> (copy: Self)
        ensures
            copy@ == self@,
    {
        match self {
            ScanOutcome::Clean => ScanOutcome::Clean,
            ScanOutcome::Whitelisted => ScanOutcome::Whitelisted,
            ScanOutcome::Virus(name) => ScanOutcome::Virus(name.clone()),
            ScanOutcome::Error(code, message) => ScanOutcome::Error(*code, message.clone()),
        }
    }

    /// The outcome that stands in where a scan ended without any result.
    pub fn missing() -> (outcome: Self)
        ensures
            outcome@ == no_result(),
    {
        ScanOutcome::Error(NO_RESULT, "scan ended without a result".to_owned())
    }
}

/// Direct mode: reads what a scan by the ready engine left behind.
pub fn direct_scan(engine: &Engine, reply: ScanReply) -> (outcome: ScanOutcome)
    requires
        engine.is_ready(),
    ensures
        outcome@ == outcome_of(reply.code, reply.virname@, reply.message@),
{
    let found = engine.scan(reply.code, reply.virname.as_slice());
    ScanOutcome::normalize(found, reply.message)
}

/// Event-stream mode, one event at a time: `Some` ends the wait with the
/// outcome of a terminal event, `None` asks for the next event.
pub fn on_event(event: ScanEvent) -> (done: Option<ScanOutcome>)
    ensures
        done.deep_view() == event.deep_view(),
{
    match event {
        ScanEvent::Progress => None,
        ScanEvent::Result(outcome) => Some(outcome),
    }
}

/// Event-stream mode, on a stream that has closed: the outcome of the first
/// terminal event among those received, whatever came after it, and the
/// stand-in outcome where there was none.
pub fn drain(events: &Vec<ScanEvent>) -> (outcome: ScanOutcome)
    ensures
        outcome@ == stream_outcome(events.deep_view()),
{
    let ghost all = events.deep_view();
    let mut i: usize = 0;
    assert(all.skip(0) =~= all);
    while i < events.len()
        invariant
            i <= events.len(),
            all == events.deep_view(),
            stream_outcome(all) == stream_outcome(all.skip(i as int)),
        decreases events.len() - i,
    {
        let ghost rest = all.skip(i as int);
        assert(rest[0] == events@[i as int].deep_view());
        assert(rest.skip(1) =~= all.skip(i + 1));
        match &events[i] {
            ScanEvent::Result(outcome) => {
                return outcome.duplicate();
            },
            ScanEvent::Progress => {},
        }
        i = i + 1;
    }
    assert(all.skip(i as int).len() == 0);
    ScanOutcome::missing()
}

} // verus!
