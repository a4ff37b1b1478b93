//! What an upload request is answered with: one entry for each field, put
//! together from the stored field's description, the content type told from
//! its bytes and the outcome of its scan, under the metadata of the engine.

use vstd::prelude::*;
use crate::app_config::AppConfig;
use crate::av::{AvContext, AvContextView};
use crate::av_codes::{CL_BREAK, CL_CLEAN, CL_VIRUS};
use crate::dates::{chrono_utc_text, utc_text};
use crate::ingest::{TempArtifact, TempArtifactView};
use crate::scan_bridge::{
    direct_scan, no_result, outcome_of, ScanOutcome, ScanOutcomeView, ScanReply,
};
use crate::sniff::{content_type_of, sniff_content_type};

verus! {

/// The status of a request with a malformed body.
pub const BAD_REQUEST: u16 = 400;

/// The status of a request whose body is larger than the configured limit.
pub const PAYLOAD_TOO_LARGE: u16 = 413;

/// The status of a request that failed on the service's own storage.
pub const INTERNAL_SERVER_ERROR: u16 = 500;

/// The word that an entry reports for its scan.
#[derive(Debug, PartialEq, Eq, Structural, Clone, Copy)]
pub enum Verdict {
    Clean,
    Whitelisted,
    Virus,
    Error,
}

impl Verdict {
    /// The verdict as it is written in a response.
    pub open spec fn label_text(self) -> Seq<char> {
        match self {
            Verdict::Clean => "CLEAN"@,
            Verdict::Whitelisted => "WHITELISTED"@,
            Verdict::Virus => "VIRUS"@,
            Verdict::Error => "ERROR"@,
        }
    }

    /// The verdict as it is written in a response.
    pub fn label(&self) -> (text: &'static str)
        ensures
            text@ == self.label_text(),
    {
        match self {
            Verdict::Clean => "CLEAN",
            Verdict::Whitelisted => "WHITELISTED",
            Verdict::Virus => "VIRUS",
            Verdict::Error => "ERROR",
        }
    }
}

/// The entry of one field in a response.
#[derive(Debug)]
pub struct AvResult {
    name: Option<String>,
    size: u64,
    crc32: String,
    md5: String,
    sha256: String,
    content_type: Option<String>,
    date_scanned: Option<String>,
    result: Verdict,
    signature: Option<String>,
    error_code: Option<u32>,
    error_msg: Option<String>,
}

/// The plain content of an `AvResult`.
pub struct AvResultView {
    pub name: Option<Seq<char>>,
    pub size: u64,
    pub crc32: Seq<char>,
    pub md5: Seq<char>,
    pub sha256: Seq<char>,
    pub content_type: Option<Seq<char>>,
    pub date_scanned: Option<Seq<char>>,
    pub result: Verdict,
    pub signature: Option<Seq<char>>,
    pub error_code: Option<u32>,
    pub error_msg: Option<Seq<char>>,
}

impl View for AvResult {
    type V = AvResultView;

    closed spec fn view(&self) -> AvResultView {
        AvResultView {
            name: self.name.deep_view(),
            size: self.size,
            crc32: self.crc32@,
            md5: self.md5@,
            sha256: self.sha256@,
            content_type: self.content_type.deep_view(),
            date_scanned: self.date_scanned.deep_view(),
            result: self.result,
            signature: self.signature.deep_view(),
            error_code: self.error_code,
            error_msg: self.error_msg.deep_view(),
        }
    }
}

impl DeepView for AvResult {
    type V = AvResultView;

    open spec fn deep_view(&self) -> AvResultView {
        self@
    }
}

/// The word for an outcome.
pub open spec fn verdict_of(outcome: ScanOutcomeView) -> Verdict {
    match outcome {
        ScanOutcomeView::Clean => Verdict::Clean,
        ScanOutcomeView::Whitelisted => Verdict::Whitelisted,
        ScanOutcomeView::Virus(_) => Verdict::Virus,
        ScanOutcomeView::Error(_, _) => Verdict::Error,
    }
}

/// The entry for a field: everything known of the field is in it whatever
/// the outcome, the signature only for a match, and the code and message
/// only for an error.
pub open spec fn entry_of(
    name: Option<Seq<char>>,
    artifact: TempArtifactView,
    content_type: Option<Seq<char>>,
    date_scanned: Option<Seq<char>>,
    outcome: ScanOutcomeView,
) -> AvResultView {
    AvResultView {
        name,
        size: artifact.size,
        crc32: artifact.crc32,
        md5: artifact.md5,
        sha256: artifact.sha256,
        content_type,
        date_scanned,
        result: verdict_of(outcome),
        signature: match outcome {
            ScanOutcomeView::Virus(signature) => Some(signature),
            _ => None,
        },
        error_code: match outcome {
            ScanOutcomeView::Error(code, _) => Some(code),
            _ => None,
        },
        error_msg: match outcome {
            ScanOutcomeView::Error(_, message) => Some(message),
            _ => None,
        },
    }
}

/// Whether the optional parts of an entry fit its verdict. A clean or
/// allow-listed file has neither signature nor error code nor message. A
/// match has a signature, and neither error code nor message. An error has
/// an error code and a message, and no signature.
pub open spec fn exclusive(entry: AvResultView) -> bool {
    match entry.result {
        Verdict::Clean | Verdict::Whitelisted => {
            &&& entry.signature.is_none()
            &&& entry.error_code.is_none()
            &&& entry.error_msg.is_none()
        },
        Verdict::Virus => {
            &&& entry.signature.is_some()
            &&& entry.error_code.is_none()
            &&& entry.error_msg.is_none()
        },
        Verdict::Error => {
            &&& entry.signature.is_none()
            &&& entry.error_code.is_some()
            &&& entry.error_msg.is_some()
        },
    }
}

/// The outcome that an optional native reply stands for: that of the reply,
/// or the stand-in where the scan left none.
pub open spec fn reply_outcome(reply: Option<ScanReply>) -> ScanOutcomeView {
    match reply {
        Some(r) => outcome_of(r.code, r.virname@, r.message@),
        None => no_result(),
    }
}

impl AvResult {
    /// Every entry has the optional parts that fit its verdict, and no
    /// others.
    #[verifier::type_invariant]
    spec fn consistent(&self) -> bool {
        exclusive(self@)
    }

    /// The name that the client declared for the field.
    pub fn name(&self) -> (name: &Option<String>)
        ensures
            name.deep_view() == self@.name,
    {
        &self.name
    }

    /// The number of bytes stored.
    pub fn size(&self) -> (size: u64)
        ensures
            size == self@.size,
    {
        self.size
    }

    /// The CRC-32 of the stored bytes, in hexadecimal.
    pub fn crc32(&self) -> (text: &String)
        ensures
            text@ == self@.crc32,
    {
        &self.crc32
    }

    /// The MD5 digest of the stored bytes, in hexadecimal.
    pub fn md5(&self) -> (text: &String)
        ensures
            text@ == self@.md5,
    {
        &self.md5
    }

    /// The SHA-256 digest of the stored bytes, in hexadecimal.
    pub fn sha256(&self) -> (text: &String)
        ensures
            text@ == self@.sha256,
    {
        &self.sha256
    }

    /// The content type told from the stored bytes.
    pub fn content_type(&self) -> (mime: &Option<String>)
        ensures
            mime.deep_view() == self@.content_type,
    {
        &self.content_type
    }

    /// The time of the scan as text.
    pub fn date_scanned(&self) -> (text: &Option<String>)
        ensures
            text.deep_view() == self@.date_scanned,
    {
        &self.date_scanned
    }

    /// The verdict, which the optional parts of the entry fit.
    pub fn verdict(&self) -> (verdict: Verdict)
        ensures
            verdict == self@.result,
            exclusive(self@),
    {
        proof {
            use_type_invariant(self);
        }
        self.result
    }

    /// The verdict as it is written in a response.
    pub fn result(&self) -> (text: &'static str)
        ensures
            text@ == self@.result.label_text(),
    {
        self.result.label()
    }

    /// The signature that matched.
    pub fn signature(&self) -> (signature: &Option<String>)
        ensures
            signature.deep_view() == self@.signature,
    {
        &self.signature
    }

    /// The native code of the error.
    pub fn error_code(&self) -> (code: Option<u32>)
        ensures
            code == self@.error_code,
    {
        self.error_code
    }

    /// The message of the error.
    pub fn error_msg(&self) -> (message: &Option<String>)
        ensures
            message.deep_view() == self@.error_msg,
    {
        &self.error_msg
    }
}

/// Puts the entry of a field together from its parts.
pub fn assemble_result(
    name: Option<String>,
    artifact: TempArtifact,
    content_type: Option<String>,
    date_scanned: Option<String>,
    outcome: ScanOutcome,
) -> (entry: AvResult)
    ensures
        entry@ == entry_of(
            name.deep_view(),
            artifact@,
            content_type.deep_view(),
            date_scanned.deep_view(),
            outcome@,
        ),
        exclusive(entry@),
{
    match outcome {
        ScanOutcome::Clean => AvResult {
            name,
            size: artifact.size,
            crc32: artifact.crc32,
            md5: artifact.md5,
            sha256: artifact.sha256,
            content_type,
            date_scanned,
            result: Verdict::Clean,
            signature: None,
            error_code: None,
            error_msg: None,
        },
        ScanOutcome::Whitelisted => AvResult {
            name,
            size: artifact.size,
            crc32: artifact.crc32,
            md5: artifact.md5,
            sha256: artifact.sha256,
            content_type,
            date_scanned,
            result: Verdict::Whitelisted,
            signature: None,
            error_code: None,
            error_msg: None,
        },
        ScanOutcome::Virus(signature) => AvResult {
            name,
            size: artifact.size,
            crc32: artifact.crc32,
            md5: artifact.md5,
            sha256: artifact.sha256,
            content_type,
            date_scanned,
            result: Verdict::Virus,
            signature: Some(signature),
            error_code: None,
            error_msg: None,
        },
        ScanOutcome::Error(code, message) => AvResult {
            name,
            size: artifact.size,
            crc32: artifact.crc32,
            md5: artifact.md5,
            sha256: artifact.sha256,
            content_type,
            date_scanned,
            result: Verdict::Error,
            signature: None,
            error_code: Some(code),
            error_msg: Some(message),
        },
    }
}

/// The entry of a stored field: tells the content type from the leading
/// bytes `head` of what is stored, reads what the scan left behind, or
/// stands in for a scan that left nothing, writes the time of the scan as
/// text, and puts the entry together.
pub fn map_result(
    ctx: &AvContext,
    name: Option<String>,
    artifact: TempArtifact,
    head: &[u8],
    scanned_at: i64,
    reply: Option<ScanReply>,
) -> (entry: AvResult)
    ensures
        entry@ == entry_of(
            name.deep_view(),
            artifact@,
            content_type_of(head@),
            utc_text(scanned_at),
            reply_outcome(reply),
        ),
        exclusive(entry@),
{
    let content_type = sniff_content_type(head);
    let outcome = match reply {
        Some(r) => direct_scan(ctx.engine(), r),
        None => ScanOutcome::missing(),
    };
    let date_scanned = chrono_utc_text(scanned_at);
    assemble_result(name, artifact, content_type, date_scanned, outcome)
}

/// The answer to a request whose multipart body is malformed.
pub fn map_mp_error_to_400(err: String) -> (answer: (u16, String))
    ensures
        answer.0 == BAD_REQUEST,
        answer.1@ == err@,
{
    (BAD_REQUEST, err)
}

/// The answer to a request that failed on creating, writing or flushing a
/// temporary file.
pub fn map_io_error_to_500(err: String) -> (answer: (u16, String))
    ensures
        answer.0 == INTERNAL_SERVER_ERROR,
        answer.1@ == err@,
{
    (INTERNAL_SERVER_ERROR, err)
}

/// The body of the answer to an upload.
#[derive(Debug)]
pub struct AvResponse {
    av_version: String,
    db_version: u32,
    db_sig_count: u32,
    db_date: String,
    results: Vec<AvResult>,
}

/// The plain content of an `AvResponse`.
pub struct AvResponseView {
    pub av_version: Seq<char>,
    pub db_version: u32,
    pub db_sig_count: u32,
    pub db_date: Seq<char>,
    pub results: Seq<AvResultView>,
}

impl View for AvResponse {
    type V = AvResponseView;

    closed spec fn view(&self) -> AvResponseView {
        AvResponseView {
            av_version: self.av_version@,
            db_version: self.db_version,
            db_sig_count: self.db_sig_count,
            db_date: self.db_date@,
            results: self.results.deep_view(),
        }
    }
}

impl AvResponse {
    /// The version of the native library.
    pub fn av_version(&self) -> (version: &String)
        ensures
            version@ == self@.av_version,
    {
        &self.av_version
    }

    /// The version of the signature database.
    pub fn db_version(&self) -> (version: u32)
        ensures
            version == self@.db_version,
    {
        self.db_version
    }

    /// The number of signatures in the database.
    pub fn db_sig_count(&self) -> (count: u32)
        ensures
            count == self@.db_sig_count,
    {
        self.db_sig_count
    }

    /// The build time of the database as text.
    pub fn db_date(&self) -> (text: &String)
        ensures
            text@ == self@.db_date,
    {
        &self.db_date
    }

    /// The entries, one for each field, in the order of the fields.
    pub fn results(&self) -> (entries: &Vec<AvResult>)
        ensures
            entries.deep_view() == self@.results,
    {
        &self.results
    }
}

/// The answer that carries `entries` under the metadata of the engine.
pub open spec fn response_of(ctx: AvContextView, entries: Seq<AvResultView>) -> AvResponseView {
    AvResponseView {
        av_version: ctx.clamav_version,
        db_version: ctx.db_version,
        db_sig_count: ctx.db_sig_count,
        db_date: utc_text(ctx.db_timestamp_sec as i64).unwrap(),
        results: entries,
    }
}

/// What the limit on request bodies decides for a body of `body_len` bytes:
/// nothing to object, or the status to refuse it with.
pub open spec fn body_verdict(cfg: AppConfig, body_len: u64) -> Result<(), u16> {
    if cfg.admits(body_len) {
        Ok(())
    } else {
        Err(PAYLOAD_TOO_LARGE)
    }
}

/// One upload request from its admission to its answer. A session exists
/// only for a request whose body is within the limit, and entries come into
/// being only within a session.
#[derive(Debug)]
pub struct UploadSession {
    results: Vec<AvResult>,
}

impl UploadSession {
    /// The entries recorded so far.
    pub closed spec fn entries(&self) -> Seq<AvResultView> {
        self.results.deep_view()
    }

    /// A session without entries, for a request that needs no admission.
    pub(crate) fn empty() -> (session: Self)
        ensures
            session.entries() == Seq::<AvResultView>::empty(),
    {
        let session = UploadSession { results: Vec::new() };
        assert(session.results.deep_view() =~= Seq::<AvResultView>::empty());
        session
    }

    /// Admits a request whose body has `body_len` bytes, or refuses it before
    /// anything is stored for it.
    pub fn begin(cfg: &AppConfig, body_len: u64) -> (session: Result<Self, u16>)
        ensures
            match session {
                Ok(s) => body_verdict(*cfg, body_len).is_ok() && s.entries() == Seq::<
                    AvResultView,
                >::empty(),
                Err(status) => body_verdict(*cfg, body_len) == Err::<(), u16>(status),
            },
    {
        if body_len <= cfg.max_file_size as u64 {
            Ok(UploadSession::empty())
        } else {
            Err(PAYLOAD_TOO_LARGE)
        }
    }

    /// The number of entries recorded so far.
    pub fn len(&self) -> (n: usize)
        ensures
            n == self.entries().len(),
    {
        self.results.len()
    }

    /// Records the entry of the field that was just scanned, after those of
    /// the fields before it, which stay as they are whatever the new entry
    /// reports.
    pub fn record(&mut self, entry: AvResult)
        ensures
            final(self).entries() == old(self).entries().push(entry@),
    {
        self.results.push(entry);
        assert(self.results.deep_view() =~= old(self).results.deep_view().push(entry@));
    }

    /// Ends the request: the entries in the order of their fields, under the
    /// metadata of the engine.
    pub fn finish(self, ctx: &AvContext) -> (response: AvResponse)
        ensures
            response@ == response_of(ctx@, self.entries()),
    {
        AvResponse {
            av_version: ctx.clamav_version().clone(),
            db_version: ctx.db_version(),
            db_sig_count: ctx.db_sig_count(),
            db_date: ctx.db_date().clone(),
            results: self.results,
        }
    }
}

/// Whatever the outcome of a scan, the optional parts of the entry go with
/// its verdict.
pub proof fn lemma_entry_is_exclusive(
    name: Option<Seq<char>>,
    artifact: TempArtifactView,
    content_type: Option<Seq<char>>,
    date_scanned: Option<Seq<char>>,
    outcome: ScanOutcomeView,
)
    ensures
        exclusive(entry_of(name, artifact, content_type, date_scanned, outcome)),
{
}

/// A native return code that is neither clean nor a match nor the mark of an
/// allow-listed file gives an entry that reports an error, with that code
/// and the engine's message for it, and recording that entry leaves the
/// entries of the fields before it as they were.
pub proof fn lemma_engine_error_is_reported(
    entries: Seq<AvResultView>,
    name: Option<Seq<char>>,
    artifact: TempArtifactView,
    content_type: Option<Seq<char>>,
    date_scanned: Option<Seq<char>>,
    code: u32,
    virname: Seq<u8>,
    message: Seq<char>,
)
    requires
        code != CL_CLEAN,
        code != CL_VIRUS,
        code != CL_BREAK,
    ensures
        ({
            let entry = entry_of(
                name,
                artifact,
                content_type,
                date_scanned,
                outcome_of(code, virname, message),
            );
            &&& entry.result == Verdict::Error
            &&& entry.error_code == Some(code)
            &&& entry.error_msg == Some(message)
            &&& entry.signature.is_none()
            &&& forall|i: int| 0 <= i < entries.len() ==> entries.push(entry)[i] == entries[i]
        }),
{
}

/// With a limit of zero bytes, every body that is not empty is refused with
/// a status in the 4xx range.
pub proof fn lemma_zero_limit_refuses(cfg: AppConfig, body_len: u64)
    requires
        cfg.max_file_size == 0,
        body_len > 0,
    ensures
        body_verdict(cfg, body_len) matches Err(status) && 400 <= status < 500,
{
}

} // verus!
