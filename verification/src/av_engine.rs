//! The engine handle as the service sees it: which kind of value each engine
//! field holds, and how the raw answers of the native calls are read.

use vstd::prelude::*;
use vstd::utf8::{decode_utf8, valid_utf8};
use crate::av::AvError;
use crate::av_codes::{
    CL_SUCCESS, CL_CLEAN, CL_VIRUS, CL_EARG, CL_BREAK,
    CL_ENGINE_MAX_SCANSIZE, CL_ENGINE_MAX_FILESIZE, CL_ENGINE_MAX_RECURSION, CL_ENGINE_MAX_FILES,
    CL_ENGINE_MIN_CC_COUNT, CL_ENGINE_MIN_SSN_COUNT, CL_ENGINE_PUA_CATEGORIES,
    CL_ENGINE_DB_OPTIONS, CL_ENGINE_DB_VERSION, CL_ENGINE_DB_TIME, CL_ENGINE_AC_ONLY,
    CL_ENGINE_AC_MINDEPTH, CL_ENGINE_AC_MAXDEPTH, CL_ENGINE_TMPDIR, CL_ENGINE_KEEPTMP,
    CL_ENGINE_BYTECODE_SECURITY, CL_ENGINE_BYTECODE_TIMEOUT, CL_ENGINE_BYTECODE_MODE,
    CL_ENGINE_MAX_EMBEDDEDPE, CL_ENGINE_MAX_HTMLNORMALIZE, CL_ENGINE_MAX_HTMLNOTAGS,
    CL_ENGINE_MAX_SCRIPTNORMALIZE, CL_ENGINE_MAX_ZIPTYPERCG, CL_ENGINE_FORCETODISK,
    CL_ENGINE_DISABLE_CACHE, CL_ENGINE_DISABLE_PE_STATS, CL_ENGINE_STATS_TIMEOUT,
    CL_ENGINE_MAX_PARTITIONS, CL_ENGINE_MAX_ICONSPE, CL_ENGINE_MAX_RECHWP3,
    CL_ENGINE_MAX_SCANTIME, CL_ENGINE_PCRE_MATCH_LIMIT, CL_ENGINE_PCRE_RECMATCH_LIMIT,
    CL_ENGINE_PCRE_MAX_FILESIZE, CL_ENGINE_DISABLE_PE_CERTS, CL_ENGINE_PE_DUMPCERTS,
};

verus! {

/// The kind of value an engine field holds.
#[derive(Debug, PartialEq, Eq, Structural, Clone, Copy)]
pub enum ValType {
    U32,
    U64,
    STR,
}

/// Whether `field` identifies an engine field.
pub open spec fn known_field(field: u32) -> bool {
    field <= CL_ENGINE_PE_DUMPCERTS
}

/// The engine fields that hold text.
pub open spec fn text_fields() -> Set<u32> {
    set![CL_ENGINE_PUA_CATEGORIES, CL_ENGINE_TMPDIR]
}

/// The engine fields that hold a 64-bit number.
pub open spec fn wide_fields() -> Set<u32> {
    set![
        CL_ENGINE_MAX_SCANSIZE,
        CL_ENGINE_MAX_FILESIZE,
        CL_ENGINE_MAX_EMBEDDEDPE,
        CL_ENGINE_MAX_HTMLNORMALIZE,
        CL_ENGINE_MAX_HTMLNOTAGS,
        CL_ENGINE_MAX_SCRIPTNORMALIZE,
        CL_ENGINE_MAX_ZIPTYPERCG,
        CL_ENGINE_PCRE_MATCH_LIMIT,
        CL_ENGINE_PCRE_RECMATCH_LIMIT,
        CL_ENGINE_PCRE_MAX_FILESIZE
    ]
}

/// The kind of a known field: text, 64-bit, and 32-bit for all the others.
pub open spec fn field_kind(field: u32) -> ValType {
    if text_fields().contains(field) {
        ValType::STR
    } else if wide_fields().contains(field) {
        ValType::U64
    } else {
        ValType::U32
    }
}

/// The kind of value that the engine field `field` holds.
pub fn field_type(field: u32) -> (kind: ValType)
    requires
        known_field(field),
    ensures
        kind == field_kind(field),
{
    match field {
        CL_ENGINE_MAX_SCANSIZE => ValType::U64,
        CL_ENGINE_MAX_FILESIZE => ValType::U64,
        CL_ENGINE_MAX_RECURSION => ValType::U32,
        CL_ENGINE_MAX_FILES => ValType::U32,
        CL_ENGINE_MIN_CC_COUNT => ValType::U32,
        CL_ENGINE_MIN_SSN_COUNT => ValType::U32,
        CL_ENGINE_PUA_CATEGORIES => ValType::STR,
        CL_ENGINE_DB_OPTIONS => ValType::U32,
        CL_ENGINE_DB_VERSION => ValType::U32,
        CL_ENGINE_DB_TIME => ValType::U32,
        CL_ENGINE_AC_ONLY => ValType::U32,
        CL_ENGINE_AC_MINDEPTH => ValType::U32,
        CL_ENGINE_AC_MAXDEPTH => ValType::U32,
        CL_ENGINE_TMPDIR => ValType::STR,
        CL_ENGINE_KEEPTMP => ValType::U32,
        CL_ENGINE_BYTECODE_SECURITY => ValType::U32,
        CL_ENGINE_BYTECODE_TIMEOUT => ValType::U32,
        CL_ENGINE_BYTECODE_MODE => ValType::U32,
        CL_ENGINE_MAX_EMBEDDEDPE => ValType::U64,
        CL_ENGINE_MAX_HTMLNORMALIZE => ValType::U64,
        CL_ENGINE_MAX_HTMLNOTAGS => ValType::U64,
        CL_ENGINE_MAX_SCRIPTNORMALIZE => ValType::U64,
        CL_ENGINE_MAX_ZIPTYPERCG => ValType::U64,
        CL_ENGINE_FORCETODISK => ValType::U32,
        CL_ENGINE_DISABLE_CACHE => ValType::U32,
        CL_ENGINE_DISABLE_PE_STATS => ValType::U32,
        CL_ENGINE_STATS_TIMEOUT => ValType::U32,
        CL_ENGINE_MAX_PARTITIONS => ValType::U32,
        CL_ENGINE_MAX_ICONSPE => ValType::U32,
        CL_ENGINE_MAX_RECHWP3 => ValType::U32,
        CL_ENGINE_MAX_SCANTIME => ValType::U32,
        CL_ENGINE_PCRE_MATCH_LIMIT => ValType::U64,
        CL_ENGINE_PCRE_RECMATCH_LIMIT => ValType::U64,
        CL_ENGINE_PCRE_MAX_FILESIZE => ValType::U64,
        CL_ENGINE_DISABLE_PE_CERTS => ValType::U32,
        CL_ENGINE_PE_DUMPCERTS => ValType::U32,
        _ => unreached(),
    }
}

/// The kind of value that `field` holds, or `None` for a number that names no
/// engine field.
pub fn try_field_type(field: u32) -> (kind: Option<ValType>)
    ensures
        kind == (if known_field(field) {
            Some(field_kind(field))
        } else {
            None
        }),
{
    if field <= CL_ENGINE_PE_DUMPCERTS {
        Some(field_type(field))
    } else {
        None
    }
}

/// `String::from_utf8`: the text that `bytes` encode, if they are valid
/// UTF-8, and nothing otherwise.
#[verifier::external_body]
fn utf8_text(bytes: &[u8]) -> (text: Option<String>)
    ensures
        text is Some <==> valid_utf8(bytes@),
        text matches Some(s) ==> s@ == decode_utf8(bytes@),
{
    String::from_utf8(bytes.to_vec()).ok()
}

/// What loading a signature database reported.
#[derive(Debug, Clone, Copy, PartialEq, Eq, Structural)]
pub struct DBStats {
    pub signo: u32,
}

/// What a scan that ran to its end found.
#[derive(Debug, PartialEq, Eq)]
pub enum AvScanResult {
    Clean,
    Whitelisted,
    Virus(String),
}

/// An `AvScanResult` with its text as a sequence of characters.
pub enum AvScanResultView {
    Clean,
    Whitelisted,
    Virus(Seq<char>),
}

impl View for AvScanResult {
    type V = AvScanResultView;

    open spec fn view(&self) -> AvScanResultView {
        match self {
            AvScanResult::Clean => AvScanResultView::Clean,
            AvScanResult::Whitelisted => AvScanResultView::Whitelisted,
            AvScanResult::Virus(name) => AvScanResultView::Virus(name@),
        }
    }
}

/// The value of an engine field.
#[derive(Debug, PartialEq, Eq)]
pub enum Val {
    U32(u32),
    U64(u64),
    STR(String),
}

/// A `Val` with its text as a sequence of characters.
pub enum ValView {
    U32(u32),
    U64(u64),
    STR(Seq<char>),
}

impl View for Val {
    type V = ValView;

    open spec fn view(&self) -> ValView {
        match self {
            Val::U32(v) => ValView::U32(*v),
            Val::U64(v) => ValView::U64(*v),
            Val::STR(v) => ValView::STR(v@),
        }
    }
}

/// What one of the two native field getters answered: the number getter a
/// value and an error code, the text getter a text and an error code. A code
/// of zero means that the value is good.
#[derive(Debug, PartialEq, Eq)]
pub enum FieldReply {
    Num { err: i32, value: i64 },
    Str { err: i32, text: String },
}

/// A `FieldReply` with its text as a sequence of characters.
pub enum FieldReplyView {
    Num { err: i32, value: i64 },
    Str { err: i32, text: Seq<char> },
}

impl View for FieldReply {
    type V = FieldReplyView;

    open spec fn view(&self) -> FieldReplyView {
        match self {
            FieldReply::Num { err, value } => FieldReplyView::Num { err: *err, value: *value },
            FieldReply::Str { err, text } => FieldReplyView::Str { err: *err, text: text@ },
        }
    }
}

/// Which native getter answers for a field of the given kind.
pub open spec fn reply_fits(kind: ValType, reply: FieldReplyView) -> bool {
    match kind {
        ValType::U32 | ValType::U64 => reply is Num,
        ValType::STR => reply is Str,
    }
}

/// The value of `field` that `reply` stands for, or the code of the error:
/// the getter's own code where it reported one, `CL_EARG` where the reply
/// came from the getter of the other kind. A number is cut to the width of
/// the field.
pub open spec fn field_value(field: u32, reply: FieldReplyView) -> Result<ValView, u32> {
    if !reply_fits(field_kind(field), reply) {
        Err(CL_EARG)
    } else {
        match reply {
            FieldReplyView::Num { err, value } => if err != 0 {
                Err(err as u32)
            } else if field_kind(field) == ValType::U64 {
                Ok(ValView::U64(value as u64))
            } else {
                Ok(ValView::U32(value as u32))
            },
            FieldReplyView::Str { err, text } => if err != 0 {
                Err(err as u32)
            } else {
                Ok(ValView::STR(text))
            },
        }
    }
}

/// The name that a scan reported for its match: the text that the bytes
/// encode, or nothing where they are not valid UTF-8.
pub open spec fn signature_name(virname: Seq<u8>) -> Seq<char> {
    if valid_utf8(virname) {
        decode_utf8(virname)
    } else {
        Seq::empty()
    }
}

/// What a scan that returned `code` found, or `code` itself where it names a
/// failure.
pub open spec fn scan_verdict(code: u32, virname: Seq<u8>) -> Result<AvScanResultView, u32> {
    if code == CL_CLEAN {
        Ok(AvScanResultView::Clean)
    } else if code == CL_BREAK {
        Ok(AvScanResultView::Whitelisted)
    } else if code == CL_VIRUS {
        Ok(AvScanResultView::Virus(signature_name(virname)))
    } else {
        Err(code)
    }
}

/// Reads the return code of a native scan, and the name that it left for a
/// match.
pub fn map_scan_result(result: u32, virname: &[u8]) -> (found: Result<AvScanResult, AvError>)
    ensures
        match found {
            Ok(r) => scan_verdict(result, virname@) == Ok::<AvScanResultView, u32>(r@),
            Err(e) => scan_verdict(result, virname@) == Err::<AvScanResultView, u32>(e.code()),
        },
{
    match result {
        CL_CLEAN => Ok(AvScanResult::Clean),
        CL_BREAK => Ok(AvScanResult::Whitelisted),
        CL_VIRUS => {
            let name = match utf8_text(virname) {
                Some(text) => text,
                None => String::new(),
            };
            Ok(AvScanResult::Virus(name))
        },
        _ => Err(AvError::new(result)),
    }
}

/// Reads the return code of a native call that only succeeds or fails.
pub fn check_code(code: u32) -> (done: Result<(), AvError>)
    ensures
        code == CL_SUCCESS ==> done is Ok,
        code != CL_SUCCESS ==> done is Err && done->Err_0.code() == code,
{
    match code {
        CL_SUCCESS => Ok(()),
        _ => Err(AvError::new(code)),
    }
}

/// How far the native engine has been brought.
#[derive(Debug, PartialEq, Eq, Structural, Clone, Copy)]
pub enum EngineStage {
    /// Allocated, no signatures yet.
    Created,
    /// The signature database is loaded.
    Loaded,
    /// Loaded and compiled: ready to scan.
    Compiled,
}

/// The service's record of the native engine: how far it has been brought,
/// and how its answers are read. The native handle itself lives with the
/// code that makes the native calls; every method here takes what such a
/// call returned.
#[derive(Debug)]
pub struct Engine {
    stage: EngineStage,
}

impl Engine {
    /// How far the engine has been brought.
    pub closed spec fn spec_stage(&self) -> EngineStage {
        self.stage
    }

    /// Whether the engine may be asked to scan.
    pub open spec fn is_ready(&self) -> bool {
        self.stage() == EngineStage::Compiled
    }

    /// The record of a freshly allocated engine.
    pub fn new() -> (engine: Self)
        ensures
            engine.stage() == EngineStage::Created,
    {
        Engine { stage: EngineStage::Created }
    }

    /// How far the engine has been brought.
    #[verifier::when_used_as_spec(spec_stage)]
    pub fn stage(&self) -> (stage: EngineStage)
        ensures
            stage == self.stage(),
    {
        self.stage
    }

    /// Records what loading the signature database returned: on success the
    /// engine is loaded and the number of signatures is handed on, otherwise
    /// the engine stays as it was and the code comes back as the error.
    pub fn load_db(&mut self, code: u32, signo: u32) -> (stats: Result<DBStats, AvError>)
        requires
            old(self).stage() == EngineStage::Created,
        ensures
            code == CL_SUCCESS ==> stats is Ok && stats->Ok_0.signo == signo && final(self).stage()
                == EngineStage::Loaded,
            code != CL_SUCCESS ==> stats is Err && stats->Err_0.code() == code && final(self).stage() == EngineStage::Created,
    {
        match check_code(code) {
            Ok(()) => {
                self.stage = EngineStage::Loaded;
                Ok(DBStats { signo })
            },
            Err(e) => Err(e),
        }
    }

    /// Records what compiling the loaded engine returned: on success the
    /// engine is ready, otherwise it stays loaded and the code comes back as
    /// the error.
    pub fn compile(&mut self, code: u32) -> (done: Result<(), AvError>)
        requires
            old(self).stage() == EngineStage::Loaded,
        ensures
            code == CL_SUCCESS ==> done is Ok && final(self).is_ready(),
            code != CL_SUCCESS ==> done is Err && done->Err_0.code() == code && final(self).stage() == EngineStage::Loaded,
    {
        match check_code(code) {
            Ok(()) => {
                self.stage = EngineStage::Compiled;
                Ok(())
            },
            Err(e) => Err(e),
        }
    }

    /// Reads what a scan by the ready engine returned.
    pub fn scan(&self, code: u32, virname: &[u8]) -> (found: Result<AvScanResult, AvError>)
        requires
            self.is_ready(),
        ensures
            match found {
                Ok(r) => scan_verdict(code, virname@) == Ok::<AvScanResultView, u32>(r@),
                Err(e) => scan_verdict(code, virname@) == Err::<AvScanResultView, u32>(e.code()),
            },
    {
        map_scan_result(code, virname)
    }

    /// Reads the native answer to a query for `field`. The answer must come
    /// from the getter that `field_type` names for the field; one from the
    /// other getter is refused with `CL_EARG`.
    pub fn get(&self, field: u32, reply: FieldReply) -> (val: Result<Val, AvError>)
        requires
            known_field(field),
        ensures
            match val {
                Ok(v) => field_value(field, reply@) == Ok::<ValView, u32>(v@),
                Err(e) => field_value(field, reply@) == Err::<ValView, u32>(e.code()),
            },
    {
        match field_type(field) {
            ValType::U32 => match reply {
                FieldReply::Num { err, value } => match err {
                    0 => Ok(Val::U32(#[verifier::truncate] (value as u32))),
                    _ => Err(AvError::new(#[verifier::truncate] (err as u32))),
                },
                FieldReply::Str { .. } => Err(AvError::new(CL_EARG)),
            },
            ValType::U64 => match reply {
                FieldReply::Num { err, value } => match err {
                    0 => Ok(Val::U64(#[verifier::truncate] (value as u64))),
                    _ => Err(AvError::new(#[verifier::truncate] (err as u32))),
                },
                FieldReply::Str { .. } => Err(AvError::new(CL_EARG)),
            },
            ValType::STR => match reply {
                FieldReply::Str { err, text } => match err {
                    0 => Ok(Val::STR(text)),
                    _ => Err(AvError::new(#[verifier::truncate] (err as u32))),
                },
                FieldReply::Num { .. } => Err(AvError::new(CL_EARG)),
            },
        }
    }

    /// The version of the signature database, from the native answer to a
    /// query for `CL_ENGINE_DB_VERSION`.
    pub fn db_version(&self, reply: FieldReply) -> (version: Result<u32, AvError>)
        ensures
            match version {
                Ok(v) => field_value(CL_ENGINE_DB_VERSION, reply@) == Ok::<ValView, u32>(
                    ValView::U32(v),
                ),
                Err(e) => field_value(CL_ENGINE_DB_VERSION, reply@) == Err::<ValView, u32>(
                    e.code(),
                ),
            },
    {
        match self.get(CL_ENGINE_DB_VERSION, reply) {
            Ok(Val::U32(val)) => Ok(val),
            Ok(_) => Err(AvError::new(CL_EARG)),
            Err(e) => Err(e),
        }
    }

    /// The time at which the signature database was built, in seconds since
    /// the epoch, from the native answer to a query for `CL_ENGINE_DB_TIME`.
    pub fn db_timestamp(&self, reply: FieldReply) -> (seconds: Result<u32, AvError>)
        ensures
            match seconds {
                Ok(v) => field_value(CL_ENGINE_DB_TIME, reply@) == Ok::<ValView, u32>(
                    ValView::U32(v),
                ),
                Err(e) => field_value(CL_ENGINE_DB_TIME, reply@) == Err::<ValView, u32>(e.code()),
            },
    {
        match self.get(CL_ENGINE_DB_TIME, reply) {
            Ok(Val::U32(val)) => Ok(val),
            Ok(_) => Err(AvError::new(CL_EARG)),
            Err(e) => Err(e),
        }
    }
}

} // verus!
