//! Errors of the native engine, and the context that every request scans
//! in.

use vstd::prelude::*;
use crate::av_engine::{DBStats, Engine};
use crate::av_settings::AvSettings;
use crate::dates::{format_db_time, utc_text};

verus! {

/// A failure reported by the native engine, kept as the engine's own code.
#[derive(Clone, Copy, Debug, PartialEq, Eq, Structural)]
pub struct AvError {
    code: u32,
}

impl AvError {
    /// The native code that this error carries.
    pub closed spec fn spec_code(&self) -> u32 {
        self.code
    }

    /// Keeps the code that a native call returned.
    pub fn new(native_err: u32) -> (err: Self)
        ensures
            err.code() == native_err,
    {
        AvError { code: native_err }
    }

    /// The native code.
    #[verifier::when_used_as_spec(spec_code)]
    pub fn code(&self) -> (code: u32)
        ensures
            code == self.code(),
    {
        self.code
    }
}

/// What is known of the engine once it is ready, read once at startup and
/// kept for the life of the process. A context exists only around an engine
/// that is loaded and compiled.
#[derive(Debug)]
pub struct AvContext {
    clamav_version: String,
    db_version: u32,
    db_sig_count: u32,
    db_timestamp_sec: u32,
    db_date: String,
    engine: Engine,
    settings: AvSettings,
}

/// The plain content of an `AvContext`.
pub struct AvContextView {
    pub clamav_version: Seq<char>,
    pub db_version: u32,
    pub db_sig_count: u32,
    pub db_timestamp_sec: u32,
    pub settings: AvSettings,
}

impl View for AvContext {
    type V = AvContextView;

    closed spec fn view(&self) -> AvContextView {
        AvContextView {
            clamav_version: self.clamav_version@,
            db_version: self.db_version,
            db_sig_count: self.db_sig_count,
            db_timestamp_sec: self.db_timestamp_sec,
            settings: self.settings,
        }
    }
}

impl AvContext {
    #[verifier::type_invariant]
    spec fn ready(&self) -> bool {
        &&& self.engine.is_ready()
        &&& utc_text(self.db_timestamp_sec as i64) == Some(self.db_date@)
    }

    /// The version of the native library.
    pub fn clamav_version(&self) -> (version: &String)
        ensures
            version@ == self@.clamav_version,
    {
        &self.clamav_version
    }

    /// The version of the signature database.
    pub fn db_version(&self) -> (version: u32)
        ensures
            version == self@.db_version,
    {
        self.db_version
    }

    /// The number of signatures in the database.
    pub fn db_sig_count(&self) -> (count: u32)
        ensures
            count == self@.db_sig_count,
    {
        self.db_sig_count
    }

    /// The build time of the database, in seconds since the epoch.
    pub fn db_timestamp_sec(&self) -> (seconds: u32)
        ensures
            seconds == self@.db_timestamp_sec,
    {
        self.db_timestamp_sec
    }

    /// The build time of the database as text.
    pub fn db_date(&self) -> (text: &String)
        ensures
            utc_text(self@.db_timestamp_sec as i64) == Some(text@),
    {
        proof {
            use_type_invariant(self);
        }
        &self.db_date
    }

    /// The engine, which is ready to scan.
    pub fn engine(&self) -> (engine: &Engine)
        ensures
            engine.is_ready(),
    {
        proof {
            use_type_invariant(self);
        }
        &self.engine
    }

    /// The settings of the service. A scan does not run under these but
    /// under a `scan_settings` copy.
    pub fn settings(&self) -> (settings: &AvSettings)
        ensures
            *settings == self@.settings,
    {
        &self.settings
    }

    /// The settings for one scan: a copy that the scan owns, so that nothing
    /// it writes there reaches the context or another scan.
    pub fn scan_settings(&self) -> (copy: AvSettings)
        ensures
            copy == self@.settings,
    {
        self.settings.snapshot()
    }
}

/// Puts the context together from what startup has gathered: the version of
/// the native library, the engine after loading and compiling, the statistics
/// of the load, and the version and build time of the database.
pub fn load_context(
    clamav_version: String,
    engine: Engine,
    stats: DBStats,
    db_version: u32,
    db_timestamp: u32,
    settings: AvSettings,
) -> (ctx: AvContext)
    requires
        engine.is_ready(),
    ensures
        ctx@ == (AvContextView {
            clamav_version: clamav_version@,
            db_version,
            db_sig_count: stats.signo,
            db_timestamp_sec: db_timestamp,
            settings,
        }),
{
    AvContext {
        clamav_version,
        db_version,
        db_sig_count: stats.signo,
        db_timestamp_sec: db_timestamp,
        db_date: format_db_time(db_timestamp),
        engine,
        settings,
    }
}

} // verus!
