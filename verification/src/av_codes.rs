//! Numeric vocabulary of the native scanning engine: the return codes of its
//! calls and the identifiers of the engine fields that can be queried.

use vstd::prelude::*;

verus! {

/// The call succeeded.
pub const CL_SUCCESS: u32 = 0;

/// A scan found nothing; the same number as `CL_SUCCESS`.
pub const CL_CLEAN: u32 = 0;

/// A scan matched a signature.
pub const CL_VIRUS: u32 = 1;

/// An argument was not acceptable.
pub const CL_EARG: u32 = 3;

/// A scan was cut short because the file is on an allow list.
pub const CL_BREAK: u32 = 22;

pub const CL_ENGINE_MAX_SCANSIZE: u32 = 0;

pub const CL_ENGINE_MAX_FILESIZE: u32 = 1;

pub const CL_ENGINE_MAX_RECURSION: u32 = 2;

pub const CL_ENGINE_MAX_FILES: u32 = 3;

pub const CL_ENGINE_MIN_CC_COUNT: u32 = 4;

pub const CL_ENGINE_MIN_SSN_COUNT: u32 = 5;

pub const CL_ENGINE_PUA_CATEGORIES: u32 = 6;

pub const CL_ENGINE_DB_OPTIONS: u32 = 7;

pub const CL_ENGINE_DB_VERSION: u32 = 8;

pub const CL_ENGINE_DB_TIME: u32 = 9;

pub const CL_ENGINE_AC_ONLY: u32 = 10;

pub const CL_ENGINE_AC_MINDEPTH: u32 = 11;

pub const CL_ENGINE_AC_MAXDEPTH: u32 = 12;

pub const CL_ENGINE_TMPDIR: u32 = 13;

pub const CL_ENGINE_KEEPTMP: u32 = 14;

pub const CL_ENGINE_BYTECODE_SECURITY: u32 = 15;

pub const CL_ENGINE_BYTECODE_TIMEOUT: u32 = 16;

pub const CL_ENGINE_BYTECODE_MODE: u32 = 17;

pub const CL_ENGINE_MAX_EMBEDDEDPE: u32 = 18;

pub const CL_ENGINE_MAX_HTMLNORMALIZE: u32 = 19;

pub const CL_ENGINE_MAX_HTMLNOTAGS: u32 = 20;

pub const CL_ENGINE_MAX_SCRIPTNORMALIZE: u32 = 21;

pub const CL_ENGINE_MAX_ZIPTYPERCG: u32 = 22;

pub const CL_ENGINE_FORCETODISK: u32 = 23;

pub const CL_ENGINE_DISABLE_CACHE: u32 = 24;

pub const CL_ENGINE_DISABLE_PE_STATS: u32 = 25;

pub const CL_ENGINE_STATS_TIMEOUT: u32 = 26;

pub const CL_ENGINE_MAX_PARTITIONS: u32 = 27;

pub const CL_ENGINE_MAX_ICONSPE: u32 = 28;

pub const CL_ENGINE_MAX_RECHWP3: u32 = 29;

pub const CL_ENGINE_MAX_SCANTIME: u32 = 30;

pub const CL_ENGINE_PCRE_MATCH_LIMIT: u32 = 31;

pub const CL_ENGINE_PCRE_RECMATCH_LIMIT: u32 = 32;

pub const CL_ENGINE_PCRE_MAX_FILESIZE: u32 = 33;

pub const CL_ENGINE_DISABLE_PE_CERTS: u32 = 34;

pub const CL_ENGINE_PE_DUMPCERTS: u32 = 35;

} // verus!
