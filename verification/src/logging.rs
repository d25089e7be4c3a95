//! What is logged.

use vstd::prelude::*;
use vstd::string::*;

use crate::config::LogLevel;
use crate::sys::level_as_str;
use crate::sys::level_debug;
use crate::sys::level_error;
use crate::sys::level_info;
use crate::sys::level_text;
use crate::sys::level_trace;
use crate::sys::level_warn;

verus! {

/// The name of the level that a [`LogLevel`] lets through. There is none below errors, so
/// `Silent` lets errors through too.
pub open spec fn level_name(log_level: LogLevel) -> Seq<char> {
    match log_level {
        LogLevel::Silent => "ERROR"@,
        LogLevel::Error => "ERROR"@,
        LogLevel::Warning => "WARN"@,
        LogLevel::Info => "INFO"@,
        LogLevel::Debug => "DEBUG"@,
        LogLevel::Verbose => "TRACE"@,
    }
}

/// The level that a [`LogLevel`] lets through.
pub fn log_level_to_tracing_level(log_level: LogLevel) -> (level: tracing::Level)
    ensures
        level_text(level) == level_name(log_level),
{
    match log_level {
        LogLevel::Silent => level_error(),
        LogLevel::Error => level_error(),
        LogLevel::Warning => level_warn(),
        LogLevel::Info => level_info(),
        LogLevel::Debug => level_debug(),
        LogLevel::Verbose => level_trace(),
    }
}

/// The filter that shows what `log_level` lets through of this crate, and of other crates
/// no more than warnings.
pub fn log_filter(log_level: LogLevel) -> (filter: String)
    ensures
        filter@ == "warn,timpani_n="@ + level_name(log_level),
{
    let level = log_level_to_tracing_level(log_level);
    "warn,timpani_n=".to_owned().concat(level_as_str(&level))
}

/// Each level lets through what its name says, `Verbose` everything, and `Silent` errors.
pub proof fn law_levels_have_their_names(log_level: LogLevel)
    ensures
        log_level == LogLevel::Silent || log_level == LogLevel::Error ==> level_name(log_level)
            == "ERROR"@,
        log_level == LogLevel::Warning ==> level_name(log_level) == "WARN"@,
        log_level == LogLevel::Info ==> level_name(log_level) == "INFO"@,
        log_level == LogLevel::Debug ==> level_name(log_level) == "DEBUG"@,
        log_level == LogLevel::Verbose ==> level_name(log_level) == "TRACE"@,
{
}

} // verus!
