//! Diagnostic logging configuration and the pure parts of the logging sink:
//! level names, level parsing and ranking (matched case-insensitively over
//! ASCII), and the layout of a log line. Writing to the console and the log
//! file, and rotating the file, are the embedding program's job.

use vstd::prelude::*;

verus! {

/// Severity of a log record; `Off` disables logging entirely.
#[derive(Clone, Copy, PartialEq, Eq, Structural)]
pub enum LogLevel {
    Off,
    Error,
    Warn,
    Info,
    Debug,
    Trace,
}

/// Logging sink configuration: level, log file (none logs to the console
/// only), and the size at which the embedding program rotates the file.
pub struct LogConfig {
    pub log_level: LogLevel,
    pub log_filepath: Option<String>,
    pub log_max_size: u64,
}

/// The configuration used until the application configures the sink: most
/// verbose level, console only, five-megabyte rotation bound.
pub fn default_log_config() -> (r: LogConfig)
    ensures
        r.log_level is Trace,
        r.log_filepath is None,
        r.log_max_size == 5 * 1024 * 1024,
{
    LogConfig { log_level: LogLevel::Trace, log_filepath: None, log_max_size: 5 * 1024 * 1024 }
}

/// A copy of the sink configuration.
pub fn get_log_config(config: &LogConfig) -> (r: LogConfig)
    ensures
        r == *config,
{
    let path = match &config.log_filepath {
        Some(p) => Some(p.clone()),
        None => None,
    };
    LogConfig { log_level: config.log_level, log_filepath: path, log_max_size: config.log_max_size }
}

/// Name of a level, as written in log lines and configuration.
pub fn level_str(level: LogLevel) -> (r: &'static str)
    ensures
        level is Off ==> r@ == "none"@,
        level is Error ==> r@ == "error"@,
        level is Warn ==> r@ == "warn"@,
        level is Info ==> r@ == "info"@,
        level is Debug ==> r@ == "debug"@,
        level is Trace ==> r@ == "trace"@,
{
    match level {
        LogLevel::Off => "none",
        LogLevel::Error => "error",
        LogLevel::Warn => "warn",
        LogLevel::Info => "info",
        LogLevel::Debug => "debug",
        LogLevel::Trace => "trace",
    }
}

/// The two characters are equal up to ASCII case.
pub open spec fn same_char_ci(a: char, b: char) -> bool {
    ||| a == b
    ||| ('A' <= a && a <= 'Z' && b as int == a as int + 32)
    ||| ('A' <= b && b <= 'Z' && a as int == b as int + 32)
}

/// The two strings are equal up to ASCII case.
pub open spec fn ci_eq(a: Seq<char>, b: Seq<char>) -> bool {
    a.len() == b.len() && forall|i: int| 0 <= i < a.len() ==> same_char_ci(a[i], b[i])
}

/// Case-insensitive (ASCII) string equality.
pub fn str_eq_ci(a: &str, b: &str) -> (r: bool)
    ensures
        r == ci_eq(a@, b@),
{
    let alen = a.unicode_len();
    let blen = b.unicode_len();
    if alen != blen {
        return false;
    }
    let mut i: usize = 0;
    while i < alen
        invariant
            alen == a@.len(),
            alen == b@.len(),
            i <= alen,
            forall|j: int| 0 <= j < i ==> same_char_ci(a@[j], b@[j]),
        decreases alen - i,
    {
        let ca = a.get_char(i);
        let cb = b.get_char(i);
        let same = ca == cb || ('A' <= ca && ca <= 'Z' && cb as u32 == ca as u32 + 32) || ('A' <= cb
            && cb <= 'Z' && ca as u32 == cb as u32 + 32);
        if !same {
            return false;
        }
        i = i + 1;
    }
    true
}

/// The level a configuration string names, matched case-insensitively; an
/// unknown name disables logging.
pub open spec fn parse_level(s: Seq<char>) -> LogLevel {
    if ci_eq(s, "error"@) {
        LogLevel::Error
    } else if ci_eq(s, "warn"@) {
        LogLevel::Warn
    } else if ci_eq(s, "info"@) {
        LogLevel::Info
    } else if ci_eq(s, "debug"@) {
        LogLevel::Debug
    } else if ci_eq(s, "trace"@) {
        LogLevel::Trace
    } else {
        LogLevel::Off
    }
}

/// Set the sink's level from its configured name.
pub fn set_log_level(config: &mut LogConfig, level_name: &str)
    ensures
        final(config).log_level == parse_level(level_name@),
        final(config).log_filepath == old(config).log_filepath,
        final(config).log_max_size == old(config).log_max_size,
{
    let level = if str_eq_ci(level_name, "error") {
        LogLevel::Error
    } else if str_eq_ci(level_name, "warn") {
        LogLevel::Warn
    } else if str_eq_ci(level_name, "info") {
        LogLevel::Info
    } else if str_eq_ci(level_name, "debug") {
        LogLevel::Debug
    } else if str_eq_ci(level_name, "trace") {
        LogLevel::Trace
    } else {
        LogLevel::Off
    };
    config.log_level = level;
}

/// Set the size at which the log file is rotated (in bytes).
pub fn set_log_max_size(config: &mut LogConfig, size: u64)
    ensures
        final(config).log_max_size == size,
        final(config).log_level == old(config).log_level,
        final(config).log_filepath == old(config).log_filepath,
{
    config.log_max_size = size;
}

/// Numeric rank of a level, as used to order records against the configured
/// level.
pub open spec fn level_rank(level: LogLevel) -> int {
    match level {
        LogLevel::Off => 0,
        LogLevel::Error => 1,
        LogLevel::Warn => 2,
        LogLevel::Info => 3,
        LogLevel::Debug => 4,
        LogLevel::Trace => 5,
    }
}

/// Numeric rank of a level.
pub fn level_rank_exec(level: LogLevel) -> (r: u8)
    ensures
        r as int == level_rank(level),
{
    match level {
        LogLevel::Off => 0,
        LogLevel::Error => 1,
        LogLevel::Warn => 2,
        LogLevel::Info => 3,
        LogLevel::Debug => 4,
        LogLevel::Trace => 5,
    }
}

/// A record is emitted only when the sink is not off and the record's level
/// does not rank above the configured level.
pub fn should_log(record: LogLevel, configured: LogLevel) -> (r: bool)
    ensures
        r == (level_rank(record) <= level_rank(configured) && !(configured is Off)),
{
    let off = match configured {
        LogLevel::Off => true,
        _ => false,
    };
    level_rank_exec(record) <= level_rank_exec(configured) && !off
}

/// Numeric rank of a level name, matched case-insensitively; an unknown name
/// ranks as informational.
pub open spec fn rank_of_name(s: Seq<char>) -> int {
    if ci_eq(s, "none"@) {
        0
    } else if ci_eq(s, "error"@) {
        1
    } else if ci_eq(s, "warn"@) {
        2
    } else if ci_eq(s, "info"@) {
        3
    } else if ci_eq(s, "debug"@) {
        4
    } else if ci_eq(s, "trace"@) {
        5
    } else {
        3
    }
}

/// Rank of a level name.
pub fn get_level_rank(level: &str) -> (r: u8)
    ensures
        r as int == rank_of_name(level@),
{
    if str_eq_ci(level, "none") {
        0
    } else if str_eq_ci(level, "error") {
        1
    } else if str_eq_ci(level, "warn") {
        2
    } else if str_eq_ci(level, "info") {
        3
    } else if str_eq_ci(level, "debug") {
        4
    } else if str_eq_ci(level, "trace") {
        5
    } else {
        3
    }
}

/// A record is written to a log only when its level does not rank above the
/// configured application level.
pub fn should_write_log(record_level: &str, app_log_level: &str) -> (r: bool)
    ensures
        r == (rank_of_name(record_level@) <= rank_of_name(app_log_level@)),
{
    get_level_rank(record_level) <= get_level_rank(app_log_level)
}

/// One log line: timestamp, bracketed level tag, message, newline.
pub fn format_log_line(timestamp: &str, level_tag: &str, msg: &str) -> (r: String)
    ensures
        r@ == timestamp@ + " ["@ + level_tag@ + "] "@ + msg@ + "\n"@,
{
    let mut r = timestamp.to_owned();
    r.append(" [");
    r.append(level_tag);
    r.append("] ");
    r.append(msg);
    r.append("\n");
    proof {
        assert(r@ =~= timestamp@ + " ["@ + level_tag@ + "] "@ + msg@ + "\n"@);
    }
    r
}

/// Relies on `chrono::Local::now` and `chrono::DateTime::format`: the current
/// local time rendered for a log line. The result depends on the clock, so
/// nothing is promised of it.
#[verifier::external_body]
pub fn local_timestamp() -> String {
    chrono::Local::now().format("%Y-%m-%d %H:%M:%S").to_string()
}

} // verus!
