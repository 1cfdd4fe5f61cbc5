//! The diagnostic log: levels, records, the layout of a line and the files
//! that each process writes to.

use vstd::prelude::*;
use vstd::string::*;
use crate::common::LOG_DIR;
use crate::text::{decimal, push_decimal};

verus! {

/// Severity of a log record, most severe first.
#[derive(Clone, Copy, PartialEq, Eq, Debug)]
pub enum Level {
    Error,
    Warn,
    Info,
    Debug,
    Trace,
}

impl Level {
    /// The upper-case name under which the level appears in a log line.
    pub open spec fn label_text(self) -> Seq<char> {
        match self {
            Level::Error => "ERROR"@,
            Level::Warn => "WARN"@,
            Level::Info => "INFO"@,
            Level::Debug => "DEBUG"@,
            Level::Trace => "TRACE"@,
        }
    }

    /// Whether records of this level reach the log files: `Info` and above do.
    pub open spec fn is_enabled(self) -> bool {
        self is Error || self is Warn || self is Info
    }

    pub fn label(self) -> (name: &'static str)
        ensures
            name@ == self.label_text(),
    {
        match self {
            Level::Error => "ERROR",
            Level::Warn => "WARN",
            Level::Info => "INFO",
            Level::Debug => "DEBUG",
            Level::Trace => "TRACE",
        }
    }

    pub fn enabled(self) -> (yes: bool)
        ensures
            yes == self.is_enabled(),
    {
        match self {
            Level::Error | Level::Warn | Level::Info => true,
            Level::Debug | Level::Trace => false,
        }
    }
}

/// One message for the diagnostic log.
#[derive(Clone, PartialEq, Eq, Debug)]
pub struct LogRecord {
    pub level: Level,
    pub text: String,
}

/// What a `LogRecord` says: its level and its text as a character sequence.
pub struct LogEntry {
    pub level: Level,
    pub text: Seq<char>,
}

impl View for LogRecord {
    type V = LogEntry;

    open spec fn view(&self) -> LogEntry {
        LogEntry { level: self.level, text: self.text@ }
    }
}

/// The entries of a list of records, in order.
pub open spec fn entries(records: Seq<LogRecord>) -> Seq<LogEntry> {
    records.map_values(|r: LogRecord| r@)
}

/// An `Info` entry with the given text.
pub open spec fn info_entry(text: Seq<char>) -> LogEntry {
    LogEntry { level: Level::Info, text }
}

/// An `Error` entry with the given text.
pub open spec fn error_entry(text: Seq<char>) -> LogEntry {
    LogEntry { level: Level::Error, text }
}

pub fn info(text: String) -> (record: LogRecord)
    ensures
        record@ == info_entry(text@),
{
    LogRecord { level: Level::Info, text }
}

pub fn error(text: String) -> (record: LogRecord)
    ensures
        record@ == error_entry(text@),
{
    LogRecord { level: Level::Error, text }
}

/// A log line: `[<stamp> <LEVEL> <target>] <message>`.
pub open spec fn line_layout(
    stamp: Seq<char>,
    level: Level,
    target: Seq<char>,
    message: Seq<char>,
) -> Seq<char> {
    "["@ + stamp + " "@ + level.label_text() + " "@ + target + "] "@ + message
}

/// Lays out one log line from its four parts.
pub fn format_record(stamp: &str, level: Level, target: &str, message: &str) -> (line: String)
    ensures
        line@ == line_layout(stamp@, level, target@, message@),
{
    let mut line = String::from_str("[");
    line.append(stamp);
    line.append(" ");
    line.append(level.label());
    line.append(" ");
    line.append(target);
    line.append("] ");
    line.append(message);
    line
}

/// The `strftime` pattern of the time stamp that opens each log line.
pub const TIMESTAMP_PATTERN: &'static str = "%Y-%m-%d %H:%M:%S";

/// Calls `chrono::Local::now()` and renders the result with
/// `DateTime::format`. The text depends on the clock and on the machine's time
/// zone, so nothing is claimed of it. `requires` admits only the pattern that
/// the library uses: with a malformed pattern the rendering panics.
#[verifier::external_body]
fn local_time_text(pattern: &str) -> (stamp: String)
    requires
        pattern@ == TIMESTAMP_PATTERN@,
{
    chrono::Local::now().format(pattern).to_string()
}

/// Lays out a log line stamped with the current local time.
pub fn log_line(level: Level, target: &str, message: &str) -> (line: String)
    ensures
        exists|stamp: Seq<char>| line@ == line_layout(stamp, level, target@, message@),
{
    let stamp = local_time_text(TIMESTAMP_PATTERN);
    format_record(stamp.as_str(), level, target, message)
}

/// Path of the controller's log file.
pub open spec fn controller_log_path_text() -> Seq<char> {
    LOG_DIR@ + "/controller.log"@
}

/// Path of the log file of the worker with process identity `pid`.
pub open spec fn worker_log_path_text(pid: u32) -> Seq<char> {
    LOG_DIR@ + "/worker_"@ + decimal(pid as nat) + ".log"@
}

pub fn controller_log_path() -> (path: String)
    ensures
        path@ == controller_log_path_text(),
{
    let mut path = String::from_str(LOG_DIR);
    path.append("/controller.log");
    path
}

pub fn worker_log_path(pid: u32) -> (path: String)
    ensures
        path@ == worker_log_path_text(pid),
{
    let mut path = String::from_str(LOG_DIR);
    path.append("/worker_");
    push_decimal(&mut path, pid);
    path.append(".log");
    path
}

} // verus!
