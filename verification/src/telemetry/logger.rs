//! The JSON logger front end: it filters records by level and hands the
//! formatted lines to a background writer through a bounded channel.

use vstd::prelude::*;
use std::sync::mpsc::{Receiver, Sender, SyncSender};
use crate::text::{owned, str_eq};
use crate::telemetry::builder::{Rotation, parse_rotation, app_rotation_from_name};
use crate::telemetry::level::{Level, LevelFilter, level_name, filter_from_word, unicode_lowercase, chosen_level_setting};

verus! {

#[verifier::external_type_specification]
#[verifier::external_body]
#[verifier::reject_recursive_types(T)]
pub struct ExSyncSender<T>(SyncSender<T>);

#[verifier::external_type_specification]
#[verifier::external_body]
#[verifier::reject_recursive_types(T)]
pub struct ExSender<T>(Sender<T>);

#[verifier::external_type_specification]
#[verifier::external_body]
#[verifier::reject_recursive_types(T)]
pub struct ExReceiver<T>(Receiver<T>);

/// A message to the background writer.
#[derive(Debug)]
pub enum LogMsg {
    /// One formatted log line, newline included.
    Line(String),
    /// Flush every output, then acknowledge on the sender.
    Flush(Sender<()>),
}

/// The bound a log channel was made with: how many messages its sending
/// end can hold before a send blocks (`try_send` fails).
pub uninterp spec fn channel_capacity(tx: SyncSender<LogMsg>) -> usize;

/// Whether `rx` is the receiving end of the channel whose sending end is `tx`.
pub uninterp spec fn same_channel(tx: SyncSender<LogMsg>, rx: Receiver<LogMsg>) -> bool;

/// `std::sync::mpsc::sync_channel`: a new channel whose buffer holds at
/// most `capacity` messages, as its two ends. What later sends and
/// receives do is not stated.
#[verifier::external_body]
fn sync_channel(capacity: usize) -> (r: (SyncSender<LogMsg>, Receiver<LogMsg>))
    ensures
        channel_capacity(r.0) == capacity,
        same_channel(r.0, r.1),
{
    std::sync::mpsc::sync_channel(capacity)
}

/// Logger that formats records as JSON and pushes them to a background writer.
#[derive(Debug)]
pub struct JsonLogger {
    tx: SyncSender<LogMsg>,
    level: LevelFilter,
}

impl JsonLogger {
    pub closed spec fn level_spec(&self) -> LevelFilter {
        self.level
    }

    /// The sending end of the writer channel this logger was made with.
    pub closed spec fn sender_spec(&self) -> SyncSender<LogMsg> {
        self.tx
    }

    pub fn new(tx: SyncSender<LogMsg>, level: LevelFilter) -> (l: Self)
        ensures
            l.level_spec() == level,
            l.sender_spec() == tx,
    {
        JsonLogger { tx, level }
    }

    /// The maximum level this logger lets through.
    pub fn level(&self) -> (r: LevelFilter)
        ensures
            r == self.level_spec(),
    {
        self.level
    }

    /// The sending end of the writer channel.
    pub fn sender(&self) -> (r: &SyncSender<LogMsg>)
        ensures
            *r == self.sender_spec(),
    {
        &self.tx
    }

    /// A new channel for log messages that holds at most `capacity` of them:
    /// its sending end and its receiving end.
    pub fn create_channel(capacity: usize) -> (r: (SyncSender<LogMsg>, Receiver<LogMsg>))
        ensures
            channel_capacity(r.0) == capacity,
            same_channel(r.0, r.1),
    {
        sync_channel(capacity)
    }

    /// Whether a record at `level` is logged: `level <= self.level()`.
    pub fn enabled(&self, level: Level) -> (r: bool)
        ensures
            r == level.allowed_by(self.level_spec()),
    {
        self.level.allows(level)
    }

    /// The entry for a record, or `None` when its level is filtered out.
    pub fn entry(&self, timestamp: String, level: Level, target: &str, message: String) -> (r: Option<LogEntry>)
        ensures
            !level.allowed_by(self.level_spec()) ==> r is None,
            level.allowed_by(self.level_spec()) ==> (r matches Some(e) && e.timestamp@ == timestamp@
                && e.level@ == level_name(level) && e.target@ == target@ && e.message@ == message@),
    {
        if !self.enabled(level) {
            return None;
        }
        Some(LogEntry::new(timestamp, level, target, message))
    }
}

/// One log record as written: the fields of its JSON object.
#[derive(Debug)]
pub struct LogEntry {
    pub timestamp: String,
    pub level: String,
    pub target: String,
    pub message: String,
}

impl LogEntry {
    pub fn new(timestamp: String, level: Level, target: &str, message: String) -> (e: Self)
        ensures
            e.timestamp@ == timestamp@,
            e.level@ == level_name(level),
            e.target@ == target@,
            e.message@ == message@,
    {
        LogEntry { timestamp, level: owned(level.as_str()), target: owned(target), message }
    }
}

/// The capacity of the application's log channel.
pub const LOG_CHANNEL_CAPACITY: usize = 65536;

/// The application's logger, for the given `LOG_LEVEL` and `RUST_LOG`
/// settings, with the receiving end its writer drains: the logger sends on
/// a new channel of `LOG_CHANNEL_CAPACITY` messages, whose receiving end is
/// returned beside it.
pub fn init_channel_logger(log_level: Option<&str>, rust_log: Option<&str>) -> (r: (JsonLogger, Receiver<LogMsg>))
    ensures
        channel_capacity(r.0.sender_spec()) == LOG_CHANNEL_CAPACITY,
        same_channel(r.0.sender_spec(), r.1),
        r.0.level_spec() == filter_from_word(unicode_lowercase(chosen_level_setting(
            match log_level { Some(v) => Some(v@), None => None },
            match rust_log { Some(v) => Some(v@), None => None },
        ))),
{
    let level = LevelFilter::from_settings(log_level, rust_log);
    let (tx, rx) = JsonLogger::create_channel(LOG_CHANNEL_CAPACITY);
    (JsonLogger::new(tx, level), rx)
}

// ── Where the background writer sends lines ────────────────────────────────

/// The outputs a writer thread writes every line to.
#[derive(Clone, Copy, Debug, PartialEq, Eq, Structural)]
pub struct WriterTargets {
    pub file: bool,
    pub console: bool,
}

/// The outputs of a writer with or without a file and with console output
/// requested or not: stderr is used whenever there is no file.
pub fn writer_targets(has_file: bool, emit_console: bool) -> (t: WriterTargets)
    ensures
        t.file == has_file,
        t.console == (emit_console || !has_file),
        t.file || t.console,
{
    let mut t = WriterTargets { file: has_file, console: emit_console };
    if !has_file && !emit_console {
        t.console = true;
    }
    t
}

/// The outputs of the application's writer thread.
#[derive(Clone, Copy, Debug, PartialEq, Eq, Structural)]
pub struct WriterPlan {
    /// The rotation of `storage/logs/rusttp_{slot}_log.jsonl`, when lines go to a file.
    pub file: Option<Rotation>,
    pub console: bool,
}

pub open spec fn console_setting_on(v: Option<Seq<char>>) -> bool {
    match v {
        Some(s) => s == "true"@ || s == "1"@,
        None => true,
    }
}

/// `LOG_CONSOLE` turns stderr output on when unset or exactly `true` or
/// `1`, and off for every other value.
pub proof fn lemma_console_setting_words(s: Seq<char>)
    ensures
        console_setting_on(None),
        (s == "true"@ || s == "1"@) ==> console_setting_on(Some(s)),
        (s != "true"@ && s != "1"@) ==> !console_setting_on(Some(s)),
{
}

/// The writer outputs for the `LOG_CONSOLE`, `LOG_TRANSPORT` and
/// `LOG_ROTATION` settings (`None` where unset): a file when the transport
/// is `file`, rotated as `LOG_ROTATION` says (`hourly` by default); stderr
/// when `LOG_CONSOLE` is unset, `true` or `1`, or when there is no file.
pub fn writer_plan(log_console: Option<&str>, log_transport: Option<&str>, log_rotation: Option<&str>) -> (p: WriterPlan)
    ensures
        ({
            let file_enabled = match log_transport { Some(t) => t@ == "file"@, None => false };
            let console_on = console_setting_on(match log_console { Some(c) => Some(c@), None => None });
            &&& p.console == (console_on || !file_enabled)
            &&& file_enabled ==> p.file == Some(app_rotation_from_name(
                match log_rotation { Some(r) => r@, None => "hourly"@ }))
            &&& !file_enabled ==> p.file is None
        }),
        p.file is Some || p.console,
        log_console is None ==> p.console,
        (log_console matches Some(c) && (c@ == "true"@ || c@ == "1"@)) ==> p.console,
        (log_transport matches Some(t) && t@ == "file"@) ==> ((log_console matches Some(c)
            && c@ != "true"@ && c@ != "1"@) ==> !p.console),
        !(log_transport matches Some(t) && t@ == "file"@) ==> p.console && p.file is None,
{
    let console_enabled = match log_console {
        Some(v) => str_eq(v, "true") || str_eq(v, "1"),
        None => true,
    };
    let file_enabled = match log_transport {
        Some(t) => str_eq(t, "file"),
        None => false,
    };
    let emit_console = console_enabled || !file_enabled;
    let hourly = owned("hourly");
    let rotation = match log_rotation {
        Some(r) => parse_rotation(r),
        None => parse_rotation(hourly.as_str()),
    };
    let targets = writer_targets(file_enabled, emit_console);
    WriterPlan { file: if targets.file { Some(rotation) } else { None }, console: targets.console }
}

} // verus!
