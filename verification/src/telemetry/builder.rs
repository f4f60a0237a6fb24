//! Configuration of the telemetry stack: where log lines go, how log files
//! rotate, and which span reporter is installed.

use vstd::prelude::*;
use crate::text::{owned, str_eq};
use crate::telemetry::level::LevelFilter;

verus! {

// ── Rotation ───────────────────────────────────────────────────────────────

/// How often a log or trace file is replaced by a new one.
#[derive(Clone, Copy, Debug, PartialEq, Eq, Structural)]
pub enum Rotation {
    Never,
    Minutely,
    Hourly,
    Daily,
    Weekly,
}

/// The rotation named by a word: `never`, `hourly`, `daily`, `weekly`;
/// anything else is `Daily`.
pub open spec fn rotation_from_name(s: Seq<char>) -> Rotation {
    if s == "daily"@ {
        Rotation::Daily
    } else if s == "hourly"@ {
        Rotation::Hourly
    } else if s == "weekly"@ {
        Rotation::Weekly
    } else if s == "never"@ {
        Rotation::Never
    } else {
        Rotation::Daily
    }
}

/// The rotation named by a word in the application's `LOG_ROTATION` setting:
/// `daily`, `minutely`, `never`; anything else is `Hourly`.
pub open spec fn app_rotation_from_name(s: Seq<char>) -> Rotation {
    if s == "daily"@ {
        Rotation::Daily
    } else if s == "minutely"@ {
        Rotation::Minutely
    } else if s == "never"@ {
        Rotation::Never
    } else {
        Rotation::Hourly
    }
}

/// The lower-case word `Rotation::parse` reads for a rotation.
pub open spec fn rotation_word(r: Rotation) -> Seq<char> {
    match r {
        Rotation::Never => "never"@,
        Rotation::Minutely => "minutely"@,
        Rotation::Hourly => "hourly"@,
        Rotation::Daily => "daily"@,
        Rotation::Weekly => "weekly"@,
    }
}

impl Rotation {
    /// Parse from a lower-case word: `never`, `hourly`, `daily`, `weekly`.
    /// Falls back to `Daily` for unknown input.
    pub fn parse(s: &str) -> (r: Rotation)
        ensures
            r == rotation_from_name(s@),
    {
        if str_eq(s, "daily") {
            Rotation::Daily
        } else if str_eq(s, "hourly") {
            Rotation::Hourly
        } else if str_eq(s, "weekly") {
            Rotation::Weekly
        } else if str_eq(s, "never") {
            Rotation::Never
        } else {
            Rotation::Daily
        }
    }
}

/// Parse the application's rotation setting: `daily`, `minutely`, `never`;
/// anything else (`hourly` included) is `Hourly`.
pub fn parse_rotation(s: &str) -> (r: Rotation)
    ensures
        r == app_rotation_from_name(s@),
{
    if str_eq(s, "daily") {
        Rotation::Daily
    } else if str_eq(s, "minutely") {
        Rotation::Minutely
    } else if str_eq(s, "never") {
        Rotation::Never
    } else {
        Rotation::Hourly
    }
}

/// `Rotation::parse` reads back the word of every rotation it knows.
pub proof fn lemma_parse_reads_words(r: Rotation)
    requires
        r != Rotation::Minutely,
    ensures
        rotation_from_name(rotation_word(r)) == r,
{
    reveal_strlit("never");
    reveal_strlit("hourly");
    reveal_strlit("daily");
    reveal_strlit("weekly");
    assert("never"@[0] != "daily"@[0]);
    assert("weekly"@[0] != "hourly"@[0]);
}

/// `parse_rotation` reads back the word of every rotation it knows.
pub proof fn lemma_parse_rotation_reads_words(r: Rotation)
    requires
        r != Rotation::Weekly,
    ensures
        app_rotation_from_name(rotation_word(r)) == r,
{
    reveal_strlit("never");
    reveal_strlit("minutely");
    reveal_strlit("hourly");
    reveal_strlit("daily");
    assert("never"@[0] != "daily"@[0]);
    assert("hourly"@.len() != "daily"@.len());
    assert("minutely"@.len() != "daily"@.len());
}

// ── Log output configuration ───────────────────────────────────────────────

/// A single log output destination.
#[derive(Debug)]
pub enum LogOutput {
    /// Write JSON log lines to stderr.
    StdErr,
    /// Write JSON log lines to a rotated file in `dir`.
    File { dir: String, prefix: String, suffix: String, rotation: Rotation },
}

/// Where a rotated file lives and how it is named.
#[derive(Debug)]
pub struct FileConfig {
    pub dir: String,
    pub prefix: String,
    pub suffix: String,
    pub rotation: Rotation,
}

/// The model of a file destination: its texts and rotation.
pub struct FileSpec {
    pub dir: Seq<char>,
    pub prefix: Seq<char>,
    pub suffix: Seq<char>,
    pub rotation: Rotation,
}

/// The model of a log output.
pub enum OutputSpec {
    StdErr,
    File(FileSpec),
}

impl View for FileConfig {
    type V = FileSpec;

    open spec fn view(&self) -> FileSpec {
        FileSpec { dir: self.dir@, prefix: self.prefix@, suffix: self.suffix@, rotation: self.rotation }
    }
}

impl View for LogOutput {
    type V = OutputSpec;

    open spec fn view(&self) -> OutputSpec {
        match self {
            LogOutput::StdErr => OutputSpec::StdErr,
            LogOutput::File { dir, prefix, suffix, rotation } => OutputSpec::File(
                FileSpec { dir: dir@, prefix: prefix@, suffix: suffix@, rotation: *rotation },
            ),
        }
    }
}

pub open spec fn outputs_view(outs: Seq<LogOutput>) -> Seq<OutputSpec> {
    outs.map_values(|o: LogOutput| o@)
}

/// The first file destination among `outs`, if any.
pub open spec fn first_file(outs: Seq<OutputSpec>) -> Option<FileSpec>
    decreases outs.len(),
{
    if outs.len() == 0 {
        None
    } else {
        match outs[0] {
            OutputSpec::File(f) => Some(f),
            OutputSpec::StdErr => first_file(outs.drop_first()),
        }
    }
}

pub open spec fn has_stderr(outs: Seq<OutputSpec>) -> bool {
    exists|i: int| 0 <= i < outs.len() && outs[i] is StdErr
}

// ── Tracing reporter configuration ─────────────────────────────────────────

/// Which span reporter to install, if any.
#[derive(Debug)]
pub enum TracingReporter {
    /// No reporter: spans are collected and silently evicted.
    NoReporter,
    /// Print span traces to stdout.
    Console,
    /// Write span traces to rotated JSONL files.
    File { dir: String, prefix: String, suffix: String, rotation: Rotation },
    /// Export via OTLP HTTP under the given service name.
    Otel { service_name: String },
}

/// The model of a reporter choice.
pub enum ReporterSpec {
    NoReporter,
    Console,
    File(FileSpec),
    Otel(Seq<char>),
}

impl View for TracingReporter {
    type V = ReporterSpec;

    open spec fn view(&self) -> ReporterSpec {
        match self {
            TracingReporter::NoReporter => ReporterSpec::NoReporter,
            TracingReporter::Console => ReporterSpec::Console,
            TracingReporter::File { dir, prefix, suffix, rotation } => ReporterSpec::File(
                FileSpec { dir: dir@, prefix: prefix@, suffix: suffix@, rotation: *rotation },
            ),
            TracingReporter::Otel { service_name } => ReporterSpec::Otel(service_name@),
        }
    }
}

// ── What `init` installs ───────────────────────────────────────────────────

/// The logger to install: its level, whether lines also go to stderr, and
/// the file they go to, if any.
#[derive(Debug)]
pub struct LoggerConfig {
    pub log_level: LevelFilter,
    pub emit_console: bool,
    pub file: Option<FileConfig>,
}

/// The span reporter to install.
#[derive(Debug)]
pub enum TracerSetup {
    Nothing,
    Console,
    File(FileConfig),
    Otel(String),
}

// ── Installing the logger once ─────────────────────────────────────────────

/// What one call of the logger installation does: whether the logger is
/// installed afterwards, and whether this call installs it.
#[derive(Clone, Copy, Debug, PartialEq, Eq, Structural)]
pub struct InstallStep {
    pub installed: bool,
    pub install_now: bool,
}

/// The step of a call made when the logger is (or is not yet) installed:
/// it installs only the first time, and the logger stays installed.
pub open spec fn install_step(installed: bool) -> InstallStep {
    InstallStep { installed: true, install_now: !installed }
}

/// Whether the logger is installed after `calls` calls, starting from `installed`.
pub open spec fn installed_after(installed: bool, calls: nat) -> bool
    decreases calls,
{
    if calls == 0 {
        installed
    } else {
        install_step(installed_after(installed, (calls - 1) as nat)).installed
    }
}

/// The step of one call of the logger installation, given whether a
/// previous call installed it.
pub fn logger_install_step(installed: bool) -> (r: InstallStep)
    ensures
        r == install_step(installed),
{
    InstallStep { installed: true, install_now: !installed }
}

proof fn lemma_installed_after_first(calls: nat)
    ensures
        installed_after(false, calls) == (calls > 0),
    decreases calls,
{
    if calls > 0 {
        lemma_installed_after_first((calls - 1) as nat);
    }
}

/// The logger is installed once per process: of any run of calls that
/// starts before it is installed, the first call installs it and every
/// later call does nothing.
pub proof fn lemma_install_once(calls: nat)
    ensures
        forall|i: nat| i < calls ==> (#[trigger] install_step(installed_after(false, i)).install_now <==> i == 0),
{
    assert forall|i: nat| i < calls implies (#[trigger] install_step(installed_after(false, i)).install_now <==> i == 0) by {
        lemma_installed_after_first(i);
    }
}

// ── TelemetryBuilder ───────────────────────────────────────────────────────

/// Builder for the telemetry stack (logger + tracer). The sampling rate,
/// a floating-point setting, is kept by the application around it.
#[derive(Debug)]
pub struct TelemetryBuilder {
    pub log_level: LevelFilter,
    pub log_outputs: Vec<LogOutput>,
    pub tracing_enabled: bool,
    pub tracing_reporter: TracingReporter,
}

fn clone_rotation(r: &Rotation) -> (c: Rotation)
    ensures
        c == *r,
{
    *r
}

fn clone_file_config(dir: &String, prefix: &String, suffix: &String, rotation: &Rotation) -> (f: FileConfig)
    ensures
        f@ == (FileSpec { dir: dir@, prefix: prefix@, suffix: suffix@, rotation: *rotation }),
{
    FileConfig {
        dir: owned(dir.as_str()),
        prefix: owned(prefix.as_str()),
        suffix: owned(suffix.as_str()),
        rotation: clone_rotation(rotation),
    }
}

impl TelemetryBuilder {
    /// A builder with log level `Info`, no log outputs (stderr is used as the
    /// fallback), tracing disabled and no reporter.
    pub fn new() -> (b: Self)
        ensures
            b.log_level == LevelFilter::Info,
            b.log_outputs@.len() == 0,
            !b.tracing_enabled,
            b.tracing_reporter@ is NoReporter,
    {
        TelemetryBuilder {
            log_level: LevelFilter::Info,
            log_outputs: Vec::new(),
            tracing_enabled: false,
            tracing_reporter: TracingReporter::NoReporter,
        }
    }

    /// Set the maximum log level.
    pub fn log_level(self, level: LevelFilter) -> (b: Self)
        ensures
            b.log_level == level,
            b.log_outputs@ == self.log_outputs@,
            b.tracing_enabled == self.tracing_enabled,
            b.tracing_reporter == self.tracing_reporter,
    {
        let mut b = self;
        b.log_level = level;
        b
    }

    /// Add a log output destination. Can be called multiple times.
    pub fn log_output(self, output: LogOutput) -> (b: Self)
        ensures
            b.log_level == self.log_level,
            b.log_outputs@ == self.log_outputs@.push(output),
            b.tracing_enabled == self.tracing_enabled,
            b.tracing_reporter == self.tracing_reporter,
    {
        let mut b = self;
        b.log_outputs.push(output);
        b
    }

    /// Enable or disable span collection.
    pub fn tracing_enabled(self, enabled: bool) -> (b: Self)
        ensures
            b.log_level == self.log_level,
            b.log_outputs@ == self.log_outputs@,
            b.tracing_enabled == enabled,
            b.tracing_reporter == self.tracing_reporter,
    {
        let mut b = self;
        b.tracing_enabled = enabled;
        b
    }

    /// Set the tracing reporter.
    pub fn tracing_reporter(self, reporter: TracingReporter) -> (b: Self)
        ensures
            b.log_level == self.log_level,
            b.log_outputs@ == self.log_outputs@,
            b.tracing_enabled == self.tracing_enabled,
            b.tracing_reporter == reporter,
    {
        let mut b = self;
        b.tracing_reporter = reporter;
        b
    }

    /// Add a file log output `{dir}/rusttp_{slot}_log.jsonl` with daily rotation.
    pub fn with_log_file(self, dir: &str) -> (b: Self)
        ensures
            b.log_level == self.log_level,
            b.log_outputs@.len() == self.log_outputs@.len() + 1,
            b.log_outputs@.drop_last() == self.log_outputs@,
            b.log_outputs@.last()@ == OutputSpec::File(
                FileSpec { dir: dir@, prefix: "rusttp"@, suffix: "log"@, rotation: Rotation::Daily },
            ),
            b.tracing_enabled == self.tracing_enabled,
            b.tracing_reporter == self.tracing_reporter,
    {
        let mut b = self;
        b.log_outputs.push(
            LogOutput::File {
                dir: owned(dir),
                prefix: owned("rusttp"),
                suffix: owned("log"),
                rotation: Rotation::Daily,
            },
        );
        assert(b.log_outputs@.drop_last() =~= self.log_outputs@);
        b
    }

    /// Enable tracing with a file reporter `{dir}/rusttp_{slot}_trace.jsonl`
    /// with daily rotation.
    pub fn with_trace_file(self, dir: &str) -> (b: Self)
        ensures
            b.log_level == self.log_level,
            b.log_outputs@ == self.log_outputs@,
            b.tracing_enabled,
            b.tracing_reporter@ == ReporterSpec::File(
                FileSpec { dir: dir@, prefix: "rusttp"@, suffix: "trace"@, rotation: Rotation::Daily },
            ),
    {
        let mut b = self;
        b.tracing_enabled = true;
        b.tracing_reporter = TracingReporter::File {
            dir: owned(dir),
            prefix: owned("rusttp"),
            suffix: owned("trace"),
            rotation: Rotation::Daily,
        };
        b
    }

    /// Production defaults: `with_log_file("storage/logs")` then
    /// `with_trace_file("storage/traces")`.
    pub fn with_defaults(self) -> (b: Self)
        ensures
            b.log_level == self.log_level,
            b.log_outputs@.len() == self.log_outputs@.len() + 1,
            b.log_outputs@.drop_last() == self.log_outputs@,
            b.log_outputs@.last()@ == OutputSpec::File(
                FileSpec { dir: "storage/logs"@, prefix: "rusttp"@, suffix: "log"@, rotation: Rotation::Daily },
            ),
            b.tracing_enabled,
            b.tracing_reporter@ == ReporterSpec::File(
                FileSpec { dir: "storage/traces"@, prefix: "rusttp"@, suffix: "trace"@, rotation: Rotation::Daily },
            ),
    {
        self.with_log_file("storage/logs").with_trace_file("storage/traces")
    }

    /// The logger `init` installs: stderr is written when a `StdErr` output
    /// was added or when no file output was; the file is the first file
    /// output added.
    pub fn logger_config(&self) -> (c: LoggerConfig)
        ensures
            c.log_level == self.log_level,
            c.emit_console || c.file is Some,
            c.emit_console == (has_stderr(outputs_view(self.log_outputs@))
                || first_file(outputs_view(self.log_outputs@)) is None),
            match c.file {
                Some(f) => first_file(outputs_view(self.log_outputs@)) == Some(f@),
                None => first_file(outputs_view(self.log_outputs@)) is None,
            },
    {
        let ghost outs = outputs_view(self.log_outputs@);
        let n = self.log_outputs.len();
        let mut has_console = false;
        let mut file: Option<FileConfig> = None;
        let mut i: usize = 0;
        assert(outs.skip(0) =~= outs);
        while i < n
            invariant
                n == self.log_outputs@.len(),
                outs == outputs_view(self.log_outputs@),
                i <= n,
                has_console == exists|j: int| 0 <= j < i && outs[j] is StdErr,
                match file {
                    Some(f) => first_file(outs) == Some(f@)
                        && exists|j: int| 0 <= j < i && outs[j] is File,
                    None => first_file(outs) == first_file(outs.skip(i as int))
                        && forall|j: int| 0 <= j < i ==> !(outs[j] is File),
                },
            decreases n - i,
        {
            let ghost rest = outs.skip(i as int);
            assert(rest[0] == outs[i as int]);
            assert(rest.drop_first() =~= outs.skip(i + 1));
            match &self.log_outputs[i] {
                LogOutput::StdErr => {
                    has_console = true;
                },
                LogOutput::File { dir, prefix, suffix, rotation } => {
                    if file.is_none() {
                        file = Some(clone_file_config(dir, prefix, suffix, rotation));
                    }
                },
            }
            i = i + 1;
        }
        let has_file = file.is_some();
        proof {
            if !has_file {
                assert(outs.skip(n as int) =~= Seq::<OutputSpec>::empty());
            }
        }
        LoggerConfig { log_level: self.log_level, emit_console: has_console || !has_file, file }
    }

    /// The span reporter `init` installs: nothing unless tracing is enabled,
    /// else the configured reporter.
    pub fn tracer_setup(&self) -> (t: TracerSetup)
        ensures
            !self.tracing_enabled ==> t is Nothing,
            self.tracing_enabled ==> match self.tracing_reporter@ {
                ReporterSpec::NoReporter => t is Nothing,
                ReporterSpec::Console => t is Console,
                ReporterSpec::File(f) => t matches TracerSetup::File(c) && c@ == f,
                ReporterSpec::Otel(name) => t matches TracerSetup::Otel(s) && s@ == name,
            },
    {
        if !self.tracing_enabled {
            return TracerSetup::Nothing;
        }
        match &self.tracing_reporter {
            TracingReporter::NoReporter => TracerSetup::Nothing,
            TracingReporter::Console => TracerSetup::Console,
            TracingReporter::File { dir, prefix, suffix, rotation } => TracerSetup::File(
                clone_file_config(dir, prefix, suffix, rotation),
            ),
            TracingReporter::Otel { service_name } => TracerSetup::Otel(owned(service_name.as_str())),
        }
    }
}

impl Default for TelemetryBuilder {
    fn default() -> (b: Self)
        ensures
            b.log_level == LevelFilter::Info,
            b.log_outputs@.len() == 0,
            !b.tracing_enabled,
            b.tracing_reporter@ is NoReporter,
    {
        TelemetryBuilder::new()
    }
}

} // verus!
