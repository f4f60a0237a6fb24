//! The command line: its commands, what each one runs, and the settings
//! the application starts with.

use vstd::prelude::*;
use crate::server::ServerConfig;
use crate::text::{owned, str_eq};
use crate::telemetry::builder::{parse_rotation, app_rotation_from_name};
use crate::telemetry::file_writer::{RollingFileWriter, NamingScheme};

verus! {

/// The parsed command line.
#[derive(Debug)]
pub struct Cli {
    /// Env file to load; it overrides system environment variables.
    pub env_file: Option<String>,
    pub command: Option<Commands>,
}

/// The subcommands.
#[derive(Debug)]
pub enum Commands {
    /// Start the web server (alias `s`).
    Serve { host: String, port: u16 },
    /// Check server health (alias `hc`).
    Health,
}

/// What a command line runs.
#[derive(Debug)]
pub enum Dispatch {
    /// Print the help text; exit code 0.
    ShowHelp,
    /// Run the server until it is shut down.
    Serve(ServerConfig),
    /// Run the health check.
    Health,
}

/// What `cli` runs: the help text without a subcommand, else the subcommand.
pub fn plan_dispatch(cli: &Cli) -> (d: Dispatch)
    ensures
        cli.command is None ==> d is ShowHelp,
        cli.command matches Some(Commands::Health) ==> d is Health,
        cli.command matches Some(Commands::Serve { host, port }) ==> (d matches Dispatch::Serve(c)
            && c.host@ == host@ && c.port == port),
{
    match &cli.command {
        None => Dispatch::ShowHelp,
        Some(Commands::Serve { host, port }) => Dispatch::Serve(ServerConfig::new(host.as_str(), *port)),
        Some(Commands::Health) => Dispatch::Health,
    }
}

/// The exit code of the health check (not implemented yet; it succeeds).
pub fn health_exit_code() -> (c: i32)
    ensures
        c == 0,
{
    0
}

/// The exit code of a dispatch that finished without error: showing the
/// help text ends with 0, the health check with its own code (0), and a
/// server that shut down cleanly with 0.
pub fn finished_exit_code(d: &Dispatch) -> (c: i32)
    ensures
        d is ShowHelp ==> c == 0,
        d is Health ==> c == 0,
        d is Serve ==> c == 0,
{
    match d {
        Dispatch::ShowHelp => 0,
        Dispatch::Serve(_) => 0,
        Dispatch::Health => health_exit_code(),
    }
}

/// The span reporter named by the `TRACING_REPORTER` setting.
#[derive(Clone, Copy, Debug, PartialEq, Eq, Structural)]
pub enum ReporterChoice {
    Console,
    File,
    Otel,
    /// Spans are collected and silently evicted.
    NoReporter,
}

pub open spec fn reporter_from_setting(s: Seq<char>) -> ReporterChoice {
    if s == "console"@ {
        ReporterChoice::Console
    } else if s == "file"@ {
        ReporterChoice::File
    } else if s == "otel"@ {
        ReporterChoice::Otel
    } else {
        ReporterChoice::NoReporter
    }
}

/// The reporter for a `TRACING_REPORTER` value (empty when unset).
pub fn reporter_choice(setting: &str) -> (r: ReporterChoice)
    ensures
        r == reporter_from_setting(setting@),
{
    if str_eq(setting, "console") {
        ReporterChoice::Console
    } else if str_eq(setting, "file") {
        ReporterChoice::File
    } else if str_eq(setting, "otel") {
        ReporterChoice::Otel
    } else {
        ReporterChoice::NoReporter
    }
}

/// Tracing is enabled when `TRACING_ENABLE` is exactly `true`.
pub fn tracing_enabled(setting: Option<&str>) -> (r: bool)
    ensures
        r == (setting matches Some(s) && s@ == "true"@),
{
    match setting {
        Some(s) => str_eq(s, "true"),
        None => false,
    }
}

/// The service name exported to OpenTelemetry: `OTEL_SERVICE_NAME`, else `rusttp`.
pub fn otel_service_name(setting: Option<&str>) -> (r: String)
    ensures
        setting matches Some(s) ==> r@ == s@,
        setting is None ==> r@ == "rusttp"@,
{
    match setting {
        Some(s) => owned(s),
        None => owned("rusttp"),
    }
}

/// The rotation named by `LOG_ROTATION`, `hourly` when unset.
pub fn log_rotation(setting: Option<&str>) -> (r: crate::telemetry::builder::Rotation)
    ensures
        r == app_rotation_from_name(match setting { Some(s) => s@, None => "hourly"@ }),
{
    match setting {
        Some(s) => parse_rotation(s),
        None => {
            let hourly = owned("hourly");
            parse_rotation(hourly.as_str())
        },
    }
}

/// The writer of the trace file reporter: `storage/traces/rusttp_{slot}_trace.jsonl`.
pub fn trace_file_writer(rotation: crate::telemetry::builder::Rotation) -> (w: RollingFileWriter)
    ensures
        w.dir@ == "storage/traces"@,
        w.prefix@ == "rusttp"@,
        w.suffix@ == "trace"@,
        w.rotation == rotation,
        w.scheme == NamingScheme::Compact,
        w.slot is None,
        w.write_count == 0,
{
    RollingFileWriter::new("storage/traces", "rusttp", "trace", rotation)
}

/// The writer of the log file: `storage/logs/rusttp_{slot}_log.jsonl`.
pub fn log_file_writer(rotation: crate::telemetry::builder::Rotation) -> (w: RollingFileWriter)
    ensures
        w.dir@ == "storage/logs"@,
        w.prefix@ == "rusttp"@,
        w.suffix@ == "log"@,
        w.rotation == rotation,
        w.scheme == NamingScheme::Compact,
        w.slot is None,
        w.write_count == 0,
{
    RollingFileWriter::new("storage/logs", "rusttp", "log", rotation)
}

/// How a run of the application ended.
#[derive(Clone, Copy, Debug, PartialEq, Eq, Structural)]
pub enum RunOutcome {
    /// The command line did not parse (help and version requests included).
    ParseFailed,
    /// The command returned an error.
    CommandFailed,
    /// The command finished with this exit code.
    Finished(i32),
}

/// The process exit code: 2 when the command line did not parse, 1 when
/// the command failed, else the command's own code.
pub fn exit_code(outcome: RunOutcome) -> (c: i32)
    ensures
        outcome is ParseFailed ==> c == 2,
        outcome is CommandFailed ==> c == 1,
        outcome matches RunOutcome::Finished(code) ==> c == code,
{
    match outcome {
        RunOutcome::ParseFailed => 2,
        RunOutcome::CommandFailed => 1,
        RunOutcome::Finished(code) => code,
    }
}

} // verus!
