use rusttp::telemetry::builder::{LogOutput, Rotation, TelemetryBuilder, TracerSetup, TracingReporter};
use rusttp::telemetry::file_writer::{LocalDateTime, NamingScheme, RollingFileWriter, WriteStep};
use rusttp::telemetry::level::{Level, LevelFilter};
use rusttp::telemetry::logger::{init_channel_logger, writer_plan, writer_targets, JsonLogger, WriterTargets};

fn tmp_dir() -> String {
    String::from("/tmp/rusttp-builder")
}

fn dt() -> LocalDateTime {
    LocalDateTime { year: 2026, month: 7, day: 12, hour: 20, minute: 38, iso_year: 2026, iso_week: 28 }
}

// ── builder ───────────────────────────────────────────────────────────────

#[test]
fn builder_new_returns_telemetry_builder() {
    let _b: TelemetryBuilder = TelemetryBuilder::new();
}

#[test]
fn builder_config_builder_log_level_chainable() {
    let _b = TelemetryBuilder::new().log_level(LevelFilter::Debug);
}

#[test]
fn builder_config_builder_log_output_stderr_chainable() {
    let _b = TelemetryBuilder::new().log_output(LogOutput::StdErr);
}

#[test]
fn builder_config_builder_log_output_file_chainable() {
    let _b = TelemetryBuilder::new().log_output(LogOutput::File {
        dir: tmp_dir(),
        prefix: "test".into(),
        suffix: "log".into(),
        rotation: Rotation::Hourly,
    });
}

#[test]
fn builder_config_builder_multiple_outputs() {
    let dir = tmp_dir();
    let b = TelemetryBuilder::new().log_output(LogOutput::StdErr).log_output(LogOutput::File {
        dir: dir.clone(),
        prefix: "test".into(),
        suffix: "log".into(),
        rotation: Rotation::Daily,
    });
    assert_eq!(b.log_outputs.len(), 2);
}

#[test]
fn builder_config_builder_tracing_enabled_chainable() {
    let _b = TelemetryBuilder::new().tracing_enabled(true);
}

#[test]
fn builder_config_builder_tracing_disabled_chainable() {
    let _b = TelemetryBuilder::new().tracing_enabled(false);
}

#[test]
fn builder_config_builder_reporter_none() {
    let _b = TelemetryBuilder::new().tracing_reporter(TracingReporter::NoReporter);
}

#[test]
fn builder_config_builder_reporter_console() {
    let _b = TelemetryBuilder::new().tracing_reporter(TracingReporter::Console);
}

#[test]
fn builder_config_builder_reporter_file() {
    let _b = TelemetryBuilder::new().tracing_reporter(TracingReporter::File {
        dir: tmp_dir(),
        prefix: "test".into(),
        suffix: "trace".into(),
        rotation: Rotation::Hourly,
    });
}

#[test]
fn builder_config_builder_reporter_otel() {
    let _b = TelemetryBuilder::new().tracing_reporter(TracingReporter::Otel { service_name: "my-app".into() });
}

#[test]
fn builder_config_builder_default_compiles() {
    let _b: TelemetryBuilder = Default::default();
}

#[test]
fn builder_defaults() {
    let b = TelemetryBuilder::new();
    assert_eq!(b.log_level, LevelFilter::Info);
    assert!(b.log_outputs.is_empty());
    assert!(!b.tracing_enabled);
    assert!(matches!(b.tracing_reporter, TracingReporter::NoReporter));
}

#[test]
fn builder_log_level() {
    let b = TelemetryBuilder::new().log_level(LevelFilter::Debug);
    assert_eq!(b.log_level, LevelFilter::Debug);
}

#[test]
fn builder_log_output() {
    let b = TelemetryBuilder::new().log_output(LogOutput::StdErr).log_output(LogOutput::File {
        dir: "/tmp".into(),
        prefix: "test".into(),
        suffix: "log".into(),
        rotation: Rotation::Hourly,
    });
    assert_eq!(b.log_outputs.len(), 2);
}

#[test]
fn builder_tracing_enabled() {
    let b = TelemetryBuilder::new().tracing_enabled(true);
    assert!(b.tracing_enabled);
}

#[test]
fn builder_tracing_reporter() {
    let b = TelemetryBuilder::new().tracing_reporter(TracingReporter::Console);
    assert!(matches!(b.tracing_reporter, TracingReporter::Console));
}

#[test]
fn builder_default_impl() {
    let b: TelemetryBuilder = Default::default();
    assert!(!b.tracing_enabled);
}

#[test]
fn builder_with_defaults_adds_log_file_and_trace_file() {
    let b = TelemetryBuilder::new().with_defaults();
    assert_eq!(b.log_outputs.len(), 1);
    match &b.log_outputs[0] {
        LogOutput::File { dir, prefix, suffix, rotation } => {
            assert_eq!(dir, "storage/logs");
            assert_eq!(prefix, "rusttp");
            assert_eq!(suffix, "log");
            assert_eq!(*rotation, Rotation::Daily);
        }
        LogOutput::StdErr => panic!("expected a file output"),
    }
    assert!(b.tracing_enabled);
    match &b.tracing_reporter {
        TracingReporter::File { dir, prefix, suffix, rotation } => {
            assert_eq!(dir, "storage/traces");
            assert_eq!(prefix, "rusttp");
            assert_eq!(suffix, "trace");
            assert_eq!(*rotation, Rotation::Daily);
        }
        _ => panic!("expected a file reporter"),
    }
}

#[test]
fn logger_config_falls_back_to_console_without_outputs() {
    let c = TelemetryBuilder::new().logger_config();
    assert!(c.emit_console);
    assert!(c.file.is_none());
    assert_eq!(c.log_level, LevelFilter::Info);
}

#[test]
fn logger_config_file_only_has_no_console() {
    let c = TelemetryBuilder::new().with_log_file("logs").logger_config();
    assert!(!c.emit_console);
    let f = c.file.expect("file output");
    assert_eq!(f.dir, "logs");
    assert_eq!(f.prefix, "rusttp");
}

#[test]
fn logger_config_takes_first_file_and_console() {
    let c = TelemetryBuilder::new()
        .with_log_file("first")
        .log_output(LogOutput::StdErr)
        .with_log_file("second")
        .logger_config();
    assert!(c.emit_console);
    assert_eq!(c.file.expect("file output").dir, "first");
}

#[test]
fn tracer_setup_needs_tracing_enabled() {
    let b = TelemetryBuilder::new().tracing_reporter(TracingReporter::Console);
    assert!(matches!(b.tracer_setup(), TracerSetup::Nothing));
    let b = b.tracing_enabled(true);
    assert!(matches!(b.tracer_setup(), TracerSetup::Console));
    let b = TelemetryBuilder::new().with_trace_file("traces");
    match b.tracer_setup() {
        TracerSetup::File(f) => assert_eq!(f.dir, "traces"),
        _ => panic!("expected a file reporter"),
    }
    let b = TelemetryBuilder::new()
        .tracing_enabled(true)
        .tracing_reporter(TracingReporter::Otel { service_name: "svc".into() });
    match b.tracer_setup() {
        TracerSetup::Otel(name) => assert_eq!(name, "svc"),
        _ => panic!("expected an otel reporter"),
    }
}

// ── file writer ───────────────────────────────────────────────────────────

#[test]
fn file_writer_slot_never() {
    let w = RollingFileWriter::new("/tmp", "rusttp", "log", Rotation::Never);
    assert_eq!(w.slot(&dt()), "");
}

#[test]
fn file_writer_slot_minutely() {
    let w = RollingFileWriter::new("/tmp", "rusttp", "log", Rotation::Minutely);
    assert_eq!(w.slot(&dt()), "2607122038");
}

#[test]
fn file_writer_slot_hourly() {
    let w = RollingFileWriter::new("/tmp", "rusttp", "log", Rotation::Hourly);
    assert_eq!(w.slot(&dt()), "26071220");
}

#[test]
fn file_writer_slot_daily() {
    let w = RollingFileWriter::new("/tmp", "rusttp", "log", Rotation::Daily);
    assert_eq!(w.slot(&dt()), "260712");
}

#[test]
fn file_writer_filename_never() {
    let w = RollingFileWriter::new("/tmp", "rusttp", "log", Rotation::Never);
    assert_eq!(w.filename(""), "/tmp/rusttp_log.jsonl");
}

#[test]
fn file_writer_filename_rotated() {
    let w = RollingFileWriter::new("/tmp", "rusttp", "log", Rotation::Hourly);
    assert_eq!(w.filename("26071220"), "/tmp/rusttp_26071220_log.jsonl");
}

#[test]
fn main_slot_never() {
    let w = RollingFileWriter::new("/tmp", "rusttp", "log", Rotation::Never);
    assert_eq!(w.slot(&dt()), "");
}

#[test]
fn main_slot_minutely() {
    let w = RollingFileWriter::new("/tmp", "rusttp", "log", Rotation::Minutely);
    assert_eq!(w.slot(&dt()), "2607122038");
}

#[test]
fn main_slot_hourly() {
    let w = RollingFileWriter::new("/tmp", "rusttp", "log", Rotation::Hourly);
    assert_eq!(w.slot(&dt()), "26071220");
}

#[test]
fn main_slot_daily() {
    let w = RollingFileWriter::new("/tmp", "rusttp", "log", Rotation::Daily);
    assert_eq!(w.slot(&dt()), "260712");
}

#[test]
fn main_filename_never() {
    let w = RollingFileWriter::new("/tmp", "rusttp", "log", Rotation::Never);
    assert_eq!(w.filename(""), "/tmp/rusttp_log.jsonl");
}

#[test]
fn main_filename_rotated() {
    let w = RollingFileWriter::new("/tmp", "rusttp", "log", Rotation::Hourly);
    assert_eq!(w.filename("26071220"), "/tmp/rusttp_26071220_log.jsonl");
}

#[test]
fn rolling_file_writer_slot_never() {
    let w = rusttp::observer::rolling_file_writer("/tmp", "rusttp", "trace", Rotation::Never);
    assert_eq!(w.slot(&dt()), "");
}

#[test]
fn rolling_file_writer_filename_rotated() {
    let w = rusttp::observer::rolling_file_writer("/tmp", "rusttp", "trace", Rotation::Hourly);
    assert_eq!(w.filename("2026071220"), "/tmp/rusttp_2026071220.trace.jsonl");
}

#[test]
fn observer_slots_use_full_years() {
    let w = rusttp::observer::rolling_file_writer("/tmp", "rusttp", "trace", Rotation::Hourly);
    assert_eq!(w.slot(&dt()), "2026071220");
    let w = rusttp::observer::rolling_file_writer("/tmp", "rusttp", "trace", Rotation::Daily);
    assert_eq!(w.slot(&dt()), "20260712");
}

#[test]
fn weekly_slot_is_iso_week() {
    let w = RollingFileWriter::new("/tmp", "rusttp", "log", Rotation::Weekly);
    assert_eq!(w.slot(&dt()), "2026W28");
    let early = LocalDateTime { year: 2027, month: 1, day: 1, hour: 0, minute: 0, iso_year: 2026, iso_week: 53 };
    assert_eq!(w.slot(&early), "2026W53");
    let far = LocalDateTime { year: 12345, month: 1, day: 5, hour: 0, minute: 0, iso_year: 12345, iso_week: 1 };
    assert_eq!(w.slot(&far), "+12345W01");
    let old = LocalDateTime { year: 7, month: 1, day: 5, hour: 0, minute: 0, iso_year: -7, iso_week: 2 };
    assert_eq!(w.slot(&old), "-0007W02");
}

#[test]
fn compact_slot_two_digit_year_of_negative_year() {
    let w = RollingFileWriter::new("/tmp", "rusttp", "log", Rotation::Daily);
    let d = LocalDateTime { year: -1, month: 12, day: 31, hour: 0, minute: 0, iso_year: 0, iso_week: 1 };
    assert_eq!(w.slot(&d), "991231");
}

#[test]
fn filename_join_keeps_single_separator() {
    let w = RollingFileWriter::new("/tmp/", "rusttp", "log", Rotation::Never);
    assert_eq!(w.filename(""), "/tmp/rusttp_log.jsonl");
    let w = RollingFileWriter::new("", "rusttp", "log", Rotation::Never);
    assert_eq!(w.filename(""), "rusttp_log.jsonl");
    let w = RollingFileWriter::new("logs", "/abs", "log", Rotation::Never);
    assert_eq!(w.filename(""), "/abs_log.jsonl");
}

#[test]
fn begin_write_never_opens_once_and_probes_every_hundred() {
    let mut w = RollingFileWriter::new("/tmp/x", "rusttp", "log", Rotation::Never);
    match w.begin_write(&dt(), false) {
        WriteStep::Reopen(p) => assert_eq!(p, "/tmp/x/rusttp_log.jsonl"),
        _ => panic!("first write opens the file"),
    }
    for _ in 2..100 {
        assert!(matches!(w.begin_write(&dt(), true), WriteStep::Reuse));
    }
    match w.begin_write(&dt(), true) {
        WriteStep::Probe(p) => assert_eq!(p, "/tmp/x/rusttp_log.jsonl"),
        _ => panic!("every hundredth write checks the file"),
    }
    assert_eq!(w.write_count, 100);
    assert!(w.slot.is_none());
}

#[test]
fn begin_write_rotates_on_new_slot() {
    let mut w = RollingFileWriter::new("/tmp/x", "rusttp", "log", Rotation::Hourly);
    match w.begin_write(&dt(), false) {
        WriteStep::Reopen(p) => assert_eq!(p, "/tmp/x/rusttp_26071220_log.jsonl"),
        _ => panic!("first write opens the file"),
    }
    assert_eq!(w.slot.as_deref(), Some("26071220"));
    assert!(matches!(w.begin_write(&dt(), true), WriteStep::Reuse));
    let later = LocalDateTime { hour: 21, ..dt() };
    match w.begin_write(&later, true) {
        WriteStep::Reopen(p) => assert_eq!(p, "/tmp/x/rusttp_26071221_log.jsonl"),
        _ => panic!("a new hour opens a new file"),
    }
    assert_eq!(w.slot.as_deref(), Some("26071221"));
    assert!(matches!(w.begin_write(&later, false), WriteStep::Reopen(_)));
}

// ── levels and logger ─────────────────────────────────────────────────────

#[test]
fn json_logger_level_getter() {
    let (tx, _rx) = JsonLogger::create_channel(16);
    let logger = JsonLogger::new(tx, LevelFilter::Debug);
    assert_eq!(logger.level(), LevelFilter::Debug);
}

#[test]
fn mod_json_logger_enabled_checks_level() {
    let (tx, _rx) = JsonLogger::create_channel(16);
    let logger = JsonLogger::new(tx, LevelFilter::Warn);
    assert!(!logger.enabled(Level::Info));
    assert!(logger.enabled(Level::Error));
}

#[test]
fn main_json_logger_enabled_checks_level() {
    let (tx, _rx) = JsonLogger::create_channel(16);
    let logger = JsonLogger::new(tx, LevelFilter::Warn);
    assert!(!logger.enabled(Level::Info));
    assert!(logger.enabled(Level::Error));
}

#[test]
fn json_logger_entry_filters_and_fills_fields() {
    let (tx, _rx) = JsonLogger::create_channel(4);
    let logger = JsonLogger::new(tx, LevelFilter::Info);
    assert!(logger.entry("t".into(), Level::Debug, "app", "m".into()).is_none());
    let e = logger.entry("2026-07-12T20:38:00.000+00:00".into(), Level::Warn, "app::x", "hello".into()).unwrap();
    assert_eq!(e.level, "WARN");
    assert_eq!(e.target, "app::x");
    assert_eq!(e.message, "hello");
    assert_eq!(e.timestamp, "2026-07-12T20:38:00.000+00:00");
}

#[test]
fn level_filter_off_and_trace() {
    for l in [Level::Error, Level::Warn, Level::Info, Level::Debug, Level::Trace] {
        assert!(!LevelFilter::Off.allows(l));
        assert!(LevelFilter::Trace.allows(l));
    }
    assert_eq!(Level::Error.as_str(), "ERROR");
    assert_eq!(Level::Trace.as_str(), "TRACE");
}

#[test]
fn init_channel_logger_does_not_panic() {
    let _logger = init_channel_logger(None, None);
}

#[test]
fn parse_log_level_parses_env_vars() {
    assert_eq!(LevelFilter::from_settings(Some("debug"), None), LevelFilter::Debug);
    assert_eq!(LevelFilter::from_settings(None, Some("warn")), LevelFilter::Warn);
    assert_eq!(LevelFilter::from_settings(None, None), LevelFilter::Info);
    assert_eq!(LevelFilter::from_settings(Some("bogus"), None), LevelFilter::Info);
}

#[test]
fn level_settings_precedence_and_case() {
    assert_eq!(LevelFilter::from_settings(Some("ERROR"), Some("trace")), LevelFilter::Error);
    assert_eq!(LevelFilter::from_settings(Some("Off"), None), LevelFilter::Off);
    let (logger, _rx) = init_channel_logger(None, Some("TRACE"));
    assert_eq!(logger.level(), LevelFilter::Trace);
}

#[test]
fn writer_targets_always_have_an_output() {
    assert_eq!(writer_targets(false, false), WriterTargets { file: false, console: true });
    assert_eq!(writer_targets(true, false), WriterTargets { file: true, console: false });
    assert_eq!(writer_targets(true, true), WriterTargets { file: true, console: true });
}

#[test]
fn writer_plan_follows_settings() {
    let p = writer_plan(None, None, None);
    assert_eq!(p.file, None);
    assert!(p.console);
    let p = writer_plan(Some("false"), Some("file"), Some("never"));
    assert_eq!(p.file, Some(Rotation::Never));
    assert!(!p.console);
    let p = writer_plan(Some("1"), Some("file"), None);
    assert_eq!(p.file, Some(Rotation::Hourly));
    assert!(p.console);
    let p = writer_plan(Some("false"), Some("stderr"), None);
    assert_eq!(p.file, None);
    assert!(p.console);
}

#[test]
fn level_words_after_lowercasing() {
    assert_eq!(LevelFilter::from_lowercase_word("debug"), LevelFilter::Debug);
    assert_eq!(LevelFilter::from_lowercase_word("DEBUG"), LevelFilter::Info);
    assert_eq!(LevelFilter::from_lowercase_word("off"), LevelFilter::Off);
    assert_eq!(LevelFilter::from_word("DEBUG"), LevelFilter::Debug);
    assert_eq!(LevelFilter::from_word("WaRn"), LevelFilter::Warn);
    assert_eq!(LevelFilter::from_word(""), LevelFilter::Info);
}

fn at(year: i32, month: u8, day: u8, hour: u8, minute: u8) -> LocalDateTime {
    LocalDateTime { year, month, day, hour, minute, iso_year: year, iso_week: 28 }
}

fn slot_of(rotation: Rotation, t: &LocalDateTime) -> String {
    RollingFileWriter::new("/tmp", "rusttp", "log", rotation).slot(t)
}

#[test]
fn daily_slot_prefixes_hourly_prefixes_minutely() {
    let t = at(2026, 7, 12, 20, 38);
    let d = slot_of(Rotation::Daily, &t);
    let h = slot_of(Rotation::Hourly, &t);
    let m = slot_of(Rotation::Minutely, &t);
    assert!(h.starts_with(&d));
    assert!(m.starts_with(&h));
    assert_eq!(m, "2607122038");
}

#[test]
fn slots_equal_exactly_within_a_period() {
    let a = at(2026, 7, 12, 20, 1);
    let b = at(2026, 7, 12, 20, 59);
    let c = at(2026, 7, 12, 21, 0);
    assert_eq!(slot_of(Rotation::Hourly, &a), slot_of(Rotation::Hourly, &b));
    assert_ne!(slot_of(Rotation::Hourly, &b), slot_of(Rotation::Hourly, &c));
    assert_eq!(slot_of(Rotation::Daily, &a), slot_of(Rotation::Daily, &c));
    assert_ne!(slot_of(Rotation::Minutely, &a), slot_of(Rotation::Minutely, &b));
}

#[test]
fn slots_grow_with_time() {
    let times = [
        at(2025, 12, 31, 23, 59),
        at(2026, 1, 1, 0, 0),
        at(2026, 1, 9, 23, 59),
        at(2026, 1, 10, 0, 0),
        at(2026, 10, 1, 9, 5),
    ];
    for rotation in [Rotation::Daily, Rotation::Hourly, Rotation::Minutely] {
        for pair in times.windows(2) {
            assert!(slot_of(rotation, &pair[0]) <= slot_of(rotation, &pair[1]));
        }
    }
}

#[test]
fn log_channel_holds_its_capacity() {
    let (tx, rx) = JsonLogger::create_channel(1);
    assert!(tx.try_send(rusttp::telemetry::logger::LogMsg::Line("a".to_string())).is_ok());
    assert!(tx.try_send(rusttp::telemetry::logger::LogMsg::Line("b".to_string())).is_err());
    match rx.recv().unwrap() {
        rusttp::telemetry::logger::LogMsg::Line(l) => assert_eq!(l, "a"),
        rusttp::telemetry::logger::LogMsg::Flush(_) => panic!("expected a line"),
    }
}

#[test]
fn logger_sends_to_the_returned_receiver() {
    let (logger, rx) = init_channel_logger(Some("info"), None);
    logger.sender().try_send(rusttp::telemetry::logger::LogMsg::Line("x\n".to_string())).unwrap();
    match rx.recv().unwrap() {
        rusttp::telemetry::logger::LogMsg::Line(l) => assert_eq!(l, "x\n"),
        rusttp::telemetry::logger::LogMsg::Flush(_) => panic!("expected a line"),
    }
}

#[test]
fn logger_is_installed_once() {
    let first = rusttp::telemetry::builder::logger_install_step(false);
    assert!(first.install_now);
    assert!(first.installed);
    let second = rusttp::telemetry::builder::logger_install_step(first.installed);
    assert!(!second.install_now);
    assert!(second.installed);
}
