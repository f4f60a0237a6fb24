//! The observer variant of the telemetry builder. Its rotated files are
//! named `{prefix}_{slot}.{suffix}.jsonl`, with four-digit years in slots.

use vstd::prelude::*;
use crate::telemetry::builder::TelemetryBuilder;
use crate::telemetry::file_writer::{RollingFileWriter, NamingScheme};

pub use crate::telemetry::builder::{LogOutput, Rotation, TracingReporter};

verus! {

/// The observer builder; it is configured as the telemetry builder is.
pub type ObserverBuilder = TelemetryBuilder;

/// A rotated file writer named in the observer's dotted scheme.
pub fn rolling_file_writer(dir: &str, prefix: &str, suffix: &str, rotation: Rotation) -> (w: RollingFileWriter)
    ensures
        w.dir@ == dir@,
        w.prefix@ == prefix@,
        w.suffix@ == suffix@,
        w.rotation == rotation,
        w.scheme == NamingScheme::Dotted,
        w.slot is None,
        w.write_count == 0,
{
    RollingFileWriter::with_scheme(dir, prefix, suffix, rotation, NamingScheme::Dotted)
}

} // verus!
