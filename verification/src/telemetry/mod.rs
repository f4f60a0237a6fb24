pub mod builder;
pub mod level;

pub use builder::{LogOutput, Rotation, TelemetryBuilder, TracingReporter};
pub mod file_writer;
pub mod logger;
pub mod tracing;
