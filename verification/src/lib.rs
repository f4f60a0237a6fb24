//! A web application's library: configuration, identity lookups, the
//! telemetry stack's decisions (log levels, outputs, file rotation, span
//! rendering), the web server's own logic, and small utilities.

use vstd::prelude::*;

pub mod cmd;
pub mod config;
pub mod identity;
pub mod mailer;
pub mod observer;
pub mod prelude;
pub mod queue;
pub mod server;
pub mod telemetry;
pub mod text;
pub mod utils;

verus! {

} // verus!
