//! Users and their sessions.

pub mod errors;
pub mod model;
pub mod repository;
pub mod service;
