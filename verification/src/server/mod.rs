//! The web server's own logic: its listen address, error bodies, request
//! outcomes, trailing-slash redirects and static asset naming.

pub mod error;
pub mod middleware;
pub mod routes;

use vstd::prelude::*;
use crate::text::{owned, push_char, push_decimal, push_str, dec_digits};

pub use error::AppError;

verus! {

/// Where the server listens.
#[derive(Debug, Clone)]
pub struct ServerConfig {
    pub host: String,
    pub port: u16,
}

impl ServerConfig {
    pub fn new(host: &str, port: u16) -> (c: Self)
        ensures
            c.host@ == host@,
            c.port == port,
    {
        ServerConfig { host: owned(host), port }
    }

    /// The address text `"{host}:{port}"` that is parsed into a socket address.
    pub fn listen_address(&self) -> (a: String)
        ensures
            a@ == self.host@ + seq![':'] + dec_digits(self.port as nat),
    {
        let mut a = owned(self.host.as_str());
        push_char(&mut a, ':');
        push_decimal(&mut a, self.port as u64);
        a
    }
}

} // verus!
