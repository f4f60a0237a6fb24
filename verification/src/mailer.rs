use vstd::prelude::*;

verus! {

/// Errors of the mail delivery service.
#[derive(Debug, PartialEq, Eq, Structural)]
pub enum Error {
    NotImplemented,
}

/// The mail delivery service; sending is not available yet.
#[derive(Debug)]
pub struct Mailer;

impl Mailer {
    pub fn new() -> (m: Self)
        ensures
            m == Mailer,
    {
        Mailer
    }
}

impl Default for Mailer {
    fn default() -> (m: Self)
        ensures
            m == Mailer,
    {
        Mailer
    }
}

} // verus!
