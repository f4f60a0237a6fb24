use vstd::prelude::*;

verus! {

/// Why an identity lookup failed.
#[derive(Debug, PartialEq, Eq, Structural)]
pub enum Error {
    /// No record matches the lookup.
    NotFound,
}

} // verus!
