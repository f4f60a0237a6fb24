use vstd::prelude::*;

verus! {

/// Errors of the job queue.
#[derive(Debug, PartialEq, Eq, Structural)]
pub enum Error {
    NotImplemented,
}

/// The job queue; enqueueing is not available yet.
#[derive(Debug)]
pub struct Queue;

impl Queue {
    pub fn new() -> (q: Self)
        ensures
            q == Queue,
    {
        Queue
    }
}

impl Default for Queue {
    fn default() -> (q: Self)
        ensures
            q == Queue,
    {
        Queue
    }
}

} // verus!
