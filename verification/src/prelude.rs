use vstd::prelude::*;

verus! {

/// State shared by the request handlers.
#[derive(Debug, Clone)]
pub struct ServerState {
    pub base_url: String,
}

} // verus!
