//! Bodies of the `/rpc` routes.

use vstd::prelude::*;

verus! {

/// The body of `GET /rpc`.
#[derive(Debug)]
pub struct RpcStatus {
    pub status: &'static str,
}

pub fn index() -> (r: RpcStatus)
    ensures
        r.status@ == "rpc ready"@,
{
    RpcStatus { status: "rpc ready" }
}

} // verus!
