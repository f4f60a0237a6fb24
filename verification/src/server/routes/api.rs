//! Bodies of the `/api` routes.

use vstd::prelude::*;

verus! {

/// The body of `GET /api`.
#[derive(Debug)]
pub struct RootResponse {
    pub message: &'static str,
}

/// The body of `GET /api/health` and `GET /api/healthz`.
#[derive(Debug)]
pub struct HealthResponse {
    pub status: &'static str,
}

pub fn root() -> (r: RootResponse)
    ensures
        r.message@ == "rusttp is running"@,
{
    RootResponse { message: "rusttp is running" }
}

pub fn health() -> (r: HealthResponse)
    ensures
        r.status@ == "ok"@,
{
    HealthResponse { status: "ok" }
}

} // verus!
