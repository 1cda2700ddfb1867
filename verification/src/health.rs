//! Health reporting.
//!
//! The health endpoint reports whether the external model is configured and
//! some process facts; the model-reachability endpoint probes the endpoint
//! with a tiny request and judges the answer. The clock, the process
//! version and the probe's transport live in the unverified shell, which
//! hands their plain values in.

use vstd::prelude::*;

verus! {

/// The answer of the health endpoint.
#[derive(Clone, Debug)]
pub struct HealthResponse {
    pub status: String,
    pub timestamp: String,
    pub version: String,
    pub uptime_seconds: u64,
    pub llm_configured: bool,
    pub memory_usage: MemoryUsage,
}

/// A coarse view of the process's memory use, in megabytes.
#[derive(Clone, Copy, Debug)]
pub struct MemoryUsage {
    pub allocated_mb: u64,
    pub resident_mb: u64,
}

/// Reports the process's memory use. This build keeps no memory accounting
/// and reports zero for both figures.
pub fn get_memory_usage() -> (r: MemoryUsage)
    ensures
        r.allocated_mb == 0,
        r.resident_mb == 0,
{
    MemoryUsage { allocated_mb: 0, resident_mb: 0 }
}

/// Builds the health report: healthy when the external model is configured,
/// degraded otherwise.
pub fn build_health_response(
    llm_configured: bool,
    timestamp: String,
    version: String,
    uptime_seconds: u64,
) -> (r: HealthResponse)
    ensures
        r.status@ == (if llm_configured {
            "healthy"@
        } else {
            "degraded"@
        }),
        r.timestamp == timestamp,
        r.version == version,
        r.uptime_seconds == uptime_seconds,
        r.llm_configured == llm_configured,
        r.memory_usage.allocated_mb == 0,
        r.memory_usage.resident_mb == 0,
{
    HealthResponse {
        status: if llm_configured {
            "healthy".to_owned()
        } else {
            "degraded".to_owned()
        },
        timestamp,
        version,
        uptime_seconds,
        llm_configured,
        memory_usage: get_memory_usage(),
    }
}

/// Judges a reachability probe by the status the endpoint answered with: a
/// success status counts, and so does a plain client rejection of the probe
/// body, since either proves the endpoint is there.
pub fn llm_reachable(status_code: u16) -> (r: bool)
    ensures
        r == (200 <= status_code < 300 || status_code == 400),
{
    (200 <= status_code && status_code < 300) || status_code == 400
}

} // verus!
