//! The liveness probe: how one answer of the worker's health endpoint is read.
//!
//! The request itself is made by the caller. What came back is handed in as a
//! [`ProbeResponse`], and this module decides whether the worker counts as
//! reachable.

use crate::fault::Fault;
use crate::record::Severity;
use vstd::prelude::*;

verus! {

/// The address at which the worker answers liveness requests.
pub const HEALTH_ENDPOINT: &'static str = "http://127.0.0.1:7771/health";

/// How long one liveness request may take, in milliseconds.
pub const PROBE_TIMEOUT_MS: u64 = 3000;

/// What one liveness request came to.
#[derive(Clone, Copy, Debug, PartialEq, Eq)]
pub enum ProbeResponse {
    /// The endpoint answered with this HTTP status code.
    Status(u16),
    /// The request could not be completed.
    TransportError,
    /// No answer came within the time allowed.
    TimedOut,
}

/// The outcome of one liveness probe.
#[derive(Clone, Copy, Debug, PartialEq, Eq)]
pub struct HealthCheckResult {
    pub reachable: bool,
    /// When the answer was seen, in milliseconds on the caller's clock.
    pub observed_at: u64,
}

/// The HTTP status codes that stand for success: 200 to 299.
pub open spec fn spec_is_success(code: u16) -> bool {
    200 <= code < 300
}

#[verifier::when_used_as_spec(spec_is_success)]
pub fn is_success(code: u16) -> (r: bool)
    ensures
        r == spec_is_success(code),
{
    200 <= code && code < 300
}

impl ProbeResponse {
    /// A worker is reachable exactly when the endpoint answered with a success
    /// status. Transport errors, timeouts and every other status are alike to
    /// the caller: not reachable.
    pub open spec fn reachable(self) -> bool {
        match self {
            ProbeResponse::Status(code) => spec_is_success(code),
            ProbeResponse::TransportError => false,
            ProbeResponse::TimedOut => false,
        }
    }

    /// The severity at which the answer is logged: an answer of the endpoint
    /// as information, a request that brought no answer as a warning.
    pub fn severity(self) -> (s: Severity)
        ensures
            s == match self {
                ProbeResponse::Status(_) => Severity::Info,
                _ => Severity::Warn,
            },
    {
        match self {
            ProbeResponse::Status(_) => Severity::Info,
            _ => Fault::Transport.severity(),
        }
    }
}

/// Reads one answer of the health endpoint, seen at `now`.
pub fn check(response: ProbeResponse, now: u64) -> (r: HealthCheckResult)
    ensures
        r.reachable == response.reachable(),
        r.observed_at == now,
{
    HealthCheckResult { reachable: is_sidecar_nougat_running(response), observed_at: now }
}

/// Whether an answer of the health endpoint shows a running sidecar.
pub fn is_sidecar_nougat_running(response: ProbeResponse) -> (r: bool)
    ensures
        r == response.reachable(),
{
    match response {
        ProbeResponse::Status(code) => is_success(code),
        ProbeResponse::TransportError => false,
        ProbeResponse::TimedOut => false,
    }
}

} // verus!
