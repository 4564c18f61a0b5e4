//! The gateway's health check: each backend is asked for something cheap,
//! and the answers are reported side by side. The report has no consequence
//! for any other operation.

use crate::text::owned;
use crate::wire::gateway::{HealthCheckResponse, HealthCheckResponseView, ServiceStatus, ServiceStatusView};
use vstd::prelude::*;

verus! {

/// What one backend's answer to a health check amounts to.
#[derive(Debug, Clone, Copy, PartialEq, Eq, Structural)]
pub struct Probe {
    /// Whether the backend answered.
    pub connected: bool,
    /// How long the answer took, in milliseconds; -1 where none came.
    pub latency_ms: i64,
}

/// Sums up a health check of one backend: whether it answered, and after how
/// many milliseconds. Where it did not answer the time is reported as -1.
pub fn health_probe(answered: bool, elapsed_millis: u128) -> (r: Probe)
    ensures
        r.connected == answered,
        !answered ==> r.latency_ms == -1,
        answered ==> r.latency_ms == elapsed_millis as i64,
        answered && elapsed_millis <= i64::MAX ==> r.latency_ms == elapsed_millis,
{
    if answered {
        Probe { connected: true, latency_ms: #[verifier::truncate] (elapsed_millis as i64) }
    } else {
        Probe { connected: false, latency_ms: -1 }
    }
}

/// The status of the backend `name`, reached at `address`.
pub open spec fn status_of(name: Seq<char>, address: Seq<char>, probe: Probe) -> ServiceStatusView {
    ServiceStatusView {
        name: name,
        connected: probe.connected,
        address: address,
        version: "0.1.0"@,
        latency_ms: probe.latency_ms,
    }
}

/// The report of a health check: the registry first, then the storage
/// service; all is well exactly when both answered.
pub open spec fn health_report(
    engine_address: Seq<char>,
    engine: Probe,
    storage_address: Seq<char>,
    storage: Probe,
) -> HealthCheckResponseView {
    HealthCheckResponseView {
        all_healthy: engine.connected && storage.connected,
        services: seq![
            status_of("DirectorEngine"@, engine_address, engine),
            status_of("FileGateway"@, storage_address, storage),
        ],
    }
}

/// Reports the health of the two backends.
pub fn health_check(engine_address: &str, engine: Probe, storage_address: &str, storage: Probe) -> (r:
    HealthCheckResponse)
    ensures
        r@ == health_report(engine_address@, engine, storage_address@, storage),
{
    let mut services: Vec<ServiceStatus> = Vec::new();
    services.push(
        ServiceStatus {
            name: owned("DirectorEngine"),
            connected: engine.connected,
            address: owned(engine_address),
            version: owned("0.1.0"),
            latency_ms: engine.latency_ms,
        },
    );
    services.push(
        ServiceStatus {
            name: owned("FileGateway"),
            connected: storage.connected,
            address: owned(storage_address),
            version: owned("0.1.0"),
            latency_ms: storage.latency_ms,
        },
    );
    let r = HealthCheckResponse { all_healthy: engine.connected && storage.connected, services };
    assert(r@.services =~= health_report(
        engine_address@,
        engine,
        storage_address@,
        storage,
    ).services);
    r
}

} // verus!
