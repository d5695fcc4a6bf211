use vstd::prelude::*;
use crate::text::str_eq;

verus! {

/// Overall health of the service, aggregated from its components.
#[derive(Clone, Copy, Debug, PartialEq, Eq, Structural)]
pub enum HealthStatus {
    Healthy,
    Degraded,
    Unhealthy,
}

/// Health of one external component, as its probe reported it.
#[derive(Clone, Debug)]
pub struct ComponentHealth {
    pub status: String,
    pub latency_ms: Option<u64>,
    pub error: Option<String>,
}

/// A component whose probe failed.
pub open spec fn spec_component_error(c: ComponentHealth) -> bool {
    c.status@ == "error"@
}

/// Classifies one probe's outcome: a round trip that succeeded in the
/// given milliseconds, or the error it failed with.
pub fn component_from_outcome(outcome: Result<u64, String>) -> (r: ComponentHealth)
    ensures
        match outcome {
            Ok(ms) => r.status@ == "connected"@ && r.latency_ms == Some(ms) && r.error is None,
            Err(e) => r.status@ == "error"@ && r.latency_ms is None && (r.error matches Some(m)
                && m@ == e@),
        },
{
    match outcome {
        Ok(ms) => ComponentHealth {
            status: String::from_str("connected"),
            latency_ms: Some(ms),
            error: None,
        },
        Err(e) => ComponentHealth {
            status: String::from_str("error"),
            latency_ms: None,
            error: Some(e),
        },
    }
}

/// How component states aggregate: a database failure makes the service
/// unhealthy; a cache failure alone only degrades it.
pub open spec fn spec_aggregate_health(
    database: Option<ComponentHealth>,
    cache: Option<ComponentHealth>,
) -> HealthStatus {
    if database matches Some(c) && spec_component_error(c) {
        HealthStatus::Unhealthy
    } else if cache matches Some(c) && spec_component_error(c) {
        HealthStatus::Degraded
    } else {
        HealthStatus::Healthy
    }
}

pub fn aggregate_health(
    database: &Option<ComponentHealth>,
    cache: &Option<ComponentHealth>,
) -> (r: HealthStatus)
    ensures
        r == spec_aggregate_health(*database, *cache),
{
    if let Some(c) = database {
        if str_eq(c.status.as_str(), "error") {
            return HealthStatus::Unhealthy;
        }
    }
    if let Some(c) = cache {
        if str_eq(c.status.as_str(), "error") {
            return HealthStatus::Degraded;
        }
    }
    HealthStatus::Healthy
}

/// Whether the service is ready to take traffic: ready unless the
/// database probe failed (a service without a database is ready).
pub fn readiness(database: &Option<ComponentHealth>) -> (r: bool)
    ensures
        r == !(*database matches Some(c) && spec_component_error(c)),
{
    if let Some(c) = database {
        if str_eq(c.status.as_str(), "error") {
            return false;
        }
    }
    true
}

} // verus!
