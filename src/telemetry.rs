//! Which exporters the service sets up at startup.

use vstd::prelude::*;
use crate::endpoint::{endpoint_from_value, is_uri, metrics_transport, transport_for, Endpoint, Transport};

verus! {

/// What the startup routine installs besides the local formatted log output.
#[derive(Clone, Copy, Debug, PartialEq, Eq, Structural)]
pub struct TelemetryPlan {
    /// Spans go to the trace collector over gRPC, and log events become span
    /// events there too.
    pub export_traces: bool,
    /// Metrics go to the metrics collector, over this transport.
    pub metrics: Option<Transport>,
}

impl TelemetryPlan {
    /// Nothing leaves the process: only the local log output is installed.
    pub open spec fn is_local_only(self) -> bool {
        !self.export_traces && self.metrics is None
    }
}

/// The metrics transport for an optional endpoint.
pub open spec fn metrics_plan(metrics: Option<Endpoint>) -> Option<Transport> {
    match metrics {
        Some(e) => Some(transport_for(e.port)),
        None => None,
    }
}

/// Whether a setting holds a value that parses as a URI.
pub open spec fn is_set_uri(value: Option<&str>) -> bool {
    value matches Some(s) && is_uri(s@)
}

/// The plan for the endpoints that are configured.
pub fn plan_from_endpoints(trace: Option<Endpoint>, metrics: Option<Endpoint>) -> (r: TelemetryPlan)
    ensures
        r.export_traces == trace is Some,
        r.metrics == metrics_plan(metrics),
        trace is None && metrics is None ==> r.is_local_only(),
{
    let m = match metrics {
        Some(e) => Some(metrics_transport(&e)),
        None => None,
    };
    TelemetryPlan { export_traces: trace.is_some(), metrics: m }
}

/// The plan for the raw values of the trace and metrics endpoint settings.
/// A value that is absent or not a URI disables its export; with neither
/// set, nothing is exported.
pub fn plan_from_values(trace: Option<&str>, metrics: Option<&str>) -> (r: TelemetryPlan)
    ensures
        r.export_traces == is_set_uri(trace),
        r.metrics is Some == is_set_uri(metrics),
        trace is None && metrics is None ==> r.is_local_only(),
{
    let t = endpoint_from_value(trace);
    let m = endpoint_from_value(metrics);
    plan_from_endpoints(t, m)
}

} // verus!
