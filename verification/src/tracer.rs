//! The trace pipeline.

use vstd::prelude::*;
use opentelemetry_sdk::trace::SdkTracerProvider;
use opentelemetry_sdk::Resource;
use crate::config::{BatchingPolicy, ExporterSettings, SpanLimits};
use crate::error::ConstructionError;
use crate::exporter::{build_span_exporter, factory_error};
use crate::protocol::WireProtocol;
use crate::sdk::{register_propagator, register_tracer_provider, start_trace_pipeline};
use crate::signal::SignalKind;

verus! {

/// Builds the trace pipeline and makes it the one of the process.
///
/// The exporter is built first; where that fails nothing else has
/// happened. Then the trace-context propagator is registered, the pipeline
/// is started with the batching policy and the span limits of traces, and
/// the provider is registered as the global tracer provider. Registering
/// twice in one process leaves the last one in place.
pub fn init_tracer_provider(collector_url: String, protocol: WireProtocol, resource: Resource) -> (r:
    Result<SdkTracerProvider, ConstructionError>)
    ensures
        r matches Err(e) ==> factory_error(e, SignalKind::Trace, protocol),
{
    let settings = ExporterSettings::for_endpoint(SignalKind::Trace, collector_url, protocol);
    let exporter = match build_span_exporter(&settings) {
        Ok(exporter) => exporter,
        Err(e) => {
            return Err(e);
        },
    };
    register_propagator();
    let policy = BatchingPolicy::for_signal(SignalKind::Trace);
    let limits = SpanLimits::standard();
    let provider = start_trace_pipeline(exporter, &policy, &limits, resource);
    register_tracer_provider(&provider);
    Ok(provider)
}

} // verus!
