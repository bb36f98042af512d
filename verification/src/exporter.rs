//! The exporter factory: one exporter per signal, built for the endpoint,
//! the protocol and the timeout of its settings.

use vstd::prelude::*;
use opentelemetry_otlp::{ExporterBuildError, LogExporter, MetricExporter, SpanExporter};
use tokio::runtime::Handle;
use crate::config::ExporterSettings;
use crate::error::ConstructionError;
use crate::protocol::WireProtocol;
use crate::sdk::{
    current_runtime, log_exporter_grpc, log_exporter_http_json, metric_exporter_grpc,
    metric_exporter_http_json, span_exporter_grpc, span_exporter_http_json,
};
use crate::signal::SignalKind;

verus! {

/// The errors that the factory gives for a signal and a protocol: the
/// exporter of that signal was refused, or, for gRPC only, no runtime is
/// there to run the transport.
pub open spec fn factory_error(e: ConstructionError, kind: SignalKind, protocol: WireProtocol) -> bool {
    ||| e == ConstructionError::ExporterBuild(kind)
    ||| e == ConstructionError::RuntimeUnavailable && protocol == WireProtocol::Grpc
}

/// The runtime for the gRPC transport: the one that was found, or else
/// [`ConstructionError::RuntimeUnavailable`].
pub fn require_runtime(found: Option<Handle>) -> (r: Result<Handle, ConstructionError>)
    ensures
        r == match found {
            Some(runtime) => Ok::<Handle, ConstructionError>(runtime),
            None => Err(ConstructionError::RuntimeUnavailable),
        },
{
    match found {
        Some(runtime) => Ok(runtime),
        None => Err(ConstructionError::RuntimeUnavailable),
    }
}

/// What the construction of an exporter came to: the exporter, or else
/// [`ConstructionError::ExporterBuild`] of the signal.
pub fn exporter_outcome<E>(built: Result<E, ExporterBuildError>, kind: SignalKind) -> (r: Result<
    E,
    ConstructionError,
>)
    ensures
        r == match built {
            Ok(exporter) => Ok::<E, ConstructionError>(exporter),
            Err(_) => Err(ConstructionError::ExporterBuild(kind)),
        },
{
    match built {
        Ok(exporter) => Ok(exporter),
        Err(_) => Err(ConstructionError::ExporterBuild(kind)),
    }
}

/// Builds the span exporter of the settings: over gRPC inside the runtime
/// of the caller, or over HTTP with JSON. No connection is opened yet.
pub fn build_span_exporter(settings: &ExporterSettings) -> (r: Result<
    SpanExporter,
    ConstructionError,
>)
    ensures
        r matches Err(e) ==> factory_error(e, SignalKind::Trace, settings.protocol),
{
    match settings.protocol {
        WireProtocol::Grpc => match require_runtime(current_runtime()) {
            Ok(runtime) => exporter_outcome(
                span_exporter_grpc(&runtime, settings.endpoint.as_str(), settings.timeout_secs),
                SignalKind::Trace,
            ),
            Err(e) => Err(e),
        },
        WireProtocol::HttpJson => exporter_outcome(
            span_exporter_http_json(settings.endpoint.as_str(), settings.timeout_secs),
            SignalKind::Trace,
        ),
    }
}

/// Builds the log exporter of the settings: over gRPC inside the runtime
/// of the caller, or over HTTP with JSON. No connection is opened yet.
pub fn build_log_exporter(settings: &ExporterSettings) -> (r: Result<
    LogExporter,
    ConstructionError,
>)
    ensures
        r matches Err(e) ==> factory_error(e, SignalKind::Log, settings.protocol),
{
    match settings.protocol {
        WireProtocol::Grpc => match require_runtime(current_runtime()) {
            Ok(runtime) => exporter_outcome(
                log_exporter_grpc(&runtime, settings.endpoint.as_str(), settings.timeout_secs),
                SignalKind::Log,
            ),
            Err(e) => Err(e),
        },
        WireProtocol::HttpJson => exporter_outcome(
            log_exporter_http_json(settings.endpoint.as_str(), settings.timeout_secs),
            SignalKind::Log,
        ),
    }
}

/// Builds the metric exporter of the settings, with their temporality:
/// over gRPC inside the runtime of the caller, or over HTTP with JSON. No
/// connection is opened yet.
pub fn build_metric_exporter(settings: &ExporterSettings) -> (r: Result<
    MetricExporter,
    ConstructionError,
>)
    ensures
        r matches Err(e) ==> factory_error(e, SignalKind::Metric, settings.protocol),
{
    match settings.protocol {
        WireProtocol::Grpc => match require_runtime(current_runtime()) {
            Ok(runtime) => exporter_outcome(
                metric_exporter_grpc(
                    &runtime,
                    settings.endpoint.as_str(),
                    settings.timeout_secs,
                    settings.temporality,
                ),
                SignalKind::Metric,
            ),
            Err(e) => Err(e),
        },
        WireProtocol::HttpJson => exporter_outcome(
            metric_exporter_http_json(
                settings.endpoint.as_str(),
                settings.timeout_secs,
                settings.temporality,
            ),
            SignalKind::Metric,
        ),
    }
}

} // verus!
