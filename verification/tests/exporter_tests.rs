use telemetry_rust::config::{ExporterSettings, Temporality};
use telemetry_rust::error::ConstructionError;
use telemetry_rust::exporter::{
    build_log_exporter, build_metric_exporter, build_span_exporter, exporter_outcome,
    require_runtime,
};
use telemetry_rust::protocol::WireProtocol;
use telemetry_rust::signal::SignalKind;

fn settings(kind: SignalKind, url: &str, protocol: WireProtocol) -> ExporterSettings {
    ExporterSettings::for_endpoint(kind, url.to_string(), protocol)
}

#[test]
fn grpc_exporters_need_a_runtime() {
    let span = build_span_exporter(&settings(SignalKind::Trace, "http://localhost:4317", WireProtocol::Grpc));
    assert_eq!(span.err(), Some(ConstructionError::RuntimeUnavailable));
    let log = build_log_exporter(&settings(SignalKind::Log, "http://localhost:4317", WireProtocol::Grpc));
    assert_eq!(log.err(), Some(ConstructionError::RuntimeUnavailable));
    let metric =
        build_metric_exporter(&settings(SignalKind::Metric, "http://localhost:4317", WireProtocol::Grpc));
    assert_eq!(metric.err(), Some(ConstructionError::RuntimeUnavailable));
}

#[test]
fn grpc_exporters_are_built_inside_a_runtime() {
    let runtime = tokio::runtime::Runtime::new().expect("Failed to create runtime");
    let _entered = runtime.enter();
    assert!(build_span_exporter(&settings(SignalKind::Trace, "http://localhost:4317", WireProtocol::Grpc)).is_ok());
    assert!(build_log_exporter(&settings(SignalKind::Log, "http://localhost:4317", WireProtocol::Grpc)).is_ok());
    assert!(
        build_metric_exporter(&settings(SignalKind::Metric, "http://localhost:4317", WireProtocol::Grpc)).is_ok()
    );
}

#[test]
fn http_json_exporters_need_no_runtime() {
    assert!(build_span_exporter(&settings(
        SignalKind::Trace,
        "http://localhost:4318/v1/traces",
        WireProtocol::HttpJson
    ))
    .is_ok());
    assert!(build_log_exporter(&settings(
        SignalKind::Log,
        "http://localhost:4318/v1/logs",
        WireProtocol::HttpJson
    ))
    .is_ok());
    assert!(build_metric_exporter(&settings(
        SignalKind::Metric,
        "http://localhost:4318/v1/metrics",
        WireProtocol::HttpJson
    ))
    .is_ok());
}

#[test]
fn a_malformed_endpoint_is_refused_over_http() {
    let span = build_span_exporter(&settings(SignalKind::Trace, "not a url", WireProtocol::HttpJson));
    assert_eq!(span.err(), Some(ConstructionError::ExporterBuild(SignalKind::Trace)));
    let log = build_log_exporter(&settings(SignalKind::Log, "not a url", WireProtocol::HttpJson));
    assert_eq!(log.err(), Some(ConstructionError::ExporterBuild(SignalKind::Log)));
    let metric = build_metric_exporter(&settings(SignalKind::Metric, "not a url", WireProtocol::HttpJson));
    assert_eq!(metric.err(), Some(ConstructionError::ExporterBuild(SignalKind::Metric)));
}

#[test]
fn a_malformed_endpoint_is_refused_over_grpc() {
    let runtime = tokio::runtime::Runtime::new().expect("Failed to create runtime");
    let _entered = runtime.enter();
    let span = build_span_exporter(&settings(SignalKind::Trace, "not a url", WireProtocol::Grpc));
    assert_eq!(span.err(), Some(ConstructionError::ExporterBuild(SignalKind::Trace)));
    let log = build_log_exporter(&settings(SignalKind::Log, "not a url", WireProtocol::Grpc));
    assert_eq!(log.err(), Some(ConstructionError::ExporterBuild(SignalKind::Log)));
    let metric = build_metric_exporter(&settings(SignalKind::Metric, "not a url", WireProtocol::Grpc));
    assert_eq!(metric.err(), Some(ConstructionError::ExporterBuild(SignalKind::Metric)));
}

#[test]
fn a_missing_runtime_is_an_error() {
    assert_eq!(require_runtime(None).err(), Some(ConstructionError::RuntimeUnavailable));
    let runtime = tokio::runtime::Runtime::new().expect("Failed to create runtime");
    assert!(require_runtime(Some(runtime.handle().clone())).is_ok());
}

#[test]
fn a_refused_exporter_names_its_signal() {
    let refused: Result<u8, opentelemetry_otlp::ExporterBuildError> =
        Err(opentelemetry_otlp::ExporterBuildError::NoHttpClient);
    assert_eq!(
        exporter_outcome(refused, SignalKind::Metric),
        Err(ConstructionError::ExporterBuild(SignalKind::Metric))
    );
    let built: Result<u8, opentelemetry_otlp::ExporterBuildError> = Ok(7);
    assert_eq!(exporter_outcome(built, SignalKind::Log), Ok(7));
}

#[test]
fn the_metric_exporter_takes_either_temporality() {
    let mut delta = settings(SignalKind::Metric, "http://localhost:4318/v1/metrics", WireProtocol::HttpJson);
    delta.temporality = Temporality::Delta;
    assert!(build_metric_exporter(&delta).is_ok());
    let cumulative = settings(SignalKind::Metric, "http://localhost:4318/v1/metrics", WireProtocol::HttpJson);
    assert_eq!(cumulative.temporality, Temporality::Cumulative);
    assert!(build_metric_exporter(&cumulative).is_ok());
}
