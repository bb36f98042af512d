use telemetry_rust::error::{ConstructionError, ShutdownError};
use telemetry_rust::protocol::WireProtocol;
use telemetry_rust::signal::SignalKind;

#[test]
fn construction_errors_have_messages() {
    assert_eq!(ConstructionError::InvalidProtocol.message(), "Invalid telemetry protocol");
    assert_eq!(
        ConstructionError::MissingAttribute.message(),
        "Missing resource attribute service.name"
    );
    assert_eq!(
        ConstructionError::RuntimeUnavailable.message(),
        "No asynchronous runtime for the gRPC transport"
    );
    assert_eq!(
        ConstructionError::ExporterBuild(SignalKind::Trace).message(),
        "Failed to create OTLP span exporter"
    );
    assert_eq!(
        ConstructionError::ExporterBuild(SignalKind::Log).message(),
        "Failed to create OTLP log exporter"
    );
    assert_eq!(
        ConstructionError::ExporterBuild(SignalKind::Metric).message(),
        "Failed to create OTLP metric exporter"
    );
    assert_eq!(ConstructionError::FilterRejected.message(), "Failed to create EnvFilter");
    assert_eq!(
        ConstructionError::DuplicateInstallation.message(),
        "An instrumentation sink is already installed"
    );
}

#[test]
fn shutdown_error_has_a_message() {
    assert_eq!(ShutdownError::AlreadyClosed.message(), "Telemetry provider is already shut down");
}

#[test]
fn each_protocol_is_read_back_from_its_selector() {
    assert_eq!(WireProtocol::Grpc.selector(), "grpc");
    assert_eq!(WireProtocol::HttpJson.selector(), "http_json");
    assert_eq!(
        WireProtocol::from_selector(WireProtocol::Grpc.selector()),
        Ok(WireProtocol::Grpc)
    );
    assert_eq!(
        WireProtocol::from_selector(WireProtocol::HttpJson.selector()),
        Ok(WireProtocol::HttpJson)
    );
}

#[test]
fn selectors_are_matched_exactly() {
    assert_eq!(WireProtocol::from_selector("bogus"), Err(ConstructionError::InvalidProtocol));
    assert_eq!(WireProtocol::from_selector(""), Err(ConstructionError::InvalidProtocol));
    assert_eq!(WireProtocol::from_selector("grpc "), Err(ConstructionError::InvalidProtocol));
    assert_eq!(WireProtocol::from_selector("Grpc"), Err(ConstructionError::InvalidProtocol));
    assert_eq!(WireProtocol::from_selector("http"), Err(ConstructionError::InvalidProtocol));
    assert_eq!(WireProtocol::from_selector("http/json"), Err(ConstructionError::InvalidProtocol));
}
