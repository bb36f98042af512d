use opentelemetry::logs::{AnyValue, LogRecord, Logger, LoggerProvider, Severity};
use opentelemetry::{global, KeyValue};
use std::time::Duration;
use telemetry_rust::protocol::WireProtocol;
use telemetry_rust::provider::TelemetryProvider;
use telemetry_rust::config::TelemetryProviderConfig;
use telemetry_rust::resource::Attribute;

fn init_provider() -> TelemetryProvider {
    let telemetry_url = "http://localhost:4317".to_string();

    let default_attributes = vec![Attribute::new("service.name", "otel")];

    let telemetry_config = TelemetryProviderConfig {
        trace_url: telemetry_url.clone(),
        log_url: telemetry_url.clone(),
        metric_url: telemetry_url.clone(),
        protocol: WireProtocol::Grpc,
    };

    TelemetryProvider::new(telemetry_config, default_attributes)
        .expect("Failed to create telemetry provider")
}

#[test]
fn test_telemetry_provider_init() {
    let runtime = tokio::runtime::Runtime::new().expect("Failed to create runtime");
    let _entered = runtime.enter();

    let mut telemetry_provider = init_provider();

    let logger = telemetry_provider.logger_provider().logger("test");
    let mut record = logger.create_log_record();
    record.set_severity_number(Severity::Info);
    record.set_body(AnyValue::from("Hello, world!"));
    logger.emit(record);

    let try_shutdown = telemetry_provider.shutdown();

    assert!(try_shutdown.is_ok());
}

#[test]
fn test_metrics_visible() {
    let runtime = tokio::runtime::Runtime::new().expect("Failed to create runtime");
    let _entered = runtime.enter();

    let mut telemetry_provider = init_provider();

    let meter = global::meter("test");
    let counter = meter.u64_counter("test_requests_total").with_description("Test requests").build();

    for i in 0..10 {
        counter.add((10 * i as u64) as u64, &[KeyValue::new("test", "true")]);
    }

    runtime.block_on(tokio::time::sleep(Duration::from_secs(10)));

    telemetry_provider.shutdown().unwrap();
}
