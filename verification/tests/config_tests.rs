use telemetry_rust::config::{
    export_timeout_secs, resolve, BatchingPolicy, EnvironmentSettings, ExporterSettings,
    SpanLimits, TelemetryProviderConfig, Temporality,
};
use telemetry_rust::error::ConstructionError;
use telemetry_rust::protocol::WireProtocol;
use telemetry_rust::signal::SignalKind;

fn settings(
    app_name: Option<&str>,
    environment: Option<&str>,
    url: Option<&str>,
    protocol: Option<&str>,
) -> EnvironmentSettings {
    EnvironmentSettings {
        app_name: app_name.map(|s| s.to_string()),
        environment: environment.map(|s| s.to_string()),
        telemetry_url: url.map(|s| s.to_string()),
        telemetry_protocol: protocol.map(|s| s.to_string()),
        package_version: "0.1.0".to_string(),
        package_name: "telemetry_rust".to_string(),
    }
}

#[test]
fn uniform_config_sends_all_signals_to_one_collector() {
    let config = TelemetryProviderConfig::uniform("http://collector:4317", WireProtocol::Grpc);
    assert_eq!(config.trace_url, "http://collector:4317");
    assert_eq!(config.log_url, "http://collector:4317");
    assert_eq!(config.metric_url, "http://collector:4317");
    assert_eq!(config.protocol, WireProtocol::Grpc);
}

#[test]
fn each_signal_has_its_own_url() {
    let config = TelemetryProviderConfig {
        trace_url: "http://t:1".to_string(),
        log_url: "http://l:2".to_string(),
        metric_url: "http://m:3".to_string(),
        protocol: WireProtocol::HttpJson,
    };
    assert_eq!(config.url_for(SignalKind::Trace), "http://t:1");
    assert_eq!(config.url_for(SignalKind::Log), "http://l:2");
    assert_eq!(config.url_for(SignalKind::Metric), "http://m:3");
    let copy = config.duplicate();
    assert_eq!(copy.trace_url, "http://t:1");
    assert_eq!(copy.log_url, "http://l:2");
    assert_eq!(copy.metric_url, "http://m:3");
    assert_eq!(copy.protocol, WireProtocol::HttpJson);
}

#[test]
fn config_from_selector_reads_the_protocol() {
    let grpc = TelemetryProviderConfig::from_selector("http://c:4317", "grpc").unwrap();
    assert_eq!(grpc.protocol, WireProtocol::Grpc);
    assert_eq!(grpc.metric_url, "http://c:4317");
    let http = TelemetryProviderConfig::from_selector("http://c:4318", "http_json").unwrap();
    assert_eq!(http.protocol, WireProtocol::HttpJson);
    assert_eq!(http.trace_url, "http://c:4318");
}

#[test]
fn config_from_unknown_selector_is_refused() {
    let quic = TelemetryProviderConfig::from_selector("http://c:4317", "quic");
    assert_eq!(quic.err(), Some(ConstructionError::InvalidProtocol));
    let bogus = TelemetryProviderConfig::from_selector("http://c:4317", "bogus");
    assert_eq!(bogus.err(), Some(ConstructionError::InvalidProtocol));
    let empty = TelemetryProviderConfig::from_selector("http://c:4317", "");
    assert_eq!(empty.err(), Some(ConstructionError::InvalidProtocol));
    let upper = TelemetryProviderConfig::from_selector("http://c:4317", "GRPC");
    assert_eq!(upper.err(), Some(ConstructionError::InvalidProtocol));
    let http = TelemetryProviderConfig::from_selector("http://c:4317", "http");
    assert_eq!(http.err(), Some(ConstructionError::InvalidProtocol));
}

#[test]
fn export_timeouts_are_three_and_five_seconds() {
    assert_eq!(export_timeout_secs(SignalKind::Trace), 3);
    assert_eq!(export_timeout_secs(SignalKind::Log), 5);
    assert_eq!(export_timeout_secs(SignalKind::Metric), 5);
}

#[test]
fn exporter_settings_follow_the_config() {
    let config = TelemetryProviderConfig {
        trace_url: "http://t:1".to_string(),
        log_url: "http://l:2".to_string(),
        metric_url: "http://m:3".to_string(),
        protocol: WireProtocol::HttpJson,
    };
    let trace = ExporterSettings::for_signal(&config, SignalKind::Trace);
    assert_eq!(trace.endpoint, "http://t:1");
    assert_eq!(trace.protocol, WireProtocol::HttpJson);
    assert_eq!(trace.timeout_secs, 3);
    assert_eq!(trace.temporality, Temporality::Cumulative);
    let log = ExporterSettings::for_signal(&config, SignalKind::Log);
    assert_eq!(log.endpoint, "http://l:2");
    assert_eq!(log.timeout_secs, 5);
    let metric = ExporterSettings::for_endpoint(
        SignalKind::Metric,
        "http://m:3".to_string(),
        WireProtocol::Grpc,
    );
    assert_eq!(metric.endpoint, "http://m:3");
    assert_eq!(metric.protocol, WireProtocol::Grpc);
    assert_eq!(metric.timeout_secs, 5);
    assert_eq!(metric.temporality, Temporality::Cumulative);
}

#[test]
fn batching_policies_of_the_signals() {
    let trace = BatchingPolicy::for_signal(SignalKind::Trace);
    assert_eq!(trace.max_queue_size, 2048);
    assert_eq!(trace.max_export_batch_size, 512);
    assert_eq!(trace.scheduled_delay_ms, 5000);
    assert_eq!(trace.periodic_interval_ms, None);
    let log = BatchingPolicy::for_signal(SignalKind::Log);
    assert_eq!(log.max_queue_size, 4096);
    assert_eq!(log.max_export_batch_size, 512);
    assert_eq!(log.scheduled_delay_ms, 500);
    assert_eq!(log.periodic_interval_ms, None);
    let metric = BatchingPolicy::for_signal(SignalKind::Metric);
    assert_eq!(metric.periodic_interval_ms, Some(1000));
    assert_eq!(BatchingPolicy::metric_export_interval_ms(), 1000);
    assert!(log.max_queue_size > trace.max_queue_size);
    assert!(log.scheduled_delay_ms < trace.scheduled_delay_ms);
}

#[test]
fn a_batch_never_exceeds_the_queue() {
    let lowered = BatchingPolicy::batching(100, 512, 250);
    assert_eq!(lowered.max_queue_size, 100);
    assert_eq!(lowered.max_export_batch_size, 100);
    assert_eq!(lowered.scheduled_delay_ms, 250);
    assert_eq!(lowered.periodic_interval_ms, None);
    let kept = BatchingPolicy::batching(4096, 512, 500);
    assert_eq!(kept.max_export_batch_size, 512);
    let equal = BatchingPolicy::batching(7, 7, 0);
    assert_eq!(equal.max_export_batch_size, 7);
    let none = BatchingPolicy::batching(0, 1, 1);
    assert_eq!(none.max_export_batch_size, 0);
}

#[test]
fn span_limits_are_sixteen_each() {
    let limits = SpanLimits::standard();
    assert_eq!(limits.max_attributes_per_span, 16);
    assert_eq!(limits.max_events_per_span, 16);
    assert_eq!(limits.max_links_per_span, 16);
}

#[test]
fn resolve_prefers_the_given_value() {
    assert_eq!(resolve(&Some("given".to_string()), "fallback"), "given");
    assert_eq!(resolve(&None, "fallback"), "fallback");
    assert_eq!(resolve(&Some(String::new()), "fallback"), "");
}

#[test]
fn default_attributes_fall_back_to_application_and_development() {
    let attrs = settings(None, None, None, None).default_attributes();
    assert_eq!(attrs.len(), 4);
    assert_eq!(attrs[0].key, "service.name");
    assert_eq!(attrs[0].value, "application");
    assert_eq!(attrs[1].key, "service.version");
    assert_eq!(attrs[1].value, "0.1.0");
    assert_eq!(attrs[2].key, "service.environment");
    assert_eq!(attrs[2].value, "development");
    assert_eq!(attrs[3].key, "job");
    assert_eq!(attrs[3].value, "telemetry_rust");
}

#[test]
fn default_attributes_take_what_is_set() {
    let attrs = settings(Some("shop"), Some("production"), None, None).default_attributes();
    assert_eq!(attrs[0].value, "shop");
    assert_eq!(attrs[2].value, "production");
}

#[test]
fn default_config_is_grpc_on_the_local_collector() {
    let config = settings(None, None, None, None).default_config().unwrap();
    assert_eq!(config.trace_url, "http://localhost:4317");
    assert_eq!(config.log_url, "http://localhost:4317");
    assert_eq!(config.metric_url, "http://localhost:4317");
    assert_eq!(config.protocol, WireProtocol::Grpc);
}

#[test]
fn default_config_takes_what_is_set() {
    let config = settings(None, None, Some("http://otel:4318"), Some("http_json"))
        .default_config()
        .unwrap();
    assert_eq!(config.trace_url, "http://otel:4318");
    assert_eq!(config.log_url, "http://otel:4318");
    assert_eq!(config.metric_url, "http://otel:4318");
    assert_eq!(config.protocol, WireProtocol::HttpJson);
}

#[test]
fn default_config_refuses_an_unknown_protocol() {
    let refused = settings(None, None, None, Some("bogus")).default_config();
    assert_eq!(refused.err(), Some(ConstructionError::InvalidProtocol));
}
