//! The trusted boundary: the types of the OpenTelemetry SDK, the OTLP
//! exporters, the tracing subscriber and the asynchronous runtime that the
//! provider holds or hands on, and one small function around each call into
//! them. Nothing here is proved. Each function states no more than the
//! source of the crate it calls shows.

use vstd::prelude::*;
use opentelemetry::metrics::{Counter, Histogram, MeterProvider};
use opentelemetry::trace::TracerProvider;
use opentelemetry::{Key, KeyValue};
use opentelemetry_appender_tracing::layer::OpenTelemetryTracingBridge;
use opentelemetry_otlp::{
    ExporterBuildError, LogExporter, MetricExporter, Protocol, SpanExporter, WithExportConfig,
};
use opentelemetry_sdk::error::OTelSdkError;
use opentelemetry_sdk::logs::{BatchLogProcessor, SdkLoggerProvider};
use opentelemetry_sdk::metrics::{PeriodicReader, SdkMeterProvider};
use opentelemetry_sdk::propagation::TraceContextPropagator;
use opentelemetry_sdk::trace::{BatchSpanProcessor, RandomIdGenerator, SdkTracerProvider};
use opentelemetry_sdk::Resource;
use std::time::Duration;
use tokio::runtime::Handle;
use tracing_opentelemetry::OpenTelemetryLayer;
use tracing_subscriber::filter::{FromEnvError, ParseError};
use tracing_subscriber::fmt::format::FmtSpan;
use tracing_subscriber::fmt::time::ChronoUtc;
use tracing_subscriber::layer::SubscriberExt;
use tracing_subscriber::util::{SubscriberInitExt, TryInitError};
use tracing_subscriber::EnvFilter;
use crate::bridge::FormatterOptions;
use crate::config::{BatchingPolicy, SpanLimits, Temporality};
use crate::resource::{attribute_map, Attribute};
use crate::shutdown::FailureKind;

verus! {

/// `opentelemetry_sdk::Resource`: the attributes that the SDK attaches to
/// everything it exports.
#[verifier::external_type_specification]
#[verifier::external_body]
pub struct ExResource(Resource);

/// `opentelemetry_sdk::trace::SdkTracerProvider`: the trace pipeline.
#[verifier::external_type_specification]
#[verifier::external_body]
pub struct ExSdkTracerProvider(SdkTracerProvider);

/// `opentelemetry_sdk::logs::SdkLoggerProvider`: the log pipeline.
#[verifier::external_type_specification]
#[verifier::external_body]
pub struct ExSdkLoggerProvider(SdkLoggerProvider);

/// `opentelemetry_sdk::metrics::SdkMeterProvider`: the metric pipeline.
#[verifier::external_type_specification]
#[verifier::external_body]
pub struct ExSdkMeterProvider(SdkMeterProvider);

/// `opentelemetry_otlp::SpanExporter`.
#[verifier::external_type_specification]
#[verifier::external_body]
pub struct ExSpanExporter(SpanExporter);

/// `opentelemetry_otlp::LogExporter`.
#[verifier::external_type_specification]
#[verifier::external_body]
pub struct ExLogExporter(LogExporter);

/// `opentelemetry_otlp::MetricExporter`.
#[verifier::external_type_specification]
#[verifier::external_body]
pub struct ExMetricExporter(MetricExporter);

/// `opentelemetry_otlp::ExporterBuildError`: why an exporter was not built.
#[verifier::external_type_specification]
#[verifier::external_body]
pub struct ExExporterBuildError(ExporterBuildError);

/// `opentelemetry_sdk::error::OTelSdkError`: why a pipeline did not shut
/// down cleanly.
#[verifier::external_type_specification]
#[verifier::external_body]
pub struct ExOTelSdkError(OTelSdkError);

/// `opentelemetry::metrics::Counter`.
#[verifier::external_type_specification]
#[verifier::external_body]
#[verifier::reject_recursive_types(T)]
pub struct ExCounter<T>(Counter<T>);

/// `opentelemetry::metrics::Histogram`.
#[verifier::external_type_specification]
#[verifier::external_body]
#[verifier::reject_recursive_types(T)]
pub struct ExHistogram<T>(Histogram<T>);

/// `tracing_subscriber::EnvFilter`: the verbosity filter of the sink.
#[verifier::external_type_specification]
#[verifier::external_body]
pub struct ExEnvFilter(EnvFilter);

/// `tracing_subscriber::filter::FromEnvError`.
#[verifier::external_type_specification]
#[verifier::external_body]
pub struct ExFromEnvError(FromEnvError);

/// `tracing_subscriber::filter::ParseError`.
#[verifier::external_type_specification]
#[verifier::external_body]
pub struct ExParseError(ParseError);

/// `tracing_subscriber::util::TryInitError`.
#[verifier::external_type_specification]
#[verifier::external_body]
pub struct ExTryInitError(TryInitError);

/// `tokio::runtime::Handle`: the asynchronous runtime that the gRPC
/// transport runs on.
#[verifier::external_type_specification]
#[verifier::external_body]
pub struct ExHandle(Handle);

/// The attributes that a resource of the SDK holds, each value in the text
/// form that `Value::as_str` gives.
pub uninterp spec fn resource_attributes(resource: Resource) -> Map<Seq<char>, Seq<char>>;

/// `Handle::try_current`: the runtime that the calling thread runs in, if
/// it runs in one.
#[verifier::external_body]
pub(crate) fn current_runtime() -> (runtime: Option<Handle>) {
    Handle::try_current().ok()
}

/// `Resource::builder().with_attributes(..).build()`: the resource that the
/// SDK detects from its surroundings, overlaid with the given attributes.
/// The given attributes win over what was detected, and of two with one
/// key the later wins; so every key of the list is in the resource with
/// the value that the list gives it. What else the resource holds is not
/// stated.
#[verifier::external_body]
pub(crate) fn build_resource(attributes: &Vec<Attribute>) -> (resource: Resource)
    ensures
        forall|key: Seq<char>| #[trigger]
            attribute_map(attributes@).contains_key(key) ==> resource_attributes(
                resource,
            ).contains_key(key) && resource_attributes(resource)[key] == attribute_map(
                attributes@,
            )[key],
{
    let pairs: Vec<KeyValue> =
        attributes.iter().map(|a| KeyValue::new(a.key.clone(), a.value.clone())).collect();
    Resource::builder().with_attributes(pairs).build()
}

/// `Resource::get`, the value rendered by `Value::as_str`: the value of the
/// key where the resource has it, `None` where it has not.
#[verifier::external_body]
pub(crate) fn resource_get(resource: &Resource, key: &str) -> (value: Option<String>)
    ensures
        match value {
            Some(v) => resource_attributes(*resource).contains_key(key@) && resource_attributes(
                *resource,
            )[key@] == v@,
            None => !resource_attributes(*resource).contains_key(key@),
        },
{
    resource.get(&Key::new(key.to_owned())).map(|v| v.as_str().into_owned())
}

/// `Resource::clone`: a second handle on the same attributes.
#[verifier::external_body]
pub(crate) fn share_resource(resource: &Resource) -> (shared: Resource) {
    resource.clone()
}

/// `SpanExporter::builder().with_tonic()` and its `build`, inside the given
/// runtime, which the transport needs. It fails where the SDK refuses the
/// endpoint or its own settings; nothing is sent yet.
#[verifier::external_body]
pub(crate) fn span_exporter_grpc(runtime: &Handle, endpoint: &str, timeout_secs: u64) -> (r: Result<
    SpanExporter,
    ExporterBuildError,
>) {
    let _entered = runtime.enter();
    SpanExporter::builder().with_tonic().with_endpoint(endpoint).with_protocol(
        Protocol::Grpc,
    ).with_timeout(Duration::from_secs(timeout_secs)).build()
}

/// `SpanExporter::builder().with_http()` and its `build`, with the JSON
/// encoding. It fails where the SDK refuses the endpoint or has no HTTP
/// client; nothing is sent yet.
#[verifier::external_body]
pub(crate) fn span_exporter_http_json(endpoint: &str, timeout_secs: u64) -> (r: Result<
    SpanExporter,
    ExporterBuildError,
>) {
    SpanExporter::builder().with_http().with_endpoint(endpoint).with_protocol(
        Protocol::HttpJson,
    ).with_timeout(Duration::from_secs(timeout_secs)).build()
}

/// `LogExporter::builder().with_tonic()` and its `build`, inside the given
/// runtime.
#[verifier::external_body]
pub(crate) fn log_exporter_grpc(runtime: &Handle, endpoint: &str, timeout_secs: u64) -> (r: Result<
    LogExporter,
    ExporterBuildError,
>) {
    let _entered = runtime.enter();
    LogExporter::builder().with_tonic().with_endpoint(endpoint).with_protocol(
        Protocol::Grpc,
    ).with_timeout(Duration::from_secs(timeout_secs)).build()
}

/// `LogExporter::builder().with_http()` and its `build`, with the JSON
/// encoding.
#[verifier::external_body]
pub(crate) fn log_exporter_http_json(endpoint: &str, timeout_secs: u64) -> (r: Result<
    LogExporter,
    ExporterBuildError,
>) {
    LogExporter::builder().with_http().with_endpoint(endpoint).with_protocol(
        Protocol::HttpJson,
    ).with_timeout(Duration::from_secs(timeout_secs)).build()
}

/// `MetricExporter::builder().with_tonic()` and its `build`, inside the
/// given runtime, with the given temporality.
#[verifier::external_body]
pub(crate) fn metric_exporter_grpc(
    runtime: &Handle,
    endpoint: &str,
    timeout_secs: u64,
    temporality: Temporality,
) -> (r: Result<MetricExporter, ExporterBuildError>) {
    let sums = match temporality {
        Temporality::Cumulative => opentelemetry_sdk::metrics::Temporality::Cumulative,
        Temporality::Delta => opentelemetry_sdk::metrics::Temporality::Delta,
    };
    let _entered = runtime.enter();
    MetricExporter::builder().with_tonic().with_endpoint(endpoint).with_protocol(
        Protocol::Grpc,
    ).with_timeout(Duration::from_secs(timeout_secs)).with_temporality(sums).build()
}

/// `MetricExporter::builder().with_http()` and its `build`, with the JSON
/// encoding and the given temporality.
#[verifier::external_body]
pub(crate) fn metric_exporter_http_json(
    endpoint: &str,
    timeout_secs: u64,
    temporality: Temporality,
) -> (r: Result<MetricExporter, ExporterBuildError>) {
    let sums = match temporality {
        Temporality::Cumulative => opentelemetry_sdk::metrics::Temporality::Cumulative,
        Temporality::Delta => opentelemetry_sdk::metrics::Temporality::Delta,
    };
    MetricExporter::builder().with_http().with_endpoint(endpoint).with_protocol(
        Protocol::HttpJson,
    ).with_timeout(Duration::from_secs(timeout_secs)).with_temporality(sums).build()
}

/// `BatchSpanProcessor::builder` and `SdkTracerProvider::builder`: a trace
/// pipeline that batches by the policy, bounds each span by the limits,
/// draws random ids and carries the resource. It starts the background
/// thread of the pipeline.
#[verifier::external_body]
pub(crate) fn start_trace_pipeline(
    exporter: SpanExporter,
    policy: &BatchingPolicy,
    limits: &SpanLimits,
    resource: Resource,
) -> (provider: SdkTracerProvider) {
    let batch = opentelemetry_sdk::trace::BatchConfigBuilder::default().with_max_queue_size(
        policy.max_queue_size,
    ).with_max_export_batch_size(policy.max_export_batch_size).with_scheduled_delay(
        Duration::from_millis(policy.scheduled_delay_ms),
    ).build();
    let processor = BatchSpanProcessor::builder(exporter).with_batch_config(batch).build();
    SdkTracerProvider::builder().with_span_processor(processor).with_id_generator(
        RandomIdGenerator::default(),
    ).with_max_attributes_per_span(limits.max_attributes_per_span).with_max_events_per_span(
        limits.max_events_per_span,
    ).with_max_links_per_span(limits.max_links_per_span).with_resource(resource).build()
}

/// `BatchLogProcessor::builder` and `SdkLoggerProvider::builder`: a log
/// pipeline that batches by the policy and carries the resource. It starts
/// the background thread of the pipeline.
#[verifier::external_body]
pub(crate) fn start_log_pipeline(
    exporter: LogExporter,
    policy: &BatchingPolicy,
    resource: Resource,
) -> (provider: SdkLoggerProvider) {
    let batch = opentelemetry_sdk::logs::BatchConfigBuilder::default().with_max_queue_size(
        policy.max_queue_size,
    ).with_max_export_batch_size(policy.max_export_batch_size).with_scheduled_delay(
        Duration::from_millis(policy.scheduled_delay_ms),
    ).build();
    let processor = BatchLogProcessor::builder(exporter).with_batch_config(batch).build();
    SdkLoggerProvider::builder().with_log_processor(processor).with_resource(resource).build()
}

/// `PeriodicReader::builder` and `SdkMeterProvider::builder`: a metric
/// pipeline that exports on the given interval and carries the resource.
/// It starts the background thread of the pipeline. The SDK takes an
/// interval of zero for its own default, so zero is left out.
#[verifier::external_body]
pub(crate) fn start_metric_pipeline(
    exporter: MetricExporter,
    interval_ms: u64,
    resource: Resource,
) -> (provider: SdkMeterProvider)
    requires
        interval_ms > 0,
{
    let reader = PeriodicReader::builder(exporter).with_interval(
        Duration::from_millis(interval_ms),
    ).build();
    SdkMeterProvider::builder().with_resource(resource).with_reader(reader).build()
}

/// `global::set_text_map_propagator` with the trace-context propagator:
/// from here on span parents cross process boundaries in that format.
#[verifier::external_body]
pub(crate) fn register_propagator() {
    opentelemetry::global::set_text_map_propagator(TraceContextPropagator::new());
}

/// `global::set_tracer_provider` with a clone of the provider.
#[verifier::external_body]
pub(crate) fn register_tracer_provider(provider: &SdkTracerProvider) {
    let _ = opentelemetry::global::set_tracer_provider(provider.clone());
}

/// `global::set_meter_provider` with a clone of the provider.
#[verifier::external_body]
pub(crate) fn register_meter_provider(provider: &SdkMeterProvider) {
    opentelemetry::global::set_meter_provider(provider.clone());
}

/// `EnvFilter::try_from_default_env`: the filter that the environment of
/// the process asks for; an error where it asks for none or for one that
/// does not parse.
#[verifier::external_body]
pub(crate) fn filter_from_environment() -> (r: Result<EnvFilter, FromEnvError>) {
    EnvFilter::try_from_default_env()
}

/// `EnvFilter::try_new`: the filter that the directives describe; an error
/// where one of them does not parse.
#[verifier::external_body]
pub(crate) fn parse_filter(directives: &str) -> (r: Result<EnvFilter, ParseError>) {
    EnvFilter::try_new(directives)
}

/// `EnvFilter::add_directive` with the parsed directive: the filter with
/// one more directive; an error where the directive does not parse.
#[verifier::external_body]
pub(crate) fn add_directive(filter: EnvFilter, directive: &str) -> (r: Result<
    EnvFilter,
    ParseError,
>) {
    match directive.parse() {
        Ok(parsed) => Ok(filter.add_directive(parsed)),
        Err(e) => Err(e),
    }
}

/// Composes the sink of the process and installs it with `try_init`. The
/// consumers are attached in this order: the log exporter
/// (`OpenTelemetryTracingBridge`), the trace exporter (`OpenTelemetryLayer`
/// on a tracer of the given name), the console formatter; the filter is
/// shared by all three. It fails where the process already has a sink.
#[verifier::external_body]
pub(crate) fn install_sink(
    logs: &SdkLoggerProvider,
    traces: &SdkTracerProvider,
    tracer_name: &'static str,
    filter: EnvFilter,
    format: &FormatterOptions,
) -> (r: Result<(), TryInitError>) {
    let events = if format.span_close { FmtSpan::CLOSE } else { FmtSpan::NONE };
    let console = tracing_subscriber::fmt::layer().with_target(format.target).with_thread_ids(
        format.thread_ids,
    ).with_thread_names(format.thread_names).with_line_number(format.line_number).with_timer(
        ChronoUtc::rfc_3339(),
    ).with_span_events(events).with_level(format.level).with_ansi(format.ansi);
    tracing_subscriber::registry().with(OpenTelemetryTracingBridge::new(logs)).with(
        OpenTelemetryLayer::new(traces.tracer(tracer_name)),
    ).with(console).with(filter).try_init()
}

/// `SdkTracerProvider::shutdown`: drains and closes the trace pipeline.
#[verifier::external_body]
pub(crate) fn shutdown_tracer_provider(provider: &SdkTracerProvider) -> (r: Result<
    (),
    OTelSdkError,
>) {
    provider.shutdown()
}

/// `SdkMeterProvider::shutdown`: drains and closes the metric pipeline.
#[verifier::external_body]
pub(crate) fn shutdown_meter_provider(provider: &SdkMeterProvider) -> (r: Result<
    (),
    OTelSdkError,
>) {
    provider.shutdown()
}

/// `SdkLoggerProvider::shutdown`: drains and closes the log pipeline.
#[verifier::external_body]
pub(crate) fn shutdown_logger_provider(provider: &SdkLoggerProvider) -> (r: Result<
    (),
    OTelSdkError,
>) {
    provider.shutdown()
}

/// Tells the three variants of `OTelSdkError` apart.
#[verifier::external_body]
pub(crate) fn failure_kind(error: &OTelSdkError) -> (kind: FailureKind) {
    match error {
        OTelSdkError::AlreadyShutdown => FailureKind::AlreadyShutdown,
        OTelSdkError::Timeout(_) => FailureKind::TimedOut,
        OTelSdkError::InternalFailure(_) => FailureKind::Internal,
    }
}

/// The text that `OTelSdkError` displays.
#[verifier::external_body]
pub(crate) fn failure_detail(error: &OTelSdkError) -> (detail: String) {
    format!("{}", error)
}

/// `Meter::u64_counter` on the meter of the given scope: a counter of the
/// given name. An invalid name gives a counter that records nothing.
#[verifier::external_body]
pub(crate) fn register_counter(
    provider: &SdkMeterProvider,
    scope: &'static str,
    name: &'static str,
    description: &'static str,
) -> (counter: Counter<u64>) {
    provider.meter(scope).u64_counter(name).with_description(description).build()
}

/// `Meter::u64_histogram` on the meter of the given scope: a histogram of
/// the given name. An invalid name gives a histogram that records nothing.
#[verifier::external_body]
pub(crate) fn register_histogram(
    provider: &SdkMeterProvider,
    scope: &'static str,
    name: &'static str,
    description: &'static str,
) -> (histogram: Histogram<u64>) {
    provider.meter(scope).u64_histogram(name).with_description(description).build()
}

/// `Counter::add`: adds the value under the given attributes.
#[verifier::external_body]
pub(crate) fn counter_add(counter: &Counter<u64>, value: u64, attributes: &Vec<Attribute>) {
    let pairs: Vec<KeyValue> =
        attributes.iter().map(|a| KeyValue::new(a.key.clone(), a.value.clone())).collect();
    counter.add(value, &pairs);
}

/// `Histogram::record`: records the value under the given attributes.
#[verifier::external_body]
pub(crate) fn histogram_record(histogram: &Histogram<u64>, value: u64, attributes: &Vec<Attribute>) {
    let pairs: Vec<KeyValue> =
        attributes.iter().map(|a| KeyValue::new(a.key.clone(), a.value.clone())).collect();
    histogram.record(value, &pairs);
}

} // verus!
