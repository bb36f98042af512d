//! Endpoint configuration and the policies that the pipelines are built with.

use vstd::prelude::*;
use crate::error::ConstructionError;
use crate::protocol::{selector_protocol, WireProtocol};
use crate::resource::Attribute;
use crate::signal::SignalKind;

verus! {

/// Where each signal is sent, and over which protocol. The three URLs may
/// differ; the protocol is shared.
#[derive(Clone, Debug)]
pub struct TelemetryProviderConfig {
    /// Destination of the spans.
    pub trace_url: String,
    /// Destination of the log records.
    pub log_url: String,
    /// Destination of the metrics.
    pub metric_url: String,
    /// The wire protocol of all three exporters.
    pub protocol: WireProtocol,
}

impl TelemetryProviderConfig {
    /// The URL of the given signal.
    pub open spec fn spec_url_for(self, kind: SignalKind) -> Seq<char> {
        match kind {
            SignalKind::Trace => self.trace_url@,
            SignalKind::Log => self.log_url@,
            SignalKind::Metric => self.metric_url@,
        }
    }

    /// A configuration that sends all three signals to one collector.
    pub fn uniform(url: &str, protocol: WireProtocol) -> (config: TelemetryProviderConfig)
        ensures
            config.trace_url@ == url@,
            config.log_url@ == url@,
            config.metric_url@ == url@,
            config.protocol == protocol,
    {
        TelemetryProviderConfig {
            trace_url: url.to_owned(),
            log_url: url.to_owned(),
            metric_url: url.to_owned(),
            protocol,
        }
    }

    /// A configuration that sends all three signals to one collector, with
    /// the protocol given by its selector. A selector other than `grpc` and
    /// `http_json` is refused.
    pub fn from_selector(url: &str, selector: &str) -> (r: Result<
        TelemetryProviderConfig,
        ConstructionError,
    >)
        ensures
            match selector_protocol(selector@) {
                Some(p) => r is Ok && r->Ok_0.protocol == p && r->Ok_0.trace_url@ == url@
                    && r->Ok_0.log_url@ == url@ && r->Ok_0.metric_url@ == url@,
                None => r == Err::<TelemetryProviderConfig, ConstructionError>(
                    ConstructionError::InvalidProtocol,
                ),
            },
    {
        match WireProtocol::from_selector(selector) {
            Ok(protocol) => Ok(TelemetryProviderConfig::uniform(url, protocol)),
            Err(e) => Err(e),
        }
    }

    /// The URL of the given signal.
    pub fn url_for(&self, kind: SignalKind) -> (url: &String)
        ensures
            url@ == self.spec_url_for(kind),
    {
        match kind {
            SignalKind::Trace => &self.trace_url,
            SignalKind::Log => &self.log_url,
            SignalKind::Metric => &self.metric_url,
        }
    }

    /// A copy of this configuration.
    pub fn duplicate(&self) -> (config: TelemetryProviderConfig)
        ensures
            config.trace_url@ == self.trace_url@,
            config.log_url@ == self.log_url@,
            config.metric_url@ == self.metric_url@,
            config.protocol == self.protocol,
    {
        TelemetryProviderConfig {
            trace_url: self.trace_url.clone(),
            log_url: self.log_url.clone(),
            metric_url: self.metric_url.clone(),
            protocol: self.protocol,
        }
    }
}

/// How the metric exporter reports sums over time.
#[derive(Clone, Copy, Debug, PartialEq, Eq, Structural)]
pub enum Temporality {
    /// Each export carries the total since the start.
    Cumulative,
    /// Each export carries the change since the last export.
    Delta,
}

/// Seconds that the exporter of a signal may take for one request:
/// 3 for traces, 5 for logs and for metrics.
pub open spec fn spec_export_timeout_secs(kind: SignalKind) -> u64 {
    match kind {
        SignalKind::Trace => 3,
        SignalKind::Log => 5,
        SignalKind::Metric => 5,
    }
}

/// Seconds that the exporter of a signal may take for one request.
pub fn export_timeout_secs(kind: SignalKind) -> (secs: u64)
    ensures
        secs == spec_export_timeout_secs(kind),
{
    match kind {
        SignalKind::Trace => 3,
        SignalKind::Log => 5,
        SignalKind::Metric => 5,
    }
}

/// What an exporter is built from.
#[derive(Debug)]
pub struct ExporterSettings {
    /// The destination URL.
    pub endpoint: String,
    /// The wire protocol.
    pub protocol: WireProtocol,
    /// Seconds allowed for one request.
    pub timeout_secs: u64,
    /// How sums are reported; read by the metric exporter only.
    pub temporality: Temporality,
}

impl ExporterSettings {
    /// The settings of the exporter of one signal for an endpoint and a
    /// protocol: the timeout of that signal and cumulative sums.
    pub fn for_endpoint(kind: SignalKind, endpoint: String, protocol: WireProtocol) -> (s:
        ExporterSettings)
        ensures
            s.endpoint == endpoint,
            s.protocol == protocol,
            s.timeout_secs == spec_export_timeout_secs(kind),
            s.temporality == Temporality::Cumulative,
    {
        ExporterSettings {
            endpoint,
            protocol,
            timeout_secs: export_timeout_secs(kind),
            temporality: Temporality::Cumulative,
        }
    }

    /// The settings of the exporter of one signal under a configuration:
    /// the URL of that signal, the shared protocol, the timeout of that
    /// signal and cumulative sums.
    pub fn for_signal(config: &TelemetryProviderConfig, kind: SignalKind) -> (s: ExporterSettings)
        ensures
            s.endpoint@ == config.spec_url_for(kind),
            s.protocol == config.protocol,
            s.timeout_secs == spec_export_timeout_secs(kind),
            s.temporality == Temporality::Cumulative,
    {
        ExporterSettings::for_endpoint(kind, config.url_for(kind).clone(), config.protocol)
    }
}

/// How a pipeline buffers what it is given before it exports.
#[derive(Clone, Copy, Debug, PartialEq, Eq, Structural)]
pub struct BatchingPolicy {
    /// Most units that wait in the queue.
    pub max_queue_size: usize,
    /// Most units in one export.
    pub max_export_batch_size: usize,
    /// Milliseconds between two exports of a batching pipeline.
    pub scheduled_delay_ms: u64,
    /// Milliseconds between two exports of the metric pipeline, which
    /// exports on a fixed interval whatever the volume; `None` elsewhere.
    pub periodic_interval_ms: Option<u64>,
}

impl BatchingPolicy {
    /// A batch never exceeds the queue, and a periodic interval is positive.
    pub open spec fn wf(self) -> bool {
        &&& self.max_export_batch_size <= self.max_queue_size
        &&& self.periodic_interval_ms matches Some(interval) ==> interval > 0
    }

    /// The policy of each signal: traces queue 2048 units and export up to
    /// 512 every 5 s; logs queue 4096 and export up to 512 every 500 ms;
    /// metrics are exported every second.
    pub open spec fn spec_for_signal(kind: SignalKind) -> BatchingPolicy {
        match kind {
            SignalKind::Trace => BatchingPolicy {
                max_queue_size: 2048,
                max_export_batch_size: 512,
                scheduled_delay_ms: 5000,
                periodic_interval_ms: None,
            },
            SignalKind::Log => BatchingPolicy {
                max_queue_size: 4096,
                max_export_batch_size: 512,
                scheduled_delay_ms: 500,
                periodic_interval_ms: None,
            },
            SignalKind::Metric => BatchingPolicy {
                max_queue_size: 0,
                max_export_batch_size: 0,
                scheduled_delay_ms: 0,
                periodic_interval_ms: Some(1000),
            },
        }
    }

    /// Milliseconds between two exports of the metric pipeline.
    pub fn metric_export_interval_ms() -> (ms: u64)
        ensures
            ms > 0,
            BatchingPolicy::spec_for_signal(SignalKind::Metric).periodic_interval_ms == Some(ms),
    {
        1000
    }

    /// A batching policy from the three numbers. A batch size above the
    /// queue size is lowered to the queue size.
    pub fn batching(max_queue_size: usize, max_export_batch_size: usize, scheduled_delay_ms: u64) -> (p:
        BatchingPolicy)
        ensures
            p.wf(),
            p.max_queue_size == max_queue_size,
            p.max_export_batch_size == if max_export_batch_size <= max_queue_size {
                max_export_batch_size
            } else {
                max_queue_size
            },
            p.scheduled_delay_ms == scheduled_delay_ms,
            p.periodic_interval_ms is None,
    {
        let batch: usize = if max_export_batch_size <= max_queue_size {
            max_export_batch_size
        } else {
            max_queue_size
        };
        BatchingPolicy {
            max_queue_size,
            max_export_batch_size: batch,
            scheduled_delay_ms,
            periodic_interval_ms: None,
        }
    }

    /// The policy of each signal.
    pub fn for_signal(kind: SignalKind) -> (p: BatchingPolicy)
        ensures
            p == BatchingPolicy::spec_for_signal(kind),
            p.wf(),
    {
        match kind {
            SignalKind::Trace => BatchingPolicy::batching(2048, 512, 5000),
            SignalKind::Log => BatchingPolicy::batching(4096, 512, 500),
            SignalKind::Metric => BatchingPolicy {
                max_queue_size: 0,
                max_export_batch_size: 0,
                scheduled_delay_ms: 0,
                periodic_interval_ms: Some(BatchingPolicy::metric_export_interval_ms()),
            },
        }
    }
}

/// Logs are given the larger queue and the shorter delay, since there are
/// more of them and they are wanted sooner.
pub proof fn lemma_logs_flush_sooner()
    ensures
        BatchingPolicy::spec_for_signal(SignalKind::Log).max_queue_size
            > BatchingPolicy::spec_for_signal(SignalKind::Trace).max_queue_size,
        BatchingPolicy::spec_for_signal(SignalKind::Log).scheduled_delay_ms
            < BatchingPolicy::spec_for_signal(SignalKind::Trace).scheduled_delay_ms,
{
}

/// Ceilings on what one span may carry, so that memory and payload stay
/// bounded whatever the instrumentation does.
#[derive(Clone, Copy, Debug, PartialEq, Eq, Structural)]
pub struct SpanLimits {
    /// Most attributes of one span.
    pub max_attributes_per_span: u32,
    /// Most events of one span.
    pub max_events_per_span: u32,
    /// Most links of one span.
    pub max_links_per_span: u32,
}

impl SpanLimits {
    /// The ceilings in use: 16 of each.
    pub open spec fn spec_standard() -> SpanLimits {
        SpanLimits { max_attributes_per_span: 16, max_events_per_span: 16, max_links_per_span: 16 }
    }

    /// The ceilings in use: 16 of each.
    pub fn standard() -> (limits: SpanLimits)
        ensures
            limits == SpanLimits::spec_standard(),
    {
        SpanLimits { max_attributes_per_span: 16, max_events_per_span: 16, max_links_per_span: 16 }
    }
}

/// What the surroundings of the process supply for the default
/// construction path. A field that is `None` was not set.
#[derive(Debug)]
pub struct EnvironmentSettings {
    /// Name of the application.
    pub app_name: Option<String>,
    /// Deployment environment.
    pub environment: Option<String>,
    /// URL of the collector, shared by the three signals.
    pub telemetry_url: Option<String>,
    /// Protocol selector.
    pub telemetry_protocol: Option<String>,
    /// Version of the package that is being run.
    pub package_version: String,
    /// Name of the package that is being run.
    pub package_name: String,
}

/// The value that was set, or else the fallback.
pub open spec fn value_or(given: Option<String>, fallback: Seq<char>) -> Seq<char> {
    match given {
        Some(s) => s@,
        None => fallback,
    }
}

/// The value that was set, or else the fallback.
pub fn resolve(given: &Option<String>, fallback: &str) -> (s: String)
    ensures
        s@ == value_or(*given, fallback@),
{
    match given {
        Some(s) => s.clone(),
        None => fallback.to_owned(),
    }
}

impl EnvironmentSettings {
    /// The attributes of the default path, in this order: `service.name`
    /// (the application name, else `application`), `service.version` (the
    /// package version), `service.environment` (the environment, else
    /// `development`) and `job` (the package name).
    pub fn default_attributes(&self) -> (attrs: Vec<Attribute>)
        ensures
            attrs@.len() == 4,
            attrs@[0].key@ == "service.name"@,
            attrs@[0].value@ == value_or(self.app_name, "application"@),
            attrs@[1].key@ == "service.version"@,
            attrs@[1].value@ == self.package_version@,
            attrs@[2].key@ == "service.environment"@,
            attrs@[2].value@ == value_or(self.environment, "development"@),
            attrs@[3].key@ == "job"@,
            attrs@[3].value@ == self.package_name@,
    {
        let mut attrs: Vec<Attribute> = Vec::new();
        attrs.push(
            Attribute { key: "service.name".to_owned(), value: resolve(&self.app_name, "application") },
        );
        attrs.push(
            Attribute { key: "service.version".to_owned(), value: self.package_version.clone() },
        );
        attrs.push(
            Attribute {
                key: "service.environment".to_owned(),
                value: resolve(&self.environment, "development"),
            },
        );
        attrs.push(Attribute { key: "job".to_owned(), value: self.package_name.clone() });
        attrs
    }

    /// The configuration of the default path: all three signals go to the
    /// collector URL (else `http://localhost:4317`), over the protocol that
    /// the selector names (else `grpc`). A selector that names no protocol
    /// is refused.
    pub fn default_config(&self) -> (r: Result<TelemetryProviderConfig, ConstructionError>)
        ensures
            match selector_protocol(value_or(self.telemetry_protocol, "grpc"@)) {
                Some(p) => {
                    let url = value_or(self.telemetry_url, "http://localhost:4317"@);
                    r is Ok && r->Ok_0.protocol == p && r->Ok_0.trace_url@ == url
                        && r->Ok_0.log_url@ == url && r->Ok_0.metric_url@ == url
                },
                None => r == Err::<TelemetryProviderConfig, ConstructionError>(
                    ConstructionError::InvalidProtocol,
                ),
            },
    {
        let url = resolve(&self.telemetry_url, "http://localhost:4317");
        let selector = resolve(&self.telemetry_protocol, "grpc");
        TelemetryProviderConfig::from_selector(url.as_str(), selector.as_str())
    }
}

} // verus!
