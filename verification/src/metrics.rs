//! The metric pipeline, and ready-made instruments on it.

use vstd::prelude::*;
use opentelemetry::metrics::{Counter, Histogram};
use opentelemetry_sdk::metrics::SdkMeterProvider;
use opentelemetry_sdk::Resource;
use crate::config::{BatchingPolicy, ExporterSettings};
use crate::error::ConstructionError;
use crate::exporter::{build_metric_exporter, factory_error};
use crate::protocol::WireProtocol;
use crate::resource::Attribute;
use crate::sdk::{
    counter_add, histogram_record, register_counter, register_histogram, register_meter_provider,
    start_metric_pipeline,
};
use crate::signal::SignalKind;

verus! {

/// Builds the metric pipeline and makes it the one of the process.
///
/// The exporter is built first; where that fails nothing else has
/// happened. Then the pipeline is started with the export interval of
/// metrics, and the provider is registered as the global meter provider.
pub fn init_meter_provider(collector_url: String, protocol: WireProtocol, resource: Resource) -> (r:
    Result<SdkMeterProvider, ConstructionError>)
    ensures
        r matches Err(e) ==> factory_error(e, SignalKind::Metric, protocol),
{
    let settings = ExporterSettings::for_endpoint(SignalKind::Metric, collector_url, protocol);
    let exporter = match build_metric_exporter(&settings) {
        Ok(exporter) => exporter,
        Err(e) => {
            return Err(e);
        },
    };
    let interval_ms: u64 = BatchingPolicy::metric_export_interval_ms();
    let provider = start_metric_pipeline(exporter, interval_ms, resource);
    register_meter_provider(&provider);
    Ok(provider)
}

/// The amount that an increment adds: the weight where one is given,
/// else 1.
pub open spec fn increment_amount(weight: Option<u64>) -> u64 {
    match weight {
        Some(w) => w,
        None => 1,
    }
}

/// Four instruments registered on a metric pipeline, for call sites that
/// want them ready: a counter of requests, a histogram of request
/// durations, a counter of successes and a counter of errors. Every
/// measurement is recorded under the attributes that the facade was bound
/// to; the attributes are taken as they are.
#[derive(Debug)]
pub struct MetricsFacade {
    requests: Counter<u64>,
    request_duration: Histogram<u64>,
    successes: Counter<u64>,
    errors: Counter<u64>,
    attributes: Vec<Attribute>,
}

impl MetricsFacade {
    /// The attributes that every measurement is recorded under.
    pub closed spec fn spec_attributes(&self) -> Seq<Attribute> {
        self.attributes@
    }

    /// Registers the four instruments on the pipeline: `requests_total`,
    /// `request_duration_ms`, `requests_success_total` and
    /// `requests_error_total`, in the scope `app`.
    pub fn register(provider: &SdkMeterProvider, attributes: Vec<Attribute>) -> (facade:
        MetricsFacade)
        ensures
            facade.spec_attributes() == attributes@,
    {
        MetricsFacade {
            requests: register_counter(provider, "app", "requests_total", "Requests received"),
            request_duration: register_histogram(
                provider,
                "app",
                "request_duration_ms",
                "Duration of requests in milliseconds",
            ),
            successes: register_counter(
                provider,
                "app",
                "requests_success_total",
                "Requests that succeeded",
            ),
            errors: register_counter(
                provider,
                "app",
                "requests_error_total",
                "Requests that failed",
            ),
            attributes,
        }
    }

    /// The attributes that every measurement is recorded under.
    pub fn attributes(&self) -> (attributes: &Vec<Attribute>)
        ensures
            attributes@ == self.spec_attributes(),
    {
        &self.attributes
    }

    /// Adds to the request counter: the weight where one is given, else 1.
    /// Returns the amount added.
    pub fn increment_request_counter(&self, weight: Option<u64>) -> (added: u64)
        ensures
            added == increment_amount(weight),
    {
        let amount: u64 = match weight {
            Some(w) => w,
            None => 1,
        };
        counter_add(&self.requests, amount, &self.attributes);
        amount
    }

    /// Adds 1 to the success counter. Returns the amount added.
    pub fn increment_success_counter(&self) -> (added: u64)
        ensures
            added == 1,
    {
        counter_add(&self.successes, 1, &self.attributes);
        1
    }

    /// Adds 1 to the error counter. Returns the amount added.
    pub fn increment_error_counter(&self) -> (added: u64)
        ensures
            added == 1,
    {
        counter_add(&self.errors, 1, &self.attributes);
        1
    }

    /// Records the duration of one request, in milliseconds. Returns the
    /// duration recorded.
    pub fn record_request_duration(&self, millis: u64) -> (recorded: u64)
        ensures
            recorded == millis,
    {
        histogram_record(&self.request_duration, millis, &self.attributes);
        millis
    }
}

} // verus!
