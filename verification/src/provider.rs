//! The telemetry provider: three pipelines and the sink of the process,
//! built together and shut down together.

use vstd::prelude::*;
use opentelemetry_sdk::error::OTelSdkError;
use opentelemetry_sdk::logs::SdkLoggerProvider;
use opentelemetry_sdk::metrics::SdkMeterProvider;
use opentelemetry_sdk::trace::SdkTracerProvider;
use crate::bridge::{build_filter, install_bridge, FormatterOptions};
use crate::config::{
    value_or, BatchingPolicy, EnvironmentSettings, ExporterSettings, TelemetryProviderConfig,
};
use crate::error::{ConstructionError, OperationError, ShutdownError};
use crate::lifecycle::{Admission, ClosedPolicy, LifecycleEvent, PipelineState};
use crate::logs::init_log_provider;
use crate::metrics::{increment_amount, init_meter_provider, MetricsFacade};
use crate::protocol::{selector_protocol, WireProtocol};
use crate::resource::{
    attribute_map, service_environment_key, service_name_key, service_version_key, Attribute,
    ResourceDescriptor,
};
use crate::sdk::{
    failure_detail, failure_kind, share_resource, shutdown_logger_provider,
    shutdown_meter_provider, shutdown_tracer_provider,
};
use crate::shutdown::{PipelineOutcome, ShutdownReport};
use crate::signal::SignalKind;
use crate::tracer::init_tracer_provider;

verus! {

/// The states of the three pipelines of a provider.
#[derive(Clone, Copy, Debug, PartialEq, Eq, Structural)]
pub struct Lifecycle {
    /// The state of the trace pipeline.
    pub trace: PipelineState,
    /// The state of the metric pipeline.
    pub metric: PipelineState,
    /// The state of the log pipeline.
    pub log: PipelineState,
}

impl Lifecycle {
    /// All three pipelines in one state.
    pub open spec fn uniform(state: PipelineState) -> Lifecycle {
        Lifecycle { trace: state, metric: state, log: state }
    }

    /// The state of the pipeline of a signal.
    pub open spec fn spec_state(self, kind: SignalKind) -> PipelineState {
        match kind {
            SignalKind::Trace => self.trace,
            SignalKind::Metric => self.metric,
            SignalKind::Log => self.log,
        }
    }

    /// The state of the pipeline of a signal.
    pub fn state(&self, kind: SignalKind) -> (state: PipelineState)
        ensures
            state == self.spec_state(kind),
    {
        match kind {
            SignalKind::Trace => self.trace,
            SignalKind::Metric => self.metric,
            SignalKind::Log => self.log,
        }
    }
}

/// The outcome that stands for what the SDK returned from a shutdown.
fn outcome_of(result: Result<(), OTelSdkError>) -> (outcome: PipelineOutcome)
    ensures
        result is Ok <==> outcome@ is Clean,
{
    match result {
        Ok(_) => PipelineOutcome::from_failure(None, String::new()),
        Err(error) => PipelineOutcome::from_failure(
            Some(failure_kind(&error)),
            failure_detail(&error),
        ),
    }
}

/// The root object: it owns the three pipelines, and with them the sink of
/// the process. One provider is built per process, and it is shut down
/// once.
#[derive(Debug)]
pub struct TelemetryProvider {
    meter_provider: SdkMeterProvider,
    logger_provider: SdkLoggerProvider,
    tracer_provider: SdkTracerProvider,
    descriptor: ResourceDescriptor,
    app_name: String,
    config: TelemetryProviderConfig,
    lifecycle: Lifecycle,
    closed_policy: ClosedPolicy,
    facade: MetricsFacade,
}

impl TelemetryProvider {
    /// A provider is either in use, with all three pipelines active, or
    /// shut down, with all three closed; and its descriptor names the
    /// service.
    #[verifier::type_invariant]
    spec fn inv(self) -> bool {
        &&& self.lifecycle == Lifecycle::uniform(PipelineState::Active) || self.lifecycle
            == Lifecycle::uniform(PipelineState::Closed)
        &&& self.descriptor@.contains_key(service_name_key())
        &&& self.descriptor@[service_name_key()] == self.app_name@
    }

    /// The states of the three pipelines.
    pub closed spec fn spec_lifecycle(&self) -> Lifecycle {
        self.lifecycle
    }

    /// The attributes that the provider was built with.
    pub closed spec fn spec_attributes(&self) -> Map<Seq<char>, Seq<char>> {
        self.descriptor@
    }

    /// The configuration that the provider was built with.
    pub closed spec fn spec_config(&self) -> TelemetryProviderConfig {
        self.config
    }

    /// What the provider does with an operation on a closed pipeline.
    pub closed spec fn spec_closed_policy(&self) -> ClosedPolicy {
        self.closed_policy
    }

    /// All three pipelines are active.
    pub open spec fn spec_is_active(&self) -> bool {
        self.spec_lifecycle() == Lifecycle::uniform(PipelineState::Active)
    }

    /// All three pipelines are closed.
    pub open spec fn spec_is_closed(&self) -> bool {
        self.spec_lifecycle() == Lifecycle::uniform(PipelineState::Closed)
    }

    /// Builds the three pipelines and installs the sink of the process.
    ///
    /// The attributes must name the service: without `service.name`
    /// nothing is built and the result is
    /// [`ConstructionError::MissingAttribute`]. Then, in this order: the
    /// shared filter is built; the log pipeline is started; the trace
    /// pipeline is started and registered, with the trace-context
    /// propagator; the metric pipeline is started and registered; the sink
    /// is installed, so that every event from then on reaches the log
    /// pipeline, the trace pipeline and the console. Where a step fails,
    /// the pipelines that were started are shut down again and the error of
    /// that step is returned; no provider exists then.
    ///
    /// On success all three pipelines are active, and the provider keeps
    /// the attributes and the configuration as they were given.
    pub fn new(config: TelemetryProviderConfig, attributes: Vec<Attribute>) -> (r: Result<
        TelemetryProvider,
        ConstructionError,
    >)
        ensures
            !attribute_map(attributes@).contains_key(service_name_key()) ==> r == Err::<
                TelemetryProvider,
                ConstructionError,
            >(ConstructionError::MissingAttribute),
            match r {
                Ok(provider) => {
                    &&& provider.spec_is_active()
                    &&& provider.spec_attributes() == attribute_map(attributes@)
                    &&& provider.spec_config() == config
                    &&& provider.spec_closed_policy() == ClosedPolicy::Ignore
                },
                Err(e) => {
                    &&& e != ConstructionError::InvalidProtocol
                    &&& e == ConstructionError::MissingAttribute ==> !attribute_map(
                        attributes@,
                    ).contains_key(service_name_key())
                    &&& e == ConstructionError::RuntimeUnavailable ==> config.protocol
                        == WireProtocol::Grpc
                },
            },
    {
        let descriptor = ResourceDescriptor::from_attributes(attributes);
        let app_name = match descriptor.service_name() {
            Some(name) => name.clone(),
            None => {
                return Err(ConstructionError::MissingAttribute);
            },
        };
        let resource = descriptor.to_resource();
        let filter = match build_filter() {
            Ok(filter) => filter,
            Err(e) => {
                return Err(e);
            },
        };
        let logger_provider = match init_log_provider(
            config.log_url.clone(),
            config.protocol,
            share_resource(&resource),
        ) {
            Ok(provider) => provider,
            Err(e) => {
                return Err(e);
            },
        };
        let tracer_provider = match init_tracer_provider(
            config.trace_url.clone(),
            config.protocol,
            share_resource(&resource),
        ) {
            Ok(provider) => provider,
            Err(e) => {
                let _ = shutdown_logger_provider(&logger_provider);
                return Err(e);
            },
        };
        let meter_provider = match init_meter_provider(
            config.metric_url.clone(),
            config.protocol,
            resource,
        ) {
            Ok(provider) => provider,
            Err(e) => {
                let _ = shutdown_tracer_provider(&tracer_provider);
                let _ = shutdown_logger_provider(&logger_provider);
                return Err(e);
            },
        };
        let format = FormatterOptions::standard();
        match install_bridge(&logger_provider, &tracer_provider, filter, &format) {
            Ok(_) => {},
            Err(e) => {
                let _ = shutdown_tracer_provider(&tracer_provider);
                let _ = shutdown_meter_provider(&meter_provider);
                let _ = shutdown_logger_provider(&logger_provider);
                return Err(e);
            },
        }
        let facade = MetricsFacade::register(&meter_provider, Vec::new());
        let attached = PipelineState::Constructed.after(LifecycleEvent::Activate);
        Ok(
            TelemetryProvider {
                meter_provider,
                logger_provider,
                tracer_provider,
                descriptor,
                app_name,
                config,
                lifecycle: Lifecycle { trace: attached, metric: attached, log: attached },
                closed_policy: ClosedPolicy::Ignore,
                facade,
            },
        )
    }

    /// Builds a provider on the default path: the attributes and the
    /// configuration are those that [`EnvironmentSettings`] gives. A
    /// protocol selector that names no protocol ends the construction with
    /// [`ConstructionError::InvalidProtocol`] before anything is built.
    pub fn from_environment(settings: &EnvironmentSettings) -> (r: Result<
        TelemetryProvider,
        ConstructionError,
    >)
        ensures
            selector_protocol(value_or(settings.telemetry_protocol, "grpc"@)) is None ==> r
                == Err::<TelemetryProvider, ConstructionError>(ConstructionError::InvalidProtocol),
            r == Err::<TelemetryProvider, ConstructionError>(ConstructionError::InvalidProtocol)
                ==> selector_protocol(value_or(settings.telemetry_protocol, "grpc"@)) is None,
            r matches Ok(provider) ==> (provider.spec_is_active() && selector_protocol(
                value_or(settings.telemetry_protocol, "grpc"@),
            ) == Some(provider.spec_config().protocol)),
    {
        let config = match settings.default_config() {
            Ok(config) => config,
            Err(e) => {
                return Err(e);
            },
        };
        TelemetryProvider::new(config, settings.default_attributes())
    }

    /// Drains and closes the three pipelines: traces first, then metrics,
    /// logs last. Each pipeline is shut down whatever became of the ones
    /// before it, and the report holds the outcome of each. A pipeline
    /// that fails to drain is a warning in the report, not an error of the
    /// shutdown. The provider keeps its three pipelines, now closed.
    ///
    /// A provider is shut down once. On a provider that is closed already
    /// nothing is attempted and the result is [`ShutdownError::AlreadyClosed`].
    pub fn shutdown(&mut self) -> (r: Result<ShutdownReport, ShutdownError>)
        ensures
            final(self).spec_is_closed(),
            final(self).same_pipelines(old(self)),
            final(self).spec_attributes() == old(self).spec_attributes(),
            final(self).spec_config() == old(self).spec_config(),
            final(self).spec_closed_policy() == old(self).spec_closed_policy(),
            old(self).spec_is_closed() ==> r == Err::<ShutdownReport, ShutdownError>(
                ShutdownError::AlreadyClosed,
            ),
            !old(self).spec_is_closed() ==> r is Ok && r->Ok_0.wf() && r->Ok_0@.len() == 3,
    {
        proof {
            use_type_invariant(&*self);
        }
        if self.lifecycle.trace.is_closed() {
            return Err(ShutdownError::AlreadyClosed);
        }
        let draining = Lifecycle {
            trace: self.lifecycle.trace.after(LifecycleEvent::BeginShutdown),
            metric: self.lifecycle.metric.after(LifecycleEvent::BeginShutdown),
            log: self.lifecycle.log.after(LifecycleEvent::BeginShutdown),
        };
        let trace = outcome_of(shutdown_tracer_provider(&self.tracer_provider));
        let metric = outcome_of(shutdown_meter_provider(&self.meter_provider));
        let log = outcome_of(shutdown_logger_provider(&self.logger_provider));
        self.lifecycle = Lifecycle {
            trace: draining.trace.after(LifecycleEvent::Finish),
            metric: draining.metric.after(LifecycleEvent::Finish),
            log: draining.log.after(LifecycleEvent::Finish),
        };
        Ok(ShutdownReport::from_outcomes(trace, metric, log))
    }

    /// Whether the provider was shut down. A provider that was not is
    /// active: there is no state in between.
    pub fn is_closed(&self) -> (closed: bool)
        ensures
            closed == self.spec_is_closed(),
            !closed ==> self.spec_is_active(),
    {
        proof {
            use_type_invariant(self);
        }
        self.lifecycle.trace.is_closed()
    }

    /// The states of the three pipelines.
    pub fn lifecycle(&self) -> (lifecycle: Lifecycle)
        ensures
            lifecycle == self.spec_lifecycle(),
    {
        self.lifecycle
    }

    /// The attributes that the provider was built with.
    pub fn descriptor(&self) -> (descriptor: &ResourceDescriptor)
        ensures
            descriptor@ == self.spec_attributes(),
    {
        &self.descriptor
    }

    /// The configuration that the provider was built with.
    pub fn config(&self) -> (config: &TelemetryProviderConfig)
        ensures
            *config == self.spec_config(),
    {
        &self.config
    }

    /// The batching policy that the pipeline of a signal was built with.
    pub fn policy(&self, kind: SignalKind) -> (policy: BatchingPolicy)
        ensures
            policy == BatchingPolicy::spec_for_signal(kind),
            policy.wf(),
    {
        BatchingPolicy::for_signal(kind)
    }

    /// The settings that the exporter of a signal was built with.
    pub fn exporter_settings(&self, kind: SignalKind) -> (settings: ExporterSettings)
        ensures
            settings.endpoint@ == self.spec_config().spec_url_for(kind),
            settings.protocol == self.spec_config().protocol,
            settings.timeout_secs == crate::config::spec_export_timeout_secs(kind),
            settings.temporality == crate::config::Temporality::Cumulative,
    {
        ExporterSettings::for_signal(&self.config, kind)
    }

    /// The name of the service, for labels and log lines. Every provider
    /// has one: construction fails without it.
    pub fn app_name(&self) -> (name: &String)
        ensures
            self.spec_attributes().contains_key(service_name_key()),
            name@ == self.spec_attributes()[service_name_key()],
    {
        proof {
            use_type_invariant(self);
        }
        &self.app_name
    }

    /// The version of the service, if the attributes give one.
    pub fn app_version(&self) -> (version: Option<&String>)
        ensures
            match version {
                Some(v) => self.spec_attributes().contains_key(service_version_key())
                    && self.spec_attributes()[service_version_key()] == v@,
                None => !self.spec_attributes().contains_key(service_version_key()),
            },
    {
        self.descriptor.service_version()
    }

    /// The deployment environment, if the attributes give one.
    pub fn environment(&self) -> (environment: Option<&String>)
        ensures
            match environment {
                Some(v) => self.spec_attributes().contains_key(service_environment_key())
                    && self.spec_attributes()[service_environment_key()] == v@,
                None => !self.spec_attributes().contains_key(service_environment_key()),
            },
    {
        self.descriptor.service_environment()
    }

    /// The trace pipeline that the provider holds, for what attaches to it.
    pub fn tracer_provider(&self) -> (provider: &SdkTracerProvider)
        ensures *provider == self.spec_tracer_provider(),
    { &self.tracer_provider }

    /// The log pipeline that the provider holds, for what attaches to it.
    pub fn logger_provider(&self) -> (provider: &SdkLoggerProvider)
        ensures *provider == self.spec_logger_provider(),
    { &self.logger_provider }

    /// The metric pipeline that the provider holds, for what attaches to it.
    pub fn meter_provider(&self) -> (provider: &SdkMeterProvider)
        ensures *provider == self.spec_meter_provider(),
    { &self.meter_provider }

    /// The trace pipeline that the provider was built with.
    pub closed spec fn spec_tracer_provider(&self) -> SdkTracerProvider {
        self.tracer_provider
    }

    /// The log pipeline that the provider was built with.
    pub closed spec fn spec_logger_provider(&self) -> SdkLoggerProvider {
        self.logger_provider
    }

    /// The metric pipeline that the provider was built with.
    pub closed spec fn spec_meter_provider(&self) -> SdkMeterProvider {
        self.meter_provider
    }

    /// Two providers hold the same three pipelines.
    pub open spec fn same_pipelines(&self, other: &TelemetryProvider) -> bool {
        &&& self.spec_tracer_provider() == other.spec_tracer_provider()
        &&& self.spec_logger_provider() == other.spec_logger_provider()
        &&& self.spec_meter_provider() == other.spec_meter_provider()
    }

    /// What the provider does with an operation on a closed pipeline.
    pub fn closed_policy(&self) -> (policy: ClosedPolicy)
        ensures
            policy == self.spec_closed_policy(),
    {
        self.closed_policy
    }

    /// Chooses what the provider does with an operation on a closed
    /// pipeline. Nothing else changes.
    pub fn set_closed_policy(&mut self, policy: ClosedPolicy)
        ensures
            final(self).spec_closed_policy() == policy,
            final(self).same_pipelines(old(self)),
            final(self).spec_lifecycle() == old(self).spec_lifecycle(),
            final(self).spec_attributes() == old(self).spec_attributes(),
            final(self).spec_config() == old(self).spec_config(),
    {
        proof {
            use_type_invariant(&*self);
        }
        self.closed_policy = policy;
    }

    /// What an operation on the metric pipeline comes to in the state that
    /// the provider is in: the amount where the pipeline takes it, nothing
    /// where it is dropped, an error where it is rejected.
    pub open spec fn spec_metric_operation(&self, amount: u64) -> Result<u64, OperationError> {
        match self.spec_lifecycle().metric.spec_admission(self.spec_closed_policy()) {
            Admission::Accepted => Ok(amount),
            Admission::Dropped => Ok(0),
            Admission::Rejected => Err(OperationError::PipelineClosed),
        }
    }

    /// Adds to the request counter of the provider: the weight where one
    /// is given, else 1. Returns the amount added. On a closed provider
    /// nothing is added: the result is `Ok(0)` under
    /// [`ClosedPolicy::Ignore`] and [`OperationError::PipelineClosed`]
    /// under [`ClosedPolicy::Reject`].
    pub fn increment_request_counter(&self, weight: Option<u64>) -> (r: Result<
        u64,
        OperationError,
    >)
        ensures
            r == self.spec_metric_operation(increment_amount(weight)),
    {
        match self.lifecycle.metric.admission(self.closed_policy) {
            Admission::Accepted => Ok(self.facade.increment_request_counter(weight)),
            Admission::Dropped => Ok(0),
            Admission::Rejected => Err(OperationError::PipelineClosed),
        }
    }

    /// Adds 1 to the success counter of the provider, under the same rule
    /// for a closed provider as [`Self::increment_request_counter`].
    pub fn increment_success_counter(&self) -> (r: Result<u64, OperationError>)
        ensures
            r == self.spec_metric_operation(1),
    {
        match self.lifecycle.metric.admission(self.closed_policy) {
            Admission::Accepted => Ok(self.facade.increment_success_counter()),
            Admission::Dropped => Ok(0),
            Admission::Rejected => Err(OperationError::PipelineClosed),
        }
    }

    /// Adds 1 to the error counter of the provider, under the same rule
    /// for a closed provider as [`Self::increment_request_counter`].
    pub fn increment_error_counter(&self) -> (r: Result<u64, OperationError>)
        ensures
            r == self.spec_metric_operation(1),
    {
        match self.lifecycle.metric.admission(self.closed_policy) {
            Admission::Accepted => Ok(self.facade.increment_error_counter()),
            Admission::Dropped => Ok(0),
            Admission::Rejected => Err(OperationError::PipelineClosed),
        }
    }
}

} // verus!
