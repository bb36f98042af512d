//! Error taxonomy of the provider.

use vstd::prelude::*;
use crate::signal::SignalKind;

verus! {

/// Why a provider could not be constructed. Every variant is fatal: no
/// provider exists afterwards and nothing is retried.
#[derive(Clone, Copy, Debug, PartialEq, Eq, Structural)]
pub enum ConstructionError {
    /// The protocol selector names neither `grpc` nor `http_json`.
    InvalidProtocol,
    /// The attribute set lacks `service.name`.
    MissingAttribute,
    /// The gRPC transport was asked for outside an asynchronous runtime.
    RuntimeUnavailable,
    /// The exporter of the given signal could not be built.
    ExporterBuild(SignalKind),
    /// The verbosity filter could not be built.
    FilterRejected,
    /// The process already has an instrumentation sink.
    DuplicateInstallation,
}

/// Why a shutdown request was refused.
#[derive(Clone, Copy, Debug, PartialEq, Eq, Structural)]
pub enum ShutdownError {
    /// The provider was shut down before; its pipelines are closed.
    AlreadyClosed,
}

/// Why an operation on a pipeline was refused.
#[derive(Clone, Copy, Debug, PartialEq, Eq, Structural)]
pub enum OperationError {
    /// The pipeline is closed, and the provider rejects what comes after.
    PipelineClosed,
}

impl ConstructionError {
    /// The text shown to the operator when startup is aborted.
    pub open spec fn spec_message(self) -> Seq<char> {
        match self {
            ConstructionError::InvalidProtocol => "Invalid telemetry protocol"@,
            ConstructionError::MissingAttribute => "Missing resource attribute service.name"@,
            ConstructionError::RuntimeUnavailable => "No asynchronous runtime for the gRPC transport"@,
            ConstructionError::ExporterBuild(SignalKind::Trace) => "Failed to create OTLP span exporter"@,
            ConstructionError::ExporterBuild(SignalKind::Log) => "Failed to create OTLP log exporter"@,
            ConstructionError::ExporterBuild(SignalKind::Metric) => "Failed to create OTLP metric exporter"@,
            ConstructionError::FilterRejected => "Failed to create EnvFilter"@,
            ConstructionError::DuplicateInstallation => "An instrumentation sink is already installed"@,
        }
    }

    /// The text shown to the operator when startup is aborted.
    pub fn message(&self) -> (s: &'static str)
        ensures
            s@ == self.spec_message(),
    {
        match self {
            ConstructionError::InvalidProtocol => "Invalid telemetry protocol",
            ConstructionError::MissingAttribute => "Missing resource attribute service.name",
            ConstructionError::RuntimeUnavailable => "No asynchronous runtime for the gRPC transport",
            ConstructionError::ExporterBuild(SignalKind::Trace) => "Failed to create OTLP span exporter",
            ConstructionError::ExporterBuild(SignalKind::Log) => "Failed to create OTLP log exporter",
            ConstructionError::ExporterBuild(SignalKind::Metric) => "Failed to create OTLP metric exporter",
            ConstructionError::FilterRejected => "Failed to create EnvFilter",
            ConstructionError::DuplicateInstallation => "An instrumentation sink is already installed",
        }
    }
}

impl ShutdownError {
    /// The text shown to the operator.
    pub open spec fn spec_message(self) -> Seq<char> {
        match self {
            ShutdownError::AlreadyClosed => "Telemetry provider is already shut down"@,
        }
    }

    /// The text shown to the operator.
    pub fn message(&self) -> (s: &'static str)
        ensures
            s@ == self.spec_message(),
    {
        match self {
            ShutdownError::AlreadyClosed => "Telemetry provider is already shut down",
        }
    }
}

} // verus!
