//! The log pipeline.

use vstd::prelude::*;
use opentelemetry_sdk::logs::SdkLoggerProvider;
use opentelemetry_sdk::Resource;
use crate::config::{BatchingPolicy, ExporterSettings};
use crate::error::ConstructionError;
use crate::exporter::{build_log_exporter, factory_error};
use crate::protocol::WireProtocol;
use crate::sdk::start_log_pipeline;
use crate::signal::SignalKind;

verus! {

/// Builds the log pipeline.
///
/// The exporter is built first; where that fails nothing else has
/// happened. Then the pipeline is started with the batching policy of
/// logs.
pub fn init_log_provider(log_url: String, protocol: WireProtocol, resource: Resource) -> (r: Result<
    SdkLoggerProvider,
    ConstructionError,
>)
    ensures
        r matches Err(e) ==> factory_error(e, SignalKind::Log, protocol),
{
    let settings = ExporterSettings::for_endpoint(SignalKind::Log, log_url, protocol);
    let exporter = match build_log_exporter(&settings) {
        Ok(exporter) => exporter,
        Err(e) => {
            return Err(e);
        },
    };
    let policy = BatchingPolicy::for_signal(SignalKind::Log);
    Ok(start_log_pipeline(exporter, &policy, resource))
}

} // verus!
