//! The instrumentation sink of the process: what the console formatter
//! records and what the shared filter lets through.

use vstd::prelude::*;
use vstd::string::StringExecFns;
use opentelemetry_sdk::logs::SdkLoggerProvider;
use opentelemetry_sdk::trace::SdkTracerProvider;
use tracing_subscriber::filter::{FromEnvError, ParseError};
use tracing_subscriber::util::TryInitError;
use tracing_subscriber::EnvFilter;
use crate::error::ConstructionError;
use crate::sdk::{add_directive, filter_from_environment, install_sink, parse_filter};

verus! {

/// What the console formatter writes beside the message of an event.
#[derive(Clone, Copy, Debug, PartialEq, Eq, Structural)]
pub struct FormatterOptions {
    /// The component that emitted the event.
    pub target: bool,
    /// The id of the emitting thread.
    pub thread_ids: bool,
    /// The name of the emitting thread.
    pub thread_names: bool,
    /// The source line of the event.
    pub line_number: bool,
    /// The level of the event.
    pub level: bool,
    /// Colours, for a terminal.
    pub ansi: bool,
    /// A line whenever a span closes.
    pub span_close: bool,
}

impl FormatterOptions {
    /// The options in use: everything is written.
    pub open spec fn spec_standard() -> FormatterOptions {
        FormatterOptions {
            target: true,
            thread_ids: true,
            thread_names: true,
            line_number: true,
            level: true,
            ansi: true,
            span_close: true,
        }
    }

    /// The options in use: everything is written.
    pub fn standard() -> (options: FormatterOptions)
        ensures
            options == FormatterOptions::spec_standard(),
    {
        FormatterOptions {
            target: true,
            thread_ids: true,
            thread_names: true,
            line_number: true,
            level: true,
            ansi: true,
            span_close: true,
        }
    }
}

/// The components that the filter always silences: the transport libraries
/// of the exporters, whose own events would otherwise be exported in turn.
pub open spec fn spec_silenced_components() -> Seq<Seq<char>> {
    seq!["hyper"@, "tonic"@, "h2"@, "reqwest"@]
}

/// The components that the filter always silences.
pub fn silenced_components() -> (components: Vec<&'static str>)
    ensures
        components@.len() == spec_silenced_components().len(),
        forall|i: int|
            0 <= i < components@.len() ==> (#[trigger] components@[i])@
                == spec_silenced_components()[i],
{
    let mut components: Vec<&'static str> = Vec::new();
    components.push("hyper");
    components.push("tonic");
    components.push("h2");
    components.push("reqwest");
    components
}

/// The directive that silences a component: its name, then `=off`.
pub open spec fn spec_silencing_directive(component: Seq<char>) -> Seq<char> {
    component + "=off"@
}

/// The directive that silences a component.
pub fn silencing_directive(component: &str) -> (directive: String)
    ensures
        directive@ == spec_silencing_directive(component@),
{
    component.to_owned().concat("=off")
}

/// The verbosity that is used where the environment asks for none.
pub open spec fn spec_default_verbosity() -> Seq<char> {
    "info"@
}

/// The verbosity that is used where the environment asks for none.
pub fn default_verbosity() -> (directives: &'static str)
    ensures
        directives@ == spec_default_verbosity(),
{
    "info"
}

/// The name of the tracer that the trace consumer of the sink records
/// spans with.
pub fn tracer_name() -> (name: &'static str)
    ensures
        name@ == "app"@,
{
    "app"
}

/// The filter to start from: the one that the environment asked for, or
/// else the one of the default verbosity, which may have been refused.
pub fn base_filter(
    from_environment: Result<EnvFilter, FromEnvError>,
    fallback: Result<EnvFilter, ParseError>,
) -> (r: Result<EnvFilter, ConstructionError>)
    ensures
        r == match (from_environment, fallback) {
            (Ok(filter), _) => Ok::<EnvFilter, ConstructionError>(filter),
            (Err(_), Ok(filter)) => Ok(filter),
            (Err(_), Err(_)) => Err(ConstructionError::FilterRejected),
        },
{
    match from_environment {
        Ok(filter) => Ok(filter),
        Err(_) => match fallback {
            Ok(filter) => Ok(filter),
            Err(_) => Err(ConstructionError::FilterRejected),
        },
    }
}

/// Builds the shared filter: the verbosity that the environment asks for,
/// or else `info`, and on top of it one directive for each silenced
/// component. The only error is [`ConstructionError::FilterRejected`].
pub fn build_filter() -> (r: Result<EnvFilter, ConstructionError>)
    ensures
        r matches Err(e) ==> e == ConstructionError::FilterRejected,
{
    let mut filter = match base_filter(filter_from_environment(), parse_filter(default_verbosity())) {
        Ok(filter) => filter,
        Err(e) => {
            return Err(e);
        },
    };
    let components = silenced_components();
    let mut i: usize = 0;
    while i < components.len()
        invariant
            i <= components.len(),
        decreases components.len() - i,
    {
        let directive = silencing_directive(components[i]);
        filter = match add_directive(filter, directive.as_str()) {
            Ok(extended) => extended,
            Err(_) => {
                return Err(ConstructionError::FilterRejected);
            },
        };
        i = i + 1;
    }
    Ok(filter)
}

/// What the installation of the sink came to: done, or refused because the
/// process already has a sink.
pub fn installation_outcome(installed: Result<(), TryInitError>) -> (r: Result<
    (),
    ConstructionError,
>)
    ensures
        r == match installed {
            Ok(_) => Ok::<(), ConstructionError>(()),
            Err(_) => Err(ConstructionError::DuplicateInstallation),
        },
{
    match installed {
        Ok(_) => Ok(()),
        Err(_) => Err(ConstructionError::DuplicateInstallation),
    }
}

/// Installs the sink of the process: every event goes to the log pipeline,
/// to the trace pipeline and to the console, in this order, through the
/// one filter. A process takes one sink; a second installation fails with
/// [`ConstructionError::DuplicateInstallation`], the only error.
pub fn install_bridge(
    logs: &SdkLoggerProvider,
    traces: &SdkTracerProvider,
    filter: EnvFilter,
    format: &FormatterOptions,
) -> (r: Result<(), ConstructionError>)
    ensures
        r matches Err(e) ==> e == ConstructionError::DuplicateInstallation,
{
    installation_outcome(install_sink(logs, traces, tracer_name(), filter, format))
}

} // verus!
