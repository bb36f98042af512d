//! The three telemetry signals.

use vstd::prelude::*;

verus! {

/// One of the three categories of telemetry that the provider exports.
#[derive(Clone, Copy, Debug, PartialEq, Eq, Structural)]
pub enum SignalKind {
    /// Spans of distributed traces.
    Trace,
    /// Structured log records.
    Log,
    /// Counters and histograms.
    Metric,
}

impl SignalKind {
    /// The lower-case name of the signal, as used in messages.
    pub open spec fn spec_name(self) -> Seq<char> {
        match self {
            SignalKind::Trace => "trace"@,
            SignalKind::Log => "log"@,
            SignalKind::Metric => "metric"@,
        }
    }

    /// The lower-case name of the signal, as used in messages.
    pub fn name(&self) -> (s: &'static str)
        ensures
            s@ == self.spec_name(),
    {
        match self {
            SignalKind::Trace => "trace",
            SignalKind::Log => "log",
            SignalKind::Metric => "metric",
        }
    }
}

} // verus!
