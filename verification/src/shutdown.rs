//! What a shutdown did: one attempt per pipeline, in a fixed order, each
//! with its own outcome.

use vstd::prelude::*;
use vstd::string::StringExecFns;
use crate::signal::SignalKind;

verus! {

/// The way in which a pipeline failed to shut down.
#[derive(Clone, Copy, Debug, PartialEq, Eq, Structural)]
pub enum FailureKind {
    /// The pipeline had been shut down before.
    AlreadyShutdown,
    /// The drain did not end in time.
    TimedOut,
    /// The drain failed; the detail says how.
    Internal,
}

/// How the shutdown of one pipeline ended.
#[derive(Debug)]
pub enum PipelineOutcome {
    /// Drained and closed.
    Clean,
    /// Not drained; the pipeline is closed all the same.
    Failed {
        /// The way in which it failed.
        kind: FailureKind,
        /// The failure in words, for the log.
        detail: String,
    },
}

/// A [`PipelineOutcome`] as a value of specifications.
pub enum OutcomeModel {
    /// Drained and closed.
    Clean,
    /// Not drained.
    Failed {
        /// The way in which it failed.
        kind: FailureKind,
        /// The failure in words.
        detail: Seq<char>,
    },
}

impl View for PipelineOutcome {
    type V = OutcomeModel;

    open spec fn view(&self) -> OutcomeModel {
        match self {
            PipelineOutcome::Clean => OutcomeModel::Clean,
            PipelineOutcome::Failed { kind, detail } => OutcomeModel::Failed {
                kind: *kind,
                detail: detail@,
            },
        }
    }
}

impl PipelineOutcome {
    /// The outcome of a shutdown that failed in the given way, or that did
    /// not fail: without a failure the outcome is clean and the detail is
    /// dropped.
    pub fn from_failure(failure: Option<FailureKind>, detail: String) -> (outcome: PipelineOutcome)
        ensures
            outcome@ == match failure {
                None => OutcomeModel::Clean,
                Some(kind) => OutcomeModel::Failed { kind, detail: detail@ },
            },
    {
        match failure {
            None => PipelineOutcome::Clean,
            Some(kind) => PipelineOutcome::Failed { kind, detail },
        }
    }

    /// Whether the pipeline was drained and closed.
    pub fn is_clean(&self) -> (clean: bool)
        ensures
            clean == (self@ is Clean),
    {
        match self {
            PipelineOutcome::Clean => true,
            PipelineOutcome::Failed { .. } => false,
        }
    }
}

/// The shutdown of one pipeline: which one, and how it ended.
#[derive(Debug)]
pub struct ShutdownAttempt {
    /// The pipeline that was shut down.
    pub signal: SignalKind,
    /// How that ended.
    pub outcome: PipelineOutcome,
}

/// A [`ShutdownAttempt`] as a value of specifications.
pub struct AttemptModel {
    /// The pipeline that was shut down.
    pub signal: SignalKind,
    /// How that ended.
    pub outcome: OutcomeModel,
}

impl View for ShutdownAttempt {
    type V = AttemptModel;

    open spec fn view(&self) -> AttemptModel {
        AttemptModel { signal: self.signal, outcome: self.outcome@ }
    }
}

/// A pipeline that did not shut down cleanly. It is a warning and no error:
/// the other pipelines are shut down all the same.
#[derive(Debug)]
pub struct ShutdownWarning {
    /// The pipeline that failed.
    pub signal: SignalKind,
    /// The way in which it failed.
    pub kind: FailureKind,
    /// The failure in words.
    pub detail: String,
}

/// A [`ShutdownWarning`] as a value of specifications.
pub struct WarningModel {
    /// The pipeline that failed.
    pub signal: SignalKind,
    /// The way in which it failed.
    pub kind: FailureKind,
    /// The failure in words.
    pub detail: Seq<char>,
}

impl View for ShutdownWarning {
    type V = WarningModel;

    open spec fn view(&self) -> WarningModel {
        WarningModel { signal: self.signal, kind: self.kind, detail: self.detail@ }
    }
}

/// The order in which the pipelines are shut down: traces, metrics, logs.
/// Logs come last, because what the other two report is written to the log.
pub open spec fn spec_shutdown_order() -> Seq<SignalKind> {
    seq![SignalKind::Trace, SignalKind::Metric, SignalKind::Log]
}

/// The order in which the pipelines are shut down.
pub fn shutdown_order() -> (order: Vec<SignalKind>)
    ensures
        order@ == spec_shutdown_order(),
{
    let mut order: Vec<SignalKind> = Vec::new();
    order.push(SignalKind::Trace);
    order.push(SignalKind::Metric);
    order.push(SignalKind::Log);
    order
}

/// The words that open the warning about a pipeline.
pub open spec fn warning_prefix(signal: SignalKind) -> Seq<char> {
    match signal {
        SignalKind::Trace => "Failed to shutdown tracer provider: "@,
        SignalKind::Metric => "Failed to shutdown meter provider: "@,
        SignalKind::Log => "Failed to shutdown logger provider: "@,
    }
}

impl ShutdownWarning {
    /// The line for the log: the words that name the pipeline, then the
    /// detail of the failure.
    pub fn message(&self) -> (line: String)
        ensures
            line@ == warning_prefix(self.signal) + self.detail@,
    {
        let prefix: &'static str = match self.signal {
            SignalKind::Trace => "Failed to shutdown tracer provider: ",
            SignalKind::Metric => "Failed to shutdown meter provider: ",
            SignalKind::Log => "Failed to shutdown logger provider: ",
        };
        prefix.to_owned().concat(self.detail.as_str())
    }
}

/// The warnings that a run of attempts gives rise to: one for each attempt
/// that failed, in the order of the attempts.
pub open spec fn warnings_of(attempts: Seq<AttemptModel>) -> Seq<WarningModel>
    decreases attempts.len(),
{
    if attempts.len() == 0 {
        Seq::empty()
    } else {
        let before = warnings_of(attempts.drop_last());
        match attempts.last().outcome {
            OutcomeModel::Clean => before,
            OutcomeModel::Failed { kind, detail } => before.push(
                WarningModel { signal: attempts.last().signal, kind, detail },
            ),
        }
    }
}

/// The attempts of a shutdown with the given outcomes, in shutdown order.
pub open spec fn report_of(trace: OutcomeModel, metric: OutcomeModel, log: OutcomeModel) -> Seq<
    AttemptModel,
> {
    seq![
        AttemptModel { signal: SignalKind::Trace, outcome: trace },
        AttemptModel { signal: SignalKind::Metric, outcome: metric },
        AttemptModel { signal: SignalKind::Log, outcome: log },
    ]
}

/// What a shutdown did. It holds one attempt for each pipeline, in the
/// order in which they were made.
#[derive(Debug)]
pub struct ShutdownReport {
    attempts: Vec<ShutdownAttempt>,
}

impl View for ShutdownReport {
    type V = Seq<AttemptModel>;

    closed spec fn view(&self) -> Seq<AttemptModel> {
        self.attempts@.map_values(|a: ShutdownAttempt| a@)
    }
}

impl ShutdownReport {
    /// Every report holds three attempts, in shutdown order.
    #[verifier::type_invariant]
    spec fn inv(self) -> bool {
        &&& self.attempts@.len() == 3
        &&& self.attempts@[0].signal == SignalKind::Trace
        &&& self.attempts@[1].signal == SignalKind::Metric
        &&& self.attempts@[2].signal == SignalKind::Log
    }

    /// The report has one attempt per pipeline, in shutdown order.
    pub open spec fn wf(&self) -> bool {
        &&& self@.len() == 3
        &&& forall|i: int| 0 <= i < 3 ==> (#[trigger] self@[i]).signal == spec_shutdown_order()[i]
    }

    /// The outcome that the report holds for a pipeline.
    pub open spec fn spec_outcome(&self, signal: SignalKind) -> OutcomeModel {
        match signal {
            SignalKind::Trace => self@[0].outcome,
            SignalKind::Metric => self@[1].outcome,
            SignalKind::Log => self@[2].outcome,
        }
    }

    /// The report of the three outcomes. Each outcome is entered as it is,
    /// whatever the other two are.
    pub fn from_outcomes(trace: PipelineOutcome, metric: PipelineOutcome, log: PipelineOutcome) -> (report:
        ShutdownReport)
        ensures
            report.wf(),
            report@ == report_of(trace@, metric@, log@),
            report.spec_outcome(SignalKind::Trace) == trace@,
            report.spec_outcome(SignalKind::Metric) == metric@,
            report.spec_outcome(SignalKind::Log) == log@,
    {
        let mut attempts: Vec<ShutdownAttempt> = Vec::new();
        attempts.push(ShutdownAttempt { signal: SignalKind::Trace, outcome: trace });
        attempts.push(ShutdownAttempt { signal: SignalKind::Metric, outcome: metric });
        attempts.push(ShutdownAttempt { signal: SignalKind::Log, outcome: log });
        let report = ShutdownReport { attempts };
        assert(report@ =~= report_of(trace@, metric@, log@));
        report
    }

    /// The attempts, in the order in which they were made.
    pub fn attempts(&self) -> (attempts: &Vec<ShutdownAttempt>)
        ensures
            attempts@.len() == self@.len(),
            forall|i: int| 0 <= i < attempts@.len() ==> (#[trigger] attempts@[i])@ == self@[i],
    {
        &self.attempts
    }

    /// The outcome of the shutdown of one pipeline.
    pub fn outcome(&self, signal: SignalKind) -> (outcome: &PipelineOutcome)
        ensures
            self.wf(),
            outcome@ == self.spec_outcome(signal),
    {
        proof {
            use_type_invariant(self);
        }
        match signal {
            SignalKind::Trace => &self.attempts[0].outcome,
            SignalKind::Metric => &self.attempts[1].outcome,
            SignalKind::Log => &self.attempts[2].outcome,
        }
    }

    /// The warnings of the shutdown: one for each pipeline that failed, in
    /// shutdown order.
    pub fn warnings(&self) -> (warnings: Vec<ShutdownWarning>)
        ensures
            warnings@.map_values(|w: ShutdownWarning| w@) == warnings_of(self@),
    {
        let mut warnings: Vec<ShutdownWarning> = Vec::new();
        let mut i: usize = 0;
        assert(self@.take(0) =~= Seq::<AttemptModel>::empty());
        while i < self.attempts.len()
            invariant
                i <= self.attempts.len(),
                self@.len() == self.attempts.len(),
                warnings@.map_values(|w: ShutdownWarning| w@) == warnings_of(self@.take(i as int)),
            decreases self.attempts.len() - i,
        {
            let ghost before = warnings@.map_values(|w: ShutdownWarning| w@);
            proof {
                assert(self@.take(i + 1).drop_last() =~= self@.take(i as int));
                assert(self@.take(i + 1).last() == self.attempts@[i as int]@);
            }
            match &self.attempts[i].outcome {
                PipelineOutcome::Clean => {},
                PipelineOutcome::Failed { kind, detail } => {
                    let warning = ShutdownWarning {
                        signal: self.attempts[i].signal,
                        kind: *kind,
                        detail: detail.clone(),
                    };
                    warnings.push(warning);
                    assert(warnings@.map_values(|w: ShutdownWarning| w@) =~= before.push(
                        warning@,
                    ));
                },
            }
            i = i + 1;
        }
        assert(self@.take(i as int) =~= self@);
        warnings
    }

    /// Whether every pipeline was drained and closed.
    pub fn is_clean(&self) -> (clean: bool)
        ensures
            clean == (warnings_of(self@).len() == 0),
    {
        let mut i: usize = 0;
        assert(self@.take(0) =~= Seq::<AttemptModel>::empty());
        while i < self.attempts.len()
            invariant
                i <= self.attempts.len(),
                self@.len() == self.attempts.len(),
                warnings_of(self@.take(i as int)).len() == 0,
            decreases self.attempts.len() - i,
        {
            proof {
                assert(self@.take(i + 1).drop_last() =~= self@.take(i as int));
                assert(self@.take(i + 1).last() == self.attempts@[i as int]@);
                lemma_warnings_grow(self@.take(i + 1), self@);
            }
            if !self.attempts[i].outcome.is_clean() {
                return false;
            }
            i = i + 1;
        }
        assert(self@.take(i as int) =~= self@);
        true
    }
}

/// The warnings of the first attempts of a run are among the warnings of
/// the whole run: a later attempt takes no warning away.
pub proof fn lemma_warnings_grow(front: Seq<AttemptModel>, all: Seq<AttemptModel>)
    requires
        front.len() <= all.len(),
        front == all.take(front.len() as int),
    ensures
        warnings_of(front).len() <= warnings_of(all).len(),
    decreases all.len(),
{
    if front.len() < all.len() {
        assert(all.drop_last().take(front.len() as int) =~= front);
        lemma_warnings_grow(front, all.drop_last());
    } else {
        assert(front =~= all);
    }
}

/// The number of outcomes among the three that are failures.
pub open spec fn failures_among(trace: OutcomeModel, metric: OutcomeModel, log: OutcomeModel) -> nat {
    let t: nat = if trace is Failed { 1 } else { 0 };
    let m: nat = if metric is Failed { 1 } else { 0 };
    let l: nat = if log is Failed { 1 } else { 0 };
    t + m + l
}

/// Shutdown is best-effort and total. Whatever the outcome of each
/// pipeline, the attempts are three, in shutdown order with the logs last;
/// each attempt holds the outcome of its own pipeline, so that a failure
/// of one pipeline leaves the entries of the other two as they are; and
/// there is one warning for each failure.
pub proof fn lemma_shutdown_is_total(
    trace: OutcomeModel,
    metric: OutcomeModel,
    other_metric: OutcomeModel,
    log: OutcomeModel,
)
    ensures
        report_of(trace, metric, log).len() == 3,
        report_of(trace, metric, log).map_values(|a: AttemptModel| a.signal)
            == spec_shutdown_order(),
        spec_shutdown_order().last() == SignalKind::Log,
        report_of(trace, metric, log)[0].outcome == trace,
        report_of(trace, metric, log)[1].outcome == metric,
        report_of(trace, metric, log)[2].outcome == log,
        report_of(trace, metric, log)[0] == report_of(trace, other_metric, log)[0],
        report_of(trace, metric, log)[2] == report_of(trace, other_metric, log)[2],
        warnings_of(report_of(trace, metric, log)).len() == failures_among(trace, metric, log),
{
    let r = report_of(trace, metric, log);
    assert(r.map_values(|a: AttemptModel| a.signal) =~= spec_shutdown_order());
    let r2 = r.drop_last();
    let r1 = r2.drop_last();
    let r0 = r1.drop_last();
    assert(r0 =~= Seq::<AttemptModel>::empty());
    assert(r1.last() == r[0]);
    assert(r2.last() == r[1]);
    assert(r.last() == r[2]);
    assert(warnings_of(r0).len() == 0);
    assert(warnings_of(r1).len() == if trace is Failed { 1nat } else { 0nat });
    assert(warnings_of(r2).len() == warnings_of(r1).len() + if metric is Failed {
        1nat
    } else {
        0nat
    });
}

} // verus!
