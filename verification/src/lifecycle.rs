//! The life of a pipeline: constructed, active, shutting down, closed.

use vstd::prelude::*;

verus! {

/// Where a pipeline stands in its life. The states are passed through in
/// this order and never backwards.
#[derive(Clone, Copy, Debug, PartialEq, Eq, Structural)]
pub enum PipelineState {
    /// Built, but not yet attached to the instrumentation of the process.
    Constructed,
    /// Attached: what is emitted is queued and exported.
    Active,
    /// Draining what is queued.
    ShuttingDown,
    /// Drained and closed. Nothing follows.
    Closed,
}

/// What moves a pipeline from one state to the next.
#[derive(Clone, Copy, Debug, PartialEq, Eq, Structural)]
pub enum LifecycleEvent {
    /// The pipeline was attached to the instrumentation of the process.
    Activate,
    /// Shutdown was requested.
    BeginShutdown,
    /// The drain ended, cleanly or not.
    Finish,
}

/// An event came in a state that does not take it.
#[derive(Clone, Copy, Debug, PartialEq, Eq, Structural)]
pub enum LifecycleError {
    /// The event is not the one that the state waits for.
    OutOfOrder,
}

/// What is done with an operation on a closed pipeline.
#[derive(Clone, Copy, Debug, PartialEq, Eq, Structural)]
pub enum ClosedPolicy {
    /// The operation is dropped without notice.
    Ignore,
    /// The operation fails.
    Reject,
}

/// What became of an operation that was offered to a pipeline.
#[derive(Clone, Copy, Debug, PartialEq, Eq, Structural)]
pub enum Admission {
    /// The pipeline took it.
    Accepted,
    /// It was dropped without notice.
    Dropped,
    /// It was refused.
    Rejected,
}

impl PipelineState {
    /// The place of the state in the order of the states.
    pub open spec fn rank(self) -> nat {
        match self {
            PipelineState::Constructed => 0,
            PipelineState::Active => 1,
            PipelineState::ShuttingDown => 2,
            PipelineState::Closed => 3,
        }
    }

    /// The state after an event, where the state takes the event.
    pub open spec fn spec_next(self, event: LifecycleEvent) -> Option<PipelineState> {
        match (self, event) {
            (PipelineState::Constructed, LifecycleEvent::Activate) => Some(PipelineState::Active),
            (PipelineState::Active, LifecycleEvent::BeginShutdown) => Some(
                PipelineState::ShuttingDown,
            ),
            (PipelineState::ShuttingDown, LifecycleEvent::Finish) => Some(PipelineState::Closed),
            _ => None,
        }
    }

    /// What becomes of an operation offered in this state: an active
    /// pipeline takes it; before activation and while draining it is lost;
    /// on a closed pipeline the policy decides.
    pub open spec fn spec_admission(self, policy: ClosedPolicy) -> Admission {
        match self {
            PipelineState::Active => Admission::Accepted,
            PipelineState::Constructed => Admission::Dropped,
            PipelineState::ShuttingDown => Admission::Dropped,
            PipelineState::Closed => match policy {
                ClosedPolicy::Ignore => Admission::Dropped,
                ClosedPolicy::Reject => Admission::Rejected,
            },
        }
    }

    /// Applies an event: the next state where the state takes the event,
    /// else [`LifecycleError::OutOfOrder`].
    pub fn advance(self, event: LifecycleEvent) -> (r: Result<PipelineState, LifecycleError>)
        ensures
            r == match self.spec_next(event) {
                Some(next) => Ok::<PipelineState, LifecycleError>(next),
                None => Err(LifecycleError::OutOfOrder),
            },
    {
        match (self, event) {
            (PipelineState::Constructed, LifecycleEvent::Activate) => Ok(PipelineState::Active),
            (PipelineState::Active, LifecycleEvent::BeginShutdown) => Ok(
                PipelineState::ShuttingDown,
            ),
            (PipelineState::ShuttingDown, LifecycleEvent::Finish) => Ok(PipelineState::Closed),
            _ => Err(LifecycleError::OutOfOrder),
        }
    }

    /// The state after an event: the next state where the state takes the
    /// event, the same state where it does not.
    pub fn after(self, event: LifecycleEvent) -> (next: PipelineState)
        ensures
            next == match self.spec_next(event) {
                Some(state) => state,
                None => self,
            },
    {
        match self.advance(event) {
            Ok(state) => state,
            Err(_) => self,
        }
    }

    /// What becomes of an operation offered in this state.
    pub fn admission(self, policy: ClosedPolicy) -> (a: Admission)
        ensures
            a == self.spec_admission(policy),
    {
        match self {
            PipelineState::Active => Admission::Accepted,
            PipelineState::Constructed => Admission::Dropped,
            PipelineState::ShuttingDown => Admission::Dropped,
            PipelineState::Closed => match policy {
                ClosedPolicy::Ignore => Admission::Dropped,
                ClosedPolicy::Reject => Admission::Rejected,
            },
        }
    }

    /// Whether the pipeline is closed.
    pub fn is_closed(self) -> (closed: bool)
        ensures
            closed == (self == PipelineState::Closed),
    {
        match self {
            PipelineState::Closed => true,
            _ => false,
        }
    }
}

/// The state after a run of events, where every event of the run is taken.
pub open spec fn run(start: PipelineState, events: Seq<LifecycleEvent>) -> Option<PipelineState>
    decreases events.len(),
{
    if events.len() == 0 {
        Some(start)
    } else {
        match run(start, events.drop_last()) {
            Some(state) => state.spec_next(events.last()),
            None => None,
        }
    }
}

/// Every event that is taken moves the pipeline one state forward.
pub proof fn lemma_forward_only(state: PipelineState, event: LifecycleEvent)
    ensures
        state.spec_next(event) matches Some(next) ==> next.rank() == state.rank() + 1,
{
}

/// A closed pipeline takes no event: the state is terminal.
pub proof fn lemma_closed_is_terminal(event: LifecycleEvent)
    ensures
        PipelineState::Closed.spec_next(event) is None,
{
}

/// A run of events never leads back: the state after it lies as many
/// states ahead as the run is long, so no run is longer than three events
/// and none returns to a state that was left.
pub proof fn lemma_run_moves_forward(start: PipelineState, events: Seq<LifecycleEvent>)
    ensures
        run(start, events) matches Some(end) ==> end.rank() == start.rank() + events.len(),
        run(start, events) is Some ==> events.len() <= 3,
    decreases events.len(),
{
    if events.len() > 0 {
        lemma_run_moves_forward(start, events.drop_last());
    }
}

/// The one full life of a pipeline: activated, asked to shut down, closed.
pub proof fn lemma_full_life()
    ensures
        run(
            PipelineState::Constructed,
            seq![LifecycleEvent::Activate, LifecycleEvent::BeginShutdown, LifecycleEvent::Finish],
        ) == Some(PipelineState::Closed),
{
    let e3 = seq![LifecycleEvent::Activate, LifecycleEvent::BeginShutdown, LifecycleEvent::Finish];
    let e2 = seq![LifecycleEvent::Activate, LifecycleEvent::BeginShutdown];
    let e1 = seq![LifecycleEvent::Activate];
    assert(e3.drop_last() == e2);
    assert(e2.drop_last() == e1);
    assert(e1.drop_last() == Seq::<LifecycleEvent>::empty());
    assert(run(PipelineState::Constructed, e1.drop_last()) == Some(PipelineState::Constructed));
    assert(run(PipelineState::Constructed, e1) == Some(PipelineState::Active));
    assert(run(PipelineState::Constructed, e2) == Some(PipelineState::ShuttingDown));
}

} // verus!
