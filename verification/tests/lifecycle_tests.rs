use telemetry_rust::lifecycle::{
    Admission, ClosedPolicy, LifecycleError, LifecycleEvent, PipelineState,
};

#[test]
fn a_pipeline_runs_through_its_four_states() {
    let constructed = PipelineState::Constructed;
    let active = constructed.advance(LifecycleEvent::Activate);
    assert_eq!(active, Ok(PipelineState::Active));
    let draining = PipelineState::Active.advance(LifecycleEvent::BeginShutdown);
    assert_eq!(draining, Ok(PipelineState::ShuttingDown));
    let closed = PipelineState::ShuttingDown.advance(LifecycleEvent::Finish);
    assert_eq!(closed, Ok(PipelineState::Closed));
}

#[test]
fn closed_takes_no_event() {
    let closed = PipelineState::Closed;
    assert_eq!(closed.advance(LifecycleEvent::Activate), Err(LifecycleError::OutOfOrder));
    assert_eq!(closed.advance(LifecycleEvent::BeginShutdown), Err(LifecycleError::OutOfOrder));
    assert_eq!(closed.advance(LifecycleEvent::Finish), Err(LifecycleError::OutOfOrder));
}

#[test]
fn no_state_goes_back_or_skips() {
    assert_eq!(
        PipelineState::Constructed.advance(LifecycleEvent::BeginShutdown),
        Err(LifecycleError::OutOfOrder)
    );
    assert_eq!(
        PipelineState::Constructed.advance(LifecycleEvent::Finish),
        Err(LifecycleError::OutOfOrder)
    );
    assert_eq!(
        PipelineState::Active.advance(LifecycleEvent::Activate),
        Err(LifecycleError::OutOfOrder)
    );
    assert_eq!(PipelineState::Active.advance(LifecycleEvent::Finish), Err(LifecycleError::OutOfOrder));
    assert_eq!(
        PipelineState::ShuttingDown.advance(LifecycleEvent::Activate),
        Err(LifecycleError::OutOfOrder)
    );
    assert_eq!(
        PipelineState::ShuttingDown.advance(LifecycleEvent::BeginShutdown),
        Err(LifecycleError::OutOfOrder)
    );
}

#[test]
fn an_active_pipeline_takes_operations() {
    assert_eq!(PipelineState::Active.admission(ClosedPolicy::Ignore), Admission::Accepted);
    assert_eq!(PipelineState::Active.admission(ClosedPolicy::Reject), Admission::Accepted);
}

#[test]
fn operations_before_activation_are_lost() {
    assert_eq!(PipelineState::Constructed.admission(ClosedPolicy::Ignore), Admission::Dropped);
    assert_eq!(PipelineState::Constructed.admission(ClosedPolicy::Reject), Admission::Dropped);
    assert_eq!(PipelineState::ShuttingDown.admission(ClosedPolicy::Ignore), Admission::Dropped);
    assert_eq!(PipelineState::ShuttingDown.admission(ClosedPolicy::Reject), Admission::Dropped);
}

#[test]
fn the_policy_decides_on_a_closed_pipeline() {
    assert_eq!(PipelineState::Closed.admission(ClosedPolicy::Ignore), Admission::Dropped);
    assert_eq!(PipelineState::Closed.admission(ClosedPolicy::Reject), Admission::Rejected);
}

#[test]
fn only_closed_is_closed() {
    assert!(PipelineState::Closed.is_closed());
    assert!(!PipelineState::Constructed.is_closed());
    assert!(!PipelineState::Active.is_closed());
    assert!(!PipelineState::ShuttingDown.is_closed());
}

#[test]
fn an_event_out_of_order_changes_nothing() {
    assert_eq!(PipelineState::Constructed.after(LifecycleEvent::Activate), PipelineState::Active);
    assert_eq!(PipelineState::Active.after(LifecycleEvent::BeginShutdown), PipelineState::ShuttingDown);
    assert_eq!(PipelineState::ShuttingDown.after(LifecycleEvent::Finish), PipelineState::Closed);
    assert_eq!(PipelineState::Closed.after(LifecycleEvent::Activate), PipelineState::Closed);
    assert_eq!(PipelineState::Active.after(LifecycleEvent::Finish), PipelineState::Active);
    assert_eq!(PipelineState::Constructed.after(LifecycleEvent::Finish), PipelineState::Constructed);
}
