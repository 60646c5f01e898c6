use temporal_tui::execution::{
    executions_from_infos, span_from_signed, ConversionError, ExecutionId, ExecutionInfo,
    SignedSpan, Span, Timestamp, WorkflowExecution, WorkflowExecutionStatus,
};
use temporal_tui::workflow::{
    events_from_history, Description, DescribeInfo, HistoryEventInfo, Payload,
    PendingActivity, PendingActivityInfo, PendingActivityState,
};

pub fn info(id: &str, status: i32) -> ExecutionInfo {
    ExecutionInfo {
        execution: Some(ExecutionId { workflow_id: id.to_string(), run_id: "run".to_string() }),
        workflow_type_name: Some("Order".to_string()),
        status,
        task_queue: "main".to_string(),
        start_time: Some(Timestamp { seconds: 0, nanos: 0 }),
        close_time: None,
        execution_time: Some(Timestamp { seconds: i64::MAX, nanos: 0 }),
        execution_duration: Some(SignedSpan { seconds: 3, nanos: 500 }),
        history_size_bytes: 1024,
    }
}

fn activity(state: i32) -> PendingActivityInfo {
    PendingActivityInfo {
        activity_id: "a1".to_string(),
        activity_type: Some("Charge".to_string()),
        state,
        heartbeat_details: Some(vec![Payload::new(Vec::new(), b"{}".to_vec())]),
        last_heartbeat_time: None,
        last_started_time: Some(Timestamp { seconds: 5, nanos: 0 }),
        attempt: 2,
        maximum_attempts: 5,
        scheduled_time: None,
        expiration_time: None,
        last_failure: None,
        last_worker_identity: "worker".to_string(),
        last_attempt_complete_time: None,
        next_attempt_schedule_time: None,
    }
}

#[test]
fn execution_report_is_checked_field_by_field() {
    let e = WorkflowExecution::try_from_info(info("wf-1", 1)).unwrap();
    assert_eq!(e.status, WorkflowExecutionStatus::Running);
    assert_eq!(e.workflow_id, "wf-1");
    assert_eq!(e.run_id, "run");
    assert_eq!(e.workflow_type, "Order");
    assert_eq!(e.execution_duration, Some(Span { seconds: 3, nanos: 500 }));
    assert_eq!(e.history_size_bytes, 1024);
    assert_eq!(e.status_as_string(), "Running");
}

#[test]
fn execution_without_identity_is_refused() {
    let mut i = info("wf", 1);
    i.execution = None;
    assert!(matches!(WorkflowExecution::try_from_info(i), Err(ConversionError::NoExecution)));
}

#[test]
fn execution_without_type_is_refused() {
    let mut i = info("wf", 1);
    i.workflow_type_name = None;
    assert!(matches!(WorkflowExecution::try_from_info(i), Err(ConversionError::NoType)));
}

#[test]
fn execution_with_unknown_status_is_refused() {
    assert!(matches!(
        WorkflowExecution::try_from_info(info("wf", 8)),
        Err(ConversionError::InvalidStatus)
    ));
}

#[test]
fn execution_with_negative_duration_is_refused() {
    let mut i = info("wf", 1);
    i.execution_duration = Some(SignedSpan { seconds: -1, nanos: 0 });
    assert!(matches!(
        WorkflowExecution::try_from_info(i),
        Err(ConversionError::NegativeDuration)
    ));
}

#[test]
fn signed_spans_normalise() {
    assert_eq!(span_from_signed(SignedSpan { seconds: 1, nanos: -1 }), Some(Span { seconds: 0, nanos: 999_999_999 }));
    assert_eq!(span_from_signed(SignedSpan { seconds: 0, nanos: 2_000_000_000 }), Some(Span { seconds: 2, nanos: 0 }));
    assert_eq!(span_from_signed(SignedSpan { seconds: 0, nanos: -1 }), None);
}

#[test]
fn times_are_written_in_utc_or_as_a_dash() {
    let e = WorkflowExecution::try_from_info(info("wf", 2)).unwrap();
    assert_eq!(e.start_time_as_string(), "70-01-01 00:00:00 UTC");
    assert_eq!(e.close_time_as_string(), "-");
    assert_eq!(e.execution_time_as_string(), "-");
}

#[test]
fn status_codes_and_names() {
    assert_eq!(WorkflowExecutionStatus::from_code(6), Some(WorkflowExecutionStatus::ContinuedAsNew));
    assert_eq!(WorkflowExecutionStatus::from_code(-1), None);
    assert_eq!(WorkflowExecutionStatus::TimedOut.name(), "TimedOut");
}

#[test]
fn first_refused_report_decides_the_page() {
    let mut bad = info("b", 1);
    bad.workflow_type_name = None;
    let r = executions_from_infos(vec![info("a", 1), bad, info("c", 99)]);
    assert!(matches!(r, Err(ConversionError::NoType)));
    let ok = executions_from_infos(vec![info("a", 1), info("b", 3)]).unwrap();
    assert_eq!(ok.len(), 2);
    assert_eq!(ok[1].workflow_id, "b");
    assert_eq!(ok[1].status, WorkflowExecutionStatus::Failed);
}

#[test]
fn conversion_messages() {
    assert_eq!(ConversionError::UnknownExecution.message(), "unknown workflow execution");
    assert_eq!(
        ConversionError::NoExecution.message(),
        "invalid workflow execution: workflow has no execution"
    );
    assert_eq!(
        ConversionError::InvalidActivityState.message(),
        "invalid workflow pending activity: invalid state"
    );
}

#[test]
fn pending_activity_states() {
    assert_eq!(PendingActivityState::Scheduled.as_str(), "Scheduled");
    assert_eq!(PendingActivityState::CancelRequested.as_str(), "CancelRequested");
    assert_eq!(PendingActivityState::try_from_code(2).unwrap(), PendingActivityState::Started);
    assert!(matches!(
        PendingActivityState::try_from_code(4),
        Err(ConversionError::InvalidActivityState)
    ));
}

#[test]
fn pending_activity_heartbeat_details_get_a_title() {
    let a = PendingActivity::try_from_info(activity(1)).unwrap();
    assert_eq!(a.state, PendingActivityState::Scheduled);
    assert_eq!(a.id, "a1");
    assert_eq!(a.attempt, 2);
    let details = a.heartbeat_details.unwrap();
    assert_eq!(details.len(), 1);
    assert_eq!(details[0].title.as_deref(), Some("Heartbeat details"));
    assert_eq!(details[0].data, b"{}".to_vec());
    assert_eq!(a.last_started_time, Some(Timestamp { seconds: 5, nanos: 0 }));
}

#[test]
fn payload_with_title() {
    let p = Payload::new(vec![("encoding".to_string(), b"json".to_vec())], b"1".to_vec());
    assert!(p.title.is_none());
    let p = p.with_title("Input");
    assert_eq!(p.title.as_deref(), Some("Input"));
    assert_eq!(p.metadata.len(), 1);
}

#[test]
fn description_checks_execution_then_activities() {
    let d = Description::try_from_info(DescribeInfo {
        execution: Some(info("wf", 1)),
        pending_activities: vec![activity(2)],
    })
    .unwrap();
    assert_eq!(d.execution.workflow_id, "wf");
    assert_eq!(d.pending_activities.len(), 1);
    let missing = Description::try_from_info(DescribeInfo {
        execution: None,
        pending_activities: Vec::new(),
    });
    assert!(matches!(missing, Err(ConversionError::UnknownExecution)));
    let bad = Description::try_from_info(DescribeInfo {
        execution: Some(info("wf", 1)),
        pending_activities: vec![activity(1), activity(9)],
    });
    assert!(matches!(bad, Err(ConversionError::InvalidActivityState)));
}

#[test]
fn history_keeps_only_events_of_known_type() {
    let events = events_from_history(vec![
        HistoryEventInfo { event_id: 1, event_time: None, event_type: Some("EVENT_TYPE_WORKFLOW_EXECUTION_STARTED".to_string()), attributes: 'x' },
        HistoryEventInfo { event_id: 2, event_time: None, event_type: None, attributes: 'y' },
        HistoryEventInfo { event_id: 3, event_time: None, event_type: Some("EVENT_TYPE_TIMER_FIRED".to_string()), attributes: 'z' },
    ]);
    assert_eq!(events.len(), 2);
    assert_eq!(events[0].id, 1);
    assert_eq!(events[1].id, 3);
    assert_eq!(events[1].attributes, 'z');
}

#[test]
fn event_type_labels() {
    let events = events_from_history(vec![
        HistoryEventInfo { event_id: 1, event_time: Some(Timestamp { seconds: 86_400, nanos: 0 }), event_type: Some("EVENT_TYPE_WORKFLOW_EXECUTION_STARTED".to_string()), attributes: () },
        HistoryEventInfo { event_id: 2, event_time: None, event_type: Some("EVENT_TYPE_TIMER_FIRED".to_string()), attributes: () },
        HistoryEventInfo { event_id: 3, event_time: None, event_type: Some("EVENT_TYPE_".to_string()), attributes: () },
    ]);
    assert_eq!(events[0].type_as_string(), "Workflow Execution Started");
    assert_eq!(events[1].type_as_string(), "Timer Fired");
    assert_eq!(events[2].type_as_string(), "");
    assert_eq!(events[0].time_as_string(), "70-01-02 00:00:00 UTC");
    assert_eq!(events[1].time_as_string(), "-");
}

#[test]
fn durations_are_written_in_seconds() {
    let mut e = WorkflowExecution::try_from_info(info("wf", 2)).unwrap();
    assert_eq!(e.execution_duration_as_string(), "3s");
    e.execution_duration = Some(Span { seconds: 1234, nanos: 0 });
    assert_eq!(e.execution_duration_as_string(), "1234s");
    e.execution_duration = Some(Span { seconds: 0, nanos: 9 });
    assert_eq!(e.execution_duration_as_string(), "0s");
    e.execution_duration = None;
    assert_eq!(e.execution_duration_as_string(), "-");
}

#[test]
fn signed_spans_saturate_when_carried_seconds_overflow() {
    assert_eq!(
        span_from_signed(SignedSpan { seconds: i64::MAX, nanos: 1_000_000_000 }),
        Some(Span { seconds: i64::MAX as u64, nanos: 999_999_999 })
    );
    assert_eq!(
        span_from_signed(SignedSpan { seconds: i64::MAX - 1, nanos: 1_000_000_000 }),
        Some(Span { seconds: i64::MAX as u64, nanos: 0 })
    );
}
