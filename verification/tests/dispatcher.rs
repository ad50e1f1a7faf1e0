use std::sync::Arc;

use hatchet_sdk::duration::Duration;
use hatchet_sdk::name_map::NameMap;
use hatchet_sdk::utils::Timestamp;
use hatchet_sdk::worker::task_dispatcher::{
    event_payload, input_of, task_input, AssignedAction, DispatchAction, InputError, StepAction,
    StepEvent, StepRun, TaskDispatcher, TaskOutcome,
};
use hatchet_sdk::HatchetError;
use serde_json::Value;

fn action(action_type: &str, id: &str) -> AssignedAction {
    AssignedAction {
        action_type: String::from(action_type),
        action_id: String::from("wf:step"),
        action_payload: String::from("{\"input\":{\"message\":\"hi\"}}"),
        workflow_run_id: String::from("workflow-run"),
        task_run_external_id: String::from(id),
        job_id: String::from("job"),
        job_run_id: String::from("job-run"),
        task_id: String::from("task"),
        retry_count: 4,
    }
}

fn dispatcher() -> TaskDispatcher<&'static str, u32, &'static str> {
    let mut registry = NameMap::new();
    registry.insert(String::from("wf:step"), Arc::new("the step"));
    TaskDispatcher::new(registry)
}

fn now() -> Option<Duration> {
    Some(Duration::from_millis(1500))
}

#[test]
fn a_start_is_reported_before_anything_else() {
    let message = action("START_STEP_RUN", "run");
    match dispatcher().dispatch("worker", &message, now()) {
        Ok(DispatchAction::ReportStarted(event)) => {
            assert_eq!(event.worker_id, "worker");
            assert_eq!(event.job_id, "job");
            assert_eq!(event.job_run_id, "job-run");
            assert_eq!(event.task_id, "task");
            assert_eq!(event.task_run_external_id, "run");
            assert_eq!(event.action_id, "wf:step");
            let stamp = Timestamp { seconds: 1, nanos: 500_000_000 };
            assert_eq!(event.event_timestamp, Some(stamp));
            assert_eq!(event.event_type, 1);
            assert_eq!(event.event_payload, "");
            assert_eq!(event.retry_count, Some(4));
            assert_eq!(event.should_not_retry, None);
        }
        _ => panic!("no report"),
    }
}

#[test]
fn a_start_needs_the_clock() {
    let message = action("START_STEP_RUN", "run");
    match dispatcher().dispatch("worker", &message, None) {
        Err(e) => assert_eq!(e, HatchetError::SystemTimeError),
        Ok(_) => panic!("reported without a time"),
    }
}

#[test]
fn other_kinds_of_action_are_refused() {
    for kind in ["START_GET_GROUP_KEY", "", "start_step_run"] {
        match dispatcher().dispatch("worker", &action(kind, "run"), now()) {
            Err(e) => assert_eq!(e, HatchetError::UnrecognizedAction(String::from(kind))),
            Ok(_) => panic!("performed"),
        }
    }
}

#[test]
fn a_launch_has_the_task_and_its_contexts() {
    let message = action("START_STEP_RUN", "run");
    let launch = dispatcher().handle_start_step_run(&message, Ok(()), 1).ok().unwrap();
    assert_eq!(*launch.task, "the step");
    assert_eq!(launch.execution_context.workflow_run_id, "workflow-run");
    assert_eq!(launch.execution_context.task_run_external_id, "run");
    assert_eq!(launch.execution_context.child_index, 0);
    assert_eq!(launch.execution_context.retry_count, 4);
    assert_eq!(launch.context.workflow_run_id(), "workflow-run");
    assert_eq!(launch.context.log("x").task_run_external_id, "run");
}

#[test]
fn an_unknown_task_is_not_put_on_record() {
    let mut message = action("START_STEP_RUN", "run");
    message.action_id = String::from("wf:other");
    let mut dispatcher = dispatcher();
    match dispatcher.handle_start_step_run(&message, Ok(()), 1) {
        Err(e) => {
            assert_eq!(e, HatchetError::TaskNotFound { task_name: String::from("wf:other") })
        }
        Ok(_) => panic!("launched"),
    }
    assert!(dispatcher.handle_cancel_step_run(&message).is_none());
}

#[test]
fn a_run_whose_start_could_not_be_reported_is_not_begun() {
    let message = action("START_STEP_RUN", "run");
    let mut dispatcher = dispatcher();
    assert!(dispatcher.dispatch("worker", &message, now()).is_ok());
    assert!(dispatcher.handle_cancel_step_run(&message).is_none());
    let refused = || HatchetError::GrpcErrorStatus(String::from("unavailable"));
    match dispatcher.handle_start_step_run(&message, Err(refused()), 1) {
        Err(e) => assert_eq!(e, refused()),
        Ok(_) => panic!("launched"),
    }
    assert!(dispatcher.handle_cancel_step_run(&message).is_none());
}

#[test]
fn cancelling_stops_a_run_once() {
    let message = action("START_STEP_RUN", "run");
    let mut dispatcher = dispatcher();
    assert!(dispatcher.handle_start_step_run(&message, Ok(()), 7).is_ok());
    dispatcher.attach_handle("run", "handle");
    match dispatcher.dispatch("worker", &action("CANCEL_STEP_RUN", "run"), None) {
        Ok(DispatchAction::Stop(Some(entry))) => {
            assert_eq!(entry.token, 7);
            assert_eq!(entry.handle, Some("handle"));
        }
        _ => panic!("not stopped"),
    }
    match dispatcher.dispatch("worker", &action("CANCEL_STEP_RUN", "run"), None) {
        Ok(DispatchAction::Stop(stopped)) => assert!(stopped.is_none()),
        _ => panic!("refused"),
    }
}

#[test]
fn a_run_cancelled_before_its_handle_came_has_none() {
    let message = action("START_STEP_RUN", "run");
    let mut dispatcher = dispatcher();
    assert!(dispatcher.handle_start_step_run(&message, Ok(()), 7).is_ok());
    let entry = dispatcher.handle_cancel_step_run(&message).unwrap();
    assert_eq!((entry.token, entry.handle), (7, None));
    dispatcher.attach_handle("run", "late");
    assert!(dispatcher.handle_cancel_step_run(&message).is_none());
}

#[test]
fn a_run_that_ended_before_its_handle_came_leaves_no_entry() {
    let message = action("START_STEP_RUN", "run");
    let other = action("START_STEP_RUN", "other");
    let mut dispatcher = dispatcher();
    assert!(dispatcher.handle_start_step_run(&message, Ok(()), 1).is_ok());
    assert!(dispatcher.handle_start_step_run(&other, Ok(()), 2).is_ok());
    dispatcher.clean_up("run");
    dispatcher.attach_handle("run", "late");
    dispatcher.attach_handle("other", "in time");
    assert!(dispatcher.handle_cancel_step_run(&message).is_none());
    let entry = dispatcher.handle_cancel_step_run(&other).unwrap();
    assert_eq!((entry.token, entry.handle), (2, Some("in time")));
}

#[test]
fn the_input_is_a_member_of_the_payload() {
    let input = task_input("{\"input\":{\"message\":\"hi\"},\"parents\":{}}").ok().unwrap();
    assert_eq!(input.to_string(), "{\"message\":\"hi\"}");
    let null = task_input("{\"input\":null}").ok().unwrap();
    assert_eq!(null, Value::Null);
}

#[test]
fn a_payload_without_input_is_told_from_one_that_is_no_json() {
    for payload in ["{}", "[\"input\"]", "3"] {
        match task_input(payload) {
            Err(e @ InputError::MissingInput) => assert_eq!(e.message(), "missing `input` field"),
            _ => panic!("input found"),
        }
        let value: Value = serde_json::from_str(payload).unwrap();
        assert!(input_of(&value).is_none());
    }
    for payload in ["", "{\"input\":}", "{} {}"] {
        let error = serde_json::from_str::<Value>(payload).unwrap_err();
        match task_input(payload) {
            Err(e @ InputError::NotJson(_)) => {
                assert_eq!(e.message(), format!("could not parse payload as JSON: {error:?}"))
            }
            _ => panic!("parsed"),
        }
    }
    match task_input("") {
        Err(InputError::NotJson(error)) => assert_eq!(
            error,
            "Error(\"EOF while parsing a value\", line: 1, column: 0)"
        ),
        _ => panic!("parsed"),
    }
}

#[test]
fn outcomes_as_the_engine_is_told_of_them() {
    let output: Value = serde_json::from_str("{\"b\":1, \"a\":[true]}").unwrap();
    assert_eq!(
        event_payload(TaskOutcome::Completed(output)),
        (2, String::from("{\"a\":[true],\"b\":1}"))
    );
    assert_eq!(
        event_payload(TaskOutcome::Failed(String::from("Test failed."))),
        (3, String::from("Test failed."))
    );
    assert_eq!(
        event_payload(TaskOutcome::Panicked(Some(String::from("oh no")))),
        (3, String::from("Task panicked: oh no"))
    );
    assert_eq!(
        event_payload(TaskOutcome::Panicked(None)),
        (3, String::from("Task panicked: Unknown panic"))
    );
}

fn flushing_run() -> StepRun {
    let mut run = StepRun::new(String::from("worker"), action("START_STEP_RUN", "run"));
    match run.advance(StepEvent::Executed(TaskOutcome::Failed(String::from("no")))) {
        StepAction::Flush(timeout) => assert_eq!(timeout, Duration::from_secs(2)),
        _ => panic!("not flushed"),
    }
    run
}

#[test]
fn a_run_is_flushed_reported_and_cleaned_up() {
    let mut run = flushing_run();
    match run.advance(StepEvent::Flushed { since_epoch: now() }) {
        StepAction::Report(event) => {
            assert_eq!(event.worker_id, "worker");
            assert_eq!(event.event_type, 3);
            assert_eq!(event.event_payload, "no");
            assert_eq!(event.retry_count, None);
            assert_eq!(event.should_not_retry, None);
            assert_eq!(event.task_run_external_id, "run");
        }
        _ => panic!("not reported"),
    }
    match run.advance(StepEvent::Reported(Ok(()))) {
        StepAction::CleanUp { task_run_external_id, result } => {
            assert_eq!(task_run_external_id, "run");
            assert_eq!(result, Ok(()));
        }
        _ => panic!("not cleaned up"),
    }
}

#[test]
fn a_run_is_cleaned_up_even_where_the_report_fails() {
    let mut run = flushing_run();
    run.advance(StepEvent::Flushed { since_epoch: now() });
    let failure = || HatchetError::GrpcErrorStatus(String::from("unavailable"));
    match run.advance(StepEvent::Reported(Err(failure()))) {
        StepAction::CleanUp { task_run_external_id, result } => {
            assert_eq!(task_run_external_id, "run");
            assert_eq!(result, Err(failure()));
        }
        _ => panic!("not cleaned up"),
    }
}

#[test]
fn a_run_is_cleaned_up_even_where_the_clock_fails() {
    let mut run = flushing_run();
    match run.advance(StepEvent::Flushed { since_epoch: None }) {
        StepAction::CleanUp { task_run_external_id, result } => {
            assert_eq!(task_run_external_id, "run");
            assert_eq!(result, Err(HatchetError::SystemTimeError));
        }
        _ => panic!("not cleaned up"),
    }
}
