use hatchet_sdk::context::{WorkflowRun, WorkflowTask};
use hatchet_sdk::name_map::NameMap;
use hatchet_sdk::{Context, HatchetError};
use serde_json::Value;

fn task(id: &str, parent: &str, output: &str, filter_payload: &str) -> WorkflowTask {
    let mut parents = NameMap::new();
    parents.insert(String::from(parent), serde_json::from_str(output).unwrap());
    WorkflowTask {
        task_external_id: String::from(id),
        parents,
        filter_payload: serde_json::from_str(filter_payload).unwrap(),
    }
}

fn run() -> WorkflowRun {
    WorkflowRun {
        tasks: vec![
            task("other", "parent", "{\"message\":\"not me\"}", "1"),
            task("run", "parent", "{\"message\":\"I am your father\"}", "{\"a\":2}"),
            task("run", "second", "3", "4"),
        ],
    }
}

fn context() -> Context {
    Context::new("workflow-run", "run")
}

#[test]
fn the_output_of_a_parent_is_found() {
    let output = context().parent_output(Ok(run()), "parent").unwrap();
    assert_eq!(output.get("message").unwrap().to_string(), "\"I am your father\"");
}

#[test]
fn a_parent_that_the_task_lacks_is_not_found() {
    let missing = || HatchetError::ParentTaskNotFound { parent_step_name: String::from("second") };
    assert_eq!(context().parent_output(Ok(run()), "second").unwrap_err(), missing());
    let stranger = Context::new("workflow-run", "stranger");
    assert_eq!(stranger.parent_output(Ok(run()), "second").unwrap_err(), missing());
}

#[test]
fn the_filter_payload_is_that_of_the_task() {
    assert!(context().is_part_of(&run()));
    assert_eq!(context().filter_payload(Ok(run())).unwrap().to_string(), "{\"a\":2}");
    assert!(!Context::new("workflow-run", "stranger").is_part_of(&run()));
}

#[test]
fn problems_with_fetching_the_run_are_handed_on() {
    let problem = || HatchetError::GrpcErrorStatus(String::from("unavailable"));
    assert_eq!(context().parent_output(Err(problem()), "parent").unwrap_err(), problem());
    let payload: Result<Value, HatchetError> = context().filter_payload(Err(problem()));
    assert_eq!(payload.unwrap_err(), problem());
}

#[test]
fn log_lines_belong_to_the_task_run() {
    let entry = context().log("starting simple task");
    assert_eq!(entry.task_run_external_id, "run");
    assert_eq!(entry.message, "starting simple task");
    assert_eq!(entry.level, None);
    assert_eq!(entry.metadata, "");
    assert_eq!(entry.task_retry_count, None);
    assert_eq!(context().workflow_run_id(), "workflow-run");
    assert_eq!(context().task_run_external_id(), "run");
}

#[test]
fn chunks_are_numbered_in_order() {
    let mut context = context();
    for index in 0..5i64 {
        let chunk = context.put_stream(format!("chunk-{index}").into_bytes());
        assert_eq!(chunk.index, index);
        assert_eq!(chunk.data, format!("chunk-{index}").into_bytes());
        assert_eq!(chunk.task_run_external_id, "run");
    }
}

#[test]
fn queues_that_refuse_are_reported() {
    assert_eq!(Context::log_queued(Ok(())), Ok(()));
    assert_eq!(
        Context::log_queued(Err(String::from("channel closed"))),
        Err(HatchetError::InternalError(String::from("channel closed")))
    );
    assert_eq!(Context::chunk_queued(Ok(())), Ok(()));
    assert_eq!(
        Context::chunk_queued(Err(String::from("channel closed"))),
        Err(HatchetError::StreamError(String::from("channel closed")))
    );
}
