use std::sync::Arc;

use hatchet_sdk::clients::hatchet::Connection;
use hatchet_sdk::config::{HatchetConfig, TlsStrategy};
use hatchet_sdk::error::UninitializedField;
use hatchet_sdk::name_map::NameMap;
use hatchet_sdk::worker::task_dispatcher::AssignedAction;
use hatchet_sdk::worker::worker::{
    NamedTask, Ready, StartEvent, StartStep, Task, WorkerBuilder, WorkerEvent, WorkerStart, Workflow,
    WorkflowVersion, HEARTBEAT_INTERVAL_SECS,
};
use hatchet_sdk::{Hatchet, HatchetError, Register, Worker};

type Plain = Worker<&'static str, u8>;

fn hatchet() -> Hatchet {
    let config = HatchetConfig {
        server_url: String::from("http://localhost:8080"),
        grpc_address: String::from("localhost:7077"),
        api_token: String::from("token"),
        tls_strategy: TlsStrategy::Plaintext,
        tenant_id: String::from("tenant"),
    };
    let connection: Connection =
        Hatchet::from_token("http://localhost:8080", "localhost:7077", Ok(config)).unwrap();
    connection.hatchet
}

fn worker() -> Plain {
    hatchet().worker("my-worker").build().ok().unwrap()
}

fn version(actions: &[&str], request: u8) -> Arc<WorkflowVersion<u8>> {
    Arc::new(WorkflowVersion {
        actions: actions.iter().map(|action| String::from(*action)).collect(),
        request,
    })
}

fn named(name: &str, executable: &'static str) -> NamedTask<&'static str> {
    NamedTask { name: String::from(name), executable: Arc::new(executable) }
}

fn started(worker: &Plain) -> WorkerStart<&'static str, u8, u32, u32> {
    worker.start()
}

/// What the worker runs with once it listens, its id, and the requests that it put before.
fn listening(worker: &Plain) -> (Ready<&'static str, u32, u32>, String, Vec<u8>) {
    let mut step =
        started(worker).startup.advance(StartEvent::Registered(Ok(String::from("worker-1"))));
    let mut put = Vec::new();
    loop {
        step = match step {
            StartStep::PutWorkflow { workflow, startup } => {
                put.push(workflow.request);
                startup.advance(StartEvent::WorkflowPut)
            }
            StartStep::Listen { worker_id, ready } => return (ready, worker_id, put),
            StartStep::Stop(_) => panic!("stopped"),
        };
    }
}

/// What the worker runs for an action.
fn runs(worker: &Plain, action_id: &str) -> Option<&'static str> {
    let action = AssignedAction {
        action_type: String::from("START_STEP_RUN"),
        action_id: String::from(action_id),
        action_payload: String::new(),
        workflow_run_id: String::new(),
        task_run_external_id: String::from("run"),
        job_id: String::new(),
        job_run_id: String::new(),
        task_id: String::new(),
        retry_count: 0,
    };
    match listening(worker).0.dispatcher.handle_start_step_run(&action, Ok(()), 0) {
        Ok(launch) => Some(*launch.task),
        Err(_) => None,
    }
}

#[test]
fn a_worker_needs_a_name_and_a_client() {
    let nothing: WorkerBuilder<u8, u8> = WorkerBuilder::new();
    assert!(matches!(nothing.build(), Err(UninitializedField::Name)));
    let nameless: WorkerBuilder<u8, u8> = WorkerBuilder::new().client(hatchet());
    assert!(matches!(nameless.build(), Err(UninitializedField::Name)));
    let clientless: WorkerBuilder<u8, u8> = WorkerBuilder::new().name(String::from("w"));
    assert!(matches!(clientless.build(), Err(UninitializedField::Client)));
    assert_eq!(UninitializedField::Name.field_name(), "name");
    assert_eq!(UninitializedField::Client.field_name(), "client");
    assert_eq!(UninitializedField::Handler.field_name(), "handler");
}

#[test]
fn a_worker_has_defaults() {
    let worker = worker();
    assert_eq!(worker.name, "my-worker");
    assert_eq!(worker.client().api_token(), "token");
    assert!(worker.workflows().is_empty());
    let start = started(&worker);
    assert_eq!(start.registration.worker_name, "my-worker");
    assert!(start.registration.actions.is_empty());
    assert!(start.registration.services.is_empty());
    assert_eq!(start.registration.slots, Some(100));
    assert!(start.registration.labels.entries().is_empty());
    assert!(start.registration.webhook_id.is_none());
    assert!(start.registration.runtime_info.is_none());
    assert_eq!(listening(&worker).0.action_capacity, Some(100));
    assert_eq!(HEARTBEAT_INTERVAL_SECS, 4);
}

#[test]
fn slots_and_labels_are_made_known() {
    let mut labels = NameMap::new();
    labels.insert(String::from("env"), String::from("dev"));
    labels.insert(String::from("zone"), String::from("eu"));
    let worker: Plain =
        hatchet().worker("my-worker").slots(5).labels(labels).build().ok().unwrap();
    let start = started(&worker);
    assert_eq!(start.registration.slots, Some(5));
    assert_eq!(listening(&worker).0.action_capacity, Some(5));
    assert_eq!(start.registration.labels.entries().len(), 2);
    let env = start.registration.labels.get("env").unwrap();
    assert_eq!(env.str_value, Some(String::from("dev")));
    assert_eq!(env.int_value, None);
    let zone = start.registration.labels.get("zone").unwrap();
    assert_eq!(zone.str_value, Some(String::from("eu")));
}

#[test]
fn a_worker_without_slots_takes_no_actions() {
    for slots in [0, -1, i32::MIN] {
        let worker: Plain = hatchet().worker("w").slots(slots).build().ok().unwrap();
        assert_eq!(listening(&worker).0.action_capacity, None);
    }
}

#[test]
fn a_builder_takes_tasks_and_workflows() {
    let mut tasks = NameMap::new();
    tasks.insert(String::from("a:b"), Arc::new("given"));
    let worker: Plain = WorkerBuilder::new()
        .name(String::from("w"))
        .client(hatchet())
        .tasks(tasks)
        .workflows(vec![version(&["a:b"], 1)])
        .build()
        .ok()
        .unwrap();
    assert_eq!(runs(&worker, "a:b"), Some("given"));
    assert_eq!(worker.actions(), ["a:b"]);
}

#[test]
fn a_task_is_a_workflow_of_its_own() {
    let task = Task {
        name: String::from("simple"),
        executable: Arc::new("handler"),
        standalone_version: version(&["simple:simple"], 9),
    };
    let worker = worker().add_task_or_workflow(&task);
    assert_eq!(runs(&worker, "simple:simple"), Some("handler"));
    assert_eq!(runs(&worker, "simple"), None);
    assert_eq!(worker.workflows()[0].request, 9);
    assert_eq!(started(&worker).registration.actions, ["simple:simple"]);
}

#[test]
fn the_tasks_of_workflows_are_told_apart() {
    let first = Workflow {
        name: String::from("first"),
        executable_tasks: vec![named("a", "first a"), named("b", "first b")],
        version: version(&["first:a", "first:b"], 1),
    };
    let second = Workflow {
        name: String::from("second"),
        executable_tasks: vec![named("a", "second a")],
        version: version(&["second:a"], 2),
    };
    let worker = worker().add_task_or_workflow(&first).add_task_or_workflow(&second);
    assert_eq!(runs(&worker, "first:a"), Some("first a"));
    assert_eq!(runs(&worker, "first:b"), Some("first b"));
    assert_eq!(runs(&worker, "second:a"), Some("second a"));
    assert_eq!(runs(&worker, "second:b"), None);
    assert_eq!(worker.actions(), ["first:a", "first:b", "second:a"]);
    let requests: Vec<u8> = worker.workflows().iter().map(|version| version.request).collect();
    assert_eq!(requests, [1, 2]);
}

#[test]
fn the_last_task_of_a_name_is_run() {
    let workflow = Workflow {
        name: String::from("wf"),
        executable_tasks: vec![named("a", "old"), named("b", "other"), named("a", "new")],
        version: version(&["wf:a", "wf:b", "wf:a"], 1),
    };
    let worker = worker().add_task_or_workflow(&workflow);
    assert_eq!(runs(&worker, "wf:a"), Some("new"));
    assert_eq!(runs(&worker, "wf:b"), Some("other"));
}

#[test]
fn an_error_of_any_part_ends_the_worker() {
    let error = || HatchetError::GrpcErrorStatus(String::from("unavailable"));
    assert_eq!(Plain::observe(WorkerEvent::Heartbeat(Err(error()))), Some(error()));
    assert_eq!(Plain::observe(WorkerEvent::Dispatched(Err(error()))), Some(error()));
    assert_eq!(Plain::observe(WorkerEvent::ListenerEnded(Err(error()))), Some(error()));
    assert_eq!(
        Plain::observe(WorkerEvent::ListenerLost(String::from("task 3 panicked"))),
        Some(HatchetError::InternalError(String::from(
            "action listener stopped unexpectedly: task 3 panicked"
        )))
    );
    assert_eq!(Plain::observe(WorkerEvent::Heartbeat(Ok(()))), None);
    assert_eq!(Plain::observe(WorkerEvent::Dispatched(Ok(()))), None);
    assert_eq!(Plain::observe(WorkerEvent::ActionsClosed), None);
    assert_eq!(Plain::observe(WorkerEvent::ListenerEnded(Ok(()))), None);
}

#[test]
fn a_start_puts_the_workflows_in_order_and_then_listens() {
    let mut worker = worker();
    for request in [7u8, 8, 9] {
        worker = worker.add_task_or_workflow(&Task {
            name: format!("task-{request}"),
            executable: Arc::new("handler"),
            standalone_version: version(&[], request),
        });
    }
    let (_, worker_id, put) = listening(&worker);
    assert_eq!(worker_id, "worker-1");
    assert_eq!(put, [7, 8, 9]);
}

#[test]
fn a_worker_without_workflows_listens_at_once() {
    let registered = StartEvent::Registered(Ok(String::from("worker-1")));
    match started(&worker()).startup.advance(registered) {
        StartStep::Listen { worker_id, .. } => assert_eq!(worker_id, "worker-1"),
        _ => panic!("not listening"),
    }
}

#[test]
fn a_failed_registration_ends_the_start() {
    let task = Task {
        name: String::from("simple"),
        executable: Arc::new("handler"),
        standalone_version: version(&["simple:simple"], 9),
    };
    let error = || HatchetError::GrpcErrorStatus(String::from("unavailable"));
    let start = started(&worker().add_task_or_workflow(&task));
    match start.startup.advance(StartEvent::Registered(Err(error()))) {
        StartStep::Stop(e) => assert_eq!(e, error()),
        _ => panic!("went on"),
    }
}
