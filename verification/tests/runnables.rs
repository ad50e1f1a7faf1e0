use hatchet_sdk::config::{HatchetConfig, TlsStrategy};
use hatchet_sdk::duration::Duration;
use hatchet_sdk::error::UninitializedField;
use hatchet_sdk::runnables::{TaskBuilder, WorkflowBuilder};
use hatchet_sdk::utils::duration_to_expr;
use hatchet_sdk::Hatchet;

fn hatchet() -> Hatchet {
    let config = HatchetConfig {
        server_url: String::from("http://localhost:8080"),
        grpc_address: String::from("localhost:7077"),
        api_token: String::from("token"),
        tls_strategy: TlsStrategy::Plaintext,
        tenant_id: String::from("tenant"),
    };
    Hatchet::from_token("http://localhost:8080", "localhost:7077", Ok(config)).unwrap().hatchet
}

#[test]
fn a_task_has_default_limits() {
    let task = hatchet().task("my-task", 1u8).build().ok().unwrap();
    assert_eq!(task.name, "my-task");
    assert_eq!(task.handler, 1);
    assert_eq!(task.client.api_token(), "token");
    assert_eq!(task.schedule_timeout, Duration::from_secs(300));
    assert_eq!(task.execution_timeout, Duration::from_secs(60));
    assert_eq!(duration_to_expr(task.schedule_timeout), "5m");
    assert_eq!(duration_to_expr(task.execution_timeout), "1m");
    assert_eq!(task.description, None);
    assert_eq!(task.version, None);
    assert!(task.on_events.is_empty());
    assert!(task.cron_triggers.is_empty());
    assert_eq!(task.default_priority, None);
    assert_eq!(task.retries, None);
}

#[test]
fn what_a_task_is_given_is_kept() {
    let task = hatchet()
        .task("my-task", 1u8)
        .description(String::from("My task description"))
        .version(String::from("1.0.0"))
        .on_events(vec![String::from("my-event:trigger")])
        .cron_triggers(vec![String::from("0 0 * * *")])
        .default_priority(10)
        .schedule_timeout(Duration::from_secs(200))
        .execution_timeout(Duration::from_secs(30))
        .retries(3)
        .build()
        .ok()
        .unwrap();
    assert_eq!(task.description, Some(String::from("My task description")));
    assert_eq!(task.version, Some(String::from("1.0.0")));
    assert_eq!(task.on_events, ["my-event:trigger"]);
    assert_eq!(task.cron_triggers, ["0 0 * * *"]);
    assert_eq!(task.default_priority, Some(10));
    assert_eq!(task.schedule_timeout, Duration::from_secs(200));
    assert_eq!(task.execution_timeout, Duration::from_secs(30));
    assert_eq!(task.retries, Some(3));
}

#[test]
fn a_task_can_be_executed_any_number_of_times() {
    let greeting = String::from("hello");
    let handler = move |input: &str, context: u8| {
        let mut text = greeting;
        text.push_str(input);
        (text, context)
    };
    let task = hatchet().task("greet", handler).build().ok().unwrap();
    assert_eq!(task.execute(" world", 1), (String::from("hello world"), 1));
    assert_eq!(task.execute(" again", 2), (String::from("hello again"), 2));
}

#[test]
fn a_task_needs_a_name_a_handler_and_a_client() {
    let nothing: TaskBuilder<u8> = TaskBuilder::new();
    assert!(matches!(nothing.build(), Err(UninitializedField::Name)));
    let named: TaskBuilder<u8> = TaskBuilder::new().name(String::from("t"));
    assert!(matches!(named.build(), Err(UninitializedField::Handler)));
    let handled = TaskBuilder::new().name(String::from("t")).handler(1u8);
    assert!(matches!(handled.build(), Err(UninitializedField::Client)));
}

#[test]
fn a_workflow_keeps_what_it_is_given() {
    let workflow = hatchet()
        .workflow("my-workflow")
        .description(String::from("d"))
        .version(String::from("2"))
        .on_events(vec![String::from("e")])
        .cron_triggers(vec![String::from("c")])
        .default_priority(4)
        .build()
        .ok()
        .unwrap();
    assert_eq!(workflow.name, "my-workflow");
    assert_eq!(workflow.client.tenant_id(), "tenant");
    assert_eq!(workflow.description, Some(String::from("d")));
    assert_eq!(workflow.version, Some(String::from("2")));
    assert_eq!(workflow.on_events, ["e"]);
    assert_eq!(workflow.cron_triggers, ["c"]);
    assert_eq!(workflow.default_priority, Some(4));
}

#[test]
fn a_workflow_needs_a_name_and_a_client() {
    assert!(matches!(WorkflowBuilder::new().build(), Err(UninitializedField::Name)));
    let named = WorkflowBuilder::new().name(String::from("w"));
    assert!(matches!(named.build(), Err(UninitializedField::Client)));
    let plain = hatchet().workflow("w").build().ok().unwrap();
    assert!(plain.on_events.is_empty() && plain.cron_triggers.is_empty());
    assert_eq!(plain.default_priority, None);
}
