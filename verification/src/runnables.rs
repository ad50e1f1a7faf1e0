//! Workflows and tasks as they are defined, before a worker takes them up.
use vstd::prelude::*;

use crate::clients::hatchet::Hatchet;
use crate::duration::Duration;
use crate::error::UninitializedField;

verus! {

/// The longest time allowed for scheduling a task unless another is set, in seconds.
pub const DEFAULT_SCHEDULE_TIMEOUT_SECS: u64 = 300;

/// The longest time allowed for executing a task unless another is set, in seconds.
pub const DEFAULT_EXECUTION_TIMEOUT_SECS: u64 = 60;

/// The time that is allowed, in nanoseconds: what was set, or so many seconds.
pub open spec fn timeout_or(set: Option<Duration>, default_secs: u64) -> nat {
    match set {
        Some(timeout) => timeout@,
        None => (default_secs * 1_000_000_000) as nat,
    }
}

/// The items that were listed, or none.
pub open spec fn listed(set: Option<Vec<String>>) -> Seq<String> {
    match set {
        Some(items) => items@,
        None => Seq::empty(),
    }
}

/// Gathers what a workflow is defined by. A name and a client are needed.
pub struct WorkflowBuilder {
    pub name: Option<String>,
    pub client: Option<Hatchet>,
    pub description: Option<String>,
    pub version: Option<String>,
    pub on_events: Option<Vec<String>>,
    pub cron_triggers: Option<Vec<String>>,
    pub default_priority: Option<i32>,
}

/// A workflow as it is defined.
pub struct WorkflowDefinition {
    pub name: String,
    pub client: Hatchet,
    pub description: Option<String>,
    pub version: Option<String>,
    pub on_events: Vec<String>,
    pub cron_triggers: Vec<String>,
    pub default_priority: Option<i32>,
}

impl WorkflowBuilder {
    /// A builder that was given nothing.
    pub fn new() -> (builder: WorkflowBuilder)
        ensures
            builder.name is None,
            builder.client is None,
            builder.description is None,
            builder.version is None,
            builder.on_events is None,
            builder.cron_triggers is None,
            builder.default_priority is None,
    {
        WorkflowBuilder {
            name: None,
            client: None,
            description: None,
            version: None,
            on_events: None,
            cron_triggers: None,
            default_priority: None,
        }
    }

    /// Gives the workflow its name.
    pub fn name(self, name: String) -> (builder: WorkflowBuilder)
        ensures
            builder == (WorkflowBuilder { name: Some(name), ..self }),
    {
        WorkflowBuilder { name: Some(name), ..self }
    }

    /// Gives the workflow its client.
    pub fn client(self, client: Hatchet) -> (builder: WorkflowBuilder)
        ensures
            builder == (WorkflowBuilder { client: Some(client), ..self }),
    {
        WorkflowBuilder { client: Some(client), ..self }
    }

    /// Describes the workflow.
    pub fn description(self, description: String) -> (builder: WorkflowBuilder)
        ensures
            builder == (WorkflowBuilder { description: Some(description), ..self }),
    {
        WorkflowBuilder { description: Some(description), ..self }
    }

    /// Gives the workflow a version.
    pub fn version(self, version: String) -> (builder: WorkflowBuilder)
        ensures
            builder == (WorkflowBuilder { version: Some(version), ..self }),
    {
        WorkflowBuilder { version: Some(version), ..self }
    }

    /// Sets the events which cause the workflow to be run.
    pub fn on_events(self, on_events: Vec<String>) -> (builder: WorkflowBuilder)
        ensures
            builder == (WorkflowBuilder { on_events: Some(on_events), ..self }),
    {
        WorkflowBuilder { on_events: Some(on_events), ..self }
    }

    /// Sets the cron expressions at which the workflow is run.
    pub fn cron_triggers(self, cron_triggers: Vec<String>) -> (builder: WorkflowBuilder)
        ensures
            builder == (WorkflowBuilder { cron_triggers: Some(cron_triggers), ..self }),
    {
        WorkflowBuilder { cron_triggers: Some(cron_triggers), ..self }
    }

    /// Sets the workflow's priority in scheduling; a higher one comes first.
    pub fn default_priority(self, default_priority: i32) -> (builder: WorkflowBuilder)
        ensures
            builder == (WorkflowBuilder { default_priority: Some(default_priority), ..self }),
    {
        WorkflowBuilder { default_priority: Some(default_priority), ..self }
    }

    /// Defines the workflow, or names the first field that is needed and was not given.
    pub fn build(self) -> (res: Result<WorkflowDefinition, UninitializedField>)
        ensures
            match res {
                Ok(workflow) => {
                    &&& self.name == Some(workflow.name)
                    &&& self.client == Some(workflow.client)
                    &&& workflow.description == self.description
                    &&& workflow.version == self.version
                    &&& workflow.on_events@ == listed(self.on_events)
                    &&& workflow.cron_triggers@ == listed(self.cron_triggers)
                    &&& workflow.default_priority == self.default_priority
                    &&& self.on_events matches Some(events) ==> workflow.on_events@ == events@
                    &&& self.cron_triggers matches Some(triggers) ==> workflow.cron_triggers@
                        == triggers@
                },
                Err(UninitializedField::Name) => self.name is None,
                Err(UninitializedField::Client) => self.name is Some && self.client is None,
                Err(UninitializedField::Handler) => false,
            },
    {
        match (self.name, self.client) {
            (None, _) => Err(UninitializedField::Name),
            (Some(_), None) => Err(UninitializedField::Client),
            (Some(name), Some(client)) => Ok(
                WorkflowDefinition {
                    name,
                    client,
                    description: self.description,
                    version: self.version,
                    on_events: items_or_none(self.on_events),
                    cron_triggers: items_or_none(self.cron_triggers),
                    default_priority: self.default_priority,
                },
            ),
        }
    }
}

/// The items that were listed, or none.
fn items_or_none(set: Option<Vec<String>>) -> (items: Vec<String>)
    ensures
        items@ == listed(set),
{
    match set {
        Some(items) => items,
        None => Vec::new(),
    }
}

/// Gathers what a task is defined by. A name, a handler and a client are needed.
pub struct TaskBuilder<F> {
    pub name: Option<String>,
    pub handler: Option<F>,
    pub client: Option<Hatchet>,
    pub description: Option<String>,
    pub version: Option<String>,
    pub on_events: Option<Vec<String>>,
    pub cron_triggers: Option<Vec<String>>,
    pub default_priority: Option<i32>,
    pub retries: Option<i32>,
    pub schedule_timeout: Option<Duration>,
    pub execution_timeout: Option<Duration>,
}

/// A task as it is defined, with the function that handles it.
pub struct TaskDefinition<F> {
    pub name: String,
    pub handler: F,
    pub client: Hatchet,
    pub description: Option<String>,
    pub version: Option<String>,
    pub on_events: Vec<String>,
    pub cron_triggers: Vec<String>,
    pub default_priority: Option<i32>,
    pub retries: Option<i32>,
    pub schedule_timeout: Duration,
    pub execution_timeout: Duration,
}

impl<F> TaskBuilder<F> {
    /// A builder that was given nothing.
    pub fn new() -> (builder: TaskBuilder<F>)
        ensures
            builder.name is None,
            builder.handler is None,
            builder.client is None,
            builder.description is None,
            builder.version is None,
            builder.on_events is None,
            builder.cron_triggers is None,
            builder.default_priority is None,
            builder.retries is None,
            builder.schedule_timeout is None,
            builder.execution_timeout is None,
    {
        TaskBuilder {
            name: None,
            handler: None,
            client: None,
            description: None,
            version: None,
            on_events: None,
            cron_triggers: None,
            default_priority: None,
            retries: None,
            schedule_timeout: None,
            execution_timeout: None,
        }
    }

    /// Gives the task its name.
    pub fn name(self, name: String) -> (builder: TaskBuilder<F>)
        ensures
            builder == (TaskBuilder { name: Some(name), ..self }),
    {
        TaskBuilder { name: Some(name), ..self }
    }

    /// Gives the task the function that handles it.
    pub fn handler(self, handler: F) -> (builder: TaskBuilder<F>)
        ensures
            builder == (TaskBuilder { handler: Some(handler), ..self }),
    {
        TaskBuilder { handler: Some(handler), ..self }
    }

    /// Gives the task its client.
    pub fn client(self, client: Hatchet) -> (builder: TaskBuilder<F>)
        ensures
            builder == (TaskBuilder { client: Some(client), ..self }),
    {
        TaskBuilder { client: Some(client), ..self }
    }

    /// Describes the task.
    pub fn description(self, description: String) -> (builder: TaskBuilder<F>)
        ensures
            builder == (TaskBuilder { description: Some(description), ..self }),
    {
        TaskBuilder { description: Some(description), ..self }
    }

    /// Gives the task a version.
    pub fn version(self, version: String) -> (builder: TaskBuilder<F>)
        ensures
            builder == (TaskBuilder { version: Some(version), ..self }),
    {
        TaskBuilder { version: Some(version), ..self }
    }

    /// Sets the events which cause the task to be run.
    pub fn on_events(self, on_events: Vec<String>) -> (builder: TaskBuilder<F>)
        ensures
            builder == (TaskBuilder { on_events: Some(on_events), ..self }),
    {
        TaskBuilder { on_events: Some(on_events), ..self }
    }

    /// Sets the cron expressions at which the task is run.
    pub fn cron_triggers(self, cron_triggers: Vec<String>) -> (builder: TaskBuilder<F>)
        ensures
            builder == (TaskBuilder { cron_triggers: Some(cron_triggers), ..self }),
    {
        TaskBuilder { cron_triggers: Some(cron_triggers), ..self }
    }

    /// Sets the task's priority in scheduling; a higher one comes first.
    pub fn default_priority(self, default_priority: i32) -> (builder: TaskBuilder<F>)
        ensures
            builder == (TaskBuilder { default_priority: Some(default_priority), ..self }),
    {
        TaskBuilder { default_priority: Some(default_priority), ..self }
    }

    /// Sets how often the task is retried before it fails.
    pub fn retries(self, retries: i32) -> (builder: TaskBuilder<F>)
        ensures
            builder == (TaskBuilder { retries: Some(retries), ..self }),
    {
        TaskBuilder { retries: Some(retries), ..self }
    }

    /// Sets the longest time allowed for scheduling the task.
    pub fn schedule_timeout(self, schedule_timeout: Duration) -> (builder: TaskBuilder<F>)
        ensures
            builder == (TaskBuilder { schedule_timeout: Some(schedule_timeout), ..self }),
    {
        TaskBuilder { schedule_timeout: Some(schedule_timeout), ..self }
    }

    /// Sets the longest time allowed for executing the task.
    pub fn execution_timeout(self, execution_timeout: Duration) -> (builder: TaskBuilder<F>)
        ensures
            builder == (TaskBuilder { execution_timeout: Some(execution_timeout), ..self }),
    {
        TaskBuilder { execution_timeout: Some(execution_timeout), ..self }
    }

    /// Defines the task, or names the first field that is needed and was not given. Unless other
    /// limits were set, five minutes are allowed for scheduling it and one minute for executing
    /// it.
    pub fn build(self) -> (res: Result<TaskDefinition<F>, UninitializedField>)
        ensures
            match res {
                Ok(task) => {
                    &&& self.name == Some(task.name)
                    &&& self.handler == Some(task.handler)
                    &&& self.client == Some(task.client)
                    &&& task.description == self.description
                    &&& task.version == self.version
                    &&& task.on_events@ == listed(self.on_events)
                    &&& task.cron_triggers@ == listed(self.cron_triggers)
                    &&& task.default_priority == self.default_priority
                    &&& task.retries == self.retries
                    &&& task.schedule_timeout@ == timeout_or(
                        self.schedule_timeout,
                        DEFAULT_SCHEDULE_TIMEOUT_SECS,
                    )
                    &&& task.execution_timeout@ == timeout_or(
                        self.execution_timeout,
                        DEFAULT_EXECUTION_TIMEOUT_SECS,
                    )
                    &&& self.schedule_timeout matches Some(timeout) ==> task.schedule_timeout@
                        == timeout@
                    &&& self.execution_timeout matches Some(timeout) ==> task.execution_timeout@
                        == timeout@
                    &&& self.schedule_timeout is None ==> task.schedule_timeout@
                        == 300_000_000_000
                    &&& self.execution_timeout is None ==> task.execution_timeout@
                        == 60_000_000_000
                    &&& self.on_events matches Some(events) ==> task.on_events@ == events@
                    &&& self.cron_triggers matches Some(triggers) ==> task.cron_triggers@
                        == triggers@
                },
                Err(UninitializedField::Name) => self.name is None,
                Err(UninitializedField::Handler) => self.name is Some && self.handler is None,
                Err(UninitializedField::Client) => self.name is Some && self.handler is Some
                    && self.client is None,
            },
    {
        match (self.name, self.handler, self.client) {
            (None, _, _) => Err(UninitializedField::Name),
            (Some(_), None, _) => Err(UninitializedField::Handler),
            (Some(_), Some(_), None) => Err(UninitializedField::Client),
            (Some(name), Some(handler), Some(client)) => Ok(
                TaskDefinition {
                    name,
                    handler,
                    client,
                    description: self.description,
                    version: self.version,
                    on_events: items_or_none(self.on_events),
                    cron_triggers: items_or_none(self.cron_triggers),
                    default_priority: self.default_priority,
                    retries: self.retries,
                    schedule_timeout: match self.schedule_timeout {
                        Some(timeout) => timeout,
                        None => Duration::from_secs(DEFAULT_SCHEDULE_TIMEOUT_SECS),
                    },
                    execution_timeout: match self.execution_timeout {
                        Some(timeout) => timeout,
                        None => Duration::from_secs(DEFAULT_EXECUTION_TIMEOUT_SECS),
                    },
                },
            ),
        }
    }
}

impl<F> TaskDefinition<F> {
    /// Executes the task: calls a clone of its handler with the input and the context, and gives
    /// what that gives. The handler itself is kept, so that the task can be executed any number
    /// of times.
    pub fn execute<I, C, R>(&self, input: I, context: C) -> (output: R) where
        F: FnOnce(I, C) -> R + Clone,

        requires
            forall|handler: F| #[trigger]
                cloned(self.handler, handler) ==> call_requires(handler, (input, context)),
        ensures
            exists|handler: F| #[trigger]
                cloned(self.handler, handler) && call_ensures(handler, (input, context), output),
    {
        let handler = self.handler.clone();
        assert(cloned(self.handler, handler));
        handler(input, context)
    }
}

/// A limit that was set is the limit, whether it is shorter or longer than the default; the
/// default counts only where none was set, and then in whole seconds.
pub proof fn law_a_limit_that_was_set_is_kept(set: Option<Duration>, default_secs: u64)
    ensures
        set matches Some(timeout) ==> timeout_or(set, default_secs) == timeout@,
        set is None ==> timeout_or(set, default_secs) == default_secs * 1_000_000_000,
{
}

/// Unless other limits are set, a task has five minutes to be scheduled and one to be executed.
pub proof fn law_default_limits()
    ensures
        timeout_or(None, DEFAULT_SCHEDULE_TIMEOUT_SECS) == 5 * 60 * 1_000_000_000,
        timeout_or(None, DEFAULT_EXECUTION_TIMEOUT_SECS) == 60 * 1_000_000_000,
{
}

/// Items that were listed stay, all of them and in their order; where none were, there are none.
pub proof fn law_listed_items_are_kept(set: Option<Vec<String>>)
    ensures
        set matches Some(items) ==> {
            &&& listed(set).len() == items@.len()
            &&& forall|i: int| 0 <= i < items@.len() ==> (#[trigger] listed(set)[i]) == items@[i]
        },
        set is None ==> listed(set).len() == 0,
{
}

/// A task that is built has what its builder was given: its name, its handler, and each limit
/// just as it was set, be it shorter or longer than the default.
pub proof fn law_a_task_has_what_its_builder_was_given<F>(
    builder: TaskBuilder<F>,
    name: String,
    handler: F,
    client: Hatchet,
    schedule: Duration,
    execution: Duration,
    retries: i32,
    limited: TaskBuilder<F>,
    further_limited: TaskBuilder<F>,
    retried: TaskBuilder<F>,
    built: Result<TaskDefinition<F>, UninitializedField>,
)
    requires
        builder.name == Some(name),
        builder.handler == Some(handler),
        builder.client == Some(client),
        call_ensures(TaskBuilder::<F>::schedule_timeout, (builder, schedule), limited),
        call_ensures(TaskBuilder::<F>::execution_timeout, (limited, execution), further_limited),
        call_ensures(TaskBuilder::<F>::retries, (further_limited, retries), retried),
        call_ensures(TaskBuilder::<F>::build, (retried,), built),
    ensures
        built matches Ok(task) && {
            &&& task.name == name
            &&& task.handler == handler
            &&& task.client == client
            &&& task.schedule_timeout@ == schedule@
            &&& task.execution_timeout@ == execution@
            &&& task.retries == Some(retries)
            &&& task.description == builder.description
            &&& task.version == builder.version
            &&& task.default_priority == builder.default_priority
            &&& builder.on_events matches Some(events) ==> task.on_events@ == events@
            &&& builder.cron_triggers matches Some(triggers) ==> task.cron_triggers@ == triggers@
        },
{
}

/// A workflow that is built has what its builder was given.
pub proof fn law_a_workflow_has_what_its_builder_was_given(
    builder: WorkflowBuilder,
    name: String,
    client: Hatchet,
    built: Result<WorkflowDefinition, UninitializedField>,
)
    requires
        builder.name == Some(name),
        builder.client == Some(client),
        call_ensures(WorkflowBuilder::build, (builder,), built),
    ensures
        built matches Ok(workflow) && {
            &&& workflow.name == name
            &&& workflow.client == client
            &&& workflow.description == builder.description
            &&& workflow.version == builder.version
            &&& workflow.default_priority == builder.default_priority
            &&& builder.on_events matches Some(events) ==> workflow.on_events@ == events@
            &&& builder.cron_triggers matches Some(triggers) ==> workflow.cron_triggers@
                == triggers@
        },
{
}

} // verus!
