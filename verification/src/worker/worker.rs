//! The worker: what it can run, how it makes itself known to the engine, and when it stops.
use std::sync::Arc;

use vstd::prelude::*;

use super::action_listener::ActionListener;
use super::task_dispatcher::{shared, TaskDispatcher};
use crate::clients::hatchet::{Hatchet, HatchetView};
use crate::error::{ErrorView, HatchetError, UninitializedField};
use crate::name_map::NameMap;
use crate::text::joined;

verus! {

/// How many tasks a worker runs at a time unless another number is given.
pub const DEFAULT_SLOTS: i32 = 100;

/// How long a worker waits between two signs of life to the engine, in seconds.
pub const HEARTBEAT_INTERVAL_SECS: u64 = 4;

/// A workflow as it is made known to the engine: the actions of its tasks, in order, and the
/// request that puts it there.
pub struct WorkflowVersion<P> {
    pub actions: Vec<String>,
    pub request: P,
}

/// A task under its name within a workflow.
pub struct NamedTask<E> {
    pub name: String,
    pub executable: Arc<E>,
}

/// A collection of tasks.
pub struct Workflow<E, P> {
    pub name: String,
    pub executable_tasks: Vec<NamedTask<E>>,
    pub version: Arc<WorkflowVersion<P>>,
}

/// A task that is a workflow of its own.
pub struct Task<E, P> {
    pub name: String,
    pub executable: Arc<E>,
    pub standalone_version: Arc<WorkflowVersion<P>>,
}

/// Takes up tasks or workflows of the type `T`.
pub trait Register<T>: Sized {
    /// How the worker may be after it has taken up the tasks.
    spec fn takes_up(self, workflow: T, registered: Self) -> bool;

    /// Registers a task or workflow. Runs of it can then be assigned to the worker.
    fn add_task_or_workflow(self, workflow: &T) -> (registered: Self)
        ensures
            self.takes_up(*workflow, registered),
    ;
}

/// A container for tasks, which it executes once started.
pub struct Worker<E, P> {
    pub name: String,
    client: Hatchet,
    slots: i32,
    tasks: NameMap<Arc<E>>,
    workflows: Vec<Arc<WorkflowVersion<P>>>,
    labels: NameMap<String>,
}

/// The model of a [`Worker`].
#[verifier::ext_equal]
#[verifier::reject_recursive_types(E)]
#[verifier::reject_recursive_types(P)]
pub struct WorkerView<E, P> {
    pub name: Seq<char>,
    pub client: HatchetView,
    pub slots: i32,
    pub tasks: Map<Seq<char>, Arc<E>>,
    pub workflows: Seq<Arc<WorkflowVersion<P>>>,
    pub labels: Map<Seq<char>, String>,
}

impl<E, P> View for Worker<E, P> {
    type V = WorkerView<E, P>;

    closed spec fn view(&self) -> WorkerView<E, P> {
        WorkerView {
            name: self.name@,
            client: self.client@,
            slots: self.slots,
            tasks: self.tasks@,
            workflows: self.workflows@,
            labels: self.labels@,
        }
    }
}

/// Gathers what a worker is made from. A name and a client are needed; the rest has defaults.
pub struct WorkerBuilder<E, P> {
    pub name: Option<String>,
    pub client: Option<Hatchet>,
    pub slots: Option<i32>,
    pub tasks: Option<NameMap<Arc<E>>>,
    pub workflows: Option<Vec<Arc<WorkflowVersion<P>>>>,
    pub labels: Option<NameMap<String>>,
}

impl<E, P> WorkerBuilder<E, P> {
    /// A builder that was given nothing.
    pub fn new() -> (builder: WorkerBuilder<E, P>)
        ensures
            builder.name is None,
            builder.client is None,
            builder.slots is None,
            builder.tasks is None,
            builder.workflows is None,
            builder.labels is None,
    {
        WorkerBuilder {
            name: None,
            client: None,
            slots: None,
            tasks: None,
            workflows: None,
            labels: None,
        }
    }

    /// Gives the worker its name.
    pub fn name(self, name: String) -> (builder: WorkerBuilder<E, P>)
        ensures
            builder == (WorkerBuilder { name: Some(name), ..self }),
    {
        WorkerBuilder { name: Some(name), ..self }
    }

    /// Gives the worker its client.
    pub fn client(self, client: Hatchet) -> (builder: WorkerBuilder<E, P>)
        ensures
            builder == (WorkerBuilder { client: Some(client), ..self }),
    {
        WorkerBuilder { client: Some(client), ..self }
    }

    /// Sets how many tasks the worker runs at a time.
    pub fn slots(self, slots: i32) -> (builder: WorkerBuilder<E, P>)
        ensures
            builder == (WorkerBuilder { slots: Some(slots), ..self }),
    {
        WorkerBuilder { slots: Some(slots), ..self }
    }

    /// Gives the worker tasks, by the names of their actions.
    pub fn tasks(self, tasks: NameMap<Arc<E>>) -> (builder: WorkerBuilder<E, P>)
        ensures
            builder == (WorkerBuilder { tasks: Some(tasks), ..self }),
    {
        WorkerBuilder { tasks: Some(tasks), ..self }
    }

    /// Gives the worker workflows to make known.
    pub fn workflows(self, workflows: Vec<Arc<WorkflowVersion<P>>>) -> (builder: WorkerBuilder<
        E,
        P,
    >)
        ensures
            builder == (WorkerBuilder { workflows: Some(workflows), ..self }),
    {
        WorkerBuilder { workflows: Some(workflows), ..self }
    }

    /// Labels the worker.
    pub fn labels(self, labels: NameMap<String>) -> (builder: WorkerBuilder<E, P>)
        ensures
            builder == (WorkerBuilder { labels: Some(labels), ..self }),
    {
        WorkerBuilder { labels: Some(labels), ..self }
    }

    /// Builds the worker, or names the first field that is needed and was not given.
    pub fn build(self) -> (res: Result<Worker<E, P>, UninitializedField>)
        ensures
            match (self.name, self.client) {
                (None, _) => res == Err::<Worker<E, P>, UninitializedField>(
                    UninitializedField::Name,
                ),
                (Some(_), None) => res == Err::<Worker<E, P>, UninitializedField>(
                    UninitializedField::Client,
                ),
                (Some(name), Some(client)) => res matches Ok(worker) && worker@ == (WorkerView {
                    name: name@,
                    client: client@,
                    slots: match self.slots {
                        Some(slots) => slots,
                        None => DEFAULT_SLOTS,
                    },
                    tasks: match self.tasks {
                        Some(tasks) => tasks@,
                        None => Map::empty(),
                    },
                    workflows: match self.workflows {
                        Some(workflows) => workflows@,
                        None => Seq::empty(),
                    },
                    labels: match self.labels {
                        Some(labels) => labels@,
                        None => Map::empty(),
                    },
                }),
            },
    {
        let name = match self.name {
            Some(name) => name,
            None => {
                return Err(UninitializedField::Name);
            },
        };
        let client = match self.client {
            Some(client) => client,
            None => {
                return Err(UninitializedField::Client);
            },
        };
        Ok(
            Worker {
                name,
                client,
                slots: match self.slots {
                    Some(slots) => slots,
                    None => DEFAULT_SLOTS,
                },
                tasks: match self.tasks {
                    Some(tasks) => tasks,
                    None => NameMap::new(),
                },
                workflows: match self.workflows {
                    Some(workflows) => workflows,
                    None => Vec::new(),
                },
                labels: match self.labels {
                    Some(labels) => labels,
                    None => NameMap::new(),
                },
            },
        )
    }
}

/// The name of the action that runs a task of a workflow.
pub open spec fn qualified_name(workflow: Seq<char>, task: Seq<char>) -> Seq<char> {
    workflow + ":"@ + task
}

/// The name of the action that runs a task of a workflow.
fn qualified(workflow: &str, task: &str) -> (name: String)
    ensures
        name@ == qualified_name(workflow@, task@),
{
    joined(workflow, ":").concat(task)
}

/// The tasks of a worker once those of a workflow were taken up, each replacing one of the
/// same name.
pub open spec fn with_tasks<E>(
    tasks: Map<Seq<char>, Arc<E>>,
    workflow: Seq<char>,
    more: Seq<NamedTask<E>>,
) -> Map<Seq<char>, Arc<E>>
    decreases more.len(),
{
    if more.len() == 0 {
        tasks
    } else {
        with_tasks(tasks, workflow, more.drop_last()).insert(
            qualified_name(workflow, more.last().name@),
            more.last().executable,
        )
    }
}

impl<E, P> Register<Workflow<E, P>> for Worker<E, P> {
    open spec fn takes_up(self, workflow: Workflow<E, P>, registered: Worker<E, P>) -> bool {
        registered@ == (WorkerView {
            tasks: with_tasks(self@.tasks, workflow.name@, workflow.executable_tasks@),
            workflows: self@.workflows.push(workflow.version),
            ..self@
        })
    }

    fn add_task_or_workflow(self, workflow: &Workflow<E, P>) -> (registered: Worker<E, P>) {
        let mut registered = self;
        registered.workflows.push(shared(&workflow.version));
        let ghost before = self@.tasks;
        let more = &workflow.executable_tasks;
        let mut i: usize = 0;
        proof {
            assert(more@.take(0) =~= Seq::empty());
        }
        while i < more.len()
            invariant
                i <= more.len(),
                *more == workflow.executable_tasks,
                registered.tasks@ == with_tasks(before, workflow.name@, more@.take(i as int)),
                registered.name == self.name,
                registered.client == self.client,
                registered.slots == self.slots,
                registered.labels == self.labels,
                registered.workflows@ == self.workflows@.push(workflow.version),
            decreases more.len() - i,
        {
            let name = qualified(workflow.name.as_str(), more[i].name.as_str());
            registered.tasks.insert(name, shared(&more[i].executable));
            proof {
                assert(more@.take(i + 1).drop_last() =~= more@.take(i as int));
            }
            i = i + 1;
        }
        proof {
            assert(more@.take(more.len() as int) =~= more@);
        }
        registered
    }
}

impl<E, P> Register<Task<E, P>> for Worker<E, P> {
    open spec fn takes_up(self, task: Task<E, P>, registered: Worker<E, P>) -> bool {
        registered@ == (WorkerView {
            tasks: self@.tasks.insert(qualified_name(task.name@, task.name@), task.executable),
            workflows: self@.workflows.push(task.standalone_version),
            ..self@
        })
    }

    fn add_task_or_workflow(self, task: &Task<E, P>) -> (registered: Worker<E, P>)
        ensures
            forall|action: Seq<char>|
                action != qualified_name(task.name@, task.name@) ==> (
                #[trigger] registered@.tasks.contains_key(action)
                    <==> self@.tasks.contains_key(action)) && (self@.tasks.contains_key(action)
                    ==> registered@.tasks[action] == self@.tasks[action]),
    {
        let mut registered = self;
        registered.workflows.push(shared(&task.standalone_version));
        let name = qualified(task.name.as_str(), task.name.as_str());
        registered.tasks.insert(name, shared(&task.executable));
        registered
    }
}

/// Of tasks of a workflow that bear the same name, the one that was added last is run: a task
/// after which no other bears its name is what its action runs.
pub proof fn law_the_last_task_of_a_name_is_run<E>(
    tasks: Map<Seq<char>, Arc<E>>,
    workflow: Seq<char>,
    more: Seq<NamedTask<E>>,
    i: int,
)
    requires
        0 <= i < more.len(),
        forall|later: int| i < later < more.len() ==> (#[trigger] more[later]).name@ != more[i].name@,
    ensures
        with_tasks(tasks, workflow, more).contains_key(qualified_name(workflow, more[i].name@)),
        with_tasks(tasks, workflow, more)[qualified_name(workflow, more[i].name@)]
            == more[i].executable,
    decreases more.len(),
{
    if i < more.len() - 1 {
        let fewer = more.drop_last();
        assert forall|later: int| i < later < fewer.len() implies (#[trigger] fewer[later]).name@
            != fewer[i].name@ by {
            assert(fewer[later] == more[later]);
        }
        law_the_last_task_of_a_name_is_run(tasks, workflow, fewer, i);
        assert(more[more.len() - 1].name@ != more[i].name@);
        law_actions_tell_tasks_apart(workflow, more.last().name@, more[i].name@);
    }
}

/// Within a workflow, tasks of different names are run by different actions.
pub proof fn law_actions_tell_tasks_apart(workflow: Seq<char>, a: Seq<char>, b: Seq<char>)
    requires
        a != b,
    ensures
        qualified_name(workflow, a) != qualified_name(workflow, b),
{
    let prefix = workflow + ":"@;
    assert(qualified_name(workflow, a).skip(prefix.len() as int) =~= a);
    assert(qualified_name(workflow, b).skip(prefix.len() as int) =~= b);
}

/// Taking up a workflow leaves every action as it was that is none of its tasks' own.
pub proof fn law_other_actions_are_left_as_they_were<E>(
    tasks: Map<Seq<char>, Arc<E>>,
    workflow: Seq<char>,
    more: Seq<NamedTask<E>>,
    action: Seq<char>,
)
    requires
        forall|i: int|
            0 <= i < more.len() ==> qualified_name(workflow, (#[trigger] more[i]).name@) != action,
    ensures
        with_tasks(tasks, workflow, more).contains_key(action) <==> tasks.contains_key(action),
        tasks.contains_key(action) ==> with_tasks(tasks, workflow, more)[action] == tasks[action],
    decreases more.len(),
{
    if more.len() > 0 {
        let fewer = more.drop_last();
        assert forall|i: int| 0 <= i < fewer.len() implies qualified_name(
            workflow,
            (#[trigger] fewer[i]).name@,
        ) != action by {
            assert(fewer[i] == more[i]);
        }
        law_other_actions_are_left_as_they_were(tasks, workflow, fewer, action);
        assert(qualified_name(workflow, more[more.len() - 1].name@) != action);
    }
}

/// What texts say, one by one.
pub open spec fn texts(strings: Seq<String>) -> Seq<Seq<char>> {
    strings.map_values(|s: String| s@)
}

/// The actions that a worker can perform: those of its workflows, in the order in which they
/// were taken up.
pub open spec fn actions_of<P>(workflows: Seq<Arc<WorkflowVersion<P>>>) -> Seq<Seq<char>>
    decreases workflows.len(),
{
    if workflows.len() == 0 {
        Seq::empty()
    } else {
        actions_of(workflows.drop_last()) + texts(workflows.last().actions@)
    }
}

/// A label of a worker, as the engine takes it.
#[derive(Debug)]
pub struct WorkerLabels {
    pub str_value: Option<String>,
    pub int_value: Option<i32>,
}

/// What a worker runs on, as the engine takes it.
#[derive(Debug)]
pub struct RuntimeInfo {
    pub description: String,
}

/// What a worker makes itself known with.
pub struct WorkerRegisterRequest {
    pub worker_name: String,
    pub actions: Vec<String>,
    pub services: Vec<String>,
    pub slots: Option<i32>,
    pub labels: NameMap<WorkerLabels>,
    pub webhook_id: Option<String>,
    pub runtime_info: Option<RuntimeInfo>,
}

/// The label says the text.
pub open spec fn is_label(label: WorkerLabels, text: String) -> bool {
    &&& label.str_value matches Some(value) && value@ == text@
    &&& label.int_value is None
}

/// The labels say what the texts of the same names say.
pub open spec fn are_labels(
    labels: Map<Seq<char>, WorkerLabels>,
    texts: Map<Seq<char>, String>,
) -> bool {
    &&& forall|name: Seq<char>| #[trigger]
        labels.contains_key(name) <==> texts.contains_key(name)
    &&& forall|name: Seq<char>| #[trigger]
        labels.contains_key(name) ==> is_label(labels[name], texts[name])
}

/// The labels as the engine takes them.
fn worker_labels(texts: &NameMap<String>) -> (labels: NameMap<WorkerLabels>)
    ensures
        are_labels(labels@, texts@),
{
    let entries = texts.entries();
    let mut labels: NameMap<WorkerLabels> = NameMap::new();
    let mut i: usize = 0;
    proof {
        assert(entries@.take(0) =~= Seq::empty());
    }
    while i < entries.len()
        invariant
            i <= entries.len(),
            are_labels(labels@, crate::name_map::map_of(entries@.take(i as int))),
        decreases entries.len() - i,
    {
        let ghost before = labels@;
        labels.insert(
            entries[i].0.clone(),
            WorkerLabels { str_value: Some(entries[i].1.clone()), int_value: None },
        );
        proof {
            let shorter = entries@.take(i as int);
            let longer = entries@.take(i + 1);
            assert(longer.drop_last() =~= shorter);
            assert(longer.last() == entries@[i as int]);
            assert forall|name: Seq<char>| #[trigger] labels@.contains_key(name) implies is_label(
                labels@[name],
                crate::name_map::map_of(longer)[name],
            ) by {
                if name != entries@[i as int].0@ {
                    assert(before.contains_key(name));
                }
            }
            assert forall|name: Seq<char>| #[trigger]
                labels@.contains_key(name) <==> crate::name_map::map_of(longer).contains_key(
                    name,
                ) by {
                if name != entries@[i as int].0@ {
                    assert(before.contains_key(name) <==> crate::name_map::map_of(
                        shorter,
                    ).contains_key(name));
                }
            }
        }
        i = i + 1;
    }
    proof {
        assert(entries@.take(entries.len() as int) =~= entries@);
    }
    labels
}

/// A copy of a register of tasks, which shares the tasks with it.
fn copied_tasks<E>(tasks: &NameMap<Arc<E>>) -> (copy: NameMap<Arc<E>>)
    ensures
        copy@ == tasks@,
{
    let entries = tasks.entries();
    let mut copy: NameMap<Arc<E>> = NameMap::new();
    let mut i: usize = 0;
    proof {
        assert(entries@.take(0) =~= Seq::empty());
    }
    while i < entries.len()
        invariant
            i <= entries.len(),
            copy@ == crate::name_map::map_of(entries@.take(i as int)),
        decreases entries.len() - i,
    {
        copy.insert(entries[i].0.clone(), shared(&entries[i].1));
        proof {
            assert(entries@.take(i + 1).drop_last() =~= entries@.take(i as int));
        }
        i = i + 1;
    }
    proof {
        assert(entries@.take(entries.len() as int) =~= entries@);
    }
    copy
}

/// What a worker runs with once it has set out.
pub struct Ready<E, T, H> {
    /// How many assigned actions may wait to be dispatched, or `None` where the worker has no
    /// slot and cannot take any.
    pub action_capacity: Option<usize>,
    pub dispatcher: TaskDispatcher<E, T, H>,
    pub listener: ActionListener,
}

/// A worker that sets out: what makes it known to the engine, which is sent first, and what
/// follows.
pub struct WorkerStart<E, P, T, H> {
    pub registration: WorkerRegisterRequest,
    pub startup: Startup<E, P, T, H>,
}

/// What a worker that sets out waited for has happened.
pub enum StartEvent {
    /// The engine took the registration, and gave the id under which it knows the worker; or it
    /// did not.
    Registered(Result<String, HatchetError>),
    /// The engine took the workflow.
    WorkflowPut,
}

/// The model of a [`StartEvent`].
pub enum StartEventView {
    Registered(Result<Seq<char>, ErrorView>),
    WorkflowPut,
}

impl View for StartEvent {
    type V = StartEventView;

    open spec fn view(&self) -> StartEventView {
        match self {
            StartEvent::Registered(Ok(worker_id)) => StartEventView::Registered(Ok(worker_id@)),
            StartEvent::Registered(Err(e)) => StartEventView::Registered(Err(e@)),
            StartEvent::WorkflowPut => StartEventView::WorkflowPut,
        }
    }
}

/// How far a worker has come in setting out.
enum StartPhase {
    Registering,
    Putting { worker_id: String, put: usize },
}

/// How far a worker has come in setting out.
#[verifier::ext_equal]
pub enum StartPhaseView {
    /// It is being made known to the engine.
    Registering,
    /// The engine knows it under the id, and the workflow at the position is being put there.
    Putting { worker_id: Seq<char>, put: nat },
}

/// Leads a worker from its registration over that of its workflows to where it listens.
pub struct Startup<E, P, T, H> {
    workflows: Vec<Arc<WorkflowVersion<P>>>,
    phase: StartPhase,
    ready: Ready<E, T, H>,
}

/// The model of a [`Startup`].
#[verifier::reject_recursive_types(E)]
#[verifier::reject_recursive_types(P)]
#[verifier::reject_recursive_types(T)]
#[verifier::reject_recursive_types(H)]
pub struct StartupView<E, P, T, H> {
    pub workflows: Seq<Arc<WorkflowVersion<P>>>,
    pub phase: StartPhaseView,
    pub ready: Ready<E, T, H>,
}

/// What is to be done next for a worker that sets out.
pub enum StartStep<E, P, T, H> {
    /// Put the workflow there, and then go on.
    PutWorkflow { workflow: Arc<WorkflowVersion<P>>, startup: Startup<E, P, T, H> },
    /// Listen for actions and dispatch them.
    Listen { worker_id: String, ready: Ready<E, T, H> },
    /// Give up, with the error.
    Stop(HatchetError),
}

/// The model of a [`StartStep`].
#[verifier::reject_recursive_types(E)]
#[verifier::reject_recursive_types(P)]
#[verifier::reject_recursive_types(T)]
#[verifier::reject_recursive_types(H)]
pub enum StartStepView<E, P, T, H> {
    PutWorkflow { workflow: Arc<WorkflowVersion<P>>, startup: StartupView<E, P, T, H> },
    Listen { worker_id: Seq<char>, ready: Ready<E, T, H> },
    Stop(ErrorView),
}

impl<E, P, T, H> View for Startup<E, P, T, H> {
    type V = StartupView<E, P, T, H>;

    closed spec fn view(&self) -> StartupView<E, P, T, H> {
        StartupView {
            workflows: self.workflows@,
            phase: match self.phase {
                StartPhase::Registering => StartPhaseView::Registering,
                StartPhase::Putting { worker_id, put } => StartPhaseView::Putting {
                    worker_id: worker_id@,
                    put: put as nat,
                },
            },
            ready: self.ready,
        }
    }
}

impl<E, P, T, H> View for StartStep<E, P, T, H> {
    type V = StartStepView<E, P, T, H>;

    open spec fn view(&self) -> StartStepView<E, P, T, H> {
        match self {
            StartStep::PutWorkflow { workflow, startup } => StartStepView::PutWorkflow {
                workflow: *workflow,
                startup: startup@,
            },
            StartStep::Listen { worker_id, ready } => StartStepView::Listen {
                worker_id: worker_id@,
                ready: *ready,
            },
            StartStep::Stop(e) => StartStepView::Stop(e@),
        }
    }
}

impl<E, P, T, H> StartupView<E, P, T, H> {
    /// The event is the one that the worker waits for.
    pub open spec fn awaits(self, event: StartEventView) -> bool {
        match self.phase {
            StartPhaseView::Registering => event is Registered,
            StartPhaseView::Putting { .. } => event is WorkflowPut,
        }
    }

    /// The step that puts the workflow at the position there, or lets the worker listen where
    /// there is no further one.
    pub open spec fn put_or_listen(
        self,
        worker_id: Seq<char>,
        position: nat,
    ) -> StartStepView<E, P, T, H> {
        if position < self.workflows.len() {
            StartStepView::PutWorkflow {
                workflow: self.workflows[position as int],
                startup: StartupView {
                    phase: StartPhaseView::Putting { worker_id, put: position },
                    ..self
                },
            }
        } else {
            StartStepView::Listen { worker_id, ready: self.ready }
        }
    }

    /// What is to be done after the event that the worker waited for.
    pub open spec fn after(self, event: StartEventView) -> StartStepView<E, P, T, H> {
        match (self.phase, event) {
            (_, StartEventView::Registered(Err(e))) => StartStepView::Stop(e),
            (_, StartEventView::Registered(Ok(worker_id))) => self.put_or_listen(worker_id, 0),
            (StartPhaseView::Putting { worker_id, put }, _) => self.put_or_listen(
                worker_id,
                put + 1,
            ),
            (StartPhaseView::Registering, _) => self.put_or_listen(Seq::empty(), 0),
        }
    }
}

impl<E, P, T, H> Startup<E, P, T, H> {
    #[verifier::type_invariant]
    spec fn wf(self) -> bool {
        match self.phase {
            StartPhase::Registering => true,
            StartPhase::Putting { put, .. } => put < self.workflows.len(),
        }
    }

    /// Puts the workflow at the position there, or lets the worker listen.
    fn put_or_listen(
        workflows: Vec<Arc<WorkflowVersion<P>>>,
        ready: Ready<E, T, H>,
        worker_id: String,
        position: usize,
    ) -> (step: StartStep<E, P, T, H>)
        ensures
            step@ == (StartupView {
                workflows: workflows@,
                phase: StartPhaseView::Registering,
                ready,
            }).put_or_listen(worker_id@, position as nat),
    {
        if position < workflows.len() {
            StartStep::PutWorkflow {
                workflow: shared(&workflows[position]),
                startup: Startup {
                    workflows,
                    phase: StartPhase::Putting { worker_id, put: position },
                    ready,
                },
            }
        } else {
            StartStep::Listen { worker_id, ready }
        }
    }

    /// Takes note of the event that the worker waited for, and gives what is to be done next.
    pub fn advance(self, event: StartEvent) -> (step: StartStep<E, P, T, H>)
        requires
            self@.awaits(event@),
        ensures
            step@ == self@.after(event@),
    {
        proof {
            use_type_invariant(&self);
        }
        match (self.phase, event) {
            (_, StartEvent::Registered(Err(e))) => StartStep::Stop(e),
            (_, StartEvent::Registered(Ok(worker_id))) => Self::put_or_listen(
                self.workflows,
                self.ready,
                worker_id,
                0,
            ),
            (StartPhase::Putting { worker_id, put }, _) => Self::put_or_listen(
                self.workflows,
                self.ready,
                worker_id,
                put + 1,
            ),
            (StartPhase::Registering, _) => Self::put_or_listen(
                self.workflows,
                self.ready,
                String::new(),
                0,
            ),
        }
    }
}

/// What is to be done for a worker that was registered and `puts` of whose workflows the engine
/// has taken.
pub open spec fn step_after_puts<E, P, T, H>(
    startup: StartupView<E, P, T, H>,
    worker_id: Seq<char>,
    puts: nat,
) -> StartStepView<E, P, T, H>
    decreases puts,
{
    if puts == 0 {
        startup.after(StartEventView::Registered(Ok(worker_id)))
    } else {
        match step_after_puts(startup, worker_id, (puts - 1) as nat) {
            StartStepView::PutWorkflow { startup, .. } => startup.after(
                StartEventView::WorkflowPut,
            ),
            other => other,
        }
    }
}

/// A worker that the engine did not register gives up with the error of the registration, and
/// does nothing more.
pub proof fn law_a_failed_registration_ends_the_start<E, P, T, H>(
    startup: StartupView<E, P, T, H>,
    error: ErrorView,
)
    ensures
        startup.after(StartEventView::Registered(Err(error))) == StartStepView::<E, P, T, H>::Stop(
            error,
        ),
{
}

/// A worker that was registered puts each of its workflows there once, in their order, and only
/// after the last of them listens, under the id that the registration gave it.
pub proof fn law_course_of_a_start<E, P, T, H>(
    startup: StartupView<E, P, T, H>,
    worker_id: Seq<char>,
    puts: nat,
)
    requires
        puts <= startup.workflows.len(),
    ensures
        step_after_puts(startup, worker_id, puts) == startup.put_or_listen(worker_id, puts),
        step_after_puts(startup, worker_id, puts) is Listen <==> puts == startup.workflows.len(),
        step_after_puts(startup, worker_id, puts) matches StartStepView::PutWorkflow {
            workflow,
            ..
        } ==> workflow == startup.workflows[puts as int],
        step_after_puts(startup, worker_id, puts) matches StartStepView::Listen {
            worker_id: id,
            ready,
        } ==> id == worker_id && ready == startup.ready,
    decreases puts,
{
    if puts > 0 {
        law_course_of_a_start(startup, worker_id, (puts - 1) as nat);
    }
}

/// What happens while a worker runs.
pub enum WorkerEvent {
    /// A sign of life was sent, or could not be.
    Heartbeat(Result<(), HatchetError>),
    /// An assigned action was dispatched, or could not be.
    Dispatched(Result<(), HatchetError>),
    /// No more actions will come.
    ActionsClosed,
    /// The listener ended.
    ListenerEnded(Result<(), HatchetError>),
    /// The listener ended without a result, with the reason.
    ListenerLost(String),
}

/// The error with which a worker stops upon an event, or `None` where it goes on. Every error
/// of one of its parts stops it. That nothing comes any more does not: the worker goes on for
/// as long as the engine takes its signs of life.
pub open spec fn stops_with(event: WorkerEvent) -> Option<ErrorView> {
    match event {
        WorkerEvent::Heartbeat(Err(e)) => Some(e@),
        WorkerEvent::Dispatched(Err(e)) => Some(e@),
        WorkerEvent::ListenerEnded(Err(e)) => Some(e@),
        WorkerEvent::ListenerLost(reason) => Some(
            ErrorView::InternalError("action listener stopped unexpectedly: "@ + reason@),
        ),
        _ => None,
    }
}

impl<E, P> Worker<E, P> {
    /// The client of the worker.
    pub fn client(&self) -> (client: &Hatchet)
        ensures
            client@ == self@.client,
    {
        &self.client
    }

    /// The workflows to make known to the engine, in the order in which they were taken up.
    pub fn workflows(&self) -> (workflows: &Vec<Arc<WorkflowVersion<P>>>)
        ensures
            workflows@ == self@.workflows,
    {
        &self.workflows
    }

    /// The actions that the worker can perform.
    pub fn actions(&self) -> (actions: Vec<String>)
        ensures
            texts(actions@) == actions_of(self@.workflows),
    {
        let mut actions: Vec<String> = Vec::new();
        let mut i: usize = 0;
        proof {
            assert(self.workflows@.take(0) =~= Seq::empty());
            assert(texts(actions@) =~= Seq::empty());
        }
        while i < self.workflows.len()
            invariant
                i <= self.workflows.len(),
                texts(actions@) == actions_of(self.workflows@.take(i as int)),
            decreases self.workflows.len() - i,
        {
            let version = &self.workflows[i];
            let own = &version.actions;
            let ghost before = texts(actions@);
            let mut j: usize = 0;
            proof {
                assert(before =~= before + texts(own@.take(0)));
            }
            while j < own.len()
                invariant
                    j <= own.len(),
                    texts(actions@) == before + texts(own@.take(j as int)),
                decreases own.len() - j,
            {
                let ghost so_far = texts(actions@);
                actions.push(own[j].clone());
                proof {
                    assert(texts(actions@) =~= so_far.push(own@[j as int]@));
                    assert(texts(own@.take(j + 1)) =~= texts(own@.take(j as int)).push(
                        own@[j as int]@,
                    ));
                    assert(before + texts(own@.take(j + 1)) =~= (before + texts(
                        own@.take(j as int),
                    )).push(own@[j as int]@));
                }
                j = j + 1;
            }
            proof {
                assert(own@.take(own.len() as int) =~= own@);
                assert(self.workflows@.take(i + 1).drop_last() =~= self.workflows@.take(i as int));
            }
            i = i + 1;
        }
        proof {
            assert(self.workflows@.take(self.workflows.len() as int) =~= self.workflows@);
        }
        actions
    }

    /// What the worker makes itself known with: its name, the actions that it can perform, its
    /// slots and its labels.
    pub fn register_worker(&self) -> (registration: WorkerRegisterRequest)
        ensures
            registration.worker_name@ == self@.name,
            texts(registration.actions@) == actions_of(self@.workflows),
            registration.services@ == Seq::<String>::empty(),
            registration.slots == Some(self@.slots),
            are_labels(registration.labels@, self@.labels),
            registration.webhook_id is None,
            registration.runtime_info is None,
    {
        WorkerRegisterRequest {
            worker_name: self.name.clone(),
            actions: self.actions(),
            services: Vec::new(),
            slots: Some(self.slots),
            labels: worker_labels(&self.labels),
            webhook_id: None,
            runtime_info: None,
        }
    }

    /// A copy of the list of workflows, which shares them with it.
    fn copied_workflows(&self) -> (copy: Vec<Arc<WorkflowVersion<P>>>)
        ensures
            copy@ == self@.workflows,
    {
        let mut copy: Vec<Arc<WorkflowVersion<P>>> = Vec::new();
        let mut i: usize = 0;
        while i < self.workflows.len()
            invariant
                i <= self.workflows.len(),
                copy@ == self.workflows@.take(i as int),
            decreases self.workflows.len() - i,
        {
            copy.push(shared(&self.workflows[i]));
            i = i + 1;
        }
        copy
    }

    /// Sets out: gives what makes the worker known to the engine, and what leads it from there
    /// over its workflows to where it listens. It then has room for as many waiting actions as it
    /// has slots, a dispatcher for its tasks with no run under way, and a listener whose stream
    /// has not failed.
    pub fn start<T, H>(&self) -> (start: WorkerStart<E, P, T, H>)
        ensures
            start.registration.worker_name@ == self@.name,
            texts(start.registration.actions@) == actions_of(self@.workflows),
            start.registration.services@ == Seq::<String>::empty(),
            start.registration.slots == Some(self@.slots),
            are_labels(start.registration.labels@, self@.labels),
            start.registration.webhook_id is None,
            start.registration.runtime_info is None,
            start.startup@.phase == StartPhaseView::Registering,
            start.startup@.workflows == self@.workflows,
            match start.startup@.ready.action_capacity {
                Some(capacity) => self@.slots > 0 && capacity == self@.slots,
                None => self@.slots <= 0,
            },
            start.startup@.ready.dispatcher@.registry == self@.tasks,
            start.startup@.ready.dispatcher@.task_runs.dom() == Set::<Seq<char>>::empty(),
            start.startup@.ready.listener@ == 0,
    {
        WorkerStart {
            registration: self.register_worker(),
            startup: Startup {
                workflows: self.copied_workflows(),
                phase: StartPhase::Registering,
                ready: Ready {
                    action_capacity: if self.slots > 0 {
                        Some(self.slots as usize)
                    } else {
                        None
                    },
                    dispatcher: TaskDispatcher::new(copied_tasks(&self.tasks)),
                    listener: ActionListener::new(),
                },
            },
        }
    }

    /// Decides whether the worker stops upon an event, and with what error.
    pub fn observe(event: WorkerEvent) -> (stop: Option<HatchetError>)
        ensures
            match stop {
                Some(e) => stops_with(event) == Some(e@),
                None => stops_with(event) is None,
            },
    {
        match event {
            WorkerEvent::Heartbeat(Err(e)) => Some(e),
            WorkerEvent::Dispatched(Err(e)) => Some(e),
            WorkerEvent::ListenerEnded(Err(e)) => Some(e),
            WorkerEvent::ListenerLost(reason) => Some(
                HatchetError::InternalError(
                    joined("action listener stopped unexpectedly: ", reason.as_str()),
                ),
            ),
            _ => None,
        }
    }
}

/// An error of any of its parts ends the worker, with that error. In particular a listener that
/// has given up does: otherwise the worker would go on looking healthy to the engine long after
/// it had stopped being able to receive anything.
pub proof fn law_an_error_of_any_part_ends_the_worker(error: HatchetError)
    ensures
        stops_with(WorkerEvent::ListenerEnded(Err(error))) == Some(error@),
        stops_with(WorkerEvent::Dispatched(Err(error))) == Some(error@),
        stops_with(WorkerEvent::Heartbeat(Err(error))) == Some(error@),
{
}

/// A worker that has taken up a task has it under the action of that task, whatever it had
/// there before, and offers the actions of the task behind those that it offered before.
pub proof fn law_a_registered_task_is_found_under_its_action<E, P>(
    worker: Worker<E, P>,
    task: Task<E, P>,
    registered: Worker<E, P>,
)
    requires
        worker.takes_up(task, registered),
    ensures
        registered@.tasks.contains_key(qualified_name(task.name@, task.name@)),
        registered@.tasks[qualified_name(task.name@, task.name@)] == task.executable,
        actions_of(registered@.workflows) == actions_of(worker@.workflows) + texts(
            task.standalone_version.actions@,
        ),
{
    assert(registered@.workflows.drop_last() =~= worker@.workflows);
}

/// A worker that has taken up a workflow offers the actions of the workflow behind those that
/// it offered before.
pub proof fn law_actions_of_a_workflow_are_offered<E, P>(
    worker: Worker<E, P>,
    workflow: Workflow<E, P>,
    registered: Worker<E, P>,
)
    requires
        worker.takes_up(workflow, registered),
    ensures
        actions_of(registered@.workflows) == actions_of(worker@.workflows) + texts(
            workflow.version.actions@,
        ),
{
    assert(registered@.workflows.drop_last() =~= worker@.workflows);
}

/// The name of an action is the workflow's, a colon, and the task's.
pub proof fn law_the_name_of_an_action(workflow: Seq<char>, task: Seq<char>)
    ensures
        qualified_name(workflow, task).len() == workflow.len() + 1 + task.len(),
        qualified_name(workflow, task).take(workflow.len() as int) == workflow,
        qualified_name(workflow, task)[workflow.len() as int] == ':',
        qualified_name(workflow, task).skip(workflow.len() as int + 1) == task,
{
    reveal_strlit(":");
    assert(":"@ =~= seq![':']);
    assert(qualified_name(workflow, task).take(workflow.len() as int) =~= workflow);
    assert(qualified_name(workflow, task).skip(workflow.len() as int + 1) =~= task);
}

/// Taking up a task changes what the worker runs for the task's own action, puts its workflow
/// behind those that were there, and changes nothing else: every other action runs what it ran.
pub proof fn law_taking_up_a_task_leaves_all_else_as_it_was<E, P>(
    worker: Worker<E, P>,
    task: Task<E, P>,
    registered: Worker<E, P>,
    action: Seq<char>,
)
    requires
        worker.takes_up(task, registered),
    ensures
        action != qualified_name(task.name@, task.name@) ==> {
            &&& registered@.tasks.contains_key(action) <==> worker@.tasks.contains_key(action)
            &&& worker@.tasks.contains_key(action) ==> registered@.tasks[action]
                == worker@.tasks[action]
        },
        registered@.tasks.contains_key(qualified_name(task.name@, task.name@)),
        registered@.tasks[qualified_name(task.name@, task.name@)] == task.executable,
        registered@.workflows.len() == worker@.workflows.len() + 1,
        registered@.workflows.drop_last() == worker@.workflows,
        registered@.workflows.last() == task.standalone_version,
        registered@.name == worker@.name,
        registered@.client == worker@.client,
        registered@.slots == worker@.slots,
        registered@.labels == worker@.labels,
{
    assert(registered@.workflows.drop_last() =~= worker@.workflows);
}

/// Taking up a workflow changes what the worker runs for the actions of the workflow's tasks,
/// puts the workflow behind those that were there, and changes nothing else. Of the workflow's
/// tasks, one after which no other bears its name is what its action runs.
pub proof fn law_taking_up_a_workflow_leaves_all_else_as_it_was<E, P>(
    worker: Worker<E, P>,
    workflow: Workflow<E, P>,
    registered: Worker<E, P>,
    action: Seq<char>,
    i: int,
)
    requires
        worker.takes_up(workflow, registered),
    ensures
        (forall|j: int|
            0 <= j < workflow.executable_tasks@.len() ==> qualified_name(
                workflow.name@,
                (#[trigger] workflow.executable_tasks@[j]).name@,
            ) != action) ==> {
            &&& registered@.tasks.contains_key(action) <==> worker@.tasks.contains_key(action)
            &&& worker@.tasks.contains_key(action) ==> registered@.tasks[action]
                == worker@.tasks[action]
        },
        0 <= i < workflow.executable_tasks@.len() && (forall|later: int|
            i < later < workflow.executable_tasks@.len() ==> (
            #[trigger] workflow.executable_tasks@[later]).name@
                != workflow.executable_tasks@[i].name@) ==> {
            let own = qualified_name(workflow.name@, workflow.executable_tasks@[i].name@);
            &&& registered@.tasks.contains_key(own)
            &&& registered@.tasks[own] == workflow.executable_tasks@[i].executable
        },
        registered@.workflows.len() == worker@.workflows.len() + 1,
        registered@.workflows.drop_last() == worker@.workflows,
        registered@.workflows.last() == workflow.version,
        registered@.name == worker@.name,
        registered@.client == worker@.client,
        registered@.slots == worker@.slots,
        registered@.labels == worker@.labels,
{
    let more = workflow.executable_tasks@;
    assert(registered@.workflows.drop_last() =~= worker@.workflows);
    if forall|j: int|
        0 <= j < more.len() ==> qualified_name(workflow.name@, (#[trigger] more[j]).name@)
            != action {
        law_other_actions_are_left_as_they_were(
            worker@.tasks,
            workflow.name@,
            more,
            action,
        );
    }
    if 0 <= i < more.len() && (forall|later: int|
        i < later < more.len() ==> (#[trigger] more[later]).name@ != more[i].name@) {
        law_the_last_task_of_a_name_is_run(worker@.tasks, workflow.name@, more, i);
    }
}

/// The actions of a worker are those of its workflows, one workflow after another: those of more
/// workflows follow those of fewer, and a single workflow has its own, each as it is named.
pub proof fn law_actions_follow_the_order_of_the_workflows<P>(
    first: Seq<Arc<WorkflowVersion<P>>>,
    more: Seq<Arc<WorkflowVersion<P>>>,
    single: Arc<WorkflowVersion<P>>,
)
    ensures
        actions_of(first + more) == actions_of(first) + actions_of(more),
        actions_of(seq![single]).len() == single.actions@.len(),
        forall|i: int|
            0 <= i < single.actions@.len() ==> (#[trigger] actions_of(seq![single])[i])
                == single.actions@[i]@,
    decreases more.len(),
{
    assert(seq![single].drop_last() =~= Seq::empty());
    assert(actions_of(seq![single].drop_last()) =~= Seq::<Seq<char>>::empty());
    assert(actions_of(seq![single]) =~= texts(single.actions@));
    if more.len() == 0 {
        assert(first + more =~= first);
        assert(actions_of(first + more) =~= actions_of(first) + actions_of(more));
    } else {
        law_actions_follow_the_order_of_the_workflows(first, more.drop_last(), single);
        assert((first + more).drop_last() =~= first + more.drop_last());
        assert(actions_of(first + more) =~= actions_of(first) + actions_of(more));
    }
}

/// The labels that are made known are those that were given: the same names, each with its text
/// and no number.
pub proof fn law_labels_are_made_known_as_given(
    labels: Map<Seq<char>, WorkerLabels>,
    given: Map<Seq<char>, String>,
    name: Seq<char>,
)
    requires
        are_labels(labels, given),
    ensures
        labels.contains_key(name) <==> given.contains_key(name),
        given.contains_key(name) ==> {
            &&& labels[name].str_value matches Some(text) && text@ == given[name]@
            &&& labels[name].int_value is None
        },
{
    if given.contains_key(name) {
        assert(labels.contains_key(name));
        assert(is_label(labels[name], given[name]));
    }
}

/// A worker goes on after everything that went well, and after the last action came; a listener
/// that ended without a result stops it with the reason.
pub proof fn law_what_does_and_does_not_stop_a_worker(reason: String)
    ensures
        stops_with(WorkerEvent::Heartbeat(Ok(()))) is None,
        stops_with(WorkerEvent::Dispatched(Ok(()))) is None,
        stops_with(WorkerEvent::ListenerEnded(Ok(()))) is None,
        stops_with(WorkerEvent::ActionsClosed) is None,
        stops_with(WorkerEvent::ListenerLost(reason)) == Some(
            ErrorView::InternalError("action listener stopped unexpectedly: "@ + reason@),
        ),
{
}

/// A worker that sets out waits for the answer to its registration first, and after that for the
/// engine to take each workflow. A step that puts a workflow there keeps what is left to be done.
pub proof fn law_what_a_start_waits_for<E, P, T, H>(
    startup: StartupView<E, P, T, H>,
    event: StartEventView,
)
    ensures
        startup.phase is Registering ==> (startup.awaits(event) <==> event is Registered),
        startup.phase is Putting ==> (startup.awaits(event) <==> event is WorkflowPut),
        startup.awaits(event) ==> (startup.after(event) matches StartStepView::PutWorkflow {
            startup: next,
            ..
        } ==> {
            &&& next.workflows == startup.workflows
            &&& next.ready == startup.ready
            &&& next.awaits(StartEventView::WorkflowPut)
        }),
{
}

/// A worker runs a hundred tasks at a time unless another number is given, and gives a sign of
/// life every four seconds.
pub proof fn law_defaults_of_a_worker()
    ensures
        DEFAULT_SLOTS == 100,
        HEARTBEAT_INTERVAL_SECS == 4,
{
}

/// The models of what happens to a worker that sets out, and of what is to be done next, say
/// what these say.
pub proof fn law_the_models_of_a_start_say_what_it_says<E, P, T, H>(
    event: StartEvent,
    step: StartStep<E, P, T, H>,
)
    ensures
        event matches StartEvent::Registered(Ok(id)) ==> event@ == StartEventView::Registered(
            Ok(id@),
        ),
        event matches StartEvent::Registered(Err(e)) ==> event@ == StartEventView::Registered(
            Err(e@),
        ),
        event is WorkflowPut ==> event@ is WorkflowPut,
        step matches StartStep::PutWorkflow { workflow, startup } ==> step@ == (
        StartStepView::PutWorkflow { workflow, startup: startup@ }),
        step matches StartStep::Listen { worker_id, ready } ==> step@ == (StartStepView::<
            E,
            P,
            T,
            H,
        >::Listen { worker_id: worker_id@, ready }),
        step matches StartStep::Stop(e) ==> step@ == StartStepView::<E, P, T, H>::Stop(e@),
{
}

/// A worker that takes up two tasks, one after the other, runs both, each under its own action,
/// unless they bear the same name: then it runs the later one.
pub proof fn law_tasks_taken_up_one_after_the_other_are_both_run<E, P>(
    worker: Worker<E, P>,
    first: &Task<E, P>,
    second: &Task<E, P>,
    with_first: Worker<E, P>,
    with_both: Worker<E, P>,
)
    requires
        call_ensures(
            <Worker<E, P> as Register<Task<E, P>>>::add_task_or_workflow,
            (worker, first),
            with_first,
        ),
        call_ensures(
            <Worker<E, P> as Register<Task<E, P>>>::add_task_or_workflow,
            (with_first, second),
            with_both,
        ),
    ensures
        ({
            let first_action = qualified_name(first.name@, first.name@);
            let second_action = qualified_name(second.name@, second.name@);
            &&& with_both@.tasks.contains_key(first_action)
            &&& with_both@.tasks.contains_key(second_action)
            &&& with_both@.tasks[second_action] == second.executable
            &&& first_action != second_action ==> with_both@.tasks[first_action]
                == first.executable
            &&& with_both@.workflows == worker@.workflows.push(first.standalone_version).push(
                second.standalone_version,
            )
        }),
{
}

/// A worker that takes up a workflow and then a task goes on running what it ran under actions
/// that are neither's.
pub proof fn law_what_a_worker_ran_before_it_goes_on_running<E, P>(
    worker: Worker<E, P>,
    workflow: &Workflow<E, P>,
    task: &Task<E, P>,
    with_workflow: Worker<E, P>,
    with_both: Worker<E, P>,
    action: Seq<char>,
)
    requires
        call_ensures(
            <Worker<E, P> as Register<Workflow<E, P>>>::add_task_or_workflow,
            (worker, workflow),
            with_workflow,
        ),
        call_ensures(
            <Worker<E, P> as Register<Task<E, P>>>::add_task_or_workflow,
            (with_workflow, task),
            with_both,
        ),
        worker@.tasks.contains_key(action),
        action != qualified_name(task.name@, task.name@),
        forall|j: int|
            0 <= j < workflow.executable_tasks@.len() ==> qualified_name(
                workflow.name@,
                (#[trigger] workflow.executable_tasks@[j]).name@,
            ) != action,
    ensures
        with_both@.tasks.contains_key(action),
        with_both@.tasks[action] == worker@.tasks[action],
        with_both@.name == worker@.name,
        with_both@.slots == worker@.slots,
        with_both@.labels == worker@.labels,
{
    law_taking_up_a_workflow_leaves_all_else_as_it_was(
        worker,
        *workflow,
        with_workflow,
        action,
        0,
    );
}

/// A worker makes itself known with its own name, slots and labels and the actions of its
/// workflows, and sets out with its own tasks and room for as many actions as it has slots.
pub proof fn law_a_worker_sets_out_with_what_it_has<E, P, T, H>(
    worker: &Worker<E, P>,
    registration: WorkerRegisterRequest,
    start: WorkerStart<E, P, T, H>,
    label: Seq<char>,
)
    requires
        call_ensures(Worker::<E, P>::register_worker, (worker,), registration),
        call_ensures(Worker::<E, P>::start::<T, H>, (worker,), start),
    ensures
        registration.worker_name@ == worker@.name,
        registration.slots == Some(worker@.slots),
        texts(registration.actions@) == actions_of(worker@.workflows),
        registration.labels@.contains_key(label) <==> worker@.labels.contains_key(label),
        worker@.labels.contains_key(label) ==> (registration.labels@[label].str_value matches Some(
            text,
        ) && text@ == worker@.labels[label]@),
        registration.services@.len() == 0,
        registration.webhook_id is None && registration.runtime_info is None,
        start.registration.worker_name@ == registration.worker_name@,
        start.registration.slots == registration.slots,
        texts(start.registration.actions@) == texts(registration.actions@),
        start.startup@.workflows == worker@.workflows,
        start.startup@.ready.dispatcher@.registry == worker@.tasks,
        forall|id: Seq<char>|
            !(#[trigger] start.startup@.ready.dispatcher@.task_runs.contains_key(id)),
        worker@.slots > 0 ==> start.startup@.ready.action_capacity == Some(worker@.slots as usize),
        worker@.slots <= 0 ==> start.startup@.ready.action_capacity is None,
        start.startup@.ready.listener@ == 0,
{
    law_labels_are_made_known_as_given(registration.labels@, worker@.labels, label);
    assert forall|id: Seq<char>|
        !(#[trigger] start.startup@.ready.dispatcher@.task_runs.contains_key(id)) by {
        assert(!start.startup@.ready.dispatcher@.task_runs.dom().contains(id));
    }
}

/// A worker that is built has what its builder was given, and a hundred slots where no number
/// was given.
pub proof fn law_a_worker_has_what_its_builder_was_given<E, P>(
    builder: WorkerBuilder<E, P>,
    name: String,
    client: Hatchet,
    built: Result<Worker<E, P>, UninitializedField>,
)
    requires
        builder.name == Some(name),
        builder.client == Some(client),
        call_ensures(WorkerBuilder::<E, P>::build, (builder,), built),
    ensures
        built matches Ok(worker) && {
            &&& worker@.name == name@
            &&& worker@.client == client@
            &&& builder.slots matches Some(slots) ==> worker@.slots == slots
            &&& builder.slots is None ==> worker@.slots == 100
            &&& builder.labels matches Some(labels) ==> worker@.labels == labels@
            &&& builder.tasks matches Some(tasks) ==> worker@.tasks == tasks@
            &&& builder.workflows matches Some(workflows) ==> worker@.workflows == workflows@
            &&& builder.workflows is None ==> worker@.workflows.len() == 0
        },
{
}

/// A worker that is registered puts its first workflow there first, and stops with the error
/// where it is not registered.
pub proof fn law_what_follows_a_registration<E, P, T, H>(
    worker: &Worker<E, P>,
    start: WorkerStart<E, P, T, H>,
    worker_id: String,
    error: HatchetError,
    step: StartStep<E, P, T, H>,
    refused: StartStep<E, P, T, H>,
)
    requires
        call_ensures(Worker::<E, P>::start::<T, H>, (worker,), start),
        call_ensures(
            Startup::<E, P, T, H>::advance,
            (start.startup, StartEvent::Registered(Ok(worker_id))),
            step,
        ),
        call_ensures(
            Startup::<E, P, T, H>::advance,
            (start.startup, StartEvent::Registered(Err(error))),
            refused,
        ),
    ensures
        refused matches StartStep::Stop(e) && e@ == error@,
        worker@.workflows.len() > 0 ==> (step matches StartStep::PutWorkflow { workflow, .. }
            && workflow == worker@.workflows[0]),
        worker@.workflows.len() == 0 ==> (step matches StartStep::Listen { worker_id: id, ready }
            && id@ == worker_id@ && ready.dispatcher@.registry == worker@.tasks),
{
    assert(refused@ is Stop);
    assert(step@ is PutWorkflow || step@ is Listen);
}

} // verus!
