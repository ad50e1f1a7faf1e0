//! Running the tasks that the engine assigns.
//!
//! The dispatcher decides what an assigned action asks for and keeps track of the runs that
//! are under way. A [`StepRun`] leads one run from its execution over the flush of its log
//! lines and the report of how it ended to the removal from that record.
use std::sync::Arc;

use serde_json::Value;
use vstd::prelude::*;

use crate::context::Context;
use crate::duration::Duration;
use crate::error::{ErrorView, HatchetError};
use crate::json::{copied_value, member, parse_value, value_text, Json};
use crate::name_map::NameMap;
use crate::text::{joined, same_text};
use crate::utils::{proto_timestamp, ExecutionContext, Timestamp};

verus! {

/// How long to wait for queued log lines to reach the engine before a task is reported
/// complete, in seconds. A wedged connection must not hold the report indefinitely.
pub const LOG_FLUSH_TIMEOUT_SECS: u64 = 2;

/// The report that a run has started.
pub const STEP_STARTED: i32 = 1;

/// The report that a run has given its output.
pub const STEP_COMPLETED: i32 = 2;

/// The report that a run has failed.
pub const STEP_FAILED: i32 = 3;

/// An action that the engine assigned to the worker.
#[derive(Debug)]
pub struct AssignedAction {
    /// The name of the kind of action.
    pub action_type: String,
    pub action_id: String,
    pub action_payload: String,
    pub workflow_run_id: String,
    pub task_run_external_id: String,
    pub job_id: String,
    pub job_run_id: String,
    pub task_id: String,
    pub retry_count: i32,
}

/// The model of an [`AssignedAction`].
#[verifier::ext_equal]
pub struct ActionView {
    pub action_type: Seq<char>,
    pub action_id: Seq<char>,
    pub action_payload: Seq<char>,
    pub workflow_run_id: Seq<char>,
    pub task_run_external_id: Seq<char>,
    pub job_id: Seq<char>,
    pub job_run_id: Seq<char>,
    pub task_id: Seq<char>,
    pub retry_count: i32,
}

impl View for AssignedAction {
    type V = ActionView;

    open spec fn view(&self) -> ActionView {
        ActionView {
            action_type: self.action_type@,
            action_id: self.action_id@,
            action_payload: self.action_payload@,
            workflow_run_id: self.workflow_run_id@,
            task_run_external_id: self.task_run_external_id@,
            job_id: self.job_id@,
            job_run_id: self.job_run_id@,
            task_id: self.task_id@,
            retry_count: self.retry_count,
        }
    }
}

/// What the engine is told of a run.
#[derive(Debug)]
pub struct StepActionEvent {
    pub worker_id: String,
    pub job_id: String,
    pub job_run_id: String,
    pub task_id: String,
    pub task_run_external_id: String,
    pub action_id: String,
    pub event_timestamp: Option<Timestamp>,
    pub event_type: i32,
    pub event_payload: String,
    pub retry_count: Option<i32>,
    pub should_not_retry: Option<bool>,
}

/// The model of a [`StepActionEvent`].
#[verifier::ext_equal]
pub struct EventView {
    pub worker_id: Seq<char>,
    pub job_id: Seq<char>,
    pub job_run_id: Seq<char>,
    pub task_id: Seq<char>,
    pub task_run_external_id: Seq<char>,
    pub action_id: Seq<char>,
    pub event_timestamp: Option<Timestamp>,
    pub event_type: i32,
    pub event_payload: Seq<char>,
    pub retry_count: Option<i32>,
    pub should_not_retry: Option<bool>,
}

impl View for StepActionEvent {
    type V = EventView;

    open spec fn view(&self) -> EventView {
        EventView {
            worker_id: self.worker_id@,
            job_id: self.job_id@,
            job_run_id: self.job_run_id@,
            task_id: self.task_id@,
            task_run_external_id: self.task_run_external_id@,
            action_id: self.action_id@,
            event_timestamp: self.event_timestamp,
            event_type: self.event_type,
            event_payload: self.event_payload@,
            retry_count: self.retry_count,
            should_not_retry: self.should_not_retry,
        }
    }
}

/// What the engine is told of the run that an action asked for.
pub open spec fn event_of(
    worker_id: Seq<char>,
    message: ActionView,
    stamp: Timestamp,
    event_type: i32,
    event_payload: Seq<char>,
    retry_count: Option<i32>,
) -> EventView {
    EventView {
        worker_id,
        job_id: message.job_id,
        job_run_id: message.job_run_id,
        task_id: message.task_id,
        task_run_external_id: message.task_run_external_id,
        action_id: message.action_id,
        event_timestamp: Some(stamp),
        event_type,
        event_payload,
        retry_count,
        should_not_retry: None,
    }
}

/// Puts together what the engine is told of a run, or gives the error of the clock.
fn step_action_event(
    worker_id: &str,
    message: &AssignedAction,
    since_epoch: Option<Duration>,
    event_type: i32,
    event_payload: String,
    retry_count: Option<i32>,
) -> (res: Result<StepActionEvent, HatchetError>)
    ensures
        match res {
            Ok(event) => crate::utils::stamp_of(since_epoch) matches Some(stamp) && event@
                == event_of(
                worker_id@,
                message@,
                stamp,
                event_type,
                event_payload@,
                retry_count,
            ),
            Err(e) => since_epoch is None && e@ == ErrorView::SystemTimeError,
        },
{
    let stamp = match proto_timestamp(since_epoch) {
        Ok(stamp) => stamp,
        Err(e) => {
            return Err(e);
        },
    };
    Ok(
        StepActionEvent {
            worker_id: worker_id.to_owned(),
            job_id: message.job_id.clone(),
            job_run_id: message.job_run_id.clone(),
            task_id: message.task_id.clone(),
            task_run_external_id: message.task_run_external_id.clone(),
            action_id: message.action_id.clone(),
            event_timestamp: Some(stamp),
            event_type,
            event_payload,
            retry_count,
            should_not_retry: None,
        },
    )
}

/// The report that a run starts, made out before its task is looked up: it names the attempt
/// and carries nothing else. The time is what the clock says has passed since the start of
/// 1970, or `None` where the clock stands before it.
pub fn started_event(
    worker_id: &str,
    message: &AssignedAction,
    since_epoch: Option<Duration>,
) -> (res: Result<StepActionEvent, HatchetError>)
    ensures
        match res {
            Ok(event) => crate::utils::stamp_of(since_epoch) matches Some(stamp) && event@
                == event_of(
                worker_id@,
                message@,
                stamp,
                STEP_STARTED,
                Seq::empty(),
                Some(message.retry_count),
            ),
            Err(e) => since_epoch is None && e@ == ErrorView::SystemTimeError,
        },
{
    step_action_event(
        worker_id,
        message,
        since_epoch,
        STEP_STARTED,
        String::new(),
        Some(message.retry_count),
    )
}

/// What an assigned action asks for.
#[derive(Clone, Copy, Debug, PartialEq, Eq, Structural)]
pub enum DispatchRequest {
    StartStepRun,
    CancelStepRun,
}

/// What an action of the kind asks for, or `None` where no worker performs that kind.
pub open spec fn requested(action_type: Seq<char>) -> Option<DispatchRequest> {
    if action_type == "START_STEP_RUN"@ {
        Some(DispatchRequest::StartStepRun)
    } else if action_type == "CANCEL_STEP_RUN"@ {
        Some(DispatchRequest::CancelStepRun)
    } else {
        None
    }
}

/// A run that is under way: how to tell it that it is cancelled, and how to stop it once it
/// has been set off.
pub struct TaskRunEntry<T, H> {
    pub handle: Option<H>,
    pub token: T,
}

/// The entry is that of the run, and there is one exactly if the run is on record.
pub open spec fn was_under_way<T, H>(
    task_runs: Map<Seq<char>, TaskRunEntry<T, H>>,
    id: Seq<char>,
    entry: Option<TaskRunEntry<T, H>>,
) -> bool {
    match entry {
        Some(entry) => task_runs.contains_key(id) && entry == task_runs[id],
        None => !task_runs.contains_key(id),
    }
}

/// What is to be done first about an assigned action.
pub enum DispatchAction<T, H> {
    /// Tell the engine that the run starts; once that is done, the run is to be started.
    ReportStarted(StepActionEvent),
    /// Stop the run, where it is under way: cancel its token, and abort its handle if it has
    /// one.
    Stop(Option<TaskRunEntry<T, H>>),
}

/// What is needed to set off a run.
pub struct Launch<E> {
    pub task: Arc<E>,
    pub execution_context: ExecutionContext,
    pub context: Context,
}

/// The launch is that of the task, for the run that the action names.
pub open spec fn is_launch_of<E>(launch: Launch<E>, task: Arc<E>, message: ActionView) -> bool {
    &&& launch.task == task
    &&& launch.execution_context.workflow_run_id@ == message.workflow_run_id
    &&& launch.execution_context.task_run_external_id@ == message.task_run_external_id
    &&& launch.execution_context.child_index == 0
    &&& launch.execution_context.retry_count == message.retry_count
    &&& launch.context@ == crate::context::new_context(
        message.workflow_run_id,
        message.task_run_external_id,
    )
}

/// Holds the tasks that the worker can run, by the name of their action, and the runs that
/// are under way, by their id.
pub struct TaskDispatcher<E, T, H> {
    registry: NameMap<Arc<E>>,
    task_runs: NameMap<TaskRunEntry<T, H>>,
}

/// The model of a [`TaskDispatcher`].
#[verifier::ext_equal]
#[verifier::reject_recursive_types(E)]
#[verifier::reject_recursive_types(T)]
#[verifier::reject_recursive_types(H)]
pub struct DispatcherView<E, T, H> {
    pub registry: Map<Seq<char>, Arc<E>>,
    pub task_runs: Map<Seq<char>, TaskRunEntry<T, H>>,
}

impl<E, T, H> View for TaskDispatcher<E, T, H> {
    type V = DispatcherView<E, T, H>;

    closed spec fn view(&self) -> DispatcherView<E, T, H> {
        DispatcherView { registry: self.registry@, task_runs: self.task_runs@ }
    }
}

/// `Arc::clone`: another pointer to the same value.
#[verifier::external_body]
pub(crate) fn shared<E>(pointer: &Arc<E>) -> (other: Arc<E>)
    ensures
        other == *pointer,
{
    Arc::clone(pointer)
}

/// The runs under way once a handle was offered for one of them: it is taken only where the
/// run is still under way.
pub open spec fn with_handle<T, H>(
    task_runs: Map<Seq<char>, TaskRunEntry<T, H>>,
    id: Seq<char>,
    handle: H,
) -> Map<Seq<char>, TaskRunEntry<T, H>> {
    if task_runs.contains_key(id) {
        task_runs.insert(id, TaskRunEntry { handle: Some(handle), token: task_runs[id].token })
    } else {
        task_runs
    }
}

/// One thing that happens to the record of the runs under way.
pub enum RunOp<T, H> {
    /// A run is put on record.
    Begin { id: Seq<char>, token: T },
    /// A handle is offered for a run.
    Attach { id: Seq<char>, handle: H },
    /// A run is cancelled.
    Cancel { id: Seq<char> },
    /// A run has ended.
    CleanUp { id: Seq<char> },
}

impl<T, H> RunOp<T, H> {
    /// The run that it happens to.
    pub open spec fn run_id(self) -> Seq<char> {
        match self {
            RunOp::Begin { id, .. } => id,
            RunOp::Attach { id, .. } => id,
            RunOp::Cancel { id } => id,
            RunOp::CleanUp { id } => id,
        }
    }
}

/// The record after one thing has happened to it.
pub open spec fn after_op<T, H>(
    task_runs: Map<Seq<char>, TaskRunEntry<T, H>>,
    op: RunOp<T, H>,
) -> Map<Seq<char>, TaskRunEntry<T, H>> {
    match op {
        RunOp::Begin { id, token } => task_runs.insert(id, TaskRunEntry { handle: None, token }),
        RunOp::Attach { id, handle } => with_handle(task_runs, id, handle),
        RunOp::Cancel { id } => task_runs.remove(id),
        RunOp::CleanUp { id } => task_runs.remove(id),
    }
}

/// The record after a series of things has happened to it.
pub open spec fn after_ops<T, H>(
    task_runs: Map<Seq<char>, TaskRunEntry<T, H>>,
    ops: Seq<RunOp<T, H>>,
) -> Map<Seq<char>, TaskRunEntry<T, H>>
    decreases ops.len(),
{
    if ops.len() == 0 {
        task_runs
    } else {
        after_op(after_ops(task_runs, ops.drop_last()), ops.last())
    }
}

impl<E, T, H> DispatcherView<E, T, H> {
    /// The dispatcher after it has decided what an assigned action asks for: only a run that is
    /// to be cancelled is taken off the record.
    pub open spec fn after_dispatch(self, message: ActionView) -> DispatcherView<E, T, H> {
        match requested(message.action_type) {
            Some(DispatchRequest::CancelStepRun) => DispatcherView {
                task_runs: after_op(
                    self.task_runs,
                    RunOp::Cancel { id: message.task_run_external_id },
                ),
                ..self
            },
            _ => self,
        }
    }

    /// The dispatcher once it is known what became of the report that a run starts, and the
    /// error with which the start ends, if it does: that of the report, or that the task is not
    /// registered. Only a run that does start is put on record.
    pub open spec fn after_start_report(
        self,
        message: ActionView,
        reported: Result<(), ErrorView>,
        token: T,
    ) -> (DispatcherView<E, T, H>, Option<ErrorView>) {
        match reported {
            Err(e) => (self, Some(e)),
            Ok(()) => if self.registry.contains_key(message.action_id) {
                (
                    DispatcherView {
                        task_runs: after_op(
                            self.task_runs,
                            RunOp::Begin { id: message.task_run_external_id, token },
                        ),
                        ..self
                    },
                    None,
                )
            } else {
                (self, Some(ErrorView::TaskNotFound { task_name: message.action_id }))
            },
        }
    }
}

/// A run is put on record only once the report of its start was sent: dispatching the action
/// that asks for it leaves the record as it is, and so does a report that could not be sent,
/// whose error ends the start.
pub proof fn law_a_run_begins_only_after_its_start_was_reported<E, T, H>(
    dispatcher: DispatcherView<E, T, H>,
    message: ActionView,
    reported: Result<(), ErrorView>,
    token: T,
)
    requires
        requested(message.action_type) == Some(DispatchRequest::StartStepRun),
    ensures
        dispatcher.after_dispatch(message) == dispatcher,
        reported matches Err(e) ==> dispatcher.after_start_report(message, reported, token) == (
            dispatcher,
            Some(e),
        ),
        dispatcher.after_start_report(message, reported, token).1 is None <==> reported is Ok
            && dispatcher.registry.contains_key(message.action_id),
        dispatcher.after_start_report(message, reported, token).1 is None
            ==> dispatcher.after_start_report(message, reported, token).0.task_runs.contains_key(
            message.task_run_external_id,
        ),
{
}

impl<E, T, H> TaskDispatcher<E, T, H> {
    /// A dispatcher for the tasks, with no run under way.
    pub fn new(registry: NameMap<Arc<E>>) -> (dispatcher: TaskDispatcher<E, T, H>)
        ensures
            dispatcher@.registry == registry@,
            dispatcher@.task_runs == Map::<Seq<char>, TaskRunEntry<T, H>>::empty(),
    {
        TaskDispatcher { registry, task_runs: NameMap::new() }
    }

    /// Decides what is to be done first about an assigned action. An action of a kind that no
    /// worker performs is refused, and changes nothing.
    pub fn dispatch(
        &mut self,
        worker_id: &str,
        message: &AssignedAction,
        since_epoch: Option<Duration>,
    ) -> (res: Result<DispatchAction<T, H>, HatchetError>)
        ensures
            final(self)@ == old(self)@.after_dispatch(message@),
            match requested(message.action_type@) {
                None => res matches Err(e) && e@ == ErrorView::UnrecognizedAction(
                    message.action_type@,
                ),
                Some(DispatchRequest::StartStepRun) => match crate::utils::stamp_of(since_epoch) {
                    None => res matches Err(e) && e@ == ErrorView::SystemTimeError,
                    Some(stamp) => res matches Ok(DispatchAction::ReportStarted(event)) && event@
                        == event_of(
                        worker_id@,
                        message@,
                        stamp,
                        STEP_STARTED,
                        Seq::empty(),
                        Some(message.retry_count),
                    ),
                },
                Some(DispatchRequest::CancelStepRun) => res matches Ok(
                    DispatchAction::Stop(stopped),
                ) && was_under_way(
                    old(self)@.task_runs,
                    message.task_run_external_id@,
                    stopped,
                ),
            },
    {
        if same_text(message.action_type.as_str(), "START_STEP_RUN") {
            match started_event(worker_id, message, since_epoch) {
                Ok(event) => Ok(DispatchAction::ReportStarted(event)),
                Err(e) => Err(e),
            }
        } else if same_text(message.action_type.as_str(), "CANCEL_STEP_RUN") {
            proof {
                reveal_strlit("START_STEP_RUN");
                reveal_strlit("CANCEL_STEP_RUN");
                assert("START_STEP_RUN"@[0] == 'S' && "CANCEL_STEP_RUN"@[0] == 'C');
            }
            Ok(DispatchAction::Stop(self.handle_cancel_step_run(message)))
        } else {
            Err(HatchetError::UnrecognizedAction(message.action_type.clone()))
        }
    }

    /// Starts the run that an action names, once the report of its start was sent: looks up its
    /// task, and puts the run on record with the token by which it can be cancelled. Where the
    /// report could not be sent, its error is handed on; then, and where no such task is
    /// registered, nothing is put on record.
    ///
    /// A run is on record before it is set off. Were it the other way round, a run that ends
    /// quickly could be taken off the record before it was put there, and stay for good.
    pub fn handle_start_step_run(
        &mut self,
        message: &AssignedAction,
        reported: Result<(), HatchetError>,
        token: T,
    ) -> (res: Result<Launch<E>, HatchetError>)
        ensures
            final(self)@ == old(self)@.after_start_report(message@, result_view(reported), token).0,
            final(self)@.registry == old(self)@.registry,
            forall|id: Seq<char>|
                id != message.task_run_external_id@ || res is Err ==> (
                #[trigger] final(self)@.task_runs.contains_key(id)
                    <==> old(self)@.task_runs.contains_key(id)) && (old(
                    self,
                )@.task_runs.contains_key(id) ==> final(self)@.task_runs[id]
                    == old(self)@.task_runs[id]),
            match res {
                Ok(launch) => {
                    &&& old(self)@.after_start_report(
                        message@,
                        result_view(reported),
                        token,
                    ).1 is None
                    &&& is_launch_of(launch, old(self)@.registry[message.action_id@], message@)
                },
                Err(e) => old(self)@.after_start_report(
                    message@,
                    result_view(reported),
                    token,
                ).1 == Some(e@),
            },
    {
        if let Err(e) = reported {
            return Err(e);
        }
        let task = match self.registry.get(message.action_id.as_str()) {
            Some(task) => shared(task),
            None => {
                return Err(HatchetError::TaskNotFound { task_name: message.action_id.clone() });
            },
        };
        self.task_runs.insert(
            message.task_run_external_id.clone(),
            TaskRunEntry { handle: None, token },
        );
        Ok(
            Launch {
                task,
                execution_context: ExecutionContext {
                    workflow_run_id: message.workflow_run_id.clone(),
                    task_run_external_id: message.task_run_external_id.clone(),
                    child_index: 0,
                    retry_count: message.retry_count,
                },
                context: Context::new(
                    message.workflow_run_id.as_str(),
                    message.task_run_external_id.as_str(),
                ),
            },
        )
    }

    /// Notes how a run that was set off can be stopped. The run may have ended, or have been
    /// cancelled, meanwhile: it is then left off the record.
    pub fn attach_handle(&mut self, task_run_external_id: &str, handle: H)
        ensures
            final(self)@ == (DispatcherView {
                task_runs: after_op(
                    old(self)@.task_runs,
                    RunOp::Attach { id: task_run_external_id@, handle },
                ),
                ..old(self)@
            }),
    {
        if let Some(entry) = self.task_runs.remove(task_run_external_id) {
            self.task_runs.insert(
                task_run_external_id.to_owned(),
                TaskRunEntry { handle: Some(handle), token: entry.token },
            );
            assert(self@.task_runs =~= with_handle(
                old(self)@.task_runs,
                task_run_external_id@,
                handle,
            ));
        } else {
            assert(self@.task_runs =~= old(self)@.task_runs);
        }
    }

    /// Takes the run that an action names off the record. What is given is to be stopped: its
    /// token cancelled, and its handle, where it has one, aborted. A run that is not under way
    /// needs no stopping.
    pub fn handle_cancel_step_run(&mut self, message: &AssignedAction) -> (stopped: Option<
        TaskRunEntry<T, H>,
    >)
        ensures
            final(self)@ == (DispatcherView {
                task_runs: after_op(
                    old(self)@.task_runs,
                    RunOp::Cancel { id: message.task_run_external_id@ },
                ),
                ..old(self)@
            }),
            was_under_way(old(self)@.task_runs, message.task_run_external_id@, stopped),
    {
        self.task_runs.remove(message.task_run_external_id.as_str())
    }

    /// Takes a run that has ended off the record.
    pub fn clean_up(&mut self, task_run_external_id: &str)
        ensures
            final(self)@ == (DispatcherView {
                task_runs: after_op(
                    old(self)@.task_runs,
                    RunOp::CleanUp { id: task_run_external_id@ },
                ),
                ..old(self)@
            }),
    {
        self.task_runs.remove(task_run_external_id);
    }
}

/// A run that has ended or was cancelled is off the record and stays off it until it is begun
/// anew, whatever else happens, and in particular even where its handle only comes then.
pub proof fn law_ended_runs_leave_no_entry<T, H>(
    task_runs: Map<Seq<char>, TaskRunEntry<T, H>>,
    ops: Seq<RunOp<T, H>>,
    ended: int,
)
    requires
        0 <= ended < ops.len(),
        ops[ended] is Cancel || ops[ended] is CleanUp,
        forall|later: int|
            ended < later < ops.len() && (#[trigger] ops[later]).run_id() == ops[ended].run_id()
                ==> !(ops[later] is Begin),
    ensures
        !after_ops(task_runs, ops).contains_key(ops[ended].run_id()),
    decreases ops.len(),
{
    if ended < ops.len() - 1 {
        let earlier = ops.drop_last();
        assert forall|later: int|
            ended < later < earlier.len() && (#[trigger] earlier[later]).run_id()
                == earlier[ended].run_id() implies !(earlier[later] is Begin) by {
            assert(earlier[later] == ops[later]);
        }
        law_ended_runs_leave_no_entry(task_runs, earlier, ended);
        assert(ops[ops.len() - 1] == ops.last());
    }
}

/// What happens to other runs leaves a run as it is.
pub proof fn law_runs_do_not_disturb_each_other<T, H>(
    task_runs: Map<Seq<char>, TaskRunEntry<T, H>>,
    ops: Seq<RunOp<T, H>>,
    id: Seq<char>,
)
    requires
        forall|i: int| 0 <= i < ops.len() ==> (#[trigger] ops[i]).run_id() != id,
    ensures
        after_ops(task_runs, ops).contains_key(id) <==> task_runs.contains_key(id),
        task_runs.contains_key(id) ==> after_ops(task_runs, ops)[id] == task_runs[id],
    decreases ops.len(),
{
    if ops.len() > 0 {
        let earlier = ops.drop_last();
        assert forall|i: int| 0 <= i < earlier.len() implies (#[trigger] earlier[i]).run_id()
            != id by {
            assert(earlier[i] == ops[i]);
        }
        law_runs_do_not_disturb_each_other(task_runs, earlier, id);
        assert(ops[ops.len() - 1].run_id() != id);
    }
}

/// A run that was begun and whose handle was noted is on record with its own token and that
/// handle, so that cancelling it reaches it both ways, as long as nothing else happens to it.
pub proof fn law_a_run_under_way_can_be_cancelled<T, H>(
    task_runs: Map<Seq<char>, TaskRunEntry<T, H>>,
    id: Seq<char>,
    token: T,
    handle: H,
    between: Seq<RunOp<T, H>>,
    after: Seq<RunOp<T, H>>,
)
    requires
        forall|i: int| 0 <= i < between.len() ==> (#[trigger] between[i]).run_id() != id,
        forall|i: int| 0 <= i < after.len() ==> (#[trigger] after[i]).run_id() != id,
    ensures
        ({
            let begun = after_ops(after_op(task_runs, RunOp::Begin { id, token }), between);
            let attached = after_ops(after_op(begun, RunOp::Attach { id, handle }), after);
            &&& begun.contains_key(id)
            &&& begun[id] == (TaskRunEntry::<T, H> { handle: None, token })
            &&& attached.contains_key(id)
            &&& attached[id] == (TaskRunEntry { handle: Some(handle), token })
        }),
{
    let first = after_op(task_runs, RunOp::Begin { id, token });
    law_runs_do_not_disturb_each_other(first, between, id);
    let begun = after_ops(first, between);
    law_runs_do_not_disturb_each_other(
        after_op(begun, RunOp::Attach { id, handle }),
        after,
        id,
    );
}

/// Why a payload holds no input.
pub enum InputError {
    /// The payload is no JSON, with the debug rendering of the parser's error.
    NotJson(String),
    /// The payload has no member `input`.
    MissingInput,
}

/// The model of an [`InputError`].
pub enum InputErrorView {
    NotJson(Seq<char>),
    MissingInput,
}

impl View for InputError {
    type V = InputErrorView;

    open spec fn view(&self) -> InputErrorView {
        match self {
            InputError::NotJson(error) => InputErrorView::NotJson(error@),
            InputError::MissingInput => InputErrorView::MissingInput,
        }
    }
}

impl InputError {
    /// The error in words.
    pub fn message(&self) -> (message: String)
        ensures
            message@ == (match self@ {
                InputErrorView::NotJson(error) => "could not parse payload as JSON: "@ + error,
                InputErrorView::MissingInput => "missing `input` field"@,
            }),
    {
        match self {
            InputError::NotJson(error) => joined(
                "could not parse payload as JSON: ",
                error.as_str(),
            ),
            InputError::MissingInput => "missing `input` field".to_owned(),
        }
    }
}

/// The input that a payload holds, which is its member `input`.
pub open spec fn input_in(payload: Json) -> Option<Json> {
    match payload {
        Json::Object(members) => if members.contains_key("input"@) {
            Some(members["input"@])
        } else {
            None
        },
        _ => None,
    }
}

/// A copy of the input that a payload holds.
pub fn input_of(payload: &Value) -> (input: Option<Value>)
    ensures
        match input {
            Some(value) => input_in(crate::json::json_content(*payload)) == Some(
                crate::json::json_content(value),
            ),
            None => input_in(crate::json::json_content(*payload)) is None,
        },
        input is Some <==> (crate::json::json_content(*payload) matches Json::Object(members)
            && members.contains_key("input"@)),
{
    match member(payload, "input") {
        Some(value) => Some(copied_value(value)),
        None => None,
    }
}

/// Reads the input that the text of a payload holds.
pub fn task_input(action_payload: &str) -> (res: Result<Value, InputError>)
    ensures
        match crate::json::json_parsed(action_payload@) {
            Err(error) => res matches Err(e) && e@ == InputErrorView::NotJson(error),
            Ok(payload) => match input_in(payload) {
                None => res matches Err(e) && e@ == InputErrorView::MissingInput,
                Some(input) => res matches Ok(value) && crate::json::json_content(value) == input,
            },
        },
{
    match parse_value(action_payload) {
        Ok(payload) => match input_of(&payload) {
            Some(input) => Ok(input),
            None => Err(InputError::MissingInput),
        },
        Err(e) => Err(InputError::NotJson(e)),
    }
}

/// How the execution of a task ended.
pub enum TaskOutcome {
    /// It gave an output.
    Completed(Value),
    /// It gave an error, with what the error displays.
    Failed(String),
    /// It panicked, with the message of the panic where it has one.
    Panicked(Option<String>),
}

/// The model of a [`TaskOutcome`].
pub enum OutcomeView {
    Completed(Json),
    Failed(Seq<char>),
    Panicked(Option<Seq<char>>),
}

impl View for TaskOutcome {
    type V = OutcomeView;

    open spec fn view(&self) -> OutcomeView {
        match self {
            TaskOutcome::Completed(output) => OutcomeView::Completed(
                crate::json::json_content(*output),
            ),
            TaskOutcome::Failed(message) => OutcomeView::Failed(message@),
            TaskOutcome::Panicked(Some(message)) => OutcomeView::Panicked(Some(message@)),
            TaskOutcome::Panicked(None) => OutcomeView::Panicked(None),
        }
    }
}

/// What the engine is told of an outcome: its kind, and the output or what went wrong.
pub open spec fn reported_as(outcome: OutcomeView) -> (i32, Seq<char>) {
    match outcome {
        OutcomeView::Completed(output) => (STEP_COMPLETED, crate::json::json_text(output)),
        OutcomeView::Failed(message) => (STEP_FAILED, message),
        OutcomeView::Panicked(Some(message)) => (STEP_FAILED, "Task panicked: "@ + message),
        OutcomeView::Panicked(None) => (STEP_FAILED, "Task panicked: "@ + "Unknown panic"@),
    }
}

/// Puts an outcome as the engine is told of it.
pub fn event_payload(outcome: TaskOutcome) -> (report: (i32, String))
    ensures
        (report.0, report.1@) == reported_as(outcome@),
{
    match outcome {
        TaskOutcome::Completed(output) => (STEP_COMPLETED, value_text(&output)),
        TaskOutcome::Failed(message) => (STEP_FAILED, message),
        TaskOutcome::Panicked(Some(message)) => (
            STEP_FAILED,
            joined("Task panicked: ", message.as_str()),
        ),
        TaskOutcome::Panicked(None) => (STEP_FAILED, joined("Task panicked: ", "Unknown panic")),
    }
}

/// A run is reported complete exactly if its task gave an output; whatever else became of it is
/// reported as a failure.
pub proof fn law_only_an_output_is_reported_complete(outcome: OutcomeView)
    ensures
        reported_as(outcome).0 == STEP_COMPLETED <==> outcome is Completed,
        reported_as(outcome).0 == STEP_FAILED <==> !(outcome is Completed),
{
}

/// How far a run has come.
enum StepPhase {
    Executing,
    Flushing { event_type: i32, event_payload: String },
    Reporting,
    Finished,
}

/// How far a run has come.
#[verifier::ext_equal]
pub enum PhaseView {
    /// Its task is being executed.
    Executing,
    /// Its log lines are being flushed, and then this is to be reported.
    Flushing { event_type: i32, event_payload: Seq<char> },
    /// How it ended is being reported.
    Reporting,
    /// It is over.
    Finished,
}

/// What a run waited for has happened.
pub enum StepEvent {
    /// The task was executed.
    Executed(TaskOutcome),
    /// The log lines were flushed, or the flush took too long; and what the clock says has
    /// passed since the start of 1970.
    Flushed { since_epoch: Option<Duration> },
    /// The report was sent, or could not be.
    Reported(Result<(), HatchetError>),
}

/// What is to be done next for a run.
pub enum StepAction {
    /// Wait for the queued log lines to be delivered, but no longer than this.
    Flush(Duration),
    /// Tell the engine.
    Report(StepActionEvent),
    /// Take the run off the record; it ends with this result.
    CleanUp { task_run_external_id: String, result: Result<(), HatchetError> },
}

/// The model of a [`StepAction`].
#[verifier::ext_equal]
pub enum StepActionView {
    Flush(nat),
    Report(EventView),
    CleanUp { task_run_external_id: Seq<char>, result: Result<(), ErrorView> },
}

/// The model of the result with which a run ends.
pub open spec fn result_view(result: Result<(), HatchetError>) -> Result<(), ErrorView> {
    match result {
        Ok(()) => Ok(()),
        Err(e) => Err(e@),
    }
}

impl View for StepAction {
    type V = StepActionView;

    open spec fn view(&self) -> StepActionView {
        match self {
            StepAction::Flush(timeout) => StepActionView::Flush(timeout@),
            StepAction::Report(event) => StepActionView::Report(event@),
            StepAction::CleanUp { task_run_external_id, result } => StepActionView::CleanUp {
                task_run_external_id: task_run_external_id@,
                result: result_view(*result),
            },
        }
    }
}

/// The model of a [`StepRun`].
#[verifier::ext_equal]
pub struct StepRunView {
    pub worker_id: Seq<char>,
    pub message: ActionView,
    pub phase: PhaseView,
}

impl StepRunView {
    /// The event is the one that the run waits for.
    pub open spec fn awaits(self, event: StepEvent) -> bool {
        match self.phase {
            PhaseView::Executing => event is Executed,
            PhaseView::Flushing { .. } => event is Flushed,
            PhaseView::Reporting => event is Reported,
            PhaseView::Finished => false,
        }
    }

    /// How many events the run waits for at most.
    pub open spec fn events_left(self) -> nat {
        match self.phase {
            PhaseView::Executing => 3,
            PhaseView::Flushing { .. } => 2,
            PhaseView::Reporting => 1,
            PhaseView::Finished => 0,
        }
    }

    /// The run once it is over, and what is left to be done then.
    pub open spec fn ended(self, result: Result<(), ErrorView>) -> (StepRunView, StepActionView) {
        (
            StepRunView { phase: PhaseView::Finished, ..self },
            StepActionView::CleanUp {
                task_run_external_id: self.message.task_run_external_id,
                result,
            },
        )
    }

    /// The run after the event that it waited for, and what is to be done next.
    pub open spec fn after(self, event: StepEvent) -> (StepRunView, StepActionView) {
        match (self.phase, event) {
            (PhaseView::Executing, StepEvent::Executed(outcome)) => {
                let (event_type, event_payload) = reported_as(outcome@);
                (
                    StepRunView {
                        phase: PhaseView::Flushing { event_type, event_payload },
                        ..self
                    },
                    StepActionView::Flush((LOG_FLUSH_TIMEOUT_SECS as nat) * 1_000_000_000),
                )
            },
            (
                PhaseView::Flushing { event_type, event_payload },
                StepEvent::Flushed { since_epoch },
            ) => match crate::utils::stamp_of(since_epoch) {
                Some(stamp) => (
                    StepRunView { phase: PhaseView::Reporting, ..self },
                    StepActionView::Report(
                        event_of(
                            self.worker_id,
                            self.message,
                            stamp,
                            event_type,
                            event_payload,
                            None,
                        ),
                    ),
                ),
                None => self.ended(Err(ErrorView::SystemTimeError)),
            },
            (_, StepEvent::Reported(result)) => self.ended(result_view(result)),
            _ => self.ended(Ok(())),
        }
    }
}

/// Leads one run from its execution to its end.
pub struct StepRun {
    worker_id: String,
    message: AssignedAction,
    phase: StepPhase,
}

impl View for StepRun {
    type V = StepRunView;

    closed spec fn view(&self) -> StepRunView {
        StepRunView {
            worker_id: self.worker_id@,
            message: self.message@,
            phase: match self.phase {
                StepPhase::Executing => PhaseView::Executing,
                StepPhase::Flushing { event_type, event_payload } => PhaseView::Flushing {
                    event_type,
                    event_payload: event_payload@,
                },
                StepPhase::Reporting => PhaseView::Reporting,
                StepPhase::Finished => PhaseView::Finished,
            },
        }
    }
}

impl StepRun {
    /// A run whose task is being executed.
    pub fn new(worker_id: String, message: AssignedAction) -> (run: StepRun)
        ensures
            run@ == (StepRunView {
                worker_id: worker_id@,
                message: message@,
                phase: PhaseView::Executing,
            }),
    {
        StepRun { worker_id, message, phase: StepPhase::Executing }
    }

    /// Takes note of the event that the run waited for, and gives what is to be done next.
    pub fn advance(&mut self, event: StepEvent) -> (action: StepAction)
        requires
            old(self)@.awaits(event),
        ensures
            (final(self)@, action@) == old(self)@.after(event),
    {
        let mut phase = StepPhase::Finished;
        core::mem::swap(&mut phase, &mut self.phase);
        let result: Result<(), HatchetError> = match (phase, event) {
            (StepPhase::Executing, StepEvent::Executed(outcome)) => {
                let (event_type, event_payload) = event_payload(outcome);
                self.phase = StepPhase::Flushing { event_type, event_payload };
                return StepAction::Flush(Duration::from_secs(LOG_FLUSH_TIMEOUT_SECS));
            },
            (
                StepPhase::Flushing { event_type, event_payload },
                StepEvent::Flushed { since_epoch },
            ) => match step_action_event(
                self.worker_id.as_str(),
                &self.message,
                since_epoch,
                event_type,
                event_payload,
                None,
            ) {
                Ok(event) => {
                    self.phase = StepPhase::Reporting;
                    return StepAction::Report(event);
                },
                Err(e) => Err(e),
            },
            (_, StepEvent::Reported(result)) => result,
            _ => Ok(()),
        };
        StepAction::CleanUp {
            task_run_external_id: self.message.task_run_external_id.clone(),
            result,
        }
    }
}

/// The engine is told how a run ended only after the log lines were flushed, so that a line
/// which the handler logged last is not lost.
pub proof fn law_the_end_is_reported_only_after_the_flush(run: StepRunView, event: StepEvent)
    requires
        run.awaits(event),
        run.after(event).1 is Report,
    ensures
        event is Flushed,
        run.phase is Flushing,
{
}

/// A run is taken off the record exactly when it is over, whether or not the report could be
/// sent; and every event that it waited for brings it nearer to that.
pub proof fn law_every_run_comes_to_its_clean_up(run: StepRunView, event: StepEvent)
    requires
        run.awaits(event),
    ensures
        run.after(event).0.events_left() < run.events_left(),
        run.after(event).0.phase is Finished <==> run.after(event).1 is CleanUp,
        run.after(event).1 matches StepActionView::CleanUp { task_run_external_id, .. }
            ==> task_run_external_id == run.message.task_run_external_id,
        event matches StepEvent::Reported(result) ==> run.after(event).1 == (
        StepActionView::CleanUp {
            task_run_external_id: run.message.task_run_external_id,
            result: result_view(result),
        }),
{
}

/// A run whose task was executed goes through the flush, the report of its outcome and the
/// clean-up, in this order.
pub proof fn law_course_of_a_run(
    worker_id: Seq<char>,
    message: ActionView,
    outcome: TaskOutcome,
    elapsed: Duration,
    sent: Result<(), HatchetError>,
)
    ensures
        ({
            let run = StepRunView { worker_id, message, phase: PhaseView::Executing };
            let flushing = run.after(StepEvent::Executed(outcome));
            let reporting = flushing.0.after(StepEvent::Flushed { since_epoch: Some(elapsed) });
            let over = reporting.0.after(StepEvent::Reported(sent));
            &&& flushing.1 is Flush
            &&& reporting.1 == StepActionView::Report(
                event_of(
                    worker_id,
                    message,
                    crate::utils::stamp_of(Some(elapsed))->0,
                    reported_as(outcome@).0,
                    reported_as(outcome@).1,
                    None,
                ),
            )
            &&& over.1 == (StepActionView::CleanUp {
                task_run_external_id: message.task_run_external_id,
                result: result_view(sent),
            })
        }),
{
}

/// Starting a run puts that run on record with its token and without a handle, and leaves every
/// other run as it was; where the start fails, every run stays as it was. The tasks stay as they
/// are either way.
pub proof fn law_starting_a_run_leaves_all_others_as_they_were<E, T, H>(
    dispatcher: DispatcherView<E, T, H>,
    message: ActionView,
    reported: Result<(), ErrorView>,
    token: T,
    id: Seq<char>,
)
    ensures
        ({
            let (after, error) = dispatcher.after_start_report(message, reported, token);
            &&& after.registry == dispatcher.registry
            &&& id != message.task_run_external_id || error is Some ==> {
                &&& after.task_runs.contains_key(id) <==> dispatcher.task_runs.contains_key(id)
                &&& dispatcher.task_runs.contains_key(id) ==> after.task_runs[id]
                    == dispatcher.task_runs[id]
            }
            &&& error is None ==> {
                &&& after.task_runs.contains_key(message.task_run_external_id)
                &&& after.task_runs[message.task_run_external_id].handle is None
                &&& after.task_runs[message.task_run_external_id].token == token
            }
            &&& reported is Ok && !dispatcher.registry.contains_key(message.action_id) ==> error
                == Some(ErrorView::TaskNotFound { task_name: message.action_id })
        }),
{
}

/// Dispatching an action takes a run off the record only where the action cancels that very run,
/// and puts none there. Whatever the action, the tasks and all other runs stay as they are.
pub proof fn law_dispatching_leaves_all_other_runs_as_they_were<E, T, H>(
    dispatcher: DispatcherView<E, T, H>,
    message: ActionView,
    id: Seq<char>,
)
    ensures
        ({
            let after = dispatcher.after_dispatch(message);
            let cancelled = message.action_type == "CANCEL_STEP_RUN"@ && id
                == message.task_run_external_id;
            &&& after.registry == dispatcher.registry
            &&& after.task_runs.contains_key(id) <==> dispatcher.task_runs.contains_key(id)
                && !cancelled
            &&& after.task_runs.contains_key(id) ==> after.task_runs[id]
                == dispatcher.task_runs[id]
        }),
{
    reveal_strlit("START_STEP_RUN");
    reveal_strlit("CANCEL_STEP_RUN");
    assert("START_STEP_RUN"@[0] == 'S' && "CANCEL_STEP_RUN"@[0] == 'C');
}

/// Workers start and cancel runs, each under its own kind of action, and perform no other kind.
pub proof fn law_kinds_of_actions(action_type: Seq<char>)
    ensures
        requested(action_type) == Some(DispatchRequest::StartStepRun) <==> action_type
            == "START_STEP_RUN"@,
        requested(action_type) == Some(DispatchRequest::CancelStepRun) <==> action_type
            == "CANCEL_STEP_RUN"@,
{
    reveal_strlit("START_STEP_RUN");
    reveal_strlit("CANCEL_STEP_RUN");
    assert("START_STEP_RUN"@[0] == 'S' && "CANCEL_STEP_RUN"@[0] == 'C');
}

/// What happens to a run: begun, it is on record with its token alone; a handle joins the token
/// of a run that is on record and brings back none that is not; cancelled or over, it is off the
/// record.
pub proof fn law_what_happens_to_a_run<T, H>(
    task_runs: Map<Seq<char>, TaskRunEntry<T, H>>,
    id: Seq<char>,
    token: T,
    handle: H,
    other: Seq<char>,
    op: RunOp<T, H>,
)
    ensures
        ({
            let begun = after_op(task_runs, RunOp::Begin { id, token });
            begun.contains_key(id) && begun[id].token == token && begun[id].handle is None
        }),
        ({
            let attached = after_op(task_runs, RunOp::Attach { id, handle });
            &&& attached.contains_key(id) <==> task_runs.contains_key(id)
            &&& task_runs.contains_key(id) ==> attached[id].token == task_runs[id].token
                && attached[id].handle == Some(handle)
        }),
        !after_op(task_runs, RunOp::Cancel { id }).contains_key(id),
        !after_op(task_runs, RunOp::CleanUp { id }).contains_key(id),
        (RunOp::<T, H>::Begin { id, token }).run_id() == id,
        (RunOp::<T, H>::Attach { id, handle }).run_id() == id,
        (RunOp::<T, H>::Cancel { id }).run_id() == id,
        (RunOp::<T, H>::CleanUp { id }).run_id() == id,
        other != op.run_id() ==> {
            &&& after_op(task_runs, op).contains_key(other) <==> task_runs.contains_key(other)
            &&& task_runs.contains_key(other) ==> after_op(task_runs, op)[other]
                == task_runs[other]
        },
{
}

/// What is stopped is exactly what was on record for the run, with its token and its handle, and
/// nothing is stopped only where nothing was on record.
pub proof fn law_what_was_on_record_is_stopped<T, H>(
    task_runs: Map<Seq<char>, TaskRunEntry<T, H>>,
    id: Seq<char>,
    stopped: Option<TaskRunEntry<T, H>>,
)
    requires
        was_under_way(task_runs, id, stopped),
    ensures
        stopped is Some <==> task_runs.contains_key(id),
        stopped matches Some(entry) ==> entry.token == task_runs[id].token && entry.handle
            == task_runs[id].handle,
{
}

/// A run is launched with the task of its action, as the run that the action names, in the
/// attempt that it names; it has not streamed anything.
pub proof fn law_a_launch_is_for_the_run_of_its_action<E>(
    launch: Launch<E>,
    task: Arc<E>,
    message: ActionView,
)
    requires
        is_launch_of(launch, task, message),
    ensures
        launch.task == task,
        launch.execution_context.workflow_run_id@ == message.workflow_run_id,
        launch.execution_context.task_run_external_id@ == message.task_run_external_id,
        launch.execution_context.retry_count == message.retry_count,
        launch.execution_context.child_index == 0,
        launch.context@.workflow_run_id == message.workflow_run_id,
        launch.context@.task_run_external_id == message.task_run_external_id,
        launch.context@.stream_index == 0,
{
}

/// What the engine is told of a run names the worker and the run's job, task and action as the
/// action that asked for it did, and carries the time, kind, payload and attempt of the report.
pub proof fn law_a_report_names_the_run_that_it_is_about(
    worker_id: Seq<char>,
    message: ActionView,
    stamp: Timestamp,
    event_type: i32,
    event_payload: Seq<char>,
    retry_count: Option<i32>,
)
    ensures
        ({
            let event = event_of(
                worker_id,
                message,
                stamp,
                event_type,
                event_payload,
                retry_count,
            );
            &&& event.worker_id == worker_id
            &&& event.job_id == message.job_id
            &&& event.job_run_id == message.job_run_id
            &&& event.task_id == message.task_id
            &&& event.task_run_external_id == message.task_run_external_id
            &&& event.action_id == message.action_id
            &&& event.event_timestamp == Some(stamp)
            &&& event.event_type == event_type
            &&& event.event_payload == event_payload
            &&& event.retry_count == retry_count
            &&& event.should_not_retry is None
        }),
{
}

/// The input of a payload is whatever its member `input` holds, be it empty or null. It is
/// missing only where the payload is no object or has no such member; other members do not
/// matter.
pub proof fn law_the_input_is_the_member_of_that_name(
    members: Map<Seq<char>, Json>,
    input: Json,
    name: Seq<char>,
    value: Json,
    payload: Json,
)
    ensures
        input_in(Json::Object(members.insert("input"@, input))) == Some(input),
        name != "input"@ ==> input_in(Json::Object(members.insert(name, value))) == input_in(
            Json::Object(members),
        ),
        input_in(Json::Object(members.remove("input"@))) is None,
        payload !is Object ==> input_in(payload) is None,
{
}

/// A task's output is reported as its JSON text, an error as what it displays, and a panic as
/// its message behind a word on what it was.
pub proof fn law_outcomes_are_reported_in_full(output: Json, message: Seq<char>)
    ensures
        reported_as(OutcomeView::Completed(output)) == (2i32, crate::json::json_text(output)),
        reported_as(OutcomeView::Failed(message)) == (3i32, message),
        reported_as(OutcomeView::Panicked(Some(message))) == (
            3i32,
            "Task panicked: "@ + message,
        ),
        reported_as(OutcomeView::Panicked(None)) == (3i32, "Task panicked: Unknown panic"@),
        STEP_STARTED == 1,
{
    reveal_strlit("Task panicked: ");
    reveal_strlit("Unknown panic");
    reveal_strlit("Task panicked: Unknown panic");
    assert("Task panicked: "@ + "Unknown panic"@ =~= "Task panicked: Unknown panic"@);
}

/// A run waits for its execution, then for the flush, then for the report, and then for nothing.
pub proof fn law_what_a_run_waits_for(run: StepRunView, event: StepEvent)
    ensures
        run.phase is Executing ==> (run.awaits(event) <==> event is Executed),
        run.phase is Flushing ==> (run.awaits(event) <==> event is Flushed),
        run.phase is Reporting ==> (run.awaits(event) <==> event is Reported),
        run.phase is Finished ==> !run.awaits(event),
{
}

/// A run stays the run that it is. Its flush may take two seconds, and leaves what is to be
/// reported as it was put when the task was executed; a clock that stands before 1970 ends the
/// run with that error, without a report.
pub proof fn law_steps_of_a_run(
    run: StepRunView,
    event: StepEvent,
    outcome: TaskOutcome,
    event_type: i32,
    event_payload: Seq<char>,
    elapsed: Duration,
)
    ensures
        run.awaits(event) ==> run.after(event).0.worker_id == run.worker_id && run.after(
            event,
        ).0.message == run.message,
        run.phase is Executing ==> {
            let (next, action) = run.after(StepEvent::Executed(outcome));
            &&& action == StepActionView::Flush(2_000_000_000)
            &&& next.phase == (PhaseView::Flushing {
                event_type: reported_as(outcome@).0,
                event_payload: reported_as(outcome@).1,
            })
        },
        run.phase == (PhaseView::Flushing { event_type, event_payload }) ==> {
            let (next, action) = run.after(StepEvent::Flushed { since_epoch: Some(elapsed) });
            let (over, stopped) = run.after(StepEvent::Flushed { since_epoch: None });
            &&& next.phase is Reporting
            &&& action matches StepActionView::Report(event) && event.event_type == event_type
                && event.event_payload == event_payload && event.worker_id == run.worker_id
                && event.task_run_external_id == run.message.task_run_external_id
                && event.retry_count is None && event.event_timestamp == crate::utils::stamp_of(
                Some(elapsed),
            )
            &&& over.phase is Finished
            &&& stopped == (StepActionView::CleanUp {
                task_run_external_id: run.message.task_run_external_id,
                result: Err(ErrorView::SystemTimeError),
            })
        },
{
}

/// The models of actions, reports, outcomes and results say what these say.
pub proof fn law_the_models_of_a_run_say_what_it_says(
    message: AssignedAction,
    event: StepActionEvent,
    outcome: TaskOutcome,
    action: StepAction,
    result: Result<(), HatchetError>,
    error: InputError,
)
    ensures
        message@.action_type == message.action_type@ && message@.action_id == message.action_id@
            && message@.action_payload == message.action_payload@ && message@.workflow_run_id
            == message.workflow_run_id@ && message@.task_run_external_id
            == message.task_run_external_id@ && message@.job_id == message.job_id@
            && message@.job_run_id == message.job_run_id@ && message@.task_id == message.task_id@
            && message@.retry_count == message.retry_count,
        event@.worker_id == event.worker_id@ && event@.job_id == event.job_id@ && event@.job_run_id
            == event.job_run_id@ && event@.task_id == event.task_id@ && event@.task_run_external_id
            == event.task_run_external_id@ && event@.action_id == event.action_id@
            && event@.event_timestamp == event.event_timestamp && event@.event_type
            == event.event_type && event@.event_payload == event.event_payload@
            && event@.retry_count == event.retry_count && event@.should_not_retry
            == event.should_not_retry,
        outcome matches TaskOutcome::Completed(output) ==> outcome@ == OutcomeView::Completed(
            crate::json::json_content(output),
        ),
        outcome matches TaskOutcome::Failed(text) ==> outcome@ == OutcomeView::Failed(text@),
        outcome matches TaskOutcome::Panicked(Some(text)) ==> outcome@ == OutcomeView::Panicked(
            Some(text@),
        ),
        outcome matches TaskOutcome::Panicked(None) ==> outcome@ == OutcomeView::Panicked(None),
        action matches StepAction::Flush(timeout) ==> action@ == StepActionView::Flush(timeout@),
        action matches StepAction::Report(report) ==> action@ == StepActionView::Report(report@),
        action matches StepAction::CleanUp { task_run_external_id, result } ==> action@ == (
        StepActionView::CleanUp {
            task_run_external_id: task_run_external_id@,
            result: result_view(result),
        }),
        result is Ok <==> result_view(result) is Ok,
        result matches Err(e) ==> result_view(result) == Err::<(), ErrorView>(e@),
        error matches InputError::NotJson(text) ==> error@ == InputErrorView::NotJson(text@),
        error is MissingInput ==> error@ is MissingInput,
{
}

/// The input that is read from a payload is what the member `input` of the parsed payload holds,
/// whatever that is; a payload that is no JSON is told from one that has no such member.
pub proof fn law_the_input_that_is_read_is_the_member_of_that_name(
    payload: &Value,
    text: &str,
    input: Option<Value>,
    read: Result<Value, InputError>,
)
    requires
        call_ensures(input_of, (payload,), input),
        call_ensures(task_input, (text,), read),
    ensures
        crate::json::json_content(*payload) matches Json::Object(members) ==> (
        members.contains_key("input"@) ==> (input matches Some(value)
            && crate::json::json_content(value) == members["input"@])),
        input is Some ==> (crate::json::json_content(*payload) matches Json::Object(members)
            && members.contains_key("input"@)),
        crate::json::json_parsed(text@) matches Ok(Json::Object(members)) ==> (
        members.contains_key("input"@) ==> (read matches Ok(value) && crate::json::json_content(
            value,
        ) == members["input"@])),
        crate::json::json_parsed(text@) is Ok && read is Err ==> read->Err_0 is MissingInput,
        crate::json::json_parsed(text@) matches Err(error) ==> (read matches Err(
            InputError::NotJson(said),
        ) && said@ == error),
{
}

/// A start is reported for the run that the action asks for, in its attempt, at the time of the
/// clock; and an outcome is reported as what it was.
pub proof fn law_starts_and_outcomes_are_reported(
    worker_id: &str,
    message: &AssignedAction,
    elapsed: Duration,
    report: Result<StepActionEvent, HatchetError>,
    output: Value,
    failure: String,
    panic: String,
    completed: (i32, String),
    failed: (i32, String),
    panicked: (i32, String),
)
    requires
        call_ensures(started_event, (worker_id, message, Some(elapsed)), report),
        call_ensures(event_payload, (TaskOutcome::Completed(output),), completed),
        call_ensures(event_payload, (TaskOutcome::Failed(failure),), failed),
        call_ensures(event_payload, (TaskOutcome::Panicked(Some(panic)),), panicked),
    ensures
        report matches Ok(event) && event.worker_id@ == worker_id@ && event.job_id@
            == message.job_id@ && event.job_run_id@ == message.job_run_id@ && event.task_id@
            == message.task_id@ && event.task_run_external_id@ == message.task_run_external_id@
            && event.action_id@ == message.action_id@ && event.event_type == 1
            && event.event_payload@.len() == 0 && event.retry_count == Some(message.retry_count)
            && event.should_not_retry is None && event.event_timestamp == crate::utils::stamp_of(
            Some(elapsed),
        ),
        completed.0 == 2 && completed.1@ == crate::json::json_text(
            crate::json::json_content(output),
        ),
        failed.0 == 3 && failed.1@ == failure@,
        panicked.0 == 3 && panicked.1@ == "Task panicked: "@ + panic@,
{
}

/// A run that was started can be cancelled, with its own token, however many others were started
/// since; and those are left on record.
pub proof fn law_a_run_can_be_cancelled_after_others_were_started<E, T, H>(
    first: &mut TaskDispatcher<E, T, H>,
    second: &mut TaskDispatcher<E, T, H>,
    third: &mut TaskDispatcher<E, T, H>,
    message: &AssignedAction,
    other: &AssignedAction,
    cancel: &AssignedAction,
    token: T,
    other_token: T,
    launch: Result<Launch<E>, HatchetError>,
    other_launch: Result<Launch<E>, HatchetError>,
    stopped: Option<TaskRunEntry<T, H>>,
)
    requires
        call_ensures(
            TaskDispatcher::<E, T, H>::handle_start_step_run,
            (first, message, Ok(()), token),
            launch,
        ),
        launch is Ok,
        *final(first) == *old(second),
        call_ensures(
            TaskDispatcher::<E, T, H>::handle_start_step_run,
            (second, other, Ok(()), other_token),
            other_launch,
        ),
        *final(second) == *old(third),
        call_ensures(
            TaskDispatcher::<E, T, H>::handle_cancel_step_run,
            (third, cancel),
            stopped,
        ),
        other.task_run_external_id@ != message.task_run_external_id@,
        cancel.task_run_external_id@ == message.task_run_external_id@,
    ensures
        launch->Ok_0.task == old(first)@.registry[message.action_id@],
        stopped matches Some(entry) && entry.token == token && entry.handle is None,
        !final(third)@.task_runs.contains_key(message.task_run_external_id@),
        other_launch is Ok ==> final(third)@.task_runs.contains_key(other.task_run_external_id@)
            && final(third)@.task_runs[other.task_run_external_id@].token == other_token,
        other_launch is Ok <==> old(first)@.registry.contains_key(other.action_id@),
        final(third)@.registry == old(first)@.registry,
{
}

/// A handle joins the token of its own run and no other, a run that is over takes none, and
/// cancelling or cleaning up one run leaves every other as it was.
pub proof fn law_handles_and_ends_concern_one_run<E, T, H>(
    attached: &mut TaskDispatcher<E, T, H>,
    cleaned: &mut TaskDispatcher<E, T, H>,
    late: &mut TaskDispatcher<E, T, H>,
    run: &str,
    handle: H,
    late_handle: H,
    other: Seq<char>,
)
    requires
        call_ensures(TaskDispatcher::<E, T, H>::attach_handle, (attached, run, handle), ()),
        *final(attached) == *old(cleaned),
        call_ensures(TaskDispatcher::<E, T, H>::clean_up, (cleaned, run), ()),
        *final(cleaned) == *old(late),
        call_ensures(TaskDispatcher::<E, T, H>::attach_handle, (late, run, late_handle), ()),
    ensures
        old(attached)@.task_runs.contains_key(run@) ==> final(attached)@.task_runs.contains_key(
            run@,
        ) && final(attached)@.task_runs[run@].token == old(attached)@.task_runs[run@].token
            && final(attached)@.task_runs[run@].handle == Some(handle),
        !old(attached)@.task_runs.contains_key(run@) ==> !final(attached)@.task_runs.contains_key(
            run@,
        ),
        !final(late)@.task_runs.contains_key(run@),
        other != run@ ==> {
            &&& final(late)@.task_runs.contains_key(other) <==> old(
                attached,
            )@.task_runs.contains_key(other)
            &&& old(attached)@.task_runs.contains_key(other) ==> final(late)@.task_runs[other]
                == old(attached)@.task_runs[other]
        },
        final(late)@.registry == old(attached)@.registry,
{
}

/// Asking for a start leaves the record as it is and gives the report of that start; asking for
/// a cancellation gives what was on record; and any other kind of action is refused by its name.
pub proof fn law_what_an_assigned_action_leads_to<E, T, H>(
    dispatcher: &mut TaskDispatcher<E, T, H>,
    worker_id: &str,
    message: &AssignedAction,
    elapsed: Duration,
    res: Result<DispatchAction<T, H>, HatchetError>,
)
    requires
        call_ensures(
            TaskDispatcher::<E, T, H>::dispatch,
            (dispatcher, worker_id, message, Some(elapsed)),
            res,
        ),
    ensures
        message.action_type@ == "START_STEP_RUN"@ ==> {
            &&& res matches Ok(DispatchAction::ReportStarted(event)) && event.event_type == 1
                && event.worker_id@ == worker_id@ && event.task_run_external_id@
                == message.task_run_external_id@ && event.retry_count == Some(message.retry_count)
            &&& final(dispatcher)@ == old(dispatcher)@
        },
        message.action_type@ == "CANCEL_STEP_RUN"@ ==> {
            &&& res matches Ok(DispatchAction::Stop(stopped)) && (stopped is Some <==> old(
                dispatcher,
            )@.task_runs.contains_key(message.task_run_external_id@)) && (stopped is Some
                ==> stopped->0 == old(dispatcher)@.task_runs[message.task_run_external_id@])
            &&& !final(dispatcher)@.task_runs.contains_key(message.task_run_external_id@)
        },
        message.action_type@ != "START_STEP_RUN"@ && message.action_type@ != "CANCEL_STEP_RUN"@
            ==> {
            &&& res matches Err(e) && e@ == ErrorView::UnrecognizedAction(message.action_type@)
            &&& final(dispatcher)@ == old(dispatcher)@
        },
{
    law_kinds_of_actions(message.action_type@);
    reveal_strlit("START_STEP_RUN");
    reveal_strlit("CANCEL_STEP_RUN");
    assert("START_STEP_RUN"@[0] == 'S' && "CANCEL_STEP_RUN"@[0] == 'C');
}

/// A run that is led through its execution, flush and report is reported as what came out of it,
/// for the run that it is, and ends with what became of the report.
pub proof fn law_a_run_is_led_to_its_end(
    worker_id: String,
    message: AssignedAction,
    run: StepRun,
    executed: &mut StepRun,
    flushed: &mut StepRun,
    reported: &mut StepRun,
    failure: String,
    elapsed: Duration,
    sent: Result<(), HatchetError>,
    flush: StepAction,
    report: StepAction,
    over: StepAction,
)
    requires
        call_ensures(StepRun::new, (worker_id, message), run),
        run == *old(executed),
        call_ensures(
            StepRun::advance,
            (executed, StepEvent::Executed(TaskOutcome::Failed(failure))),
            flush,
        ),
        *final(executed) == *old(flushed),
        call_ensures(
            StepRun::advance,
            (flushed, StepEvent::Flushed { since_epoch: Some(elapsed) }),
            report,
        ),
        *final(flushed) == *old(reported),
        call_ensures(StepRun::advance, (reported, StepEvent::Reported(sent)), over),
    ensures
        flush matches StepAction::Flush(timeout) && timeout@ == 2_000_000_000,
        report matches StepAction::Report(event) && event.worker_id@ == worker_id@
            && event.task_run_external_id@ == message.task_run_external_id@ && event.action_id@
            == message.action_id@ && event.event_type == 3 && event.event_payload@ == failure@
            && event.retry_count is None,
        over matches StepAction::CleanUp { task_run_external_id, result }
            && task_run_external_id@ == message.task_run_external_id@ && (result is Ok <==> sent
            is Ok),
{
    assert(flush@ is Flush);
    assert(report@ is Report);
    assert(over@ is CleanUp);
}

} // verus!
