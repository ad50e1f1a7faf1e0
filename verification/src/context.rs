//! What a task handler can ask of the engine.
use serde_json::Value;
use vstd::prelude::*;

use crate::clients::grpc::event_client::LogEntry;
use crate::error::{ErrorView, HatchetError};
use crate::json::{copied_value, Json};
use crate::name_map::NameMap;
use crate::text::same_text;

verus! {

/// How many streamed chunks of a run may wait to be sent.
pub const CHUNK_QUEUE_CAPACITY: usize = 100;

/// A task of a workflow run, as far as a context reads it.
pub struct WorkflowTask {
    pub task_external_id: String,
    /// The outputs of the task's parents, by the names of their steps.
    pub parents: NameMap<Value>,
    /// What the filter that triggered the run was given.
    pub filter_payload: Value,
}

/// A workflow run, as far as a context reads it.
pub struct WorkflowRun {
    pub tasks: Vec<WorkflowTask>,
}

/// The position of the first task of the id, or `None` where the run has none.
pub open spec fn task_position(tasks: Seq<WorkflowTask>, id: Seq<char>) -> Option<int>
    decreases tasks.len(),
{
    if tasks.len() == 0 {
        None
    } else {
        match task_position(tasks.drop_last(), id) {
            Some(i) => Some(i),
            None => if tasks.last().task_external_id@ == id {
                Some(tasks.len() - 1)
            } else {
                None
            },
        }
    }
}

/// The first task of an id is one of that id, and none before it is; where there is none, no
/// task is of that id.
pub proof fn lemma_task_position(tasks: Seq<WorkflowTask>, id: Seq<char>)
    ensures
        match task_position(tasks, id) {
            Some(i) => 0 <= i < tasks.len() && tasks[i].task_external_id@ == id && forall|j: int|
                0 <= j < i ==> (#[trigger] tasks[j]).task_external_id@ != id,
            None => forall|j: int|
                0 <= j < tasks.len() ==> (#[trigger] tasks[j]).task_external_id@ != id,
        },
    decreases tasks.len(),
{
    if tasks.len() > 0 {
        let earlier = tasks.drop_last();
        lemma_task_position(earlier, id);
        assert forall|j: int| 0 <= j < earlier.len() implies #[trigger] tasks[j] == earlier[j] by {}
    }
}

/// The output of a parent of the task, or `None` where the run has no task of the id or that
/// task has no parent of the name.
pub open spec fn parent_output_in(
    tasks: Seq<WorkflowTask>,
    id: Seq<char>,
    parent_step_name: Seq<char>,
) -> Option<Json> {
    match task_position(tasks, id) {
        Some(i) => if tasks[i].parents@.contains_key(parent_step_name) {
            Some(crate::json::json_content(tasks[i].parents@[parent_step_name]))
        } else {
            None
        },
        None => None,
    }
}

/// The index that follows a chunk's. The index wraps around.
pub open spec fn next_index(index: i64) -> i64 {
    if index < i64::MAX {
        (index + 1) as i64
    } else {
        i64::MIN
    }
}

/// The index of the chunk that is streamed after `earlier` others.
pub open spec fn chunk_index(earlier: nat) -> i64
    decreases earlier,
{
    if earlier == 0 {
        0
    } else {
        next_index(chunk_index((earlier - 1) as nat))
    }
}

/// The chunks of a run are numbered from zero, one after another.
pub proof fn law_chunks_are_numbered_in_order(earlier: nat)
    requires
        earlier <= i64::MAX,
    ensures
        chunk_index(earlier) == earlier,
    decreases earlier,
{
    if earlier > 0 {
        law_chunks_are_numbered_in_order((earlier - 1) as nat);
    }
}

/// No two chunks of a run share an index, and the order of the indices is the order in which
/// the chunks were streamed.
pub proof fn law_later_chunks_have_greater_indices(sooner: nat, later: nat)
    requires
        sooner < later <= i64::MAX,
    ensures
        chunk_index(sooner) < chunk_index(later),
{
    law_chunks_are_numbered_in_order(sooner);
    law_chunks_are_numbered_in_order(later);
}

/// A chunk on its way to those who consume the run's stream.
#[derive(Debug)]
pub struct StreamChunk {
    pub task_run_external_id: String,
    pub data: Vec<u8>,
    pub index: i64,
}

/// The model of a [`Context`].
#[verifier::ext_equal]
pub struct ContextView {
    pub workflow_run_id: Seq<char>,
    pub task_run_external_id: Seq<char>,
    /// The index of the next chunk that is streamed.
    pub stream_index: i64,
}

/// The context of a run that has not streamed anything.
pub open spec fn new_context(
    workflow_run_id: Seq<char>,
    task_run_external_id: Seq<char>,
) -> ContextView {
    ContextView { workflow_run_id, task_run_external_id, stream_index: 0 }
}

/// Lets a task handler interact with the engine on behalf of its run.
#[derive(Debug)]
pub struct Context {
    workflow_run_id: String,
    task_run_external_id: String,
    stream_index: i64,
}

impl View for Context {
    type V = ContextView;

    closed spec fn view(&self) -> ContextView {
        ContextView {
            workflow_run_id: self.workflow_run_id@,
            task_run_external_id: self.task_run_external_id@,
            stream_index: self.stream_index,
        }
    }
}

impl Context {
    /// The context of a run.
    pub fn new(workflow_run_id: &str, task_run_external_id: &str) -> (context: Context)
        ensures
            context@ == new_context(workflow_run_id@, task_run_external_id@),
    {
        Context {
            workflow_run_id: workflow_run_id.to_owned(),
            task_run_external_id: task_run_external_id.to_owned(),
            stream_index: 0,
        }
    }

    /// The id of the workflow run that the task belongs to.
    pub fn workflow_run_id(&self) -> (id: &str)
        ensures
            id@ == self@.workflow_run_id,
    {
        self.workflow_run_id.as_str()
    }

    /// The id of the task run.
    pub fn task_run_external_id(&self) -> (id: &str)
        ensures
            id@ == self@.task_run_external_id,
    {
        self.task_run_external_id.as_str()
    }

    /// Where the context's own task stands among those of its workflow run.
    fn current_task(&self, tasks: &Vec<WorkflowTask>) -> (position: Option<usize>)
        ensures
            match position {
                Some(i) => task_position(tasks@, self@.task_run_external_id) == Some(i as int) && i
                    < tasks.len(),
                None => task_position(tasks@, self@.task_run_external_id) is None,
            },
    {
        let mut i: usize = 0;
        proof {
            lemma_task_position(tasks@, self@.task_run_external_id);
        }
        while i < tasks.len()
            invariant
                i <= tasks.len(),
                forall|j: int|
                    0 <= j < i ==> (#[trigger] tasks@[j]).task_external_id@
                        != self@.task_run_external_id,
            decreases tasks.len() - i,
        {
            if same_text(tasks[i].task_external_id.as_str(), self.task_run_external_id.as_str()) {
                proof {
                    lemma_task_position(tasks@, self@.task_run_external_id);
                    assert(tasks@[i as int].task_external_id@ == self@.task_run_external_id);
                }
                return Some(i);
            }
            i = i + 1;
        }
        proof {
            lemma_task_position(tasks@, self@.task_run_external_id);
        }
        None
    }

    /// The output of a parent task in a DAG, read from the workflow run that was fetched. A
    /// problem with fetching it is handed on.
    pub fn parent_output(
        &self,
        workflow_run: Result<WorkflowRun, HatchetError>,
        parent_step_name: &str,
    ) -> (res: Result<Value, HatchetError>)
        ensures
            match workflow_run {
                Err(e) => res matches Err(same) && same == e,
                Ok(run) => match parent_output_in(
                    run.tasks@,
                    self@.task_run_external_id,
                    parent_step_name@,
                ) {
                    Some(output) => res matches Ok(value) && crate::json::json_content(value)
                        == output,
                    None => res matches Err(e) && e@ == (ErrorView::ParentTaskNotFound {
                        parent_step_name: parent_step_name@,
                    }),
                },
            },
    {
        let run = match workflow_run {
            Ok(run) => run,
            Err(e) => {
                return Err(e);
            },
        };
        let current = match self.current_task(&run.tasks) {
            Some(current) => current,
            None => {
                return Err(
                    HatchetError::ParentTaskNotFound {
                        parent_step_name: parent_step_name.to_owned(),
                    },
                );
            },
        };
        match run.tasks[current].parents.get(parent_step_name) {
            Some(output) => Ok(copied_value(output)),
            None => Err(
                HatchetError::ParentTaskNotFound { parent_step_name: parent_step_name.to_owned() },
            ),
        }
    }

    /// What the filter that triggered the run was given, read from the workflow run that was
    /// fetched, which must hold the context's own task. A problem with fetching it is handed
    /// on.
    pub fn filter_payload(&self, workflow_run: Result<WorkflowRun, HatchetError>) -> (res: Result<
        Value,
        HatchetError,
    >)
        requires
            workflow_run matches Ok(run) ==> task_position(
                run.tasks@,
                self@.task_run_external_id,
            ) is Some,
        ensures
            match workflow_run {
                Err(e) => res matches Err(same) && same == e,
                Ok(run) => res matches Ok(value) && crate::json::json_content(value)
                    == crate::json::json_content(
                    run.tasks@[task_position(
                        run.tasks@,
                        self@.task_run_external_id,
                    )->0].filter_payload,
                ),
            },
    {
        match workflow_run {
            Ok(run) => {
                let current: usize = self.current_task(&run.tasks).unwrap();
                Ok(copied_value(&run.tasks[current].filter_payload))
            },
            Err(e) => Err(e),
        }
    }

    /// Tells whether the context's own task is among those of a workflow run.
    pub fn is_part_of(&self, run: &WorkflowRun) -> (part: bool)
        ensures
            part == (task_position(run.tasks@, self@.task_run_external_id) is Some),
    {
        match self.current_task(&run.tasks) {
            Some(_) => true,
            None => false,
        }
    }

    /// The log line that the engine is to get for a message: without a level, metadata or
    /// attempt.
    pub fn log(&self, message: &str) -> (entry: LogEntry)
        ensures
            entry.task_run_external_id@ == self@.task_run_external_id,
            entry.message@ == message@,
            entry.level is None,
            entry.metadata@ == Seq::<char>::empty(),
            entry.task_retry_count is None,
    {
        LogEntry {
            task_run_external_id: self.task_run_external_id.clone(),
            message: message.to_owned(),
            level: None,
            metadata: String::new(),
            task_retry_count: None,
        }
    }

    /// The result of queueing a log line, where the queue gives its reason for refusing it.
    pub fn log_queued(queued: Result<(), String>) -> (res: Result<(), HatchetError>)
        ensures
            match queued {
                Ok(()) => res is Ok,
                Err(reason) => res matches Err(e) && e@ == ErrorView::InternalError(reason@),
            },
    {
        match queued {
            Ok(()) => Ok(()),
            Err(reason) => Err(HatchetError::InternalError(reason)),
        }
    }

    /// The chunk that the engine is to get, with the next index. Chunks are numbered in the
    /// order in which they are streamed, whether or not they can be queued.
    pub fn put_stream(&mut self, data: Vec<u8>) -> (chunk: StreamChunk)
        ensures
            final(self)@ == (ContextView {
                stream_index: next_index(old(self)@.stream_index),
                ..old(self)@
            }),
            chunk.task_run_external_id@ == old(self)@.task_run_external_id,
            chunk.data == data,
            chunk.index == old(self)@.stream_index,
    {
        let index: i64 = self.stream_index;
        self.stream_index = if index < i64::MAX {
            index + 1
        } else {
            i64::MIN
        };
        StreamChunk { task_run_external_id: self.task_run_external_id.clone(), data, index }
    }

    /// The result of queueing a chunk, where the queue gives its reason for refusing it.
    pub fn chunk_queued(queued: Result<(), String>) -> (res: Result<(), HatchetError>)
        ensures
            match queued {
                Ok(()) => res is Ok,
                Err(reason) => res matches Err(e) && e@ == ErrorView::StreamError(reason@),
            },
    {
        match queued {
            Ok(()) => Ok(()),
            Err(reason) => Err(HatchetError::StreamError(reason)),
        }
    }
}

/// The output of a parent is what the first task of the id was given for it. It is missing only
/// where the run has no task of the id, or that task no parent of the name.
pub proof fn law_the_output_of_a_parent_is_that_of_the_own_task(
    tasks: Seq<WorkflowTask>,
    id: Seq<char>,
    parent_step_name: Seq<char>,
    own: int,
)
    requires
        0 <= own < tasks.len(),
        tasks[own].task_external_id@ == id,
        forall|i: int| 0 <= i < own ==> (#[trigger] tasks[i]).task_external_id@ != id,
    ensures
        task_position(tasks, id) == Some(own),
        parent_output_in(tasks, id, parent_step_name) is Some
            <==> tasks[own].parents@.contains_key(parent_step_name),
        parent_output_in(tasks, id, parent_step_name) matches Some(output) ==> output
            == crate::json::json_content(tasks[own].parents@[parent_step_name]),
{
    lemma_task_position(tasks, id);
    match task_position(tasks, id) {
        Some(i) => {
            if i < own {
                assert(tasks[i].task_external_id@ != id);
            }
            if own < i {
                assert(tasks[own].task_external_id@ != id);
            }
        },
        None => {
            assert(tasks[own].task_external_id@ != id);
        },
    }
}

/// A run without a task of the id has no output of any parent for it.
pub proof fn law_a_stranger_has_no_parents(
    tasks: Seq<WorkflowTask>,
    id: Seq<char>,
    parent_step_name: Seq<char>,
)
    requires
        forall|i: int| 0 <= i < tasks.len() ==> (#[trigger] tasks[i]).task_external_id@ != id,
    ensures
        task_position(tasks, id) is None,
        parent_output_in(tasks, id, parent_step_name) is None,
{
    lemma_task_position(tasks, id);
}

/// A new context is that of its run, and numbers the first chunk zero; each further chunk gets
/// the number behind that of the last one, and only behind the greatest comes the least.
pub proof fn law_a_context_numbers_from_zero(
    workflow_run_id: Seq<char>,
    task_run_external_id: Seq<char>,
    index: i64,
)
    ensures
        new_context(workflow_run_id, task_run_external_id).workflow_run_id == workflow_run_id,
        new_context(workflow_run_id, task_run_external_id).task_run_external_id
            == task_run_external_id,
        new_context(workflow_run_id, task_run_external_id).stream_index == 0,
        index < i64::MAX ==> next_index(index) == index + 1,
        next_index(i64::MAX) == i64::MIN,
        CHUNK_QUEUE_CAPACITY == 100,
{
}

/// A context is that of the run that it was made for, and a line that is logged through it
/// belongs to that run, says the message, and has neither level, metadata nor attempt.
pub proof fn law_lines_of_a_context_belong_to_its_run(
    workflow_run_id: &str,
    task_run_external_id: &str,
    context: Context,
    message: &str,
    entry: LogEntry,
    workflow_run_read: &str,
    task_run_read: &str,
)
    requires
        call_ensures(Context::new, (workflow_run_id, task_run_external_id), context),
        call_ensures(Context::log, (&context, message), entry),
        call_ensures(Context::workflow_run_id, (&context,), workflow_run_read),
        call_ensures(Context::task_run_external_id, (&context,), task_run_read),
    ensures
        entry.task_run_external_id@ == task_run_external_id@,
        entry.message@ == message@,
        entry.level is None && entry.task_retry_count is None,
        entry.metadata@.len() == 0,
        workflow_run_read@ == workflow_run_id@,
        task_run_read@ == task_run_external_id@,
{
}

/// What a context reads of its workflow run is what the first task of its own run has there: the
/// outputs of its parents, and the payload of the filter. A run that could not be fetched gives
/// its own error, and a parent that is not there is named.
pub proof fn law_a_context_reads_its_own_task(
    workflow_run_id: &str,
    task_run_external_id: &str,
    context: Context,
    run: WorkflowRun,
    own: int,
    parent_step_name: &str,
    output: Result<Value, HatchetError>,
    payload: Result<Value, HatchetError>,
    error: HatchetError,
    failed: Result<Value, HatchetError>,
    part: bool,
)
    requires
        call_ensures(Context::new, (workflow_run_id, task_run_external_id), context),
        call_ensures(Context::parent_output, (&context, Ok(run), parent_step_name), output),
        call_ensures(Context::parent_output, (&context, Err(error), parent_step_name), failed),
        call_ensures(Context::filter_payload, (&context, Ok(run)), payload),
        call_ensures(Context::is_part_of, (&context, &run), part),
        0 <= own < run.tasks@.len(),
        run.tasks@[own].task_external_id@ == task_run_external_id@,
        forall|i: int|
            0 <= i < own ==> (#[trigger] run.tasks@[i]).task_external_id@
                != task_run_external_id@,
    ensures
        run.tasks@[own].parents@.contains_key(parent_step_name@) ==> (output matches Ok(value)
            && crate::json::json_content(value) == crate::json::json_content(
            run.tasks@[own].parents@[parent_step_name@],
        )),
        !run.tasks@[own].parents@.contains_key(parent_step_name@) ==> (output matches Err(e) && e@
            == (ErrorView::ParentTaskNotFound { parent_step_name: parent_step_name@ })),
        payload matches Ok(value) && crate::json::json_content(value)
            == crate::json::json_content(run.tasks@[own].filter_payload),
        failed matches Err(e) && e == error,
        part,
{
    law_the_output_of_a_parent_is_that_of_the_own_task(
        run.tasks@,
        task_run_external_id@,
        parent_step_name@,
        own,
    );
}

/// Chunks that are streamed one after the other go to the run of the context, unchanged, and the
/// later one bears the number behind that of the earlier.
pub proof fn law_chunks_streamed_one_after_the_other(
    first: &mut Context,
    second: &mut Context,
    data: Vec<u8>,
    more: Vec<u8>,
    chunk: StreamChunk,
    next: StreamChunk,
)
    requires
        call_ensures(Context::put_stream, (first, data), chunk),
        *final(first) == *old(second),
        call_ensures(Context::put_stream, (second, more), next),
        chunk.index < i64::MAX,
    ensures
        chunk.index == old(first)@.stream_index,
        next.index == chunk.index + 1,
        chunk.data == data,
        next.data == more,
        chunk.task_run_external_id@ == old(first)@.task_run_external_id,
        next.task_run_external_id@ == chunk.task_run_external_id@,
{
}

/// What could not be queued is told in its own words: a line as an internal error, a chunk as an
/// error of the stream.
pub proof fn law_what_could_not_be_queued_is_told(
    queued: Result<(), String>,
    line: Result<(), HatchetError>,
    chunk: Result<(), HatchetError>,
)
    requires
        call_ensures(Context::log_queued, (queued,), line),
        call_ensures(Context::chunk_queued, (queued,), chunk),
    ensures
        line is Ok <==> queued is Ok,
        chunk is Ok <==> queued is Ok,
        queued is Err ==> line->Err_0@ == ErrorView::InternalError(queued->Err_0@),
        queued is Err ==> chunk->Err_0@ == ErrorView::StreamError(queued->Err_0@),
{
}

} // verus!
