//! The TES backend: a backend that hands tasks to a task execution service
//! and polls the service until they have ended.

use vstd::prelude::*;
use crate::engine::non_empty::{
    extend_with, items, optional_text, refs, to_strings, vec_texts,
};
use crate::engine::service::runner::backend::{
    result_views, BackendError, BackendErrorView, ExecutionResult, ExecutionResultView, Outcome,
    Reply,
};
use crate::engine::task::execution::{Execution, ExecutionView};
use crate::engine::task::input::{Contents, ContentsView, Input, InputView, Type};
use crate::engine::task::output::{Output, OutputView};
use crate::engine::task::resources::{Resources, ResourcesView};
use crate::engine::task::{optional_text_ref, Task, TaskView};
use crate::tes::{
    authorization_value, FileType, TesExecutor, TesExecutorLog, TesInput, TesOutput,
    TesResources, TesTask, TesTaskLog,
};

verus! {

/// The number of milliseconds between two polls.
pub const POLL_INTERVAL_MS: u64 = 200;

/// The least number of milliseconds between two polls of a backend that
/// staggers its polls.
pub const STAGGERED_MIN_MS: u64 = 100;

/// The bound below which the number of milliseconds between two polls of a
/// backend that staggers its polls stays.
pub const STAGGERED_MAX_MS: u64 = 300;

/// The failure of a task that ended without a log of an executor.
pub const NO_LOGS: &'static str = "the service reported no executor logs";

/// A backend for a task execution service.
#[derive(Debug)]
pub struct TesBackend {
    /// The base address of the service.
    pub url: String,
    /// The token that is sent with every request, if any.
    pub token: Option<String>,
    /// Whether the time between two polls is drawn at random, so that the
    /// pollers of many tasks do not all poll at once.
    pub staggered: bool,
}

/// What a backend decided on a poll.
#[derive(Debug)]
pub enum Poll {
    /// The task is not at an end: sleep for the number of milliseconds, then
    /// poll again.
    Wait(u64),
    /// The task is at an end, in this way.
    Done(Outcome),
}

/// The executor of the service that stands for an execution: its image and
/// its command, and nothing else.
pub open spec fn is_executor_of(executor: TesExecutor, execution: ExecutionView) -> bool {
    &&& executor.image@ == execution.image
    &&& vec_texts(executor.command@) == execution.args
    &&& executor.workdir is None
    &&& executor.stdin is None
    &&& executor.stdout is None
    &&& executor.stderr is None
    &&& executor.env is None
}

/// The type of a file of the service that stands for a type of input.
pub open spec fn file_type_of(ty: Type) -> FileType {
    match ty {
        Type::File => FileType::File,
        Type::Directory => FileType::Directory,
    }
}

/// The input of the service that stands for an input: a literal is its
/// content, and a URL is its address.
pub open spec fn is_input_of(tes: TesInput, input: InputView) -> bool {
    &&& optional_text(tes.name) == input.name
    &&& optional_text(tes.description) == input.description
    &&& tes.path@ == input.path
    &&& tes.input_type == file_type_of(input.ty)
    &&& match input.contents {
        ContentsView::URL(url) => optional_text(tes.url) == Some(url) && tes.content is None,
        ContentsView::Literal(text) => tes.url is None && optional_text(tes.content) == Some(
            text,
        ),
    }
}

/// The output of the service that stands for an output.
pub open spec fn is_output_of(tes: TesOutput, output: OutputView) -> bool {
    &&& optional_text(tes.name) == output.name
    &&& optional_text(tes.description) == output.description
    &&& tes.url@ == output.url
    &&& tes.path@ == output.path
    &&& tes.output_type == file_type_of(output.ty)
}

/// The resources of the service that stand for resources. The number of
/// cores is taken as a signed number, where a number beyond the signed range
/// wraps round.
pub open spec fn are_resources_of(tes: TesResources, resources: ResourcesView) -> bool {
    &&& tes.cpu_cores == match resources.cpu_cores {
        Some(cores) => Some(cores as i64),
        None => None,
    }
    &&& tes.preemptible == resources.preemptible
    &&& tes.ram_gb == resources.ram_gb
    &&& tes.disk_gb == resources.disk_gb
    &&& match resources.zones {
        Some(zones) => tes.zones is Some && vec_texts(tes.zones->0@) == zones,
        None => tes.zones is None,
    }
}

/// The task of the service that stands for a task: its name and its
/// description; one executor for each execution, in order; and its inputs,
/// outputs, resources and volumes, where it has any.
pub open spec fn describes(tes: TesTask, task: TaskView) -> bool {
    &&& tes.id is None
    &&& tes.state is None
    &&& optional_text(tes.name) == task.name
    &&& optional_text(tes.description) == task.description
    &&& match task.inputs {
        Some(inputs) => {
            &&& tes.inputs is Some
            &&& tes.inputs->0@.len() == inputs.len()
            &&& forall|i: int|
                0 <= i < inputs.len() ==> is_input_of(#[trigger] tes.inputs->0@[i], inputs[i])
        },
        None => tes.inputs is None,
    }
    &&& match task.outputs {
        Some(outputs) => {
            &&& tes.outputs is Some
            &&& tes.outputs->0@.len() == outputs.len()
            &&& forall|i: int|
                0 <= i < outputs.len() ==> is_output_of(
                    #[trigger] tes.outputs->0@[i],
                    outputs[i],
                )
        },
        None => tes.outputs is None,
    }
    &&& match task.resources {
        Some(resources) => tes.resources is Some && are_resources_of(
            tes.resources->0,
            resources,
        ),
        None => tes.resources is None,
    }
    &&& tes.executors@.len() == task.executions.len()
    &&& forall|i: int|
        0 <= i < task.executions.len() ==> is_executor_of(
            #[trigger] tes.executors@[i],
            task.executions[i],
        )
    &&& match task.volumes {
        Some(volumes) => tes.volumes is Some && vec_texts(tes.volumes->0@) == volumes,
        None => tes.volumes is None,
    }
    &&& tes.tags is None
    &&& tes.logs is None
}

/// The result that the log of an executor stands for: its exit code, or 0
/// where it has none, and its output, or none where it has none.
pub open spec fn result_of_log(log: TesExecutorLog) -> ExecutionResultView {
    ExecutionResultView {
        status: match log.exit_code {
            Some(code) => code as i64,
            None => 0,
        },
        stdout: match log.stdout {
            Some(text) => text@,
            None => Seq::empty(),
        },
        stderr: match log.stderr {
            Some(text) => text@,
            None => Seq::empty(),
        },
    }
}

/// The results that the logs of a task stand for: one for each log of an
/// executor, attempt by attempt.
pub open spec fn results_of_logs(logs: Seq<TesTaskLog>) -> Seq<ExecutionResultView>
    decreases logs.len(),
{
    if logs.len() == 0 {
        Seq::empty()
    } else {
        results_of_logs(logs.drop_last()) + logs.last().logs@.map_values(
            |log: TesExecutorLog| result_of_log(log),
        )
    }
}

/// The logs of a polled task, none where the task has none.
pub open spec fn logs_of(task: TesTask) -> Seq<TesTaskLog> {
    match task.logs {
        Some(logs) => logs@,
        None => Seq::empty(),
    }
}

/// A copy of an optional string.
fn copy_of(text: Option<&String>) -> (r: Option<String>)
    ensures
        optional_text(r) == optional_text_ref(text),
{
    match text {
        Some(text) => Some(text.clone()),
        None => None,
    }
}

/// The executor for an execution.
fn executor_for(execution: &Execution) -> (r: TesExecutor)
    ensures
        is_executor_of(r, execution@),
{
    TesExecutor {
        image: execution.image().to_owned(),
        command: to_strings(execution.args()),
        workdir: None,
        stdin: None,
        stdout: None,
        stderr: None,
        env: None,
    }
}

/// The type of a file for a type of input.
fn file_type_for(ty: Type) -> (r: FileType)
    ensures
        r == file_type_of(ty),
{
    match ty {
        Type::File => FileType::File,
        Type::Directory => FileType::Directory,
    }
}

/// The input of the service for an input.
fn input_for(input: &Input) -> (r: TesInput)
    ensures
        is_input_of(r, input@),
{
    let (url, content) = match input.contents() {
        Contents::URL(url) => (Some(url.clone()), None),
        Contents::Literal(text) => (None, Some(text.clone())),
    };
    TesInput {
        name: copy_of(input.name()),
        description: copy_of(input.description()),
        url,
        path: input.path().to_owned(),
        input_type: file_type_for(input.ty()),
        content,
    }
}

/// The output of the service for an output.
fn output_for(output: &Output) -> (r: TesOutput)
    ensures
        is_output_of(r, output@),
{
    TesOutput {
        name: copy_of(output.name()),
        description: copy_of(output.description()),
        url: output.url().to_owned(),
        path: output.path().to_owned(),
        output_type: file_type_for(output.ty()),
    }
}

/// The resources of the service for resources.
fn resources_for(resources: &Resources) -> (r: TesResources)
    ensures
        are_resources_of(r, resources@),
{
    TesResources {
        cpu_cores: resources.cpu_count(),
        preemptible: resources.preemptible(),
        ram_gb: resources.ram_gb(),
        disk_gb: resources.disk_gb(),
        zones: match resources.zones() {
            Some(zones) => Some(to_strings(zones)),
            None => None,
        },
    }
}

/// Makes the result that the log of an executor stands for.
fn result_for(log: TesExecutorLog) -> (r: ExecutionResult)
    ensures
        r@ == result_of_log(log),
{
    ExecutionResult {
        status: match log.exit_code {
            Some(code) => code as i64,
            None => 0,
        },
        stdout: match log.stdout {
            Some(text) => text,
            None => String::new(),
        },
        stderr: match log.stderr {
            Some(text) => text,
            None => String::new(),
        },
    }
}

impl TesBackend {
    /// Creates a new backend for the service at `url`, which polls at a fixed
    /// interval.
    pub fn new(url: String, token: Option<String>) -> (r: Self)
        ensures
            r == (TesBackend { url, token, staggered: false }),
    {
        TesBackend { url, token, staggered: false }
    }

    /// Creates a new backend for the service at `url`, which staggers its
    /// polls.
    pub fn new_staggered(url: String, token: Option<String>) -> (r: Self)
        ensures
            r == (TesBackend { url, token, staggered: true }),
    {
        TesBackend { url, token, staggered: true }
    }

    /// The value of the `Authorization` header that goes with every request:
    /// none where the backend has no token.
    pub fn authorization(&self) -> (r: Option<String>)
        ensures
            match self.token {
                Some(token) => r is Some && r->0@ == "Basic "@ + token@,
                None => r is None,
            },
    {
        match &self.token {
            Some(token) => Some(authorization_value(token.as_str())),
            None => None,
        }
    }

    /// Describes a task to the service: makes the task that is sent to it.
    pub fn describe(task: &Task) -> (r: TesTask)
        ensures
            describes(r, task@),
    {
        let executions = refs(task.executions());
        let mut executors: Vec<TesExecutor> = Vec::new();
        let mut i: usize = 0;
        while i < executions.len()
            invariant
                i <= executions.len(),
                executors@.len() == i,
                forall|j: int|
                    0 <= j < i ==> is_executor_of(#[trigger] executors@[j], executions@[j]@),
            decreases executions.len() - i,
        {
            executors.push(executor_for(executions[i]));
            i += 1;
        }
        let inputs = match task.inputs() {
            Some(list) => {
                let all = refs(list);
                let mut out: Vec<TesInput> = Vec::new();
                let mut i: usize = 0;
                while i < all.len()
                    invariant
                        i <= all.len(),
                        out@.len() == i,
                        forall|j: int| 0 <= j < i ==> is_input_of(#[trigger] out@[j], all@[j]@),
                    decreases all.len() - i,
                {
                    out.push(input_for(all[i]));
                    i += 1;
                }
                Some(out)
            },
            None => None,
        };
        let outputs = match task.outputs() {
            Some(list) => {
                let all = refs(list);
                let mut out: Vec<TesOutput> = Vec::new();
                let mut i: usize = 0;
                while i < all.len()
                    invariant
                        i <= all.len(),
                        out@.len() == i,
                        forall|j: int| 0 <= j < i ==> is_output_of(#[trigger] out@[j], all@[j]@),
                    decreases all.len() - i,
                {
                    out.push(output_for(all[i]));
                    i += 1;
                }
                Some(out)
            },
            None => None,
        };
        let resources = match task.resources() {
            Some(resources) => Some(resources_for(resources)),
            None => None,
        };
        let volumes = match task.volumes() {
            Some(volumes) => Some(to_strings(volumes)),
            None => None,
        };
        TesTask {
            id: None,
            state: None,
            name: copy_of(task.name()),
            description: copy_of(task.description()),
            inputs,
            outputs,
            resources,
            executors,
            volumes,
            tags: None,
            logs: None,
        }
    }

    /// The number of milliseconds to sleep before the next poll: the fixed
    /// interval, or for a backend that staggers its polls a number in its
    /// range that `sample`, a number drawn at random, picks.
    pub fn poll_delay(&self, sample: u64) -> (ms: u64)
        ensures
            !self.staggered ==> ms == POLL_INTERVAL_MS,
            self.staggered ==> ms == STAGGERED_MIN_MS + (sample as int) % (STAGGERED_MAX_MS
                - STAGGERED_MIN_MS),
            self.staggered ==> STAGGERED_MIN_MS <= ms < STAGGERED_MAX_MS,
    {
        if self.staggered {
            STAGGERED_MIN_MS + sample % (STAGGERED_MAX_MS - STAGGERED_MIN_MS)
        } else {
            POLL_INTERVAL_MS
        }
    }

    /// Collects the results from the logs of a task that has ended.
    pub fn results(logs: Vec<TesTaskLog>) -> (r: Vec<ExecutionResult>)
        ensures
            result_views(r@) == results_of_logs(logs@),
    {
        let ghost all = logs@;
        let mut out: Vec<ExecutionResult> = Vec::new();
        assert(all.take(0) =~= Seq::<TesTaskLog>::empty());
        assert(result_views(out@) =~= results_of_logs(all.take(0)));
        for attempt in outer: logs
            invariant
                outer.seq() == all,
                result_views(out@) == results_of_logs(all.take(outer.index() as int)),
        {
            let ghost before = result_views(out@);
            let ghost entries = attempt.logs@;
            let ghost at = outer.index() as int;
            for log in inner: attempt.logs
                invariant
                    inner.seq() == entries,
                    result_views(out@) == before + entries.take(inner.index() as int).map_values(
                        |log: TesExecutorLog| result_of_log(log),
                    ),
            {
                let ghost done = inner.index() as int;
                let ghost so_far = result_views(out@);
                out.push(result_for(log));
                proof {
                    assert(entries.take(done + 1) =~= entries.take(done).push(log));
                    assert(result_views(out@) =~= so_far.push(result_of_log(log)));
                    assert(before + entries.take(done + 1).map_values(
                        |log: TesExecutorLog| result_of_log(log),
                    ) =~= so_far.push(result_of_log(log)));
                }
            }
            proof {
                assert(entries.take(entries.len() as int) =~= entries);
                assert(all.take(at + 1).drop_last() =~= all.take(at));
                assert(all.take(at + 1).last() == attempt);
            }
        }
        assert(all.take(all.len() as int) =~= all);
        out
    }

    /// What a poll leads to. A poll that failed, a task without a state and a
    /// task in a state in which it is executing lead to another poll, after
    /// `delay` milliseconds. A task in any other state has ended: the
    /// results are collected from its logs and make the reply; without a log
    /// of an executor there is no reply, and the task has failed.
    pub fn after_poll(backend_name: String, polled: Option<TesTask>, delay: u64) -> (r: Poll)
        ensures
            match r {
                Poll::Wait(ms) => ms == delay && !has_ended(polled),
                Poll::Done(Outcome::Reply(reply)) => has_ended(polled) && reply@.backend_name
                    == backend_name@ && reply@.executions == results_of_logs(logs_of(polled->0))
                    && reply@.executions.len() > 0,
                Poll::Done(Outcome::Failed(e)) => has_ended(polled) && results_of_logs(
                    logs_of(polled->0),
                ).len() == 0 && e@ == BackendErrorView::Exec(NO_LOGS@),
            },
    {
        let task = match polled {
            Some(task) => task,
            None => {
                return Poll::Wait(delay);
            },
        };
        let executing = match &task.state {
            Some(state) => state.is_executing(),
            None => true,
        };
        if executing {
            return Poll::Wait(delay);
        }
        let results = match task.logs {
            Some(logs) => TesBackend::results(logs),
            None => Vec::new(),
        };
        let ghost views = result_views(results@);
        assert(views == results_of_logs(logs_of(polled->0)));
        match extend_with(None, results) {
            Some(executions) => {
                assert(result_views(items(executions)) =~= views);
                Poll::Done(Outcome::Reply(Reply { backend_name, executions }))
            },
            None => Poll::Done(
                Outcome::Failed(BackendError::Exec(NO_LOGS.to_owned())),
            ),
        }
    }
}

/// One result for each log of an executor: the results that the logs of a
/// task stand for are as many as the logs of executors in all attempts, so
/// a task whose one attempt logs each of its executors once has one result
/// for each, in the order of the executors.
pub proof fn lemma_one_result_for_each_log(attempt: TesTaskLog)
    ensures
        results_of_logs(seq![attempt]).len() == attempt.logs@.len(),
        forall|i: int|
            0 <= i < attempt.logs@.len() ==> results_of_logs(seq![attempt])[i] == result_of_log(
                attempt.logs@[i],
            ),
{
    let logs = seq![attempt];
    assert(logs.drop_last() =~= Seq::<TesTaskLog>::empty());
    assert(results_of_logs(logs.drop_last()) =~= Seq::<ExecutionResultView>::empty());
    assert(logs.last() == attempt);
    assert(results_of_logs(logs) =~= attempt.logs@.map_values(
        |log: TesExecutorLog| result_of_log(log),
    ));
}

/// Whether a poll found the task at an end: in a state in which it is not
/// executing.
pub open spec fn has_ended(polled: Option<TesTask>) -> bool {
    polled is Some && polled->0.state is Some && !polled->0.state->0.executing()
}

} // verus!
