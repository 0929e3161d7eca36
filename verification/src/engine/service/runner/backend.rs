//! Execution backends, and what a backend hands back when a task is done.

pub mod config;
pub mod docker;
pub mod generic;
pub mod substitution;
pub mod tes;

use vstd::prelude::*;
use nonempty::NonEmpty;
use crate::engine::non_empty::{items, optional_items, push_onto};
use crate::engine::task::execution::Execution;
use crate::engine::task::{Task, TaskView};
pub use config::Config;

verus! {

/// The result of a single execution.
#[derive(Debug)]
pub struct ExecutionResult {
    /// The exit code; `-1` where none was observed.
    pub status: i64,
    /// The contents of standard out.
    pub stdout: String,
    /// The contents of standard error.
    pub stderr: String,
}

/// What the result of an execution holds.
pub struct ExecutionResultView {
    /// The exit code.
    pub status: i64,
    /// The contents of standard out.
    pub stdout: Seq<char>,
    /// The contents of standard error.
    pub stderr: Seq<char>,
}

impl View for ExecutionResult {
    type V = ExecutionResultView;

    open spec fn view(&self) -> ExecutionResultView {
        ExecutionResultView { status: self.status, stdout: self.stdout@, stderr: self.stderr@ }
    }
}

/// What the results of a sequence hold.
pub open spec fn result_views(results: Seq<ExecutionResult>) -> Seq<ExecutionResultView> {
    results.map_values(|r: ExecutionResult| r@)
}

/// A reply from a backend when a task is completed.
#[derive(Debug)]
pub struct Reply {
    /// The name under which the backend that ran the task is registered.
    pub backend_name: String,
    /// The results of the executions, in the order in which they ran.
    pub executions: NonEmpty<ExecutionResult>,
}

/// What a reply holds.
pub struct ReplyView {
    /// The name of the backend.
    pub backend_name: Seq<char>,
    /// The results, in order; at least one.
    pub executions: Seq<ExecutionResultView>,
}

impl View for Reply {
    type V = ReplyView;

    open spec fn view(&self) -> ReplyView {
        ReplyView {
            backend_name: self.backend_name@,
            executions: result_views(items(self.executions)),
        }
    }
}

/// Why a command template could not be used.
#[derive(Debug, Clone, Copy, PartialEq, Eq, Structural)]
pub enum TemplateError {
    /// The regex for the job id did not match the output of the submit
    /// command, or its first group took no part in the match.
    NoJobId,
    /// The regex for the job id is not a valid regex.
    InvalidRegex,
    /// The template refers to a placeholder that is not bound.
    UnboundPlaceholder,
}

/// Why a backend could not carry out a task.
#[derive(Debug)]
pub enum BackendError {
    /// What the backend runs on failed: the daemon, the service or a
    /// subprocess. The text says how.
    Exec(String),
    /// A command template could not be used.
    Template(TemplateError),
}

/// What a backend error holds.
pub enum BackendErrorView {
    /// A failure of what the backend runs on.
    Exec(Seq<char>),
    /// A failure of a command template.
    Template(TemplateError),
}

impl View for BackendError {
    type V = BackendErrorView;

    open spec fn view(&self) -> BackendErrorView {
        match self {
            BackendError::Exec(message) => BackendErrorView::Exec(message@),
            BackendError::Template(e) => BackendErrorView::Template(*e),
        }
    }
}

/// How a task ended.
#[derive(Debug)]
pub enum Outcome {
    /// With a reply for the submitter.
    Reply(Reply),
    /// Without one: the backend failed before any execution was done.
    Failed(BackendError),
}

/// A task in the hands of a backend: the task, and the results of the
/// executions that are done. Executions are done one after the other in the
/// order of the task, so the results are those of the first executions.
#[derive(Debug)]
pub struct Dispatch {
    backend_name: String,
    task: Task,
    results: Option<NonEmpty<ExecutionResult>>,
}

impl Dispatch {
    #[verifier::type_invariant]
    spec fn results_within_task(&self) -> bool {
        optional_items(self.results).len() <= self.task@.executions.len()
    }

    /// The name under which the backend is registered.
    pub closed spec fn backend_name(&self) -> Seq<char> {
        self.backend_name@
    }

    /// The task.
    pub closed spec fn task(&self) -> TaskView {
        self.task@
    }

    /// The results of the executions that are done, in order.
    pub closed spec fn results(&self) -> Seq<ExecutionResultView> {
        result_views(optional_items(self.results))
    }

    /// Whether every execution of the task is done.
    pub open spec fn complete(&self) -> bool {
        self.results().len() == self.task().executions.len()
    }

    /// Takes a task for the backend registered as `backend_name`. No
    /// execution is done yet.
    pub fn new(backend_name: String, task: Task) -> (r: Self)
        ensures
            r.backend_name() == backend_name@,
            r.task() == task@,
            r.results() == Seq::<ExecutionResultView>::empty(),
    {
        let r = Dispatch { backend_name, task, results: None };
        assert(r.results() =~= Seq::empty());
        r
    }

    /// Whether every execution of the task is done.
    pub fn is_complete(&self) -> (r: bool)
        ensures
            r == self.complete(),
    {
        proof {
            use_type_invariant(self);
            self.task.lemma_executions();
        }
        match &self.results {
            Some(results) => results.tail.len() >= self.task.executions().tail.len(),
            None => false,
        }
    }

    /// The task.
    pub fn get_task(&self) -> (r: &Task)
        ensures
            r@ == self.task(),
    {
        &self.task
    }

    /// The execution whose turn it is: the first one that is not done. There
    /// is none when all are done.
    pub fn current(&self) -> (r: Option<&Execution>)
        ensures
            match r {
                Some(execution) => !self.complete() && execution@
                    == self.task().executions[self.results().len() as int],
                None => self.complete(),
            },
    {
        proof {
            use_type_invariant(self);
            self.task.lemma_executions();
        }
        let executions = self.task.executions();
        match &self.results {
            Some(results) => {
                let at = results.tail.len();
                if at < executions.tail.len() {
                    Some(&executions.tail[at])
                } else {
                    None
                }
            },
            None => Some(&executions.head),
        }
    }

    /// Takes the result of the execution whose turn it was.
    pub fn record(self, result: ExecutionResult) -> (r: Self)
        requires
            !self.complete(),
        ensures
            r.backend_name() == self.backend_name(),
            r.task() == self.task(),
            r.results() == self.results().push(result@),
    {
        proof {
            use_type_invariant(&self);
        }
        let ghost before = optional_items(self.results);
        let results = push_onto(self.results, result);
        proof {
            assert(items(results) =~= before.push(result));
            assert(result_views(items(results)) =~= result_views(before).push(result@));
        }
        Dispatch { backend_name: self.backend_name, task: self.task, results: Some(results) }
    }

    /// The reply of a task whose executions are all done: one result for each
    /// execution, in the order of the task.
    pub fn finish(self) -> (r: Reply)
        requires
            self.complete(),
        ensures
            r@.backend_name == self.backend_name(),
            r@.executions == self.results(),
            r@.executions.len() == self.task().executions.len(),
    {
        proof {
            self.task.lemma_executions();
        }
        match self.results {
            Some(results) => Reply { backend_name: self.backend_name, executions: results },
            None => unreached(),
        }
    }

    /// Ends a task on a failure of the backend. Where at least one execution
    /// is done, the submitter gets the results of those that are; where none
    /// is, the failure is all there is.
    pub fn abort(self, error: BackendError) -> (r: Outcome)
        ensures
            match r {
                Outcome::Reply(reply) => self.results().len() > 0 && reply@.backend_name
                    == self.backend_name() && reply@.executions == self.results(),
                Outcome::Failed(e) => self.results().len() == 0 && e@ == error@,
            },
    {
        match self.results {
            Some(results) => Outcome::Reply(
                Reply { backend_name: self.backend_name, executions: results },
            ),
            None => Outcome::Failed(error),
        }
    }
}

/// What a finished command left behind.
#[derive(Debug)]
pub struct CommandOutput {
    /// The exit code; none where a signal ended the command.
    pub code: Option<i32>,
    /// What the command wrote to its standard output.
    pub stdout: Vec<u8>,
    /// What the command wrote to its standard error.
    pub stderr: Vec<u8>,
}

/// `String::from_utf8` of the standard library: the text that the bytes
/// encode in UTF-8, and none where they encode none.
#[verifier::external_body]
pub(crate) fn decode(bytes: Vec<u8>) -> (r: Option<String>)
    ensures
        r is Some <==> vstd::utf8::valid_utf8(bytes@),
        r is Some ==> r->0@ == vstd::utf8::decode_utf8(bytes@),
{
    String::from_utf8(bytes).ok()
}

} // verus!
