//! Task runners.

pub mod backend;

use vstd::prelude::*;
use crate::engine::task::{Task, TaskView};

verus! {

/// A submitted task handle: it says where the task waits, and so which reply
/// is the task's.
#[derive(Debug, Clone, Copy, PartialEq, Eq, Structural)]
pub struct Handle {
    /// The position of the runner in the engine.
    pub runner: usize,
    /// The position of the task among the tasks submitted to the runner.
    pub ticket: usize,
}

/// What the submissions of a sequence hold: for each the task, and what was
/// submitted with it.
pub open spec fn submissions<R>(tasks: Seq<(Task, R)>) -> Seq<(TaskView, R)> {
    tasks.map_values(|t: (Task, R)| (t.0@, t.1))
}

/// A task runner: a backend under the name with which it is registered, and
/// the tasks that were submitted to it and wait to be run, each with what
/// its reply is to be sent on.
#[derive(Debug)]
pub struct Runner<B, R> {
    name: String,
    backend: B,
    tasks: Vec<(Task, R)>,
}

/// What a runner holds.
pub struct RunnerView<B, R> {
    /// The name of the backend.
    pub name: Seq<char>,
    /// The backend.
    pub backend: B,
    /// The tasks that wait to be run, in the order in which they were
    /// submitted, each with what was submitted with it.
    pub tasks: Seq<(TaskView, R)>,
}

impl<B, R> View for Runner<B, R> {
    type V = RunnerView<B, R>;

    closed spec fn view(&self) -> RunnerView<B, R> {
        RunnerView { name: self.name@, backend: self.backend, tasks: submissions(self.tasks@) }
    }
}

impl<B, R> Runner<B, R> {
    /// Creates a new [`Runner`], to which no task is submitted.
    pub fn new(name: String, backend: B) -> (r: Self)
        ensures
            r@ == (RunnerView::<B, R> { name: name@, backend, tasks: Seq::empty() }),
    {
        let r = Runner { name, backend, tasks: Vec::new() };
        assert(r@.tasks =~= Seq::empty());
        r
    }

    /// The name of the backend.
    pub fn name(&self) -> (r: &str)
        ensures
            r@ == self@.name,
    {
        self.name.as_str()
    }

    /// The backend.
    pub fn backend(&self) -> (r: &B)
        ensures
            *r == self@.backend,
    {
        &self.backend
    }

    /// The number of tasks that wait to be run.
    pub fn pending(&self) -> (n: usize)
        ensures
            n == self@.tasks.len(),
    {
        self.tasks.len()
    }

    /// Submits a task to be executed by the backend, with what its reply is
    /// to be sent on: the task waits behind those that were submitted
    /// before. What comes back is the position at which it waits.
    pub fn submit(&mut self, task: Task, reply: R) -> (ticket: usize)
        ensures
            final(self)@ == (RunnerView {
                tasks: old(self)@.tasks.push((task@, reply)),
                ..old(self)@
            }),
            ticket == old(self)@.tasks.len(),
    {
        let ticket = self.tasks.len();
        self.tasks.push((task, reply));
        assert(self@.tasks =~= old(self)@.tasks.push((task@, reply)));
        ticket
    }

    /// Gets the tasks from the runner, each with what was submitted with it.
    pub fn tasks(self) -> (r: Vec<(Task, R)>)
        ensures
            submissions(r@) == self@.tasks,
    {
        self.tasks
    }

    /// Gets the name, the backend and the tasks from the runner.
    pub fn into_parts(self) -> (r: (String, B, Vec<(Task, R)>))
        ensures
            r.0@ == self@.name,
            r.1 == self@.backend,
            submissions(r.2@) == self@.tasks,
    {
        (self.name, self.backend, self.tasks)
    }
}

} // verus!
