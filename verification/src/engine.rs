//! The engine: a registry of named backends, to which tasks are submitted.

pub mod config;
pub mod non_empty;
pub mod ordered_map;
pub mod service;
pub mod task;

use vstd::prelude::*;
use vstd::string::StringExecFns;
use indexmap::IndexMap;
use crate::engine::ordered_map::{get_index, index_entries, insert_index, lacks, new_index_map};
use crate::engine::service::runner::{Handle, Runner, RunnerView};
use crate::text::{decimal, decimal_string};
use crate::engine::task::TaskView;
pub use task::Task;

verus! {

/// The entries of the index of an engine: for each runner its name and its
/// position, in the order of the runners.
pub open spec fn index_of_runners<B, R>(runners: Seq<Runner<B, R>>) -> Seq<(Seq<char>, usize)> {
    Seq::new(runners.len(), |i: int| (runners[i]@.name, i as usize))
}

/// No two runners have the same name.
pub open spec fn distinct_runners<B, R>(runners: Seq<Runner<B, R>>) -> bool {
    forall|i: int, j: int|
        0 <= i < j < runners.len() ==> (#[trigger] runners[i])@.name != (
        #[trigger] runners[j])@.name
}

/// What the runners of a sequence hold.
pub open spec fn runner_views<B, R>(runners: Seq<Runner<B, R>>) -> Seq<RunnerView<B, R>> {
    runners.map_values(|r: Runner<B, R>| r@)
}

/// Whether one of the runners is registered as `name`.
pub open spec fn named<B, R>(runners: Seq<RunnerView<B, R>>, name: Seq<char>) -> bool {
    exists|i: int| 0 <= i < runners.len() && (#[trigger] runners[i]).name == name
}

/// Whether `after` is what registering `backend` as `name` makes of
/// `before`: a runner of that name with that backend and no task, in the
/// place of the runner that had the name, or in the last place where none had
/// it.
pub open spec fn registers<B, R>(
    before: Seq<RunnerView<B, R>>,
    name: Seq<char>,
    backend: B,
    after: Seq<RunnerView<B, R>>,
) -> bool {
    let fresh = RunnerView::<B, R> { name, backend, tasks: Seq::empty() };
    if named(before, name) {
        exists|i: int|
            0 <= i < before.len() && (#[trigger] before[i]).name == name && after == before.update(
                i,
                fresh,
            )
    } else {
        after == before.push(fresh)
    }
}

/// Whether `after` is what submitting `task` with `reply` to the runner at
/// `handle.runner` makes of `before`, and `handle` says where the task
/// waits: behind the tasks of that runner, with nothing else changed.
pub open spec fn queues<B, R>(
    before: Seq<RunnerView<B, R>>,
    name: Seq<char>,
    task: TaskView,
    reply: R,
    handle: Handle,
    after: Seq<RunnerView<B, R>>,
) -> bool {
    &&& handle.runner < before.len()
    &&& before[handle.runner as int].name == name
    &&& handle.ticket == before[handle.runner as int].tasks.len()
    &&& after == before.update(
        handle.runner as int,
        RunnerView {
            tasks: before[handle.runner as int].tasks.push((task, reply)),
            ..before[handle.runner as int]
        },
    )
}

/// A backend that was registered is found, and a submission to it is taken:
/// after `backend` is registered as `name`, a runner has that name, and the
/// runners of all other names are as they were. So a submission to `name`
/// is owed success from then on, and a submission to another name fails
/// after the registration exactly if it failed before.
pub proof fn lemma_registered_is_found<B, R>(
    before: Seq<RunnerView<B, R>>,
    name: Seq<char>,
    backend: B,
    after: Seq<RunnerView<B, R>>,
)
    requires
        registers(before, name, backend, after),
    ensures
        named(after, name),
        forall|other: Seq<char>| other != name ==> named(after, other) == named(before, other),
{
    let fresh = RunnerView::<B, R> { name, backend, tasks: Seq::empty() };
    if named(before, name) {
        let i = choose|i: int|
            0 <= i < before.len() && (#[trigger] before[i]).name == name && after == before.update(
                i,
                fresh,
            );
        assert(after[i].name == name);
        assert forall|other: Seq<char>| other != name implies named(after, other) == named(
            before,
            other,
        ) by {
            if named(before, other) {
                let j = choose|j: int| 0 <= j < before.len() && (#[trigger] before[j]).name == other;
                assert(after[j].name == other);
            }
            if named(after, other) {
                let j = choose|j: int| 0 <= j < after.len() && (#[trigger] after[j]).name == other;
                assert(before[j].name == other);
            }
        }
    } else {
        assert(after[before.len() as int].name == name);
        assert forall|other: Seq<char>| other != name implies named(after, other) == named(
            before,
            other,
        ) by {
            if named(before, other) {
                let j = choose|j: int| 0 <= j < before.len() && (#[trigger] before[j]).name == other;
                assert(after[j].name == other);
            }
            if named(after, other) {
                let j = choose|j: int| 0 <= j < after.len() && (#[trigger] after[j]).name == other;
                assert(before[j].name == other);
            }
        }
    }
}

/// A submission changes no name: after a task is queued, the same names are
/// registered as before.
pub proof fn lemma_queued_keeps_names<B, R>(
    before: Seq<RunnerView<B, R>>,
    name: Seq<char>,
    task: TaskView,
    reply: R,
    handle: Handle,
    after: Seq<RunnerView<B, R>>,
)
    requires
        queues(before, name, task, reply, handle, after),
    ensures
        forall|other: Seq<char>| named(after, other) == named(before, other),
{
    assert forall|other: Seq<char>| named(after, other) == named(before, other) by {
        if named(before, other) {
            let j = choose|j: int| 0 <= j < before.len() && (#[trigger] before[j]).name == other;
            assert(after[j].name == other);
        }
        if named(after, other) {
            let j = choose|j: int| 0 <= j < after.len() && (#[trigger] after[j]).name == other;
            assert(before[j].name == other);
        }
    }
}

/// The failure of a submission to a name under which no backend is
/// registered. It holds the name.
#[derive(Debug)]
pub struct BackendNotFound(pub String);

impl BackendNotFound {
    /// The text of the failure.
    pub fn to_string(&self) -> (r: String)
        ensures
            r@ == "backend not found: "@ + self.0@,
    {
        String::from_str("backend not found: ").concat(self.0.as_str())
    }
}

/// An engine: the runners of the backends that are registered with it, in
/// the order in which their names were first registered. `B` is what stands
/// for a backend, and `R` what the reply of a task is sent on.
#[derive(Debug)]
pub struct Engine<B, R> {
    index: IndexMap<String, usize>,
    runners: Vec<Runner<B, R>>,
}

impl<B, R> View for Engine<B, R> {
    type V = Seq<RunnerView<B, R>>;

    /// What the runners hold, in the order in which their names were first
    /// registered.
    closed spec fn view(&self) -> Seq<RunnerView<B, R>> {
        runner_views(self.runners@)
    }
}

impl<B, R> Engine<B, R> {
    #[verifier::type_invariant]
    spec fn indexed(&self) -> bool {
        &&& index_entries(self.index) == index_of_runners(self.runners@)
        &&& distinct_runners(self.runners@)
    }

    /// Whether a backend is registered as `name`.
    pub open spec fn has_backend(&self, name: Seq<char>) -> bool {
        named(self@, name)
    }

    /// Creates an empty engine.
    pub fn empty() -> (r: Self)
        ensures
            r@ == Seq::<RunnerView<B, R>>::empty(),
    {
        let index = new_index_map();
        let runners: Vec<Runner<B, R>> = Vec::new();
        assert(index_entries(index) =~= index_of_runners(runners@));
        let r = Engine { index, runners };
        assert(r@ =~= Seq::empty());
        r
    }

    /// The position of the runner registered as `name`, if there is one.
    pub fn position(&self, name: &str) -> (r: Option<usize>)
        ensures
            match r {
                Some(i) => i < self@.len() && self@[i as int].name == name@,
                None => !self.has_backend(name@),
            },
    {
        proof {
            use_type_invariant(self);
        }
        let r = get_index(&self.index, name);
        let count = self.runners.len();
        proof {
            match r {
                Some(value) => {
                    let i = choose|i: int|
                        0 <= i < index_entries(self.index).len() && #[trigger] index_entries(
                            self.index,
                        )[i] == (name@, value);
                    let entry = index_of_runners(self.runners@)[i];
                    assert(entry == (self.runners@[i]@.name, i as usize));
                    assert(entry.0 == name@ && entry.1 == value);
                    assert(value == i);
                },
                None => {
                    assert forall|i: int| 0 <= i < self@.len() implies (#[trigger] self@[i]).name
                        != name@ by {
                        assert(index_entries(self.index)[i].0 != name@);
                    }
                },
            }
        }
        r
    }

    /// Tells whether a backend is registered as `name`.
    pub fn contains(&self, name: &str) -> (r: bool)
        ensures
            r == self.has_backend(name@),
    {
        self.position(name).is_some()
    }

    /// Adds a backend to the engine under the name `name`, with no task
    /// submitted to it. A backend that was registered under that name before
    /// is replaced, with the tasks that were submitted to it, and the name
    /// keeps its place; a new name comes last.
    pub fn with_backend(self, name: String, backend: B) -> (r: Self)
        ensures
            registers(self@, name@, backend, r@),
            r.has_backend(name@),
    {
        proof {
            use_type_invariant(&self);
        }
        let at = self.position(name.as_str());
        let ghost before = self.runners@;
        let ghost fresh_view = RunnerView::<B, R> { name: name@, backend, tasks: Seq::empty() };
        let mut index = self.index;
        let mut runners = self.runners;
        match at {
            Some(i) => {
                let fresh = Runner::new(name, backend);
                runners.set(i, fresh);
                proof {
                    assert(index_of_runners(runners@) =~= index_of_runners(before));
                    assert forall|a: int, b: int| 0 <= a < b < runners@.len() implies (
                    #[trigger] runners@[a])@.name != (#[trigger] runners@[b])@.name by {
                        assert(before[a]@.name != before[b]@.name);
                    }
                    assert(runner_views(runners@) =~= runner_views(before).update(
                        i as int,
                        fresh_view,
                    ));
                }
                let r = Engine { index, runners };
                proof {
                    assert(r@[i as int].name == name@);
                    assert(self@[i as int].name == name@);
                }
                r
            },
            None => {
                let slot = runners.len();
                let key = name.clone();
                let fresh = Runner::new(name, backend);
                insert_index(&mut index, key, slot);
                runners.push(fresh);
                proof {
                    let entries = index_of_runners(before);
                    assert(lacks(entries, name@)) by {
                        assert forall|i: int| 0 <= i < entries.len() implies (
                        #[trigger] entries[i]).0 != name@ by {
                            assert(runner_views(before)[i].name != name@);
                        }
                    }
                    assert(index_entries(index) == entries.push((name@, slot)));
                    assert(index_of_runners(runners@) =~= entries.push((name@, slot)));
                    assert forall|a: int, b: int| 0 <= a < b < runners@.len() implies (
                    #[trigger] runners@[a])@.name != (#[trigger] runners@[b])@.name by {
                        if b == before.len() {
                            assert(runner_views(before)[a].name != name@);
                        } else {
                            assert(before[a]@.name != before[b]@.name);
                        }
                    }
                    assert(runner_views(runners@) =~= runner_views(before).push(fresh_view));
                }
                let r = Engine { index, runners };
                proof {
                    assert(r@[slot as int].name == name@);
                }
                r
            },
        }
    }

    /// Gets a new engine with a backend.
    pub fn new_with_backend(name: String, backend: B) -> (r: Self)
        ensures
            r@ == seq![RunnerView::<B, R> { name: name@, backend, tasks: Seq::empty() }],
    {
        let empty: Engine<B, R> = Engine::empty();
        assert(!empty.has_backend(name@));
        let r = empty.with_backend(name, backend);
        assert(r@ =~= seq![RunnerView::<B, R> { name: name@, backend, tasks: Seq::empty() }]);
        r
    }

    /// Gets the names of the runners, in the order in which they were first
    /// registered.
    pub fn runners(&self) -> (r: Vec<String>)
        ensures
            r@.len() == self@.len(),
            forall|i: int| 0 <= i < r@.len() ==> (#[trigger] r@[i])@ == self@[i].name,
    {
        let mut names: Vec<String> = Vec::new();
        let mut i: usize = 0;
        while i < self.runners.len()
            invariant
                i <= self.runners.len(),
                names@.len() == i,
                forall|j: int| 0 <= j < i ==> (#[trigger] names@[j])@ == self.runners@[j]@.name,
            decreases self.runners.len() - i,
        {
            names.push(self.runners[i].name().to_owned());
            i += 1;
        }
        names
    }

    /// Submits a [`Task`] to be executed by the backend registered as
    /// `name`, which must be there, with what its reply is to be sent on. The
    /// task waits behind the tasks that were submitted to that backend
    /// before; nothing else changes. The handle says where the task waits.
    pub fn submit(&mut self, name: &str, task: Task, reply: R) -> (handle: Handle)
        requires
            old(self).has_backend(name@),
        ensures
            queues(old(self)@, name@, task@, reply, handle, final(self)@),
    {
        proof {
            use_type_invariant(&*self);
        }
        let at = self.position(name);
        let i = match at {
            Some(i) => i,
            None => unreached(),
        };
        let mut taken: Engine<B, R> = Engine::empty();
        core::mem::swap(self, &mut taken);
        let ghost before = taken.runners@;
        let index = taken.index;
        let mut runners = taken.runners;
        let mut runner = runners.remove(i);
        let ticket = runner.submit(task, reply);
        runners.insert(i, runner);
        proof {
            assert(runners@.len() == before.len());
            assert forall|j: int| 0 <= j < before.len() && j != i implies runners@[j]
                == before[j] by {}
            assert(index_of_runners(runners@) =~= index_of_runners(before));
            assert forall|a: int, b: int| 0 <= a < b < runners@.len() implies (
            #[trigger] runners@[a])@.name != (#[trigger] runners@[b])@.name by {
                assert(before[a]@.name != before[b]@.name);
            }
            assert(runner_views(runners@) =~= runner_views(before).update(
                i as int,
                runners@[i as int]@,
            ));
        }
        *self = Engine { index, runners };
        Handle { runner: i, ticket }
    }

    /// Submits a [`Task`] as `submit` does where a backend is registered as
    /// `name`. Where none is, the submission fails with the name, and
    /// nothing is queued: the engine stays as it was.
    pub fn try_submit(&mut self, name: &str, task: Task, reply: R) -> (r: Result<
        Handle,
        BackendNotFound,
    >)
        ensures
            match r {
                Ok(handle) => old(self).has_backend(name@) && queues(
                    old(self)@,
                    name@,
                    task@,
                    reply,
                    handle,
                    final(self)@,
                ),
                Err(e) => !old(self).has_backend(name@) && e.0@ == name@ && final(self)@ == old(
                    self,
                )@,
            },
    {
        if self.contains(name) {
            Ok(self.submit(name, task, reply))
        } else {
            Err(BackendNotFound(name.to_owned()))
        }
    }

    /// Hands out the runners, with the tasks that wait in each, in the order
    /// in which their names were first registered: all that is left to do is
    /// to run the tasks.
    pub fn run(self) -> (r: Vec<Runner<B, R>>)
        ensures
            runner_views(r@) == self@,
    {
        self.runners
    }
}

/// The count of the tasks of a run that have come to their end.
#[derive(Debug, Clone, Copy, PartialEq, Eq, Structural)]
pub struct Progress {
    /// The number of tasks of the run.
    pub len: u64,
    /// The number of tasks that have come to their end.
    pub pos: u64,
}

/// The message that is shown when all tasks have come to their end.
pub const ALL_COMPLETE: &'static str = "All jobs complete.";

impl Progress {
    /// The progress of a run of `len` tasks, none of which has come to its
    /// end.
    pub fn new(len: u64) -> (r: Self)
        ensures
            r == (Progress { len, pos: 0 }),
    {
        Progress { len, pos: 0 }
    }

    /// Whether every task has come to its end.
    pub fn is_finished(&self) -> (r: bool)
        ensures
            r == (self.pos >= self.len),
    {
        self.pos >= self.len
    }

    /// Counts one more task that has come to its end, and gives the message
    /// to show: the number of that task among those that have. A count that
    /// cannot grow stays.
    pub fn advance(&mut self) -> (message: String)
        ensures
            final(self).len == old(self).len,
            final(self).pos == if old(self).pos < u64::MAX {
                (old(self).pos + 1) as u64
            } else {
                old(self).pos
            },
            message@ == "task #"@ + decimal((old(self).pos + 1) as nat),
    {
        let number = decimal_string(self.pos as u128 + 1);
        if self.pos < u64::MAX {
            self.pos = self.pos + 1;
        }
        String::from_str("task #").concat(number.as_str())
    }
}

} // verus!
