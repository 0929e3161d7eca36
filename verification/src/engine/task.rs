//! Tasks: the units of work that are submitted to a backend.

pub mod builder;
pub mod execution;
pub mod input;
pub mod output;
pub mod resources;

use vstd::prelude::*;
use nonempty::NonEmpty;
use crate::engine::non_empty::{clone_items, clone_texts, items, optional_text, optional_texts};
pub use builder::Builder;
pub use execution::Execution;
pub use input::Input;
pub use output::Output;
pub use resources::Resources;

verus! {

/// A task: one or more executions that share inputs, outputs, volumes and a
/// request for resources.
#[derive(Debug)]
pub struct Task {
    pub(crate) name: Option<String>,
    pub(crate) description: Option<String>,
    pub(crate) inputs: Option<NonEmpty<Input>>,
    pub(crate) outputs: Option<NonEmpty<Output>>,
    pub(crate) resources: Option<Resources>,
    pub(crate) executions: NonEmpty<Execution>,
    pub(crate) volumes: Option<NonEmpty<String>>,
}

/// What a task holds.
pub struct TaskView {
    /// The name, if any.
    pub name: Option<Seq<char>>,
    /// The description, if any.
    pub description: Option<Seq<char>>,
    /// The inputs, in order; where there are any, at least one.
    pub inputs: Option<Seq<input::InputView>>,
    /// The outputs, in order; where there are any, at least one.
    pub outputs: Option<Seq<output::OutputView>>,
    /// The resources asked for, if any.
    pub resources: Option<resources::ResourcesView>,
    /// The executions, in order; at least one.
    pub executions: Seq<execution::ExecutionView>,
    /// The volumes that the executions share; where there are any, at least
    /// one.
    pub volumes: Option<Seq<Seq<char>>>,
}

/// What the inputs of an optional list hold.
pub open spec fn input_views(list: Option<NonEmpty<Input>>) -> Option<Seq<input::InputView>> {
    match list {
        Some(ne) => Some(items(ne).map_values(|i: Input| i@)),
        None => None,
    }
}

/// What the outputs of an optional list hold.
pub open spec fn output_views(list: Option<NonEmpty<Output>>) -> Option<Seq<output::OutputView>> {
    match list {
        Some(ne) => Some(items(ne).map_values(|o: Output| o@)),
        None => None,
    }
}

/// What the executions of a list hold.
pub open spec fn execution_views(list: NonEmpty<Execution>) -> Seq<execution::ExecutionView> {
    items(list).map_values(|e: Execution| e@)
}

/// What optional resources hold.
pub open spec fn resources_view(r: Option<Resources>) -> Option<resources::ResourcesView> {
    match r {
        Some(r) => Some(r@),
        None => None,
    }
}

impl View for Task {
    type V = TaskView;

    closed spec fn view(&self) -> TaskView {
        TaskView {
            name: optional_text(self.name),
            description: optional_text(self.description),
            inputs: input_views(self.inputs),
            outputs: output_views(self.outputs),
            resources: resources_view(self.resources),
            executions: execution_views(self.executions),
            volumes: optional_texts(self.volumes),
        }
    }
}

impl Task {
    /// A task has at least one execution; where it has inputs, outputs or
    /// volumes, it has at least one of each.
    pub proof fn lemma_nonempty(&self)
        ensures
            self@.executions.len() >= 1,
            self@.inputs is Some ==> self@.inputs->0.len() >= 1,
            self@.outputs is Some ==> self@.outputs->0.len() >= 1,
            self@.volumes is Some ==> self@.volumes->0.len() >= 1,
    {
    }

    /// The executions of a task are as many as its list of executions holds.
    pub(crate) proof fn lemma_executions(&self)
        ensures
            self@.executions.len() == items(self.executions).len(),
            self@.executions.len() >= 1,
            self@.executions == execution_views(self.executions),
    {
    }

    /// Gets a new builder for a [`Task`].
    pub fn builder() -> (r: Builder)
        ensures
            r@ == builder::BuilderView::empty(),
    {
        Builder::new()
    }

    /// The name of the task, if it has one.
    pub fn name(&self) -> (r: Option<&String>)
        ensures
            optional_text_ref(r) == self@.name,
    {
        self.name.as_ref()
    }

    /// The description of the task, if it has one.
    pub fn description(&self) -> (r: Option<&String>)
        ensures
            optional_text_ref(r) == self@.description,
    {
        self.description.as_ref()
    }

    /// The inputs of the task, if it has any.
    pub fn inputs(&self) -> (r: Option<&NonEmpty<Input>>)
        ensures
            match r {
                Some(list) => self@.inputs == Some(items(*list).map_values(|i: Input| i@)),
                None => self@.inputs is None,
            },
    {
        self.inputs.as_ref()
    }

    /// The outputs of the task, if it has any.
    pub fn outputs(&self) -> (r: Option<&NonEmpty<Output>>)
        ensures
            match r {
                Some(list) => self@.outputs == Some(items(*list).map_values(|o: Output| o@)),
                None => self@.outputs is None,
            },
    {
        self.outputs.as_ref()
    }

    /// The resources that the task asks for, if it asks for any.
    pub fn resources(&self) -> (r: Option<&Resources>)
        ensures
            match r {
                Some(resources) => self@.resources == Some(resources@),
                None => self@.resources is None,
            },
    {
        self.resources.as_ref()
    }

    /// The executions of the task, in the order in which they run.
    pub fn executions(&self) -> (r: &NonEmpty<Execution>)
        ensures
            execution_views(*r) == self@.executions,
    {
        &self.executions
    }

    /// The volumes that the executions of the task share, if there are any.
    pub fn volumes(&self) -> (r: Option<&NonEmpty<String>>)
        ensures
            match r {
                Some(list) => self@.volumes == Some(crate::engine::non_empty::texts(*list)),
                None => self@.volumes is None,
            },
    {
        self.volumes.as_ref()
    }
}

impl Task {
    /// A copy of the task, so that the same task may be submitted many times.
    pub fn duplicate(&self) -> (r: Self)
        ensures
            r@ == self@,
    {
        let inputs = match &self.inputs {
            Some(list) => {
                let copy = clone_items(list);
                assert(items(copy).map_values(|i: Input| i@) =~= items(*list).map_values(
                    |i: Input| i@,
                ));
                Some(copy)
            },
            None => None,
        };
        let outputs = match &self.outputs {
            Some(list) => {
                let copy = clone_items(list);
                assert(items(copy).map_values(|o: Output| o@) =~= items(*list).map_values(
                    |o: Output| o@,
                ));
                Some(copy)
            },
            None => None,
        };
        let executions = clone_items(&self.executions);
        assert(execution_views(executions) =~= execution_views(self.executions));
        Task {
            name: self.name.clone(),
            description: self.description.clone(),
            inputs,
            outputs,
            resources: match &self.resources {
                Some(resources) => Some(resources.clone()),
                None => None,
            },
            executions,
            volumes: match &self.volumes {
                Some(volumes) => Some(clone_texts(volumes)),
                None => None,
            },
        }
    }
}

impl Clone for Task {
    fn clone(&self) -> (r: Self)
        ensures
            r@ == self@,
    {
        self.duplicate()
    }
}

/// The text of an optional reference to a string.
pub open spec fn optional_text_ref(s: Option<&String>) -> Option<Seq<char>> {
    match s {
        Some(s) => Some(s@),
        None => None,
    }
}

} // verus!
