//! A builder for a [`Task`].

use vstd::prelude::*;
use vstd::string::StringExecFns;
use nonempty::NonEmpty;
use crate::engine::non_empty::{extend_with, items, optional_items, optional_text, texts};
use crate::engine::task::execution::{Execution, ExecutionView};
use crate::engine::task::input::{Input, InputView};
use crate::engine::task::output::{Output, OutputView};
use crate::engine::task::resources::{Resources, ResourcesView};
use crate::engine::task::{resources_view, Task, TaskView};

verus! {

/// An error related to a builder.
#[derive(Debug)]
pub enum Error {
    /// A required value was missing for a builder field.
    Missing(&'static str),
    /// Multiple values were provided for a singular builder field.
    Multiple(&'static str),
}

impl Error {
    /// The text of the error.
    pub fn to_string(&self) -> (r: String)
        ensures
            r@ == match self {
                Error::Missing(field) => "missing required value for '"@ + field@
                    + "' in task builder"@,
                Error::Multiple(field) => "multiple value provided for '"@ + field@
                    + "' in task builder"@,
            },
    {
        match self {
            Error::Missing(field) => String::from_str("missing required value for '").concat(
                field,
            ).concat("' in task builder"),
            Error::Multiple(field) => String::from_str("multiple value provided for '").concat(
                field,
            ).concat("' in task builder"),
        }
    }
}

/// A builder for a [`Task`].
#[derive(Debug)]
pub struct Builder {
    name: Option<String>,
    description: Option<String>,
    inputs: Option<NonEmpty<Input>>,
    outputs: Option<NonEmpty<Output>>,
    resources: Option<Resources>,
    executors: Option<NonEmpty<Execution>>,
    volumes: Option<NonEmpty<String>>,
}

/// What a builder holds: the scalar fields that were set, and the items that
/// were added to each list, in order.
pub struct BuilderView {
    /// The name, if set.
    pub name: Option<Seq<char>>,
    /// The description, if set.
    pub description: Option<Seq<char>>,
    /// The inputs added so far.
    pub inputs: Seq<InputView>,
    /// The outputs added so far.
    pub outputs: Seq<OutputView>,
    /// The resources, if set.
    pub resources: Option<ResourcesView>,
    /// The executions added so far.
    pub executions: Seq<ExecutionView>,
    /// The volumes added so far.
    pub volumes: Seq<Seq<char>>,
}

impl BuilderView {
    /// The builder that holds nothing.
    pub open spec fn empty() -> BuilderView {
        BuilderView {
            name: None,
            description: None,
            inputs: Seq::empty(),
            outputs: Seq::empty(),
            resources: None,
            executions: Seq::empty(),
            volumes: Seq::empty(),
        }
    }

    /// The task that is built from what the builder holds; it holds at least
    /// one execution.
    pub open spec fn task(self) -> TaskView {
        TaskView {
            name: self.name,
            description: self.description,
            inputs: if self.inputs.len() > 0 {
                Some(self.inputs)
            } else {
                None
            },
            outputs: if self.outputs.len() > 0 {
                Some(self.outputs)
            } else {
                None
            },
            resources: self.resources,
            executions: self.executions,
            volumes: if self.volumes.len() > 0 {
                Some(self.volumes)
            } else {
                None
            },
        }
    }
}

impl View for Builder {
    type V = BuilderView;

    closed spec fn view(&self) -> BuilderView {
        BuilderView {
            name: optional_text(self.name),
            description: optional_text(self.description),
            inputs: optional_items(self.inputs).map_values(|i: Input| i@),
            outputs: optional_items(self.outputs).map_values(|o: Output| o@),
            resources: resources_view(self.resources),
            executions: optional_items(self.executors).map_values(|e: Execution| e@),
            volumes: optional_items(self.volumes).map_values(|s: String| s@),
        }
    }
}

impl Builder {
    /// A builder that holds nothing.
    pub fn new() -> (r: Self)
        ensures
            r@ == BuilderView::empty(),
    {
        let r = Builder {
            name: None,
            description: None,
            inputs: None,
            outputs: None,
            resources: None,
            executors: None,
            volumes: None,
        };
        assert(r@.inputs =~= Seq::empty());
        assert(r@.outputs =~= Seq::empty());
        assert(r@.executions =~= Seq::empty());
        assert(r@.volumes =~= Seq::empty());
        r
    }

    /// Attempts to add a name to the [`Builder`]: a second name is refused.
    pub fn name(self, name: String) -> (r: Result<Self, Error>)
        ensures
            match r {
                Ok(next) => self@.name is None && next@ == (BuilderView {
                    name: Some(name@),
                    ..self@
                }),
                Err(Error::Multiple(field)) => self@.name is Some && field@ == "name"@,
                Err(Error::Missing(_)) => false,
            },
    {
        if self.name.is_some() {
            return Err(Error::Multiple("name"));
        }
        Ok(Builder { name: Some(name), ..self })
    }

    /// Attempts to add a description to the [`Builder`]: a second description
    /// is refused.
    pub fn description(self, description: String) -> (r: Result<Self, Error>)
        ensures
            match r {
                Ok(next) => self@.description is None && next@ == (BuilderView {
                    description: Some(description@),
                    ..self@
                }),
                Err(Error::Multiple(field)) => self@.description is Some && field@
                    == "description"@,
                Err(Error::Missing(_)) => false,
            },
    {
        if self.description.is_some() {
            return Err(Error::Multiple("description"));
        }
        Ok(Builder { description: Some(description), ..self })
    }

    /// Extends the inputs within the [`Builder`]. This always succeeds.
    pub fn extend_inputs(self, inputs: Vec<Input>) -> (r: Result<Self, Error>)
        ensures
            r is Ok,
            r->Ok_0@ == (BuilderView {
                inputs: self@.inputs + inputs@.map_values(|i: Input| i@),
                ..self@
            }),
    {
        let ghost added = inputs@;
        let ghost before = self;
        let mut next = self;
        let mut held = None;
        core::mem::swap(&mut next.inputs, &mut held);
        next.inputs = extend_with(held, inputs);
        assert(next@.inputs =~= before@.inputs + added.map_values(|i: Input| i@));
        Ok(next)
    }

    /// Extends the outputs within the [`Builder`]. This always succeeds.
    pub fn extend_outputs(self, outputs: Vec<Output>) -> (r: Result<Self, Error>)
        ensures
            r is Ok,
            r->Ok_0@ == (BuilderView {
                outputs: self@.outputs + outputs@.map_values(|o: Output| o@),
                ..self@
            }),
    {
        let ghost added = outputs@;
        let ghost before = self;
        let mut next = self;
        let mut held = None;
        core::mem::swap(&mut next.outputs, &mut held);
        next.outputs = extend_with(held, outputs);
        assert(next@.outputs =~= before@.outputs + added.map_values(|o: Output| o@));
        Ok(next)
    }

    /// Attempts to add resources to the [`Builder`]: a second set of resources
    /// is refused.
    pub fn resources(self, resources: Resources) -> (r: Result<Self, Error>)
        ensures
            match r {
                Ok(next) => self@.resources is None && next@ == (BuilderView {
                    resources: Some(resources@),
                    ..self@
                }),
                Err(Error::Multiple(field)) => self@.resources is Some && field@
                    == "resources"@,
                Err(Error::Missing(_)) => false,
            },
    {
        if self.resources.is_some() {
            return Err(Error::Multiple("resources"));
        }
        Ok(Builder { resources: Some(resources), ..self })
    }

    /// Extends the executions within the [`Builder`]. This always succeeds.
    pub fn extend_executors(self, executors: Vec<Execution>) -> (r: Result<Self, Error>)
        ensures
            r is Ok,
            r->Ok_0@ == (BuilderView {
                executions: self@.executions + executors@.map_values(|e: Execution| e@),
                ..self@
            }),
    {
        let ghost added = executors@;
        let ghost before = self;
        let mut next = self;
        let mut held = None;
        core::mem::swap(&mut next.executors, &mut held);
        next.executors = extend_with(held, executors);
        assert(next@.executions =~= before@.executions + added.map_values(|e: Execution| e@));
        Ok(next)
    }

    /// Extends the volumes within the [`Builder`]. This always succeeds.
    pub fn extend_volumes(self, volumes: Vec<String>) -> (r: Result<Self, Error>)
        ensures
            r is Ok,
            r->Ok_0@ == (BuilderView {
                volumes: self@.volumes + volumes@.map_values(|s: String| s@),
                ..self@
            }),
    {
        let ghost added = volumes@;
        let ghost before = self;
        let mut next = self;
        let mut held = None;
        core::mem::swap(&mut next.volumes, &mut held);
        next.volumes = extend_with(held, volumes);
        assert(next@.volumes =~= before@.volumes + added.map_values(|s: String| s@));
        Ok(next)
    }

    /// Consumes `self` and attempts to return a built [`Task`]. A builder to
    /// which no execution was added is refused; nothing else is checked.
    pub fn try_build(self) -> (r: Result<Task, Error>)
        ensures
            match r {
                Ok(task) => self@.executions.len() > 0 && task@ == self@.task(),
                Err(Error::Missing(field)) => self@.executions.len() == 0 && field@
                    == "executions"@,
                Err(Error::Multiple(_)) => false,
            },
    {
        let ghost before = self;
        let executions = match self.executors {
            Some(executions) => executions,
            None => {
                return Err(Error::Missing("executions"));
            },
        };
        let task = Task {
            name: self.name,
            description: self.description,
            inputs: self.inputs,
            outputs: self.outputs,
            resources: self.resources,
            executions,
            volumes: self.volumes,
        };
        proof {
            assert(task@.executions =~= before@.executions);
            assert(task@.inputs == before@.task().inputs);
            assert(task@.outputs == before@.task().outputs);
            assert(task@.volumes == before@.task().volumes) by {
                if let Some(v) = before.volumes {
                    assert(texts(v) =~= before@.volumes);
                }
            }
        }
        Ok(task)
    }
}

} // verus!
