//! Task outputs.

use vstd::prelude::*;
use crate::engine::non_empty::optional_text;
use crate::engine::task::input::Type;
use crate::engine::task::optional_text_ref;

verus! {

/// An output of a task: a file or directory inside the execution environment
/// and the address to which it goes.
#[derive(Debug)]
pub struct Output {
    pub(crate) name: Option<String>,
    pub(crate) description: Option<String>,
    pub(crate) url: String,
    pub(crate) path: String,
    pub(crate) ty: Type,
}

/// What an output holds.
pub struct OutputView {
    /// The name, if any.
    pub name: Option<Seq<char>>,
    /// The description, if any.
    pub description: Option<Seq<char>>,
    /// The address to which the output goes.
    pub url: Seq<char>,
    /// The path inside the execution environment.
    pub path: Seq<char>,
    /// Whether the output is a file or a directory.
    pub ty: Type,
}

impl View for Output {
    type V = OutputView;

    closed spec fn view(&self) -> OutputView {
        OutputView {
            name: optional_text(self.name),
            description: optional_text(self.description),
            url: self.url@,
            path: self.path@,
            ty: self.ty,
        }
    }
}

impl Output {
    /// An output without name and description.
    pub fn new(url: String, path: String, ty: Type) -> (r: Self)
        ensures
            r@ == (OutputView { name: None, description: None, url: url@, path: path@, ty }),
    {
        Output { name: None, description: None, url, path, ty }
    }

    /// The output with the name `name`.
    pub fn with_name(self, name: String) -> (r: Self)
        ensures
            r@ == (OutputView { name: Some(name@), ..self@ }),
    {
        Output { name: Some(name), ..self }
    }

    /// The output with the description `description`.
    pub fn with_description(self, description: String) -> (r: Self)
        ensures
            r@ == (OutputView { description: Some(description@), ..self@ }),
    {
        Output { description: Some(description), ..self }
    }

    /// The name of the output (if it exists).
    pub fn name(&self) -> (r: Option<&String>)
        ensures
            optional_text_ref(r) == self@.name,
    {
        self.name.as_ref()
    }

    /// The description of the output (if it exists).
    pub fn description(&self) -> (r: Option<&String>)
        ensures
            optional_text_ref(r) == self@.description,
    {
        self.description.as_ref()
    }

    /// The address to which the output goes.
    pub fn url(&self) -> (r: &str)
        ensures
            r@ == self@.url,
    {
        self.url.as_str()
    }

    /// The path of the output inside the execution environment.
    pub fn path(&self) -> (r: &str)
        ensures
            r@ == self@.path,
    {
        self.path.as_str()
    }

    /// Whether the output is a file or a directory.
    pub fn ty(&self) -> (r: Type)
        ensures
            r == self@.ty,
    {
        self.ty
    }

    /// A copy of the output.
    pub fn duplicate(&self) -> (r: Self)
        ensures
            r@ == self@,
    {
        Output {
            name: self.name.clone(),
            description: self.description.clone(),
            url: self.url.clone(),
            path: self.path.clone(),
            ty: self.ty,
        }
    }
}

impl Clone for Output {
    fn clone(&self) -> (r: Self)
        ensures
            r@ == self@,
    {
        self.duplicate()
    }
}

} // verus!
