//! A unit of executable work.

use vstd::prelude::*;
use indexmap::IndexMap;
use nonempty::NonEmpty;
use crate::engine::non_empty::{clone_texts, extend_with, optional_text, optional_texts, texts};
use crate::engine::ordered_map::{clone_text_map, insert_text, new_text_map, put, text_entries};
use crate::engine::task::builder::Error;
use crate::engine::task::optional_text_ref;

verus! {

/// An execution: one command run in one container image.
#[derive(Debug)]
pub struct Execution {
    pub(crate) image: String,
    pub(crate) args: NonEmpty<String>,
    pub(crate) workdir: Option<String>,
    pub(crate) stdin: Option<String>,
    pub(crate) stdout: Option<String>,
    pub(crate) stderr: Option<String>,
    pub(crate) env: Option<IndexMap<String, String>>,
}

/// What an execution holds.
pub struct ExecutionView {
    /// The container image.
    pub image: Seq<char>,
    /// The command arguments to execute, the program first; at least one.
    pub args: Seq<Seq<char>>,
    /// The working directory, if configured.
    pub workdir: Option<Seq<char>>,
    /// The path inside the container to a file whose contents are piped to
    /// the standard input, if configured.
    pub stdin: Option<Seq<char>>,
    /// The path inside the container to a file to which the standard output
    /// is written, if configured.
    pub stdout: Option<Seq<char>>,
    /// The path inside the container to a file to which the standard error
    /// is written, if configured.
    pub stderr: Option<Seq<char>>,
    /// The environment variables in the order in which they were configured,
    /// if any were.
    pub env: Option<Seq<(Seq<char>, Seq<char>)>>,
}

/// The entries of an optional map of environment variables.
pub open spec fn env_view(env: Option<IndexMap<String, String>>) -> Option<
    Seq<(Seq<char>, Seq<char>)>,
> {
    match env {
        Some(m) => Some(text_entries(m)),
        None => None,
    }
}

impl View for Execution {
    type V = ExecutionView;

    closed spec fn view(&self) -> ExecutionView {
        ExecutionView {
            image: self.image@,
            args: texts(self.args),
            workdir: optional_text(self.workdir),
            stdin: optional_text(self.stdin),
            stdout: optional_text(self.stdout),
            stderr: optional_text(self.stderr),
            env: env_view(self.env),
        }
    }
}

impl Execution {
    /// An execution has at least one argument.
    pub proof fn lemma_args_nonempty(&self)
        ensures
            self@.args.len() >= 1,
    {
    }

    /// Gets a new builder for an [`Execution`].
    pub fn builder() -> (r: Builder)
        ensures
            r@ == BuilderView::empty(),
    {
        Builder {
            image: None,
            args: None,
            workdir: None,
            stdin: None,
            stdout: None,
            stderr: None,
            env: None,
        }
    }

    /// The image for the execution to run within.
    pub fn image(&self) -> (r: &str)
        ensures
            r@ == self@.image,
    {
        self.image.as_str()
    }

    /// The arguments to the execution.
    pub fn args(&self) -> (r: &NonEmpty<String>)
        ensures
            texts(*r) == self@.args,
    {
        &self.args
    }

    /// The working directory.
    pub fn workdir(&self) -> (r: Option<&String>)
        ensures
            optional_text_ref(r) == self@.workdir,
    {
        self.workdir.as_ref()
    }

    /// The file to pipe the standard input stream from.
    pub fn stdin(&self) -> (r: Option<&String>)
        ensures
            optional_text_ref(r) == self@.stdin,
    {
        self.stdin.as_ref()
    }

    /// The file to pipe the standard output stream to.
    pub fn stdout(&self) -> (r: Option<&String>)
        ensures
            optional_text_ref(r) == self@.stdout,
    {
        self.stdout.as_ref()
    }

    /// The file to pipe the standard error stream to.
    pub fn stderr(&self) -> (r: Option<&String>)
        ensures
            optional_text_ref(r) == self@.stderr,
    {
        self.stderr.as_ref()
    }

    /// The environment variables for the execution.
    pub fn env(&self) -> (r: Option<&IndexMap<String, String>>)
        ensures
            match r {
                Some(m) => self@.env == Some(text_entries(*m)),
                None => self@.env is None,
            },
    {
        self.env.as_ref()
    }

    /// A copy of the execution.
    pub fn duplicate(&self) -> (r: Self)
        ensures
            r@ == self@,
    {
        Execution {
            image: self.image.clone(),
            args: clone_texts(&self.args),
            workdir: self.workdir.clone(),
            stdin: self.stdin.clone(),
            stdout: self.stdout.clone(),
            stderr: self.stderr.clone(),
            env: match &self.env {
                Some(m) => Some(clone_text_map(m)),
                None => None,
            },
        }
    }
}

impl Clone for Execution {
    fn clone(&self) -> (r: Self)
        ensures
            r@ == self@,
    {
        self.duplicate()
    }
}

/// A builder for an [`Execution`].
#[derive(Debug)]
pub struct Builder {
    image: Option<String>,
    args: Option<NonEmpty<String>>,
    workdir: Option<String>,
    stdin: Option<String>,
    stdout: Option<String>,
    stderr: Option<String>,
    env: Option<IndexMap<String, String>>,
}

/// What a builder of an execution holds.
pub struct BuilderView {
    /// The image, if set.
    pub image: Option<Seq<char>>,
    /// The arguments, if any were set.
    pub args: Option<Seq<Seq<char>>>,
    /// The working directory, if set.
    pub workdir: Option<Seq<char>>,
    /// The file for the standard input, if set.
    pub stdin: Option<Seq<char>>,
    /// The file for the standard output, if set.
    pub stdout: Option<Seq<char>>,
    /// The file for the standard error, if set.
    pub stderr: Option<Seq<char>>,
    /// The environment variables, if any were set.
    pub env: Option<Seq<(Seq<char>, Seq<char>)>>,
}

impl BuilderView {
    /// The builder that holds nothing.
    pub open spec fn empty() -> BuilderView {
        BuilderView {
            image: None,
            args: None,
            workdir: None,
            stdin: None,
            stdout: None,
            stderr: None,
            env: None,
        }
    }
}

impl View for Builder {
    type V = BuilderView;

    closed spec fn view(&self) -> BuilderView {
        BuilderView {
            image: optional_text(self.image),
            args: optional_texts(self.args),
            workdir: optional_text(self.workdir),
            stdin: optional_text(self.stdin),
            stdout: optional_text(self.stdout),
            stderr: optional_text(self.stderr),
            env: env_view(self.env),
        }
    }
}

impl Builder {
    /// Sets the container image.
    pub fn image(self, image: String) -> (r: Self)
        ensures
            r@ == (BuilderView { image: Some(image@), ..self@ }),
    {
        Builder { image: Some(image), ..self }
    }

    /// Sets the arguments, the program first, in place of earlier ones. No
    /// arguments leave the builder without any.
    pub fn args(self, args: Vec<String>) -> (r: Self)
        ensures
            r@ == (BuilderView {
                args: if args@.len() > 0 {
                    Some(args@.map_values(|s: String| s@))
                } else {
                    None
                },
                ..self@
            }),
    {
        let ghost given = args@.map_values(|s: String| s@);
        let list = extend_with(None, args);
        proof {
            if given.len() > 0 {
                assert(texts(list->0) =~= given);
            }
        }
        Builder { args: list, ..self }
    }

    /// Sets the working directory.
    pub fn working_directory(self, workdir: String) -> (r: Self)
        ensures
            r@ == (BuilderView { workdir: Some(workdir@), ..self@ }),
    {
        Builder { workdir: Some(workdir), ..self }
    }

    /// Sets the file that is piped to the standard input.
    pub fn stdin(self, stdin: String) -> (r: Self)
        ensures
            r@ == (BuilderView { stdin: Some(stdin@), ..self@ }),
    {
        Builder { stdin: Some(stdin), ..self }
    }

    /// Sets the file to which the standard output is written.
    pub fn stdout(self, stdout: String) -> (r: Self)
        ensures
            r@ == (BuilderView { stdout: Some(stdout@), ..self@ }),
    {
        Builder { stdout: Some(stdout), ..self }
    }

    /// Sets the file to which the standard error is written.
    pub fn stderr(self, stderr: String) -> (r: Self)
        ensures
            r@ == (BuilderView { stderr: Some(stderr@), ..self@ }),
    {
        Builder { stderr: Some(stderr), ..self }
    }

    /// Sets an environment variable. A variable that was set before keeps its
    /// place and gets the new value; a new one comes last.
    pub fn env(self, name: String, value: String) -> (r: Self)
        ensures
            r@.env is Some,
            put(
                match self@.env {
                    Some(entries) => entries,
                    None => Seq::empty(),
                },
                name@,
                value@,
                r@.env->0,
            ),
            r@ == (BuilderView { env: r@.env, ..self@ }),
    {
        let mut env = match self.env {
            Some(env) => env,
            None => new_text_map(),
        };
        insert_text(&mut env, name, value);
        Builder {
            image: self.image,
            args: self.args,
            workdir: self.workdir,
            stdin: self.stdin,
            stdout: self.stdout,
            stderr: self.stderr,
            env: Some(env),
        }
    }

    /// Builds the execution. The image and the arguments are required: the
    /// first of them that is missing, in this order, is the error.
    pub fn try_build(self) -> (r: Result<Execution, Error>)
        ensures
            match r {
                Ok(execution) => self@.image is Some && self@.args is Some && execution@ == (
                ExecutionView {
                    image: self@.image->0,
                    args: self@.args->0,
                    workdir: self@.workdir,
                    stdin: self@.stdin,
                    stdout: self@.stdout,
                    stderr: self@.stderr,
                    env: self@.env,
                }),
                Err(Error::Missing(field)) => if self@.image is None {
                    field@ == "image"@
                } else {
                    self@.args is None && field@ == "args"@
                },
                Err(Error::Multiple(_)) => false,
            },
    {
        let image = match self.image {
            Some(image) => image,
            None => {
                return Err(Error::Missing("image"));
            },
        };
        let args = match self.args {
            Some(args) => args,
            None => {
                return Err(Error::Missing("args"));
            },
        };
        Ok(
            Execution {
                image,
                args,
                workdir: self.workdir,
                stdin: self.stdin,
                stdout: self.stdout,
                stderr: self.stderr,
                env: self.env,
            },
        )
    }
}

} // verus!
