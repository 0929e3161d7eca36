//! Task inputs.

use vstd::prelude::*;
use vstd::string::{StrSliceExecFns, StringSliceAdditionalSpecFns};
use crate::engine::non_empty::optional_text;
use crate::engine::task::builder::Error;
use crate::engine::task::optional_text_ref;
use crate::text::str_eq;

verus! {

/// A type of input.
#[derive(Clone, Copy, Debug, PartialEq, Eq, Structural)]
pub enum Type {
    /// A file.
    File,
    /// A directory.
    Directory,
}

/// The source of an input.
#[derive(Debug)]
pub enum Contents {
    /// Contents sourced from a URL, held as the text of the URL.
    URL(String),
    /// Contents provided as a string literal.
    Literal(String),
}

/// What the source of an input holds.
pub enum ContentsView {
    /// The text of a URL.
    URL(Seq<char>),
    /// A literal.
    Literal(Seq<char>),
}

impl View for Contents {
    type V = ContentsView;

    open spec fn view(&self) -> ContentsView {
        match self {
            Contents::URL(url) => ContentsView::URL(url@),
            Contents::Literal(text) => ContentsView::Literal(text@),
        }
    }
}

impl Clone for Contents {
    fn clone(&self) -> (r: Self)
        ensures
            r@ == self@,
    {
        match self {
            Contents::URL(url) => Contents::URL(url.clone()),
            Contents::Literal(text) => Contents::Literal(text.clone()),
        }
    }
}

/// An input to a task.
#[derive(Debug)]
pub struct Input {
    pub(crate) name: Option<String>,
    pub(crate) description: Option<String>,
    pub(crate) contents: Contents,
    pub(crate) path: String,
    pub(crate) ty: Type,
}

/// What an input holds.
pub struct InputView {
    /// The name, if any.
    pub name: Option<Seq<char>>,
    /// The description, if any.
    pub description: Option<Seq<char>>,
    /// The source of the contents.
    pub contents: ContentsView,
    /// The absolute path of the input inside the execution environment.
    pub path: Seq<char>,
    /// Whether the input is a file or a directory.
    pub ty: Type,
}

impl View for Input {
    type V = InputView;

    closed spec fn view(&self) -> InputView {
        InputView {
            name: optional_text(self.name),
            description: optional_text(self.description),
            contents: self.contents@,
            path: self.path@,
            ty: self.ty,
        }
    }
}

/// Why the contents of an input could not be had.
#[derive(Debug)]
pub enum FetchError {
    /// The file that a URL names could not be read; the text says why.
    Io(String),
    /// The contents come from a URL whose scheme is not supported.
    UnsupportedScheme,
}

/// How the contents of an input are had.
#[derive(Debug)]
pub enum Fetch {
    /// The contents are these bytes.
    Bytes(Vec<u8>),
    /// The contents are those of the file that this `file` URL names, to be
    /// read.
    ReadFile(String),
}

/// The scheme that `Url::parse` of the `url` crate finds in a text, lower-cased
/// and without the colon; none where the text is no absolute URL.
pub uninterp spec fn parsed_scheme(text: Seq<char>) -> Option<Seq<char>>;

/// `Url::parse` of the `url` crate, and `Url::scheme` of what it gives: the
/// scheme of the URL that the text holds, or none where it holds none.
#[verifier::external_body]
fn scheme_of(text: &str) -> (r: Option<String>)
    ensures
        optional_text(r) == parsed_scheme(text@),
{
    match url::Url::parse(text) {
        Ok(url) => Some(url.scheme().to_string()),
        Err(_) => None,
    }
}

/// How contents that come from the URL `url` are had, given the scheme of
/// the URL: a `file` URL is read from the file that it names, and every other
/// scheme is unsupported, as is a text without a scheme.
pub fn fetch_from_url(scheme: Option<&str>, url: String) -> (r: Result<Fetch, FetchError>)
    ensures
        match r {
            Ok(Fetch::ReadFile(file)) => scheme is Some && scheme->0@ == "file"@ && file == url,
            Ok(Fetch::Bytes(_)) => false,
            Err(FetchError::Io(_)) => false,
            Err(FetchError::UnsupportedScheme) => !(scheme is Some && scheme->0@ == "file"@),
        },
{
    match scheme {
        Some(s) => {
            if str_eq(s, "file") {
                Ok(Fetch::ReadFile(url))
            } else {
                Err(FetchError::UnsupportedScheme)
            }
        },
        None => Err(FetchError::UnsupportedScheme),
    }
}

impl Input {
    /// Gets a new builder for an [`Input`].
    pub fn builder() -> (r: Builder)
        ensures
            r.name is None,
            r.description is None,
            r.contents is None,
            r.path is None,
            r.ty is None,
    {
        Builder { name: None, description: None, contents: None, path: None, ty: None }
    }

    /// The name of the input (if it exists).
    pub fn name(&self) -> (r: Option<&String>)
        ensures
            optional_text_ref(r) == self@.name,
    {
        self.name.as_ref()
    }

    /// The description of the input (if it exists).
    pub fn description(&self) -> (r: Option<&String>)
        ensures
            optional_text_ref(r) == self@.description,
    {
        self.description.as_ref()
    }

    /// The contents of the input.
    pub fn contents(&self) -> (r: &Contents)
        ensures
            r@ == self@.contents,
    {
        &self.contents
    }

    /// The path where the input should be placed within the container.
    pub fn path(&self) -> (r: &str)
        ensures
            r@ == self@.path,
    {
        self.path.as_str()
    }

    /// The type of the input.
    pub fn ty(&self) -> (r: Type)
        ensures
            r == self@.ty,
    {
        self.ty
    }

    /// Says how the contents of the input are had. A literal gives its bytes.
    /// A `file` URL is to be read: it is handed on as it is. A URL of any
    /// other scheme is unsupported, and so is a text that is no URL.
    pub fn fetch(&self) -> (r: Result<Fetch, FetchError>)
        ensures
            match self@.contents {
                ContentsView::Literal(text) => r matches Ok(Fetch::Bytes(bytes)) && bytes@
                    == vstd::utf8::encode_utf8(text),
                ContentsView::URL(url) => if parsed_scheme(url) == Some("file"@) {
                    r matches Ok(Fetch::ReadFile(file)) && file@ == url
                } else {
                    r matches Err(FetchError::UnsupportedScheme)
                },
            },
    {
        match &self.contents {
            Contents::Literal(text) => Ok(Fetch::Bytes(text.as_str().as_bytes_vec())),
            Contents::URL(url) => {
                let scheme = scheme_of(url.as_str());
                match &scheme {
                    Some(s) => fetch_from_url(Some(s.as_str()), url.clone()),
                    None => fetch_from_url(None, url.clone()),
                }
            },
        }
    }

    /// A copy of the input.
    pub fn duplicate(&self) -> (r: Self)
        ensures
            r@ == self@,
    {
        Input {
            name: self.name.clone(),
            description: self.description.clone(),
            contents: self.contents.clone(),
            path: self.path.clone(),
            ty: self.ty,
        }
    }
}

impl Clone for Input {
    fn clone(&self) -> (r: Self)
        ensures
            r@ == self@,
    {
        self.duplicate()
    }
}

/// A builder for an [`Input`].
#[derive(Debug)]
pub struct Builder {
    /// The name, if set.
    pub name: Option<String>,
    /// The description, if set.
    pub description: Option<String>,
    /// The contents, if set.
    pub contents: Option<Contents>,
    /// The path, if set.
    pub path: Option<String>,
    /// The type, if set.
    pub ty: Option<Type>,
}

impl Builder {
    /// Sets the name.
    pub fn name(self, name: String) -> (r: Self)
        ensures
            r == (Builder { name: Some(name), ..self }),
    {
        Builder { name: Some(name), ..self }
    }

    /// Sets the description.
    pub fn description(self, description: String) -> (r: Self)
        ensures
            r == (Builder { description: Some(description), ..self }),
    {
        Builder { description: Some(description), ..self }
    }

    /// Sets the contents.
    pub fn contents(self, contents: Contents) -> (r: Self)
        ensures
            r == (Builder { contents: Some(contents), ..self }),
    {
        Builder { contents: Some(contents), ..self }
    }

    /// Sets the path inside the execution environment.
    pub fn path(self, path: String) -> (r: Self)
        ensures
            r == (Builder { path: Some(path), ..self }),
    {
        Builder { path: Some(path), ..self }
    }

    /// Sets the type.
    pub fn ty(self, ty: Type) -> (r: Self)
        ensures
            r == (Builder { ty: Some(ty), ..self }),
    {
        Builder { ty: Some(ty), ..self }
    }

    /// Builds the input. The contents, the path and the type are required:
    /// the first of them that is missing, in this order, is the error.
    pub fn try_build(self) -> (r: Result<Input, Error>)
        ensures
            match r {
                Ok(input) => self.contents is Some && self.path is Some && self.ty is Some
                    && input@ == (InputView {
                    name: optional_text(self.name),
                    description: optional_text(self.description),
                    contents: self.contents->0@,
                    path: self.path->0@,
                    ty: self.ty->0,
                }),
                Err(Error::Missing(field)) => if self.contents is None {
                    field@ == "contents"@
                } else if self.path is None {
                    field@ == "path"@
                } else {
                    self.ty is None && field@ == "type"@
                },
                Err(Error::Multiple(_)) => false,
            },
    {
        let contents = match self.contents {
            Some(contents) => contents,
            None => {
                return Err(Error::Missing("contents"));
            },
        };
        let path = match self.path {
            Some(path) => path,
            None => {
                return Err(Error::Missing("path"));
            },
        };
        let ty = match self.ty {
            Some(ty) => ty,
            None => {
                return Err(Error::Missing("type"));
            },
        };
        Ok(Input { name: self.name, description: self.description, contents, path, ty })
    }
}

} // verus!
