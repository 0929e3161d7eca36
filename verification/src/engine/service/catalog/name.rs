//! Names for registered services within the catalog.

use vstd::prelude::*;
use vstd::string::StringExecFns;
use crate::text::{
    chars_of, count_char, count_in, decimal, decimal_string, find_char, index_of, lemma_index_of,
    str_eq, string_of_range,
};

verus! {

/// An error related to parsing a [`Name`].
#[derive(Debug, Eq, PartialEq)]
pub struct ParseError(pub String);

impl ParseError {
    /// Creates a new [`ParseError`] from the provided message.
    pub fn new(value: &str) -> (r: Self)
        ensures
            r.0@ == value@,
    {
        ParseError(value.to_owned())
    }

    /// The text of the error: the message behind the words `parse error: `.
    pub fn to_string(&self) -> (r: String)
        ensures
            r@ == "parse error: "@ + self.0@,
    {
        String::from_str("parse error: ").concat(self.0.as_str())
    }
}

/// A name for a registered service within the catalog.
#[derive(Debug, Eq, Hash, PartialEq)]
pub enum Name {
    /// A key to a named logging service.
    Logging(String),
    /// A key to a named task runner service.
    Runner(String),
}

/// The number of components of `s`: one more than it has separators.
pub open spec fn components(s: Seq<char>) -> nat {
    count_char(s, '/') + 1
}

/// What stands before the first separator of `s`.
pub open spec fn namespace_of(s: Seq<char>) -> Seq<char> {
    s.take(index_of(s, '/'))
}

/// What stands behind the first separator of `s`.
pub open spec fn local_name_of(s: Seq<char>) -> Seq<char> {
    s.skip(index_of(s, '/') + 1)
}

impl Name {
    /// The namespace of the name.
    pub open spec fn namespace(&self) -> Seq<char> {
        match self {
            Name::Logging(_) => "logging"@,
            Name::Runner(_) => "runner"@,
        }
    }

    /// The name within its namespace.
    pub open spec fn local(&self) -> Seq<char> {
        match self {
            Name::Logging(name) => name@,
            Name::Runner(name) => name@,
        }
    }

    /// The name as text: the namespace, a separator and the local name.
    pub fn to_string(&self) -> (r: String)
        ensures
            r@ == self.namespace() + "/"@ + self.local(),
    {
        match self {
            Name::Logging(name) => String::from_str("logging").concat("/").concat(name.as_str()),
            Name::Runner(name) => String::from_str("runner").concat("/").concat(name.as_str()),
        }
    }

    /// Parses a name of the form `namespace/name`, where the namespace is
    /// `logging` or `runner`. Text with another number of components than two
    /// is refused, and so is an unknown namespace.
    pub fn parse(s: &str) -> (r: Result<Name, ParseError>)
        ensures
            match r {
                Ok(name) => components(s@) == 2 && name.namespace() == namespace_of(s@)
                    && name.local() == local_name_of(s@),
                Err(e) => if components(s@) != 2 {
                    e.0@ == "invalid number of components: "@ + decimal(components(s@))
                } else {
                    namespace_of(s@) != "logging"@ && namespace_of(s@) != "runner"@ && e.0@
                        == "unknown namespace: "@ + namespace_of(s@)
                },
            },
    {
        let t = chars_of(s);
        let separators = count_in(&t, '/');
        if separators != 1 {
            let count = decimal_string(separators as u128 + 1);
            let message = String::from_str("invalid number of components: ").concat(
                count.as_str(),
            );
            return Err(ParseError(message));
        }
        let at = find_char(&t, '/');
        proof {
            lemma_index_of(t@, '/');
            lemma_count_zero(t@, '/');
        }
        let namespace = string_of_range(&t, 0, at);
        let local = string_of_range(&t, at + 1, t.len());
        assert(namespace@ =~= namespace_of(s@));
        assert(local@ =~= local_name_of(s@));
        if str_eq(namespace.as_str(), "logging") {
            Ok(Name::Logging(local))
        } else if str_eq(namespace.as_str(), "runner") {
            Ok(Name::Runner(local))
        } else {
            let message = String::from_str("unknown namespace: ").concat(namespace.as_str());
            Err(ParseError(message))
        }
    }
}

/// A text in which `c` stands has its first `c` before its end.
pub proof fn lemma_count_zero(s: Seq<char>, c: char)
    ensures
        count_char(s, c) > 0 ==> index_of(s, c) < s.len(),
    decreases s.len(),
{
    lemma_index_of(s, c);
    if s.len() > 0 {
        lemma_count_zero(s.drop_last(), c);
        lemma_index_of(s.drop_last(), c);
        if count_char(s, c) > 0 && index_of(s, c) == s.len() {
            assert(s.last() != c);
            assert(count_char(s.drop_last(), c) > 0);
            let j = index_of(s.drop_last(), c);
            assert(s.drop_last()[j] == c);
            assert(s[j] == c);
        }
    }
}

/// Whether `r` is what parsing `s` as a name gives: the name of two
/// components whose namespace is `logging` or `runner`, or the error that
/// says what is wrong with `s`, its number of components first.
pub open spec fn parses_to(s: Seq<char>, r: Result<Name, ParseError>) -> bool {
    match r {
        Ok(name) => components(s) == 2 && name.namespace() == namespace_of(s) && name.local()
            == local_name_of(s),
        Err(e) => if components(s) != 2 {
            e.0@ == "invalid number of components: "@ + decimal(components(s))
        } else {
            namespace_of(s) != "logging"@ && namespace_of(s) != "runner"@ && e.0@
                == "unknown namespace: "@ + namespace_of(s)
        },
    }
}

impl std::str::FromStr for Name {
    type Err = ParseError;

    /// Parses a name as [`Name::parse`] does.
    fn from_str(s: &str) -> (r: Result<Self, Self::Err>)
        ensures
            parses_to(s@, r),
    {
        Name::parse(s)
    }
}

} // verus!
