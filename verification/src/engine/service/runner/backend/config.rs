//! Configuration of the backends, and the substitution of placeholders in
//! the command templates that a configuration holds.

use vstd::prelude::*;
use vstd::string::StringExecFns;
use crate::text::{chars_of, decimal, decimal_string, extend_chars, string_of, string_of_range};

verus! {

/// The map that a sequence of `(name, text)` pairs stands for: a later pair
/// for a name replaces an earlier one.
pub open spec fn pairs_map(pairs: Seq<(Seq<char>, Seq<char>)>) -> Map<Seq<char>, Seq<char>>
    decreases pairs.len(),
{
    if pairs.len() == 0 {
        Map::empty()
    } else {
        pairs_map(pairs.drop_last()).insert(pairs.last().0, pairs.last().1)
    }
}

/// No two pairs of the sequence have the same name.
pub open spec fn distinct_names(pairs: Seq<(Seq<char>, Seq<char>)>) -> bool {
    forall|i: int, j: int| 0 <= i < j < pairs.len() ==> pairs[i].0 != pairs[j].0
}

/// A name is in the map of a sequence of pairs exactly if one of the pairs has it.
pub proof fn lemma_pairs_map_dom(pairs: Seq<(Seq<char>, Seq<char>)>, name: Seq<char>)
    ensures
        pairs_map(pairs).dom().contains(name) <==> exists|i: int|
            0 <= i < pairs.len() && (#[trigger] pairs[i]).0 == name,
    decreases pairs.len(),
{
    if pairs.len() > 0 {
        let front = pairs.drop_last();
        lemma_pairs_map_dom(front, name);
        if pairs_map(pairs).dom().contains(name) {
            if pairs.last().0 == name {
                assert(pairs[pairs.len() - 1].0 == name);
            } else {
                let i = choose|i: int| 0 <= i < front.len() && (#[trigger] front[i]).0 == name;
                assert(pairs[i].0 == name);
            }
        }
        if exists|i: int| 0 <= i < pairs.len() && (#[trigger] pairs[i]).0 == name {
            let i = choose|i: int| 0 <= i < pairs.len() && (#[trigger] pairs[i]).0 == name;
            if i < front.len() {
                assert(front[i].0 == name);
            }
        }
    }
}

/// With distinct names, the map of a sequence of pairs gives each name the
/// text of its own pair.
pub proof fn lemma_pairs_map_value(pairs: Seq<(Seq<char>, Seq<char>)>, i: int)
    requires
        distinct_names(pairs),
        0 <= i < pairs.len(),
    ensures
        pairs_map(pairs).dom().contains(pairs[i].0),
        pairs_map(pairs)[pairs[i].0] == pairs[i].1,
    decreases pairs.len(),
{
    let front = pairs.drop_last();
    if i < pairs.len() - 1 {
        assert(distinct_names(front)) by {
            assert forall|a: int, b: int| 0 <= a < b < front.len() implies front[a].0
                != front[b].0 by {
                assert(front[a] == pairs[a] && front[b] == pairs[b]);
            }
        }
        lemma_pairs_map_value(front, i);
        assert(front[i] == pairs[i]);
        assert(pairs[i].0 != pairs[pairs.len() - 1].0);
    }
}

/// Replacing the text of the pair at `i` is an insertion into the map.
pub proof fn lemma_pairs_map_update(pairs: Seq<(Seq<char>, Seq<char>)>, i: int, text: Seq<char>)
    requires
        distinct_names(pairs),
        0 <= i < pairs.len(),
    ensures
        distinct_names(pairs.update(i, (pairs[i].0, text))),
        pairs_map(pairs.update(i, (pairs[i].0, text))) == pairs_map(pairs).insert(
            pairs[i].0,
            text,
        ),
    decreases pairs.len(),
{
    let name = pairs[i].0;
    let after = pairs.update(i, (name, text));
    assert(distinct_names(after)) by {
        assert forall|a: int, b: int| 0 <= a < b < after.len() implies after[a].0 != after[b].0 by {
            assert(after[a].0 == pairs[a].0 && after[b].0 == pairs[b].0);
        }
    }
    let front = pairs.drop_last();
    assert(distinct_names(front)) by {
        assert forall|a: int, b: int| 0 <= a < b < front.len() implies front[a].0 != front[b].0 by {
            assert(front[a] == pairs[a] && front[b] == pairs[b]);
        }
    }
    if i == pairs.len() - 1 {
        assert(after.drop_last() =~= front);
        assert(pairs_map(after) =~= pairs_map(pairs).insert(name, text));
    } else {
        lemma_pairs_map_update(front, i, text);
        assert(front[i] == pairs[i]);
        assert(after.drop_last() =~= front.update(i, (name, text)));
        assert(after.last() == pairs.last());
        assert(pairs.last().0 != name);
        assert(pairs_map(after) =~= pairs_map(pairs).insert(name, text));
    }
}

/// The pairs of character sequences that a vector of string pairs holds.
pub open spec fn pairs_of(entries: Seq<(String, String)>) -> Seq<(Seq<char>, Seq<char>)> {
    Seq::new(entries.len(), |i: int| (entries[i].0@, entries[i].1@))
}

/// A set of bindings from placeholder names to replacement text, one text for
/// each name.
#[derive(Debug)]
pub struct Bindings {
    entries: Vec<(String, String)>,
}

impl Bindings {
    /// The pairs held, in the order in which their names were first bound.
    pub closed spec fn pairs(&self) -> Seq<(Seq<char>, Seq<char>)> {
        pairs_of(self.entries@)
    }

    #[verifier::type_invariant]
    spec fn names_are_distinct(&self) -> bool {
        distinct_names(self.pairs())
    }

    /// The bindings as a map from name to text.
    pub open spec fn view(&self) -> Map<Seq<char>, Seq<char>> {
        pairs_map(self.pairs())
    }

    /// Bindings that bind nothing.
    pub fn new() -> (r: Self)
        ensures
            r@ == Map::<Seq<char>, Seq<char>>::empty(),
            r.pairs().len() == 0,
    {
        let r = Bindings { entries: Vec::new() };
        assert(r.pairs() =~= Seq::empty());
        r
    }

    /// The number of names bound.
    pub fn len(&self) -> (n: usize)
        ensures
            n == self.pairs().len(),
    {
        self.entries.len()
    }

    /// The index of the pair for `name`, if there is one.
    fn position(&self, name: &String) -> (r: Option<usize>)
        ensures
            match r {
                Some(i) => i < self.pairs().len() && self.pairs()[i as int].0 == name@,
                None => !self@.dom().contains(name@),
            },
    {
        let mut i: usize = 0;
        while i < self.entries.len()
            invariant
                i <= self.entries.len(),
                forall|j: int| 0 <= j < i ==> (#[trigger] self.pairs()[j]).0 != name@,
            decreases self.entries.len() - i,
        {
            if self.entries[i].0 == *name {
                return Some(i);
            }
            i += 1;
        }
        proof {
            lemma_pairs_map_dom(self.pairs(), name@);
        }
        None
    }

    /// Whether `name` is bound.
    pub fn contains_key(&self, name: &str) -> (r: bool)
        ensures
            r == self@.dom().contains(name@),
    {
        let owned = name.to_owned();
        let at = self.position(&owned);
        proof {
            use_type_invariant(self);
            if let Some(i) = at {
                lemma_pairs_map_value(self.pairs(), i as int);
            }
        }
        at.is_some()
    }

    /// The text bound to `name`, if any.
    pub fn get(&self, name: &str) -> (r: Option<&String>)
        ensures
            match r {
                Some(text) => self@.dom().contains(name@) && self@[name@] == text@,
                None => !self@.dom().contains(name@),
            },
    {
        let owned = name.to_owned();
        match self.position(&owned) {
            Some(i) => {
                proof {
                    use_type_invariant(self);
                    lemma_pairs_map_value(self.pairs(), i as int);
                }
                Some(&self.entries[i].1)
            },
            None => None,
        }
    }

    /// Binds `name` to `text`, in place of what `name` was bound to before.
    pub fn insert(&mut self, name: String, text: String)
        ensures
            final(self)@ == old(self)@.insert(name@, text@),
    {
        proof {
            use_type_invariant(&*self);
        }
        let ghost before = self.pairs();
        let at = self.position(&name);
        let mut taken = Bindings::new();
        core::mem::swap(self, &mut taken);
        let mut entries = taken.entries;
        match at {
            Some(i) => {
                entries.set(i, (name, text));
                proof {
                    lemma_pairs_map_update(before, i as int, text@);
                }
            },
            None => {
                entries.push((name, text));
                proof {
                    lemma_pairs_map_dom(before, name@);
                }
            },
        }
        proof {
            let now = pairs_of(entries@);
            match at {
                Some(i) => {
                    assert(now =~= before.update(i as int, (before[i as int].0, text@)));
                },
                None => {
                    assert(now =~= before.push((name@, text@)));
                    assert(now.drop_last() =~= before);
                    assert forall|a: int, b: int| 0 <= a < b < now.len() implies now[a].0
                        != now[b].0 by {
                        if b == before.len() {
                            assert(before[a].0 != name@);
                        } else {
                            assert(before[a].0 != before[b].0);
                        }
                    }
                },
            }
        }
        let next = Bindings { entries };
        *self = next;
    }

    /// The pairs of a name and the text bound to it, in the order in which the
    /// names were first bound.
    pub fn to_pairs(&self) -> (r: Vec<(String, String)>)
        ensures
            pairs_of(r@) == self.pairs(),
            distinct_names(pairs_of(r@)),
    {
        proof {
            use_type_invariant(self);
        }
        self.duplicate_entries()
    }

    fn duplicate_entries(&self) -> (entries: Vec<(String, String)>)
        ensures
            pairs_of(entries@) == pairs_of(self.entries@),
    {
        let mut entries: Vec<(String, String)> = Vec::new();
        let mut i: usize = 0;
        while i < self.entries.len()
            invariant
                i <= self.entries.len(),
                entries@.len() == i,
                forall|j: int|
                    0 <= j < i ==> (#[trigger] entries@[j]).0@ == self.entries@[j].0@
                        && entries@[j].1@ == self.entries@[j].1@,
            decreases self.entries.len() - i,
        {
            let name = self.entries[i].0.clone();
            let text = self.entries[i].1.clone();
            entries.push((name, text));
            i += 1;
        }
        assert(pairs_of(entries@) =~= pairs_of(self.entries@));
        entries
    }

    /// A copy of the bindings.
    pub fn duplicate(&self) -> (r: Self)
        ensures
            r@ == self@,
    {
        proof {
            use_type_invariant(self);
        }
        let entries = self.duplicate_entries();
        Bindings { entries }
    }

    /// Binds `name` to `text` unless `name` is bound already.
    pub fn or_insert(&mut self, name: String, text: String)
        ensures
            final(self)@ == if old(self)@.dom().contains(name@) {
                old(self)@
            } else {
                old(self)@.insert(name@, text@)
            },
    {
        proof {
            use_type_invariant(&*self);
        }
        let bound = self.position(&name).is_some();
        proof {
            if bound {
                lemma_pairs_map_dom(self.pairs(), name@);
            }
        }
        if !bound {
            self.insert(name, text);
        }
    }
}


/// Configuration for an arbitrary backend.
#[derive(Debug)]
pub struct Config {
    /// The backend's name.
    pub name: String,
    /// The backend's type.
    pub kind: BackendType,
    /// The default cpu count, if present.
    pub default_cpu: Option<u32>,
    /// The default ram in megabytes, if present.
    pub default_ram: Option<u32>,
    /// The runtime attributes for the backend.
    pub runtime_attrs: Option<Bindings>,
}

/// What a configuration holds besides, depending on the kind of backend.
#[derive(Debug)]
pub enum BackendType {
    /// A generic backend, driven by shell command templates.
    Generic(GenericBackendConfig),
    /// A Docker backend.
    Docker(DockerBackendConfig),
}

/// Extra attributes for generic backends.
#[derive(Debug)]
pub struct GenericBackendConfig {
    /// The command template that is run on submit.
    pub submit: String,
    /// The regex that extracts the job id from the standard output of the
    /// submit command.
    pub job_id_regex: Option<String>,
    /// The command template that is run to check on a job.
    pub monitor: Option<String>,
    /// The number of seconds between two checks.
    pub monitor_frequency: Option<u32>,
    /// The command template that is run to kill a job.
    pub kill: Option<String>,
}

/// Extra attributes for Docker backends.
#[derive(Debug)]
pub struct DockerBackendConfig;

/// The placeholder that stands for `name` in a template.
pub open spec fn placeholder(name: Seq<char>) -> Seq<char> {
    seq!['~', '{'] + name + seq!['}']
}

/// Whether `s` begins with the placeholder of a name of `n` characters that
/// `m` binds.
pub open spec fn binds_len(s: Seq<char>, m: Map<Seq<char>, Seq<char>>, n: int) -> bool {
    &&& 0 <= n
    &&& n + 3 <= s.len()
    &&& s[0] == '~'
    &&& s[1] == '{'
    &&& s[n + 2] == '}'
    &&& m.dom().contains(s.subrange(2, n + 2))
}

/// The least length, from `n` on, of a bound name with whose placeholder `s`
/// begins.
pub open spec fn shortest_from(s: Seq<char>, m: Map<Seq<char>, Seq<char>>, n: int) -> Option<int>
    decreases s.len() - n,
{
    if n < 0 || n + 3 > s.len() {
        None
    } else if binds_len(s, m, n) {
        Some(n)
    } else {
        shortest_from(s, m, n + 1)
    }
}

/// The length of the shortest bound name with whose placeholder `s` begins,
/// if there is one.
pub open spec fn bound_here(s: Seq<char>, m: Map<Seq<char>, Seq<char>>) -> Option<int> {
    shortest_from(s, m, 0)
}

/// What `shortest_from` finds is a length at which `s` binds, and no length
/// between `n` and that one binds.
pub proof fn lemma_shortest_from(s: Seq<char>, m: Map<Seq<char>, Seq<char>>, n: int)
    requires
        0 <= n,
    ensures
        match shortest_from(s, m, n) {
            Some(found) => n <= found && binds_len(s, m, found) && forall|k: int|
                n <= k < found ==> !binds_len(s, m, k),
            None => forall|k: int| n <= k ==> !binds_len(s, m, k),
        },
    decreases s.len() - n,
{
    if n + 3 > s.len() {
    } else if binds_len(s, m, n) {
    } else {
        lemma_shortest_from(s, m, n + 1);
    }
}

/// The template `s` with each placeholder of a name that `m` binds replaced by
/// the text bound to it. The template is read once from left to right; where
/// a placeholder of a bound name begins, its text is put out and reading goes
/// on behind the placeholder, so text put out is never read again.
pub open spec fn substitute(s: Seq<char>, m: Map<Seq<char>, Seq<char>>) -> Seq<char>
    decreases s.len(),
{
    if s.len() == 0 {
        s
    } else {
        match bound_here(s, m) {
            Some(n) => {
                proof {
                    lemma_shortest_from(s, m, 0);
                }
                m[s.subrange(2, n + 2)] + substitute(s.skip(n + 3), m)
            },
            None => seq![s[0]] + substitute(s.skip(1), m),
        }
    }
}

/// Whether `s` begins like a placeholder: with `~{`, and with a `}` somewhere
/// behind it.
pub open spec fn opens_placeholder(s: Seq<char>) -> bool {
    &&& s.len() >= 3
    &&& s[0] == '~'
    &&& s[1] == '{'
    &&& exists|j: int| 2 <= j < s.len() && s[j] == '}'
}

/// Whether the template `s`, read as `substitute` reads it, holds a
/// placeholder whose name `m` does not bind.
pub open spec fn references_unbound(s: Seq<char>, m: Map<Seq<char>, Seq<char>>) -> bool
    decreases s.len(),
{
    if s.len() == 0 {
        false
    } else {
        match bound_here(s, m) {
            Some(n) => {
                proof {
                    lemma_shortest_from(s, m, 0);
                }
                references_unbound(s.skip(n + 3), m)
            },
            None => opens_placeholder(s) || references_unbound(s.skip(1), m),
        }
    }
}

/// Looks for the shortest bound name whose placeholder begins at `t[i]`, and
/// gives its length and the text bound to it.
fn binding_at<'a>(t: &Vec<char>, i: usize, bindings: &'a Bindings) -> (r: Option<(usize, &'a String)>)
    requires
        i < t.len(),
    ensures
        match r {
            Some((n, text)) => bound_here(t@.skip(i as int), bindings@) == Some(n as int)
                && i + n + 3 <= t.len() && text@ == bindings@[t@.subrange(i + 2, i + n + 2)],
            None => bound_here(t@.skip(i as int), bindings@) is None,
        },
{
    let ghost s = t@.skip(i as int);
    let ghost m = bindings@;
    if t.len() - i < 3 || t[i] != '~' || t[i + 1] != '{' {
        proof {
            lemma_shortest_from(s, m, 0);
        }
        return None;
    }
    let mut n: usize = 0;
    while n <= t.len() - i - 3
        invariant
            i < t.len(),
            t.len() - i >= 3,
            s == t@.skip(i as int),
            s[0] == '~',
            s[1] == '{',
            m == bindings@,
            shortest_from(s, m, 0) == shortest_from(s, m, n as int),
        decreases t.len() - n,
    {
        if t[i + n + 2] == '}' {
            let name = string_of_range(t, i + 2, i + n + 2);
            assert(s.subrange(2, n + 2) =~= t@.subrange(i + 2, i + n + 2));
            match bindings.get(name.as_str()) {
                Some(text) => {
                    assert(binds_len(s, m, n as int));
                    return Some((n, text));
                },
                None => {},
            }
        }
        assert(!binds_len(s, m, n as int));
        n += 1;
    }
    None
}

/// The index of the last `}` of `t`, if it has one.
fn last_close(t: &Vec<char>) -> (r: Option<usize>)
    ensures
        match r {
            Some(l) => l < t.len() && t@[l as int] == '}' && forall|j: int|
                l < j < t.len() ==> t@[j] != '}',
            None => forall|j: int| 0 <= j < t.len() ==> t@[j] != '}',
        },
{
    let mut last: Option<usize> = None;
    let mut k: usize = 0;
    while k < t.len()
        invariant
            k <= t.len(),
            match last {
                Some(l) => l < k && t@[l as int] == '}' && forall|j: int|
                    l < j < k ==> t@[j] != '}',
                None => forall|j: int| 0 <= j < k ==> t@[j] != '}',
            },
        decreases t.len() - k,
    {
        if t[k] == '}' {
            last = Some(k);
        }
        k += 1;
    }
    last
}

/// Substitutes the placeholders of `template`, and says whether a placeholder
/// of an unbound name was passed over.
pub fn expand(template: &str, bindings: &Bindings) -> (r: (String, bool))
    ensures
        r.0@ == substitute(template@, bindings@),
        r.1 == references_unbound(template@, bindings@),
{
    let t = chars_of(template);
    let close = last_close(&t);
    let mut out: Vec<char> = Vec::new();
    let mut unbound = false;
    let mut i: usize = 0;
    let ghost m = bindings@;
    assert(t@.skip(0) =~= t@);
    while i < t.len()
        invariant
            i <= t.len(),
            m == bindings@,
            out@ + substitute(t@.skip(i as int), m) == substitute(t@, m),
            (unbound || references_unbound(t@.skip(i as int), m)) == references_unbound(t@, m),
            match close {
                Some(l) => l < t.len() && t@[l as int] == '}' && forall|j: int|
                    l < j < t.len() ==> t@[j] != '}',
                None => forall|j: int| 0 <= j < t.len() ==> t@[j] != '}',
            },
        decreases t.len() - i,
    {
        let ghost s = t@.skip(i as int);
        match binding_at(&t, i, bindings) {
            Some((n, text)) => {
                let ghost before = out@;
                extend_chars(&mut out, text.as_str());
                proof {
                    assert(s.subrange(2, n + 2) =~= t@.subrange(i + 2, i + n + 2));
                    assert(s.skip(n + 3) =~= t@.skip(i + n + 3));
                    assert(before + (text@ + substitute(s.skip(n + 3), m)) =~= (before + text@)
                        + substitute(s.skip(n + 3), m));
                }
                i = i + n + 3;
            },
            None => {
                let opens = t.len() - i >= 3 && t[i] == '~' && t[i + 1] == '{' && match close {
                    Some(l) => l >= i + 2,
                    None => false,
                };
                proof {
                    if opens {
                        let l = close->0;
                        assert(s[l - i] == '}');
                    }
                    if opens_placeholder(s) {
                        let j = choose|j: int| 2 <= j < s.len() && s[j] == '}';
                        assert(t@[i + j] == '}');
                    }
                    assert(opens == opens_placeholder(s));
                }
                let ghost before = out@;
                out.push(t[i]);
                proof {
                    assert(s.skip(1) =~= t@.skip(i + 1));
                    assert(before + (seq![s[0]] + substitute(s.skip(1), m)) =~= before.push(s[0])
                        + substitute(s.skip(1), m));
                }
                if opens {
                    unbound = true;
                }
                i = i + 1;
            },
        }
    }
    proof {
        assert(out@ + Seq::<char>::empty() =~= out@);
    }
    (string_of(&out), unbound)
}

/// Substitutes the placeholders of `s` with the values that `substitutions`
/// binds to their names. Placeholders of names that are not bound stay.
pub fn substitute_placeholders(s: &str, substitutions: &Bindings) -> (r: String)
    ensures
        r@ == substitute(s@, substitutions@),
{
    expand(s, substitutions).0
}

impl Config {
    /// The bindings with which `submit_command` renders: `substitutions`,
    /// and the defaults of the configuration for `cpu` and `ram` where
    /// `substitutions` does not bind these names.
    pub open spec fn with_defaults(&self, substitutions: Map<Seq<char>, Seq<char>>) -> Map<
        Seq<char>,
        Seq<char>,
    > {
        let with_cpu = match self.default_cpu {
            Some(cpu) if !substitutions.dom().contains("cpu"@) => substitutions.insert(
                "cpu"@,
                decimal(cpu as nat),
            ),
            _ => substitutions,
        };
        match self.default_ram {
            Some(ram) if !with_cpu.dom().contains("ram"@) => with_cpu.insert(
                "ram"@,
                decimal(ram as nat),
            ),
            _ => with_cpu,
        }
    }

    /// Fills `substitutions` with the defaults of the configuration, where
    /// they are not set already, and renders the submit command of a generic
    /// backend with them. A backend of another kind has no submit command.
    pub fn submit_command(&self, substitutions: &mut Bindings) -> (r: Option<String>)
        ensures
            final(substitutions)@ == self.with_defaults(old(substitutions)@),
            match self.kind {
                BackendType::Generic(generic) => r is Some && r->0@ == substitute(
                    generic.submit@,
                    final(substitutions)@,
                ),
                BackendType::Docker(_) => r is None,
            },
    {
        if let Some(cpu) = self.default_cpu {
            substitutions.or_insert(String::from_str("cpu"), decimal_string(cpu as u128));
        }
        if let Some(ram) = self.default_ram {
            substitutions.or_insert(String::from_str("ram"), decimal_string(ram as u128));
        }
        match &self.kind {
            BackendType::Generic(generic) => Some(
                substitute_placeholders(generic.submit.as_str(), substitutions),
            ),
            BackendType::Docker(_) => None,
        }
    }
}

} // verus!
