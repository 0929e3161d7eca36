//! Whitespace handling for the text of commands: removal of line
//! continuations and of the indentation that all lines share.

use vstd::prelude::*;
use crate::text::{chars_of, join, string_of};

verus! {

/// A space or a tab.
pub open spec fn is_blank(c: char) -> bool {
    c == ' ' || c == '\t'
}

/// The number of blanks with which `s` begins.
pub open spec fn blanks(s: Seq<char>) -> int
    decreases s.len(),
{
    if s.len() > 0 && is_blank(s[0]) {
        1 + blanks(s.skip(1))
    } else {
        0
    }
}

/// The number of characters of `s` before its first newline.
pub open spec fn line_len(s: Seq<char>) -> int
    decreases s.len(),
{
    if s.len() > 0 && s[0] != '\n' {
        1 + line_len(s.skip(1))
    } else {
        0
    }
}

/// What `remove_line_continuations` makes of `s`. A character other than a
/// backslash is kept. A backslash takes the character behind it away; where
/// that character is a newline, the blanks that follow go too, and the first
/// character behind them is put in front of the backslash.
pub open spec fn without_continuations(s: Seq<char>) -> Seq<char>
    decreases s.len(),
{
    if s.len() == 0 {
        s
    } else if s[0] != '\\' {
        seq![s[0]] + without_continuations(s.skip(1))
    } else if s.len() == 1 {
        seq!['\\']
    } else if s[1] != '\n' {
        seq!['\\'] + without_continuations(s.skip(2))
    } else {
        let b = blanks(s.skip(2));
        proof {
            lemma_blanks_bounds(s.skip(2));
        }
        if 2 + b < s.len() {
            seq![s[2 + b], '\\'] + without_continuations(s.skip(3 + b))
        } else {
            seq!['\\']
        }
    }
}

/// The blanks at the start of `s` are blanks, and what follows them is none.
pub proof fn lemma_blanks_bounds(s: Seq<char>)
    ensures
        0 <= blanks(s) <= s.len(),
        forall|j: int| 0 <= j < blanks(s) ==> is_blank(#[trigger] s[j]),
        blanks(s) < s.len() ==> !is_blank(s[blanks(s)]),
    decreases s.len(),
{
    if s.len() > 0 && is_blank(s[0]) {
        lemma_blanks_bounds(s.skip(1));
        assert forall|j: int| 0 <= j < blanks(s) implies is_blank(#[trigger] s[j]) by {
            if j > 0 {
                assert(s[j] == s.skip(1)[j - 1]);
            }
        }
    }
}

/// The first line of `s` holds no newline and ends at one or at the end.
pub proof fn lemma_line_len_bounds(s: Seq<char>)
    ensures
        0 <= line_len(s) <= s.len(),
        forall|j: int| 0 <= j < line_len(s) ==> #[trigger] s[j] != '\n',
        line_len(s) < s.len() ==> s[line_len(s)] == '\n',
    decreases s.len(),
{
    if s.len() > 0 && s[0] != '\n' {
        lemma_line_len_bounds(s.skip(1));
        assert forall|j: int| 0 <= j < line_len(s) implies #[trigger] s[j] != '\n' by {
            if j > 0 {
                assert(s[j] == s.skip(1)[j - 1]);
            }
        }
    }
}

/// Counts the blanks of `t` from `from` on.
fn count_blanks(t: &Vec<char>, from: usize) -> (k: usize)
    requires
        from <= t.len(),
    ensures
        from <= k <= t.len(),
        k - from == blanks(t@.skip(from as int)),
{
    let mut k: usize = from;
    while k < t.len() && (t[k] == ' ' || t[k] == '\t')
        invariant
            from <= k <= t.len(),
            blanks(t@.skip(from as int)) == (k - from) + blanks(t@.skip(k as int)),
        decreases t.len() - k,
    {
        assert(t@.skip(k as int).skip(1) =~= t@.skip(k + 1));
        k += 1;
    }
    k
}

/// Finds the end of the line of `t` that holds index `from`: the index of the
/// next newline, or the length of `t`.
fn line_end(t: &Vec<char>, from: usize) -> (e: usize)
    requires
        from <= t.len(),
    ensures
        from <= e <= t.len(),
        e - from == line_len(t@.skip(from as int)),
{
    let mut e: usize = from;
    while e < t.len() && t[e] != '\n'
        invariant
            from <= e <= t.len(),
            line_len(t@.skip(from as int)) == (e - from) + line_len(t@.skip(e as int)),
        decreases t.len() - e,
    {
        assert(t@.skip(e as int).skip(1) =~= t@.skip(e + 1));
        e += 1;
    }
    e
}

/// Removes line continuations from `s`, as `without_continuations` says.
pub fn remove_line_continuations(s: &str) -> (r: String)
    ensures
        r@ == without_continuations(s@),
{
    let t = chars_of(s);
    let mut out: Vec<char> = Vec::new();
    let mut i: usize = 0;
    assert(t@.skip(0) =~= t@);
    while i < t.len()
        invariant
            i <= t.len(),
            out@ + without_continuations(t@.skip(i as int)) == without_continuations(t@),
        decreases t.len() - i,
    {
        let ghost rest = t@.skip(i as int);
        let ghost before = out@;
        let c = t[i];
        if c != '\\' {
            out.push(c);
            proof {
                assert(rest.skip(1) =~= t@.skip(i + 1));
                assert(before + (seq![c] + without_continuations(rest.skip(1))) =~= before.push(c)
                    + without_continuations(rest.skip(1)));
            }
            i += 1;
        } else if t.len() - i == 1 {
            out.push(c);
            proof {
                assert(t@.skip(i + 1) =~= Seq::<char>::empty());
                assert(before + seq!['\\'] =~= before.push(c) + without_continuations(
                    t@.skip(i + 1),
                ));
            }
            i += 1;
        } else if t[i + 1] != '\n' {
            out.push(c);
            proof {
                assert(rest.skip(2) =~= t@.skip(i + 2));
                assert(before + (seq!['\\'] + without_continuations(rest.skip(2))) =~= before.push(
                    c,
                ) + without_continuations(rest.skip(2)));
            }
            i += 2;
        } else {
            let k = count_blanks(&t, i + 2);
            proof {
                assert(rest.skip(2) =~= t@.skip(i + 2));
            }
            if k < t.len() {
                out.push(t[k]);
                out.push(c);
                proof {
                    let b = blanks(rest.skip(2));
                    assert(rest[2 + b] == t@[k as int]);
                    assert(rest.skip(3 + b) =~= t@.skip(k + 1));
                    assert(before + (seq![t@[k as int], '\\'] + without_continuations(
                        rest.skip(3 + b),
                    )) =~= before.push(t@[k as int]).push(c) + without_continuations(
                        rest.skip(3 + b),
                    ));
                }
                i = k + 1;
            } else {
                out.push(c);
                proof {
                    assert(t@.skip(t.len() as int) =~= Seq::<char>::empty());
                    assert(before + seq!['\\'] =~= before.push(c) + without_continuations(
                        t@.skip(t.len() as int),
                    ));
                }
                i = t.len();
            }
        }
    }
    proof {
        assert(out@ + Seq::<char>::empty() =~= out@);
    }
    string_of(&out)
}

/// The smaller of two optional numbers, where an absent one does not count.
pub open spec fn least(a: Option<int>, b: Option<int>) -> Option<int> {
    match (a, b) {
        (Some(x), Some(y)) => if x <= y {
            a
        } else {
            b
        },
        (Some(_), None) => a,
        (None, _) => b,
    }
}

/// The number of blanks in front of the first line of `s`, if that line holds
/// anything but blanks.
pub open spec fn line_indent(s: Seq<char>) -> Option<int> {
    if blanks(s) < line_len(s) {
        Some(blanks(s))
    } else {
        None
    }
}

/// The least indentation among the lines of `s` that hold anything but
/// blanks, if there is such a line.
pub open spec fn min_indent(s: Seq<char>) -> Option<int>
    decreases s.len(),
{
    if s.len() == 0 {
        None
    } else {
        let n = line_len(s);
        proof {
            lemma_line_len_bounds(s);
        }
        if n < s.len() {
            least(line_indent(s), min_indent(s.skip(n + 1)))
        } else {
            line_indent(s)
        }
    }
}

/// The indentation that all lines of `s` share: the least number of leading
/// blanks among the lines that hold anything but blanks, and 0 where there is
/// no such line.
pub open spec fn leading_whitespace(s: Seq<char>) -> int {
    match min_indent(s) {
        Some(n) => n,
        None => 0,
    }
}

/// Computes the indentation that all lines of `s` share.
pub fn calculate_leading_whitespace(s: &str) -> (n: usize)
    ensures
        n == leading_whitespace(s@),
{
    let t = chars_of(s);
    let mut best: Option<usize> = None;
    let mut start: usize = 0;
    assert(t@.skip(0) =~= t@);
    while start < t.len()
        invariant
            start <= t.len(),
            least(
                match best {
                    Some(b) => Some(b as int),
                    None => None,
                },
                min_indent(t@.skip(start as int)),
            ) == min_indent(t@),
        decreases t.len() - start,
    {
        let ghost rest = t@.skip(start as int);
        let k = count_blanks(&t, start);
        let e = line_end(&t, start);
        proof {
            lemma_line_len_bounds(rest);
            lemma_blanks_bounds(rest);
        }
        if k < e {
            let here = k - start;
            best = match best {
                Some(b) => if b <= here {
                    Some(b)
                } else {
                    Some(here)
                },
                None => Some(here),
            };
        }
        if e < t.len() {
            assert(rest.skip(e - start + 1) =~= t@.skip(e + 1));
            start = e + 1;
        } else {
            assert(min_indent(t@.skip(t.len() as int)) is None);
            start = e;
        }
    }
    match best {
        Some(b) => b,
        None => 0,
    }
}

/// The first line of `s`: what stands before the first newline, without a
/// carriage return that stands just before that newline.
pub open spec fn first_line(s: Seq<char>) -> Seq<char> {
    let n = line_len(s);
    if n < s.len() && n > 0 && s[n - 1] == '\r' {
        s.take(n - 1)
    } else {
        s.take(n)
    }
}

/// The lines of `s`. A newline ends a line, and so does a carriage return
/// followed by a newline; the last line needs no ending.
pub open spec fn lines(s: Seq<char>) -> Seq<Seq<char>>
    decreases s.len(),
{
    if s.len() == 0 {
        Seq::empty()
    } else {
        let n = line_len(s);
        proof {
            lemma_line_len_bounds(s);
        }
        if n < s.len() {
            seq![first_line(s)] + lines(s.skip(n + 1))
        } else {
            seq![first_line(s)]
        }
    }
}

/// `line` without its first `n` characters, and nothing where it is shorter.
pub open spec fn dedent(line: Seq<char>, n: int) -> Seq<char> {
    if line.len() >= n {
        line.skip(n)
    } else {
        Seq::empty()
    }
}

/// The lines of `s`, each without its first `n` characters, joined by
/// newlines.
pub open spec fn dedent_lines(s: Seq<char>, n: int) -> Seq<char> {
    join(lines(s).map_values(|line: Seq<char>| dedent(line, n)), seq!['\n'])
}

/// What `strip_leading_whitespace` makes of `s`.
pub open spec fn stripped(s: Seq<char>, command: bool) -> Seq<char> {
    let text = if command {
        s
    } else {
        without_continuations(s)
    };
    dedent_lines(text, leading_whitespace(text))
}

/// Takes the first `n` characters from each line of `t` and joins the lines
/// with newlines.
fn dedent_text(t: &Vec<char>, n: usize) -> (out: Vec<char>)
    ensures
        out@ == dedent_lines(t@, n as int),
{
    let mut out: Vec<char> = Vec::new();
    let mut start: usize = 0;
    let mut first = true;
    let ghost mut done: Seq<Seq<char>> = Seq::empty();
    let ghost cut = |line: Seq<char>| dedent(line, n as int);
    assert(t@.skip(0) =~= t@);
    assert(done + lines(t@.skip(0)) =~= lines(t@));
    assert(done.map_values(cut) =~= Seq::<Seq<char>>::empty());
    while start < t.len()
        invariant
            start <= t.len(),
            cut == |line: Seq<char>| dedent(line, n as int),
            done + lines(t@.skip(start as int)) == lines(t@),
            first == (done.len() == 0),
            out@ == join(done.map_values(cut), seq!['\n']),
        decreases t.len() - start,
    {
        let ghost rest = t@.skip(start as int);
        let e = line_end(&t, start);
        proof {
            lemma_line_len_bounds(rest);
        }
        let stop = if e < t.len() && e > start && t[e - 1] == '\r' {
            e - 1
        } else {
            e
        };
        let ghost line = first_line(rest);
        proof {
            assert(line =~= t@.subrange(start as int, stop as int));
        }
        let ghost before = out@;
        if !first {
            out.push('\n');
        }
        if stop - start >= n {
            let mut j: usize = start + n;
            while j < stop
                invariant
                    start + n <= j <= stop <= t.len(),
                    out@ == (if first {
                        before
                    } else {
                        before.push('\n')
                    }) + t@.subrange(start + n, j as int),
                decreases stop - j,
            {
                out.push(t[j]);
                assert(t@.subrange(start + n, j + 1) =~= t@.subrange(start + n, j as int).push(
                    t@[j as int],
                ));
                j += 1;
            }
            assert(dedent(line, n as int) =~= t@.subrange(start + n, stop as int));
        }
        proof {
            let grown = done.push(line);
            assert(grown.map_values(cut) =~= done.map_values(cut).push(dedent(line, n as int)));
            assert(grown.map_values(cut).drop_last() =~= done.map_values(cut));
            if first {
                assert(out@ =~= dedent(line, n as int));
            } else {
                assert(out@ =~= before + seq!['\n'] + dedent(line, n as int));
            }
            if e < t.len() {
                assert(rest.skip(e - start + 1) =~= t@.skip(e + 1));
                assert(grown + lines(t@.skip(e + 1)) =~= done + lines(rest));
            } else {
                assert(lines(t@.skip(t.len() as int)) =~= Seq::<Seq<char>>::empty());
                assert(grown + lines(t@.skip(t.len() as int)) =~= done + lines(rest));
            }
            done = grown;
        }
        first = false;
        if e < t.len() {
            start = e + 1;
        } else {
            start = e;
        }
    }
    proof {
        assert(lines(t@.skip(t.len() as int)) =~= Seq::<Seq<char>>::empty());
        assert(done =~= lines(t@));
    }
    out
}

/// Strips from `s` the indentation that all of its lines share. Outside a
/// command, line continuations are removed first.
pub fn strip_leading_whitespace(s: &str, command: bool) -> (r: String)
    ensures
        r@ == stripped(s@, command),
{
    let owned = if command {
        s.to_owned()
    } else {
        remove_line_continuations(s)
    };
    let leading = calculate_leading_whitespace(owned.as_str());
    let t = chars_of(owned.as_str());
    let out = dedent_text(&t, leading);
    string_of(&out)
}

} // verus!
