//! Laws of the substitution of placeholders.

use vstd::prelude::*;
use crate::engine::service::runner::backend::config::{
    binds_len, bound_here, distinct_names, lemma_pairs_map_dom, lemma_pairs_map_value,
    lemma_shortest_from, pairs_map, placeholder, substitute,
};
use crate::text::occurs_at;

verus! {

/// Bindings given as pairs with distinct names make the same map in whatever
/// order the pairs come.
pub proof fn lemma_pairs_map_permutation(
    a: Seq<(Seq<char>, Seq<char>)>,
    b: Seq<(Seq<char>, Seq<char>)>,
)
    requires
        distinct_names(a),
        distinct_names(b),
        a.to_multiset() == b.to_multiset(),
    ensures
        pairs_map(a) == pairs_map(b),
{
    let ma = pairs_map(a);
    let mb = pairs_map(b);
    assert forall|name: Seq<char>| #[trigger] ma.dom().contains(name) == mb.dom().contains(
        name,
    ) by {
        if ma.dom().contains(name) {
            lemma_same_binding(a, b, name);
        }
        if mb.dom().contains(name) {
            lemma_same_binding(b, a, name);
        }
    }
    assert forall|name: Seq<char>| ma.dom().contains(name) implies #[trigger] ma[name]
        == mb[name] by {
        lemma_same_binding(a, b, name);
    }
    assert(ma.dom() =~= mb.dom());
    assert(ma =~= mb);
}

/// What one sequence of bindings with distinct names binds, a permutation of
/// it binds to the same text.
proof fn lemma_same_binding(
    a: Seq<(Seq<char>, Seq<char>)>,
    b: Seq<(Seq<char>, Seq<char>)>,
    name: Seq<char>,
)
    requires
        distinct_names(a),
        distinct_names(b),
        a.to_multiset() == b.to_multiset(),
        pairs_map(a).dom().contains(name),
    ensures
        pairs_map(b).dom().contains(name),
        pairs_map(a)[name] == pairs_map(b)[name],
{
    a.to_multiset_ensures();
    b.to_multiset_ensures();
    lemma_pairs_map_dom(a, name);
    let i = choose|i: int| 0 <= i < a.len() && (#[trigger] a[i]).0 == name;
    lemma_pairs_map_value(a, i);
    assert(a.contains(a[i]));
    assert(a.to_multiset().count(a[i]) > 0);
    assert(b.to_multiset().count(a[i]) > 0);
    assert(b.contains(a[i]));
    let j = choose|j: int| 0 <= j < b.len() && b[j] == a[i];
    lemma_pairs_map_value(b, j);
}

/// Substitution does not depend on the order of the bindings: where two
/// sequences of bindings with distinct names are permutations of each other,
/// they give every template the same text.
pub proof fn lemma_substitute_order_independent(
    s: Seq<char>,
    a: Seq<(Seq<char>, Seq<char>)>,
    b: Seq<(Seq<char>, Seq<char>)>,
)
    requires
        distinct_names(a),
        distinct_names(b),
        a.to_multiset() == b.to_multiset(),
    ensures
        substitute(s, pairs_map(a)) == substitute(s, pairs_map(b)),
{
    lemma_pairs_map_permutation(a, b);
}

/// No placeholder of a bound name stands anywhere in `s`.
pub open spec fn settled(s: Seq<char>, m: Map<Seq<char>, Seq<char>>) -> bool {
    forall|i: int| 0 <= i < s.len() ==> (#[trigger] bound_here(s.skip(i), m)) is None
}

/// A text in which no placeholder of a bound name stands is left as it is.
pub proof fn lemma_settled_is_fixed(s: Seq<char>, m: Map<Seq<char>, Seq<char>>)
    requires
        settled(s, m),
    ensures
        substitute(s, m) == s,
    decreases s.len(),
{
    if s.len() > 0 {
        assert(s.skip(0) =~= s);
        assert(bound_here(s.skip(0), m) is None);
        let rest = s.skip(1);
        assert forall|i: int| 0 <= i < rest.len() implies (#[trigger] bound_here(
            rest.skip(i),
            m,
        )) is None by {
            assert(rest.skip(i) =~= s.skip(i + 1));
        }
        lemma_settled_is_fixed(rest, m);
        assert(seq![s[0]] + rest =~= s);
    }
}

/// A text that can begin no placeholder with what stands around it: it is
/// not empty, does not begin with `{`, does not end in `~` and does not hold
/// `~{`.
pub open spec fn tame(v: Seq<char>) -> bool {
    &&& v.len() > 0
    &&& v[0] != '{'
    &&& v[v.len() - 1] != '~'
    &&& forall|j: int| 0 <= j < v.len() - 1 ==> !(#[trigger] v[j] == '~' && v[j + 1] == '{')
}

/// Whether the `}` at `j` in `v` can end the placeholder of `name`: what
/// stands before it in `v` is what `name` ends with.
pub open spec fn closes(v: Seq<char>, j: int, name: Seq<char>) -> bool {
    &&& 0 <= j < v.len()
    &&& v[j] == '}'
    &&& j <= name.len()
    &&& v.take(j) == name.skip(name.len() - j)
}

/// The texts that `m` binds are tame, none of them stands within a name
/// that `m` binds, and none holds a `}` that can end the placeholder of a
/// name that `m` binds.
pub open spec fn inert(m: Map<Seq<char>, Seq<char>>) -> bool {
    &&& forall|a: Seq<char>| m.dom().contains(a) ==> tame(#[trigger] m[a])
    &&& forall|a: Seq<char>, b: Seq<char>, j: int|
        m.dom().contains(a) && m.dom().contains(b) ==> !#[trigger] occurs_at(b, j, m[a])
    &&& forall|a: Seq<char>, b: Seq<char>, j: int|
        m.dom().contains(a) && m.dom().contains(b) ==> !#[trigger] closes(m[a], j, b)
}

/// None of the texts that `m` binds stands within `w`.
pub open spec fn free_of_values(w: Seq<char>, m: Map<Seq<char>, Seq<char>>) -> bool {
    forall|a: Seq<char>, j: int| m.dom().contains(a) ==> !#[trigger] occurs_at(w, j, m[a])
}

/// Whether `v` can stand over the end of `w`: from `c` on, `w` is the
/// beginning of `v`, and `v` goes on behind it.
pub open spec fn overhangs(w: Seq<char>, c: int, v: Seq<char>) -> bool {
    &&& 0 <= c < w.len()
    &&& v.len() > w.len() - c
    &&& v.take(w.len() - c) == w.skip(c)
}

/// None of the texts that `m` binds can stand over the end of `w`.
pub open spec fn free_of_overhang(w: Seq<char>, m: Map<Seq<char>, Seq<char>>) -> bool {
    forall|a: Seq<char>, c: int| m.dom().contains(a) ==> !#[trigger] overhangs(w, c, m[a])
}

/// Where the substitution of `t` begins with a text `w` within which no bound
/// text stands and over whose end none can stand, `t` begins with `w` too: no
/// part of `w` was put in for a placeholder.
proof fn lemma_prefix_is_copied(t: Seq<char>, m: Map<Seq<char>, Seq<char>>, w: Seq<char>)
    requires
        free_of_values(w, m),
        free_of_overhang(w, m),
        w.is_prefix_of(substitute(t, m)),
    ensures
        w.is_prefix_of(t),
    decreases w.len(),
{
    if w.len() > 0 {
        let out = substitute(t, m);
        assert(t.len() > 0);
        lemma_shortest_from(t, m, 0);
        match bound_here(t, m) {
            Some(n) => {
                let name = t.subrange(2, n + 2);
                let v = m[name];
                assert(out == v + substitute(t.skip(n + 3), m));
                if v.len() <= w.len() {
                    assert(w.subrange(0, v.len() as int) =~= v);
                    assert(occurs_at(w, 0, v));
                } else {
                    assert(w.skip(0) =~= w);
                    assert(v.take(w.len() as int) =~= w);
                    assert(overhangs(w, 0, v));
                }
                assert(false);
            },
            None => {
                let rest = t.skip(1);
                assert(out == seq![t[0]] + substitute(rest, m));
                let tail = w.skip(1);
                assert(w[0] == out[0]);
                assert(tail.is_prefix_of(substitute(rest, m))) by {
                    assert(tail =~= substitute(rest, m).subrange(0, tail.len() as int)) by {
                        assert forall|i: int| 0 <= i < tail.len() implies tail[i] == substitute(
                            rest,
                            m,
                        )[i] by {
                            assert(w[i + 1] == out[i + 1]);
                        }
                    }
                }
                assert(free_of_values(tail, m)) by {
                    assert forall|a: Seq<char>, j: int| m.dom().contains(a) implies !#[trigger] occurs_at(
                        tail,
                        j,
                        m[a],
                    ) by {
                        if occurs_at(tail, j, m[a]) {
                            assert(w.subrange(j + 1, j + 1 + m[a].len()) =~= tail.subrange(
                                j,
                                j + m[a].len(),
                            ));
                            assert(occurs_at(w, j + 1, m[a]));
                        }
                    }
                }
                assert(free_of_overhang(tail, m)) by {
                    assert forall|a: Seq<char>, c: int| m.dom().contains(a) implies !#[trigger] overhangs(
                        tail,
                        c,
                        m[a],
                    ) by {
                        if overhangs(tail, c, m[a]) {
                            assert(w.skip(c + 1) =~= tail.skip(c));
                            assert(overhangs(w, c + 1, m[a]));
                        }
                    }
                }
                lemma_prefix_is_copied(rest, m, tail);
                assert(w =~= t.subrange(0, w.len() as int)) by {
                    assert forall|i: int| 0 <= i < w.len() implies w[i] == t[i] by {
                        if i > 0 {
                            assert(tail[i - 1] == rest[i - 1]);
                        }
                    }
                }
            },
        }
    }
}

/// Within the placeholder of a bound name, behind its `~`, no bound text
/// stands and over its end none can stand, where the bindings are inert.
proof fn lemma_frame_is_free(m: Map<Seq<char>, Seq<char>>, name: Seq<char>)
    requires
        inert(m),
        m.dom().contains(name),
    ensures
        free_of_values(seq!['{'] + name + seq!['}'], m),
        free_of_overhang(seq!['{'] + name + seq!['}'], m),
{
    let w = seq!['{'] + name + seq!['}'];
    assert forall|a: Seq<char>, j: int| m.dom().contains(a) implies !#[trigger] occurs_at(
        w,
        j,
        m[a],
    ) by {
        let v = m[a];
        if occurs_at(w, j, v) {
            assert(tame(v));
            let found = w.subrange(j, j + v.len());
            if j == 0 {
                assert(found[0] == w[0]);
            } else if j + v.len() == w.len() {
                let last = v.len() - 1;
                assert(found[last] == w[w.len() - 1]);
                assert(v.take(last) =~= name.skip(name.len() - last)) by {
                    assert forall|i: int| 0 <= i < last implies v.take(last)[i] == name.skip(
                        name.len() - last,
                    )[i] by {
                        assert(found[i] == w[j + i]);
                    }
                }
                assert(closes(v, last, name));
            } else {
                assert(name.subrange(j - 1, j - 1 + v.len()) =~= found);
                assert(occurs_at(name, j - 1, v));
            }
        }
    }
    assert forall|a: Seq<char>, c: int| m.dom().contains(a) implies !#[trigger] overhangs(
        w,
        c,
        m[a],
    ) by {
        let v = m[a];
        if overhangs(w, c, v) {
            assert(tame(v));
            let part = v.take(w.len() - c);
            if c == 0 {
                assert(part[0] == w.skip(0)[0]);
            } else {
                let at = w.len() - 1 - c;
                assert(part[at] == w.skip(c)[at]);
                assert(v.take(at) =~= name.skip(name.len() - at)) by {
                    assert forall|i: int| 0 <= i < at implies v.take(at)[i] == name.skip(
                        name.len() - at,
                    )[i] by {
                        assert(part[i] == w.skip(c)[i]);
                    }
                }
                assert(closes(v, at, name));
            }
        }
    }
}

/// With inert bindings, no placeholder of a bound name stands in what
/// substitution gives.
pub proof fn lemma_substitute_settles(s: Seq<char>, m: Map<Seq<char>, Seq<char>>)
    requires
        inert(m),
    ensures
        settled(substitute(s, m), m),
    decreases s.len(),
{
    let out = substitute(s, m);
    if s.len() > 0 {
        lemma_shortest_from(s, m, 0);
        match bound_here(s, m) {
            Some(n) => {
                let v = m[s.subrange(2, n + 2)];
                let rest = s.skip(n + 3);
                lemma_substitute_settles(rest, m);
                assert(tame(v));
                assert forall|p: int| 0 <= p < out.len() implies (#[trigger] bound_here(
                    out.skip(p),
                    m,
                )) is None by {
                    lemma_shortest_from(out.skip(p), m, 0);
                    if p < v.len() {
                        assert(out.skip(p)[0] == v[p]);
                        if p + 1 < v.len() {
                            assert(out.skip(p)[1] == v[p + 1]);
                            assert(!(v[p] == '~' && v[p + 1] == '{'));
                        } else {
                            assert(v[p] == v[v.len() - 1]);
                        }
                    } else {
                        assert(out.skip(p) =~= substitute(rest, m).skip(p - v.len()));
                    }
                }
            },
            None => {
                let rest = s.skip(1);
                lemma_substitute_settles(rest, m);
                assert forall|p: int| 0 <= p < out.len() implies (#[trigger] bound_here(
                    out.skip(p),
                    m,
                )) is None by {
                    lemma_shortest_from(out.skip(p), m, 0);
                    if p > 0 {
                        assert(out.skip(p) =~= substitute(rest, m).skip(p - 1));
                    } else {
                        assert(out.skip(0) =~= out);
                        if bound_here(out, m) is Some {
                            let k = bound_here(out, m)->0;
                            assert(binds_len(out, m, k));
                            let name = out.subrange(2, k + 2);
                            let w = out.subrange(1, k + 3);
                            assert(w.last() == out[k + 2]);
                            assert(w.is_prefix_of(substitute(rest, m))) by {
                                assert(w =~= substitute(rest, m).subrange(0, w.len() as int));
                            }
                            assert(w =~= seq!['{'] + name + seq!['}']);
                            lemma_frame_is_free(m, name);
                            lemma_prefix_is_copied(rest, m, w);
                            assert(s.subrange(2, k + 2) =~= name) by {
                                assert forall|i: int| 0 <= i < k implies s[i + 2] == name[i] by {
                                    assert(w[i + 1] == rest[i + 1]);
                                }
                            }
                            assert(s[1] == '{') by {
                                assert(w[0] == rest[0]);
                            }
                            assert(s[k + 2] == '}') by {
                                assert(w[k + 1] == rest[k + 1]);
                            }
                            assert(s[0] == out[0]);
                            assert(binds_len(s, m, k));
                            assert(false);
                        }
                    }
                }
            },
        }
    }
}

/// Substituting twice gives what substituting once gives, where the bindings
/// are inert: every bound text is tame, no bound text stands within a bound
/// name, and no bound text holds a `}` that can end the placeholder of a
/// bound name.
pub proof fn lemma_substitute_idempotent(s: Seq<char>, m: Map<Seq<char>, Seq<char>>)
    requires
        inert(m),
    ensures
        substitute(substitute(s, m), m) == substitute(s, m),
{
    lemma_substitute_settles(s, m);
    lemma_settled_is_fixed(substitute(s, m), m);
}

} // verus!
