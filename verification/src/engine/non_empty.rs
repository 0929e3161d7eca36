//! Non-empty sequences: the `NonEmpty` vector and what the engine needs of it.

use vstd::prelude::*;
use nonempty::NonEmpty;

verus! {

/// `nonempty::NonEmpty`: a first item and a vector of the items behind it.
/// Both fields are public, so they are read as they stand.
#[verifier::external_type_specification]
#[verifier::reject_recursive_types(T)]
pub struct ExNonEmpty<T>(NonEmpty<T>);

/// The items of a non-empty vector, in order.
pub open spec fn items<T>(ne: NonEmpty<T>) -> Seq<T> {
    seq![ne.head] + ne.tail@
}

/// `NonEmpty::new` makes the vector that holds `e` alone.
pub assume_specification<T>[ NonEmpty::<T>::new ](e: T) -> (r: NonEmpty<T>)
    ensures
        r.head == e,
        r.tail@ == Seq::<T>::empty(),
;

/// `NonEmpty::push` appends `e` to the tail.
pub assume_specification<T>[ NonEmpty::<T>::push ](ne: &mut NonEmpty<T>, e: T)
    ensures
        final(ne).head == old(ne).head,
        final(ne).tail@ == old(ne).tail@.push(e),
;

/// Appends `item` to an optional non-empty vector, which starts one where
/// there was none.
pub fn push_onto<T>(list: Option<NonEmpty<T>>, item: T) -> (r: NonEmpty<T>)
    ensures
        items(r) == match list {
            Some(before) => items(before).push(item),
            None => seq![item],
        },
{
    match list {
        Some(mut before) => {
            before.push(item);
            assert(items(before) =~= items(list->0).push(item));
            before
        },
        None => {
            let r = NonEmpty::new(item);
            assert(items(r) =~= seq![item]);
            r
        },
    }
}

/// The items of an optional non-empty vector: none where there is no vector.
pub open spec fn optional_items<T>(list: Option<NonEmpty<T>>) -> Seq<T> {
    match list {
        Some(ne) => items(ne),
        None => Seq::empty(),
    }
}

/// Appends `more` to an optional non-empty vector. With nothing before and
/// nothing to append there is still no vector.
pub fn extend_with<T>(list: Option<NonEmpty<T>>, more: Vec<T>) -> (r: Option<NonEmpty<T>>)
    ensures
        optional_items(r) == optional_items(list) + more@,
        r is None <==> list is None && more@.len() == 0,
{
    let ghost all = more@;
    let mut out = list;
    assert(optional_items(out) + Seq::<T>::empty() =~= optional_items(out));
    for item in it: more
        invariant
            it.seq() == all,
            optional_items(out) == optional_items(list) + all.take(it.index() as int),
            out is None <==> list is None && it.index() == 0,
    {
        let ghost taken = it.index() as int;
        let ghost before = optional_items(out);
        out = Some(push_onto(out, item));
        assert(optional_items(out) =~= before.push(item));
        assert(all.take(taken + 1) =~= all.take(taken).push(item));
        assert(optional_items(list) + all.take(taken + 1) =~= (optional_items(list) + all.take(
            taken,
        )).push(item));
    }
    assert(all.take(all.len() as int) =~= all);
    out
}

/// The texts of a non-empty vector of strings, in order.
pub open spec fn texts(ne: NonEmpty<String>) -> Seq<Seq<char>> {
    items(ne).map_values(|s: String| s@)
}

/// The texts of a vector of strings, in order.
pub open spec fn vec_texts(v: Seq<String>) -> Seq<Seq<char>> {
    v.map_values(|s: String| s@)
}

/// The texts of an optional non-empty vector of strings.
pub open spec fn optional_texts(list: Option<NonEmpty<String>>) -> Option<Seq<Seq<char>>> {
    match list {
        Some(ne) => Some(texts(ne)),
        None => None,
    }
}

/// The text of an optional string.
pub open spec fn optional_text(s: Option<String>) -> Option<Seq<char>> {
    match s {
        Some(s) => Some(s@),
        None => None,
    }
}

/// The item of a non-empty vector at `i`. An index out of range gives none.
pub fn item_at<T>(ne: &NonEmpty<T>, i: usize) -> (r: Option<&T>)
    ensures
        match r {
            Some(item) => i < items(*ne).len() && *item == items(*ne)[i as int],
            None => i >= items(*ne).len(),
        },
{
    if i == 0 {
        Some(&ne.head)
    } else if i - 1 < ne.tail.len() {
        Some(&ne.tail[i - 1])
    } else {
        None
    }
}

/// A copy of a non-empty vector of strings.
pub fn clone_texts(ne: &NonEmpty<String>) -> (r: NonEmpty<String>)
    ensures
        texts(r) == texts(*ne),
{
    let mut r = NonEmpty::new(ne.head.clone());
    let mut i: usize = 0;
    while i < ne.tail.len()
        invariant
            i <= ne.tail.len(),
            r.head@ == ne.head@,
            r.tail@.len() == i,
            forall|j: int| 0 <= j < i ==> r.tail@[j]@ == ne.tail@[j]@,
        decreases ne.tail.len() - i,
    {
        r.push(ne.tail[i].clone());
        i += 1;
    }
    assert(texts(r) =~= texts(*ne));
    r
}

/// References to the items of a non-empty vector, in order.
pub fn refs<T>(ne: &NonEmpty<T>) -> (r: Vec<&T>)
    ensures
        r@.len() == items(*ne).len(),
        forall|i: int| 0 <= i < r@.len() ==> *(#[trigger] r@[i]) == items(*ne)[i],
{
    let mut out: Vec<&T> = Vec::new();
    out.push(&ne.head);
    let mut i: usize = 0;
    while i < ne.tail.len()
        invariant
            i <= ne.tail.len(),
            out@.len() == i + 1,
            *out@[0] == ne.head,
            forall|j: int| 0 <= j < i ==> *(#[trigger] out@[j + 1]) == ne.tail@[j],
        decreases ne.tail.len() - i,
    {
        out.push(&ne.tail[i]);
        i += 1;
    }
    proof {
        assert forall|k: int| 0 <= k < out@.len() implies *(#[trigger] out@[k]) == items(
            *ne,
        )[k] by {
            if k > 0 {
                assert(*out@[(k - 1) + 1] == ne.tail@[k - 1]);
            }
        }
    }
    out
}

/// A copy of a non-empty vector: each item of the copy is a clone of the
/// item in its place.
pub fn clone_items<T: Clone>(ne: &NonEmpty<T>) -> (r: NonEmpty<T>)
    ensures
        items(r).len() == items(*ne).len(),
        forall|i: int| 0 <= i < items(r).len() ==> cloned::<T>(items(*ne)[i], #[trigger] items(r)[i]),
{
    let mut r = NonEmpty::new(ne.head.clone());
    let mut i: usize = 0;
    while i < ne.tail.len()
        invariant
            i <= ne.tail.len(),
            cloned::<T>(ne.head, r.head),
            r.tail@.len() == i,
            forall|j: int| 0 <= j < i ==> cloned::<T>(ne.tail@[j], #[trigger] r.tail@[j]),
        decreases ne.tail.len() - i,
    {
        r.push(ne.tail[i].clone());
        i += 1;
    }
    proof {
        assert forall|k: int| 0 <= k < items(r).len() implies cloned::<T>(
            items(*ne)[k],
            #[trigger] items(r)[k],
        ) by {
            if k > 0 {
                assert(cloned::<T>(ne.tail@[k - 1], r.tail@[k - 1]));
            }
        }
    }
    r
}

/// Copies of the strings of a non-empty vector, in order.
pub fn to_strings(list: &NonEmpty<String>) -> (r: Vec<String>)
    ensures
        vec_texts(r@) == texts(*list),
{
    let all = refs(list);
    let mut out: Vec<String> = Vec::new();
    let mut i: usize = 0;
    while i < all.len()
        invariant
            i <= all.len(),
            out@.len() == i,
            forall|j: int| 0 <= j < i ==> (#[trigger] out@[j])@ == all@[j]@,
        decreases all.len() - i,
    {
        out.push(all[i].clone());
        i += 1;
    }
    assert(vec_texts(out@) =~= texts(*list));
    out
}

} // verus!
