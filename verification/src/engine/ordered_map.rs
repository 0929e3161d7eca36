//! Insertion-ordered maps keyed by strings: `indexmap::IndexMap`, and what the
//! engine needs of it.

use vstd::prelude::*;
use indexmap::IndexMap;

verus! {

/// `indexmap::IndexMap`, a hash map that keeps its entries in the order in
/// which their keys were first inserted.
#[verifier::external_type_specification]
#[verifier::external_body]
#[verifier::reject_recursive_types(K)]
#[verifier::reject_recursive_types(V)]
#[verifier::reject_recursive_types(S)]
pub struct ExIndexMap<K, V, S>(IndexMap<K, V, S>);

/// The entries of a map from strings to strings, in the map's order.
pub uninterp spec fn text_entries(m: IndexMap<String, String>) -> Seq<(Seq<char>, Seq<char>)>;

/// The entries of a map from strings to indices, in the map's order.
pub uninterp spec fn index_entries(m: IndexMap<String, usize>) -> Seq<(Seq<char>, usize)>;

/// No entry has the key `key`.
pub open spec fn lacks<V>(entries: Seq<(Seq<char>, V)>, key: Seq<char>) -> bool {
    forall|i: int| 0 <= i < entries.len() ==> (#[trigger] entries[i]).0 != key
}

/// `after` is `before` with `value` put under `key`: in place of the value of
/// the entry that had the key, or as a new last entry where none had it.
pub open spec fn put<V>(
    before: Seq<(Seq<char>, V)>,
    key: Seq<char>,
    value: V,
    after: Seq<(Seq<char>, V)>,
) -> bool {
    if lacks(before, key) {
        after == before.push((key, value))
    } else {
        exists|i: int|
            0 <= i < before.len() && (#[trigger] before[i]).0 == key && after == before.update(
                i,
                (key, value),
            )
    }
}

/// `IndexMap::new`: a map without entries.
#[verifier::external_body]
pub(crate) fn new_text_map() -> (m: IndexMap<String, String>)
    ensures
        text_entries(m) == Seq::<(Seq<char>, Seq<char>)>::empty(),
{
    IndexMap::new()
}

/// `IndexMap::insert`: where the key is in the map, its entry stays in its
/// place and gets the new value; where it is not, the pair becomes the last
/// entry.
#[verifier::external_body]
pub(crate) fn insert_text(m: &mut IndexMap<String, String>, key: String, value: String)
    ensures
        put(text_entries(*old(m)), key@, value@, text_entries(*final(m))),
{
    m.insert(key, value);
}

/// `IndexMap::clone`: a map with the same entries in the same order.
#[verifier::external_body]
pub(crate) fn clone_text_map(m: &IndexMap<String, String>) -> (r: IndexMap<String, String>)
    ensures
        text_entries(r) == text_entries(*m),
{
    m.clone()
}

/// `IndexMap::new`: a map without entries.
#[verifier::external_body]
pub(crate) fn new_index_map() -> (m: IndexMap<String, usize>)
    ensures
        index_entries(m) == Seq::<(Seq<char>, usize)>::empty(),
{
    IndexMap::new()
}

/// `IndexMap::get`: the value of the entry with the key, if there is one.
#[verifier::external_body]
pub(crate) fn get_index(m: &IndexMap<String, usize>, key: &str) -> (r: Option<usize>)
    ensures
        match r {
            Some(value) => exists|i: int|
                0 <= i < index_entries(*m).len() && #[trigger] index_entries(*m)[i] == (
                    key@,
                    value,
                ),
            None => lacks(index_entries(*m), key@),
        },
{
    m.get(key).copied()
}

/// `IndexMap::insert`: where the key is in the map, its entry stays in its
/// place and gets the new value; where it is not, the pair becomes the last
/// entry.
#[verifier::external_body]
pub(crate) fn insert_index(m: &mut IndexMap<String, usize>, key: String, value: usize)
    ensures
        put(index_entries(*old(m)), key@, value, index_entries(*final(m))),
{
    m.insert(key, value);
}

} // verus!
