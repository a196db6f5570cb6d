//! The per-source runway assignment map: runway identifier to usage, in
//! insertion order.
//!
//! The map itself is `indexmap`'s `IndexMap`; this module declares the type
//! to the verifier, names its contents as a sequence of key/value pairs,
//! and wraps the handful of methods the selection logic calls. Everything
//! above these wrappers is verified against their contracts.

use vstd::prelude::*;

use crate::runway::RunwayUse;

verus! {

#[verifier::external_type_specification]
#[verifier::external_body]
#[verifier::reject_recursive_types(K)]
#[verifier::reject_recursive_types(V)]
#[verifier::reject_recursive_types(S)]
pub struct ExIndexMap<K, V, S>(indexmap::IndexMap<K, V, S>);

/// A per-source runway assignment: runway identifier to usage.
pub type UsageMap = indexmap::IndexMap<Vec<u8>, RunwayUse>;

/// What a usage map holds: its key/value pairs in iteration order.
pub uninterp spec fn usage_entries(m: indexmap::IndexMap<Vec<u8>, RunwayUse>) -> Seq<
    (Seq<u8>, RunwayUse),
>;

/// The position of `key` among the entries, or `-1` when absent. The first
/// match counts; a map built through this module's wrappers never holds a
/// key twice.
pub open spec fn spec_find_key(es: Seq<(Seq<u8>, RunwayUse)>, key: Seq<u8>) -> int
    decreases es.len(),
{
    if es.len() == 0 {
        -1
    } else if es[0].0 == key {
        0
    } else {
        let r = spec_find_key(es.skip(1), key);
        if r < 0 {
            -1
        } else {
            r + 1
        }
    }
}

/// Relies on `IndexMap::new`: a new map is empty.
#[verifier::external_body]
pub fn new_usage_map() -> (r: indexmap::IndexMap<Vec<u8>, RunwayUse>)
    ensures
        usage_entries(r) =~= Seq::<(Seq<u8>, RunwayUse)>::empty(),
{
    indexmap::IndexMap::new()
}

/// Relies on `IndexMap::insert`: an existing key keeps its place and gets
/// the new value; a new key is appended last.
#[verifier::external_body]
pub fn usage_insert(
    m: &mut indexmap::IndexMap<Vec<u8>, RunwayUse>,
    key: Vec<u8>,
    value: RunwayUse,
)
    ensures
        spec_find_key(usage_entries(*old(m)), key@) >= 0 ==> usage_entries(*final(m))
            =~= usage_entries(*old(m)).update(
            spec_find_key(usage_entries(*old(m)), key@),
            (key@, value),
        ),
        spec_find_key(usage_entries(*old(m)), key@) < 0 ==> usage_entries(*final(m))
            =~= usage_entries(*old(m)).push((key@, value)),
{
    m.insert(key, value);
}

/// Relies on `IndexMap::get` with a borrowed byte-slice key: the value
/// stored under an equal key, if one is present.
#[verifier::external_body]
pub fn usage_get(m: &indexmap::IndexMap<Vec<u8>, RunwayUse>, key: &[u8]) -> (r: Option<RunwayUse>)
    ensures
        spec_find_key(usage_entries(*m), key@) >= 0 ==> r == Some(
            usage_entries(*m)[spec_find_key(usage_entries(*m), key@)].1,
        ),
        spec_find_key(usage_entries(*m), key@) < 0 ==> r is None,
{
    m.get(key).copied()
}

/// Relies on `IndexMap::len`: the number of entries.
#[verifier::external_body]
pub fn usage_len(m: &indexmap::IndexMap<Vec<u8>, RunwayUse>) -> (r: usize)
    ensures
        r == usage_entries(*m).len(),
{
    m.len()
}

/// Relies on `IndexMap::get_index`: the entry at a position in iteration
/// order, copied out.
#[verifier::external_body]
pub fn usage_get_index(m: &indexmap::IndexMap<Vec<u8>, RunwayUse>, i: usize) -> (r: Option<
    (Vec<u8>, RunwayUse),
>)
    ensures
        i < usage_entries(*m).len() ==> r is Some && (r->0).0@ == usage_entries(*m)[i as int].0
            && (r->0).1 == usage_entries(*m)[i as int].1,
        i >= usage_entries(*m).len() ==> r is None,
{
    m.get_index(i).map(|(k, v)| (k.clone(), *v))
}

/// Inserts a usage for a runway, merging with any usage already present
/// under the merge rule.
pub fn usage_upsert(m: &mut indexmap::IndexMap<Vec<u8>, RunwayUse>, key: Vec<u8>, value: RunwayUse)
    ensures
        ({
            let es = usage_entries(*old(m));
            let i = spec_find_key(es, key@);
            if i >= 0 {
                usage_entries(*final(m)) =~= es.update(
                    i,
                    (key@, crate::runway::spec_merged(es[i].1, value)),
                )
            } else {
                usage_entries(*final(m)) =~= es.push((key@, value))
            }
        }),
{
    let existing = usage_get(m, key.as_slice());
    match existing {
        Some(e) => {
            proof {
                lemma_find_key_entry(usage_entries(*m), key@);
            }
            usage_insert(m, key, e.merged_with(value));
        },
        None => {
            usage_insert(m, key, value);
        },
    }
}

/// Finding in a one-entry sequence compares against that entry alone.
pub proof fn lemma_find_key_singleton(e: (Seq<u8>, RunwayUse), key: Seq<u8>)
    ensures
        spec_find_key(seq![e], key) == if e.0 == key {
            0int
        } else {
            -1int
        },
{
    assert(seq![e].skip(1) =~= Seq::<(Seq<u8>, RunwayUse)>::empty());
    assert(spec_find_key(Seq::<(Seq<u8>, RunwayUse)>::empty(), key) == -1);
}

/// The keyed entry of a find hit matches the searched key.
proof fn lemma_find_key_entry(es: Seq<(Seq<u8>, RunwayUse)>, key: Seq<u8>)
    ensures
        spec_find_key(es, key) >= 0 ==> {
            let i = spec_find_key(es, key);
            0 <= i < es.len() && es[i].0 == key
        },
    decreases es.len(),
{
    if es.len() > 0 && es[0].0 != key {
        lemma_find_key_entry(es.skip(1), key);
    }
}

} // verus!
