//! Small helpers over std collections.
use std::collections::BTreeMap;
use vstd::prelude::*;
use vstd::std_specs::btree::increasing_seq;
use vstd::std_specs::iter::IteratorSpec;
use vstd::std_specs::cmp::OrdSpec;

verus! {

/// `BTreeMap::first_key_value` on a map keyed by `u32`.
///
/// Claimed (from its documentation): the result is `None` exactly when the
/// map is empty; otherwise it is an entry of the map whose key is the least
/// key of the map.
#[verifier::external_body]
pub(crate) fn first_key_value<V>(m: &BTreeMap<u32, V>) -> (r: Option<(&u32, &V)>)
    ensures
        r is None <==> m@.dom().len() == 0,
        r matches Some(kv) ==> m@.contains_key(*kv.0) && m@[*kv.0] == *kv.1,
        r matches Some(kv) ==> forall|k: u32| m@.contains_key(k) ==> *kv.0 <= k,
{
    m.first_key_value()
}

/// Whether `vals` are the values of `m` in increasing key order.
pub open spec fn values_in_key_order<V>(m: Map<u32, V>, vals: Seq<V>) -> bool {
    exists|keys: Seq<u32>|
        {
            &&& keys.len() == vals.len()
            &&& keys.to_set() == m.dom()
            &&& forall|i: int, j: int| 0 <= i < j < keys.len() ==> keys[i] < keys[j]
            &&& forall|i: int| 0 <= i < keys.len() ==> #[trigger] vals[i] == m[keys[i]]
        }
}

/// The values of a map keyed by `u32`, in increasing key order.
pub(crate) fn values_by_key<V>(m: &BTreeMap<u32, V>) -> (r: Vec<&V>)
    ensures
        values_in_key_order(m@, r@.map_values(|v: &V| *v)),
{
    broadcast use vstd::std_specs::btree::group_btree_axioms, vstd::laws_cmp::group_laws_cmp;

    let mut out: Vec<&V> = Vec::new();
    let values = m.values();
    let ghost keys = choose|keys: Seq<u32>|
        {
            &&& increasing_seq(keys)
            &&& keys.to_set() == m@.dom()
            &&& keys.no_duplicates()
            &&& values.remaining() == keys.map(|i: int, k: u32| &m@[k])
        };
    let ghost vr = values.remaining();
    for v in it: values
        invariant
            it.seq() == vr,
            vr == keys.map(|i: int, k: u32| &m@[k]),
            out@.len() == it.index(),
            forall|i: int| 0 <= i < out@.len() ==> out@[i] == it.seq()[i],
    {
        out.push(v);
    }
    let ghost vals = out@.map_values(|v: &V| *v);
    assert(vstd::laws_cmp::obeys_cmp::<u32>());
    assert forall|i: int, j: int| 0 <= i < j < keys.len() implies keys[i] < keys[j] by {
        assert(keys[i].cmp_spec(&keys[j]) is Less);
    }
    assert(forall|i: int| 0 <= i < keys.len() ==> #[trigger] vals[i] == m@[keys[i]]);
    out
}

} // verus!
