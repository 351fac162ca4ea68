//! Tables keyed by handles.

use std::collections::HashMap;
use vstd::prelude::*;

verus! {

broadcast use vstd::std_specs::hash::group_hash_axioms;

/// A table entry that belongs to a parent object.
pub trait Owned: Sized {
    /// The handle of the parent.
    spec fn parent(&self) -> u64;

    /// The handle of the parent.
    fn parent_handle(&self) -> (r: u64)
        ensures
            r == self.parent(),
    ;
}

impl Owned for u64 {
    open spec fn parent(&self) -> u64 {
        *self
    }

    fn parent_handle(&self) -> (r: u64) {
        *self
    }
}

/// The entries of a table that do not belong to `parent`.
pub open spec fn without_children<V: Owned>(m: Map<u64, V>, parent: u64) -> Map<u64, V> {
    m.restrict(m.dom().filter(|k: u64| m[k].parent() != parent))
}

/// The keys of a table, in no particular order.
fn keys_of<V>(table: &HashMap<u64, V>) -> (r: Vec<u64>)
    ensures
        r@.no_duplicates(),
        r@.to_set() == table@.dom(),
{
    let mut keys: Vec<u64> = Vec::new();
    let ghost all = vstd::std_specs::iter::IteratorSpec::remaining(
        &vstd::std_specs::hash::spec_keys_iter(table),
    ).unref();
    for k in it: table.keys()
        invariant
            all == it.seq().unref(),
            keys@ == all.take(it.index()),
    {
        keys.push(*k);
        assert(keys@ =~= all.take(it.index() + 1));
    }
    assert(keys@ =~= all);
    keys
}

/// Drop the entries that belong to `parent`.
pub fn drop_children<V: Owned>(table: &mut HashMap<u64, V>, parent: u64)
    ensures
        final(table)@ == without_children(old(table)@, parent),
{
    let keys: Vec<u64> = keys_of(table);
    let ghost before = table@;
    let mut i: usize = 0;
    while i < keys.len()
        invariant
            i <= keys@.len(),
            keys@.no_duplicates(),
            keys@.to_set() == before.dom(),
            forall|j: int| i <= j < keys@.len() ==> table@.contains_key(#[trigger] keys@[j]),
            forall|j: int|
                0 <= j < i ==> (table@.contains_key(#[trigger] keys@[j]) <==> before[keys@[j]].parent()
                    != parent),
            forall|k: u64| #[trigger]
                table@.contains_key(k) ==> before.contains_key(k) && table@[k] == before[k],
        decreases keys@.len() - i,
    {
        let key: u64 = keys[i];
        let drop: bool = match table.get(&key) {
            Some(v) => v.parent_handle() == parent,
            None => false,
        };
        if drop {
            table.remove(&key);
        }
        i = i + 1;
    }
    proof {
        let after = without_children(before, parent);
        assert forall|k: u64| table@.contains_key(k) <==> after.contains_key(k) by {
            if before.contains_key(k) {
                assert(keys@.to_set().contains(k));
                let j = keys@.index_of(k);
                assert(keys@[j] == k);
            }
        }
        assert(table@ =~= after);
    }
}

/// A list holds the value of each key of a table once, in the order of some
/// list of the keys.
pub open spec fn values_once<V>(m: Map<u64, V>, values: Seq<V>) -> bool {
    exists|keys: Seq<u64>| #[trigger] lists_values(m, keys, values)
}

/// A list holds the value of each key of a table once, in the order of `keys`.
pub open spec fn lists_values<V>(m: Map<u64, V>, keys: Seq<u64>, values: Seq<V>) -> bool {
    &&& keys.no_duplicates()
    &&& keys.to_set() == m.dom()
    &&& values == keys.map_values(|k: u64| m[k])
}

/// Empty a table and give its values, in no particular order.
pub fn take_values<V>(table: &mut HashMap<u64, V>) -> (r: Vec<V>)
    ensures
        final(table)@ == Map::<u64, V>::empty(),
        values_once(old(table)@, r@),
{
    let keys: Vec<u64> = keys_of(table);
    let ghost before = table@;
    let mut out: Vec<V> = Vec::new();
    let mut i: usize = 0;
    while i < keys.len()
        invariant
            i <= keys@.len(),
            keys@.no_duplicates(),
            keys@.to_set() == before.dom(),
            forall|j: int| i <= j < keys@.len() ==> table@.contains_key(#[trigger] keys@[j]),
            forall|j: int| 0 <= j < i ==> !table@.contains_key(#[trigger] keys@[j]),
            forall|k: u64| #[trigger]
                table@.contains_key(k) ==> before.contains_key(k) && table@[k] == before[k],
            out@ == keys@.take(i as int).map_values(|k: u64| before[k]),
        decreases keys@.len() - i,
    {
        let key: u64 = keys[i];
        match table.remove(&key) {
            Some(v) => {
                out.push(v);
            },
            None => {},
        }
        assert(out@ =~= keys@.take(i + 1).map_values(|k: u64| before[k]));
        i = i + 1;
    }
    proof {
        assert(keys@.take(keys@.len() as int) =~= keys@);
        assert(lists_values(before, keys@, out@));
        assert forall|k: u64| !table@.contains_key(k) by {
            if table@.contains_key(k) {
                assert(keys@.to_set().contains(k));
                let j = keys@.index_of(k);
                assert(keys@[j] == k);
            }
        }
        assert(table@ =~= Map::<u64, V>::empty());
    }
    out
}

/// What is left of a table without the entries of a parent: exactly the entries
/// of other parents, unchanged.
pub proof fn only_children_are_dropped<V: Owned>(m: Map<u64, V>, parent: u64, k: u64)
    ensures
        m.contains_key(k) && m[k].parent() == parent ==> !without_children(
            m,
            parent,
        ).contains_key(k),
        m.contains_key(k) && m[k].parent() != parent ==> without_children(m, parent).contains_key(
            k,
        ) && without_children(m, parent)[k] == m[k],
        !m.contains_key(k) ==> !without_children(m, parent).contains_key(k),
{
}

/// A list of a table's values has the value of every key, nothing that is no
/// key's, and as many values as the table has keys.
pub proof fn no_value_is_missed<V>(m: Map<u64, V>, values: Seq<V>, k: u64, i: int)
    requires
        values_once(m, values),
    ensures
        values.len() == m.dom().len(),
        m.contains_key(k) ==> values.contains(m[k]),
        0 <= i < values.len() ==> exists|q: u64| #[trigger] m.contains_key(q) && m[q] == values[i],
{
    let keys = choose|keys: Seq<u64>| #[trigger] lists_values(m, keys, values);
    keys.unique_seq_to_set();
    if m.contains_key(k) {
        assert(keys.to_set().contains(k));
        let j = keys.index_of(k);
        assert(values[j] == m[k]);
    }
    if 0 <= i < values.len() {
        assert(keys.to_set().contains(keys[i]));
        assert(m.contains_key(keys[i]) && m[keys[i]] == values[i]);
    }
}

} // verus!
