use vstd::prelude::*;

use std::sync::Arc;

use crate::dataref::DataRef;

verus! {

#[verifier::external_type_specification]
#[verifier::external_body]
#[verifier::reject_recursive_types(K)]
#[verifier::reject_recursive_types(V)]
#[verifier::reject_recursive_types(S)]
pub struct ExDashMap<K, V, S>(dashmap::DashMap<K, V, S>);

/// The entries of a shared index-to-subscription table.
pub uninterp spec fn dataref_map(m: &dashmap::DashMap<i32, DataRef>) -> Map<i32, DataRef>;

/// The entries of a name-to-index table, keyed by the name's UTF-8 bytes.
pub uninterp spec fn name_map(m: &dashmap::DashMap<Vec<u8>, i32>) -> Map<Seq<u8>, i32>;

/// An index-to-subscription table with no entry.
pub open spec fn empty_dataref_map() -> Map<i32, DataRef> {
    Map::empty()
}

/// A name-to-index table with no entry.
pub open spec fn empty_name_map() -> Map<Seq<u8>, i32> {
    Map::empty()
}

/// Relies on `DashMap::new`: a fresh map holds no entry. The `Arc` makes
/// the table shareable with the background receive loop.
#[verifier::external_body]
pub(crate) fn new_dataref_map() -> (m: Arc<dashmap::DashMap<i32, DataRef>>)
    ensures
        dataref_map(&*m) == empty_dataref_map(),
{
    Arc::new(dashmap::DashMap::new())
}

/// Relies on `DashMap::insert`: the entry is added, replacing any entry
/// with the same key.
#[verifier::external_body]
pub(crate) fn dataref_map_insert(m: &mut Arc<dashmap::DashMap<i32, DataRef>>, key: i32, value: DataRef)
    ensures
        dataref_map(&**final(m)) == dataref_map(&**old(m)).insert(key, value),
{
    m.insert(key, value);
}

/// Relies on `DashMap::get`: returns the entry under the key, if any; the
/// value is handed out as a clone.
#[verifier::external_body]
pub(crate) fn dataref_map_get(m: &Arc<dashmap::DashMap<i32, DataRef>>, key: i32) -> (r: Option<
    DataRef,
>)
    ensures
        r == if dataref_map(&**m).contains_key(key) {
            Some(dataref_map(&**m)[key])
        } else {
            None::<DataRef>
        },
{
    m.get(&key).map(|e| e.value().clone())
}

/// Relies on `DashMap::remove`: the entry under the key, if any, is taken
/// out and returned.
#[verifier::external_body]
pub(crate) fn dataref_map_remove(m: &mut Arc<dashmap::DashMap<i32, DataRef>>, key: i32) -> (r:
    Option<DataRef>)
    ensures
        dataref_map(&**final(m)) == dataref_map(&**old(m)).remove(key),
        r == if dataref_map(&**old(m)).contains_key(key) {
            Some(dataref_map(&**old(m))[key])
        } else {
            None::<DataRef>
        },
{
    m.remove(&key).map(|kv| kv.1)
}

/// Relies on `DashMap::entry` and `Entry::and_modify`: the update closure
/// runs only when the key is present, so an update for an unregistered
/// index is a no-op.
#[verifier::external_body]
pub(crate) fn dataref_map_update(m: &mut Arc<dashmap::DashMap<i32, DataRef>>, key: i32, bits: u32)
    ensures
        dataref_map(&**final(m)) == if dataref_map(&**old(m)).contains_key(key) {
            dataref_map(&**old(m)).insert(key, dataref_map(&**old(m))[key].spec_with_value(bits))
        } else {
            dataref_map(&**old(m))
        },
{
    m.entry(key).and_modify(|e| e.update(bits));
}

/// Relies on `DashMap::new`: a fresh map holds no entry.
#[verifier::external_body]
pub(crate) fn new_name_map() -> (m: dashmap::DashMap<Vec<u8>, i32>)
    ensures
        name_map(&m) == empty_name_map(),
{
    dashmap::DashMap::new()
}

/// Relies on `DashMap::insert`: the entry is added, replacing any entry
/// with the same key.
#[verifier::external_body]
pub(crate) fn name_map_insert(m: &mut dashmap::DashMap<Vec<u8>, i32>, key: Vec<u8>, value: i32)
    ensures
        name_map(&*final(m)) == name_map(&*old(m)).insert(key@, value),
{
    m.insert(key, value);
}

/// Relies on `DashMap::get`: returns the index under the name, if any.
#[verifier::external_body]
pub(crate) fn name_map_get(m: &dashmap::DashMap<Vec<u8>, i32>, key: &Vec<u8>) -> (r: Option<i32>)
    ensures
        r == if name_map(m).contains_key(key@) {
            Some(name_map(m)[key@])
        } else {
            None::<i32>
        },
{
    m.get(key).map(|e| *e.value())
}

/// Relies on `DashMap::remove`: the entry under the name, if any, is taken
/// out and returned.
#[verifier::external_body]
pub(crate) fn name_map_remove(m: &mut dashmap::DashMap<Vec<u8>, i32>, key: &Vec<u8>) -> (r: Option<
    i32,
>)
    ensures
        name_map(&*final(m)) == name_map(&*old(m)).remove(key@),
        r == if name_map(&*old(m)).contains_key(key@) {
            Some(name_map(&*old(m))[key@])
        } else {
            None::<i32>
        },
{
    m.remove(key).map(|kv| kv.1)
}

/// Relies on `DashMap::iter` and `Ref::key`: yields each current name
/// exactly once, in no promised order.
#[verifier::external_body]
pub(crate) fn name_map_keys(m: &dashmap::DashMap<Vec<u8>, i32>) -> (keys: Vec<Vec<u8>>)
    ensures
        forall|i: int| 0 <= i < keys@.len() ==> name_map(m).contains_key(keys@[i]@),
        forall|k: Seq<u8>| name_map(m).contains_key(k) ==> exists|i: int|
            0 <= i < keys@.len() && keys@[i]@ == k,
        forall|i: int, j: int| 0 <= i < j < keys@.len() ==> keys@[i]@ != keys@[j]@,
{
    m.iter().map(|e| e.key().clone()).collect()
}

} // verus!
