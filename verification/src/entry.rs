//! Insert a value unless one is there, then borrow the entry exclusively.

use rt_ref::Cell;
use std::collections::HashMap;
use std::hash::Hash;
use vstd::prelude::*;
use vstd::std_specs::hash::obeys_key_model;

use crate::borrow_fail::BorrowFail;
use crate::cell::try_exclusive;
use crate::ref_mut::RefMut;

verus! {

/// One key of a keyed container, held with the container borrowed `&mut`.
///
/// `map` is the container's store as it stands; what it is when the entry has
/// been used is what the container holds afterwards.
#[verifier::reject_recursive_types(K)]
#[verifier::reject_recursive_types(V)]
pub struct Entry<'a, K, V> {
    /// The store that the key is looked up in.
    pub map: &'a mut HashMap<K, Cell<V>>,
    /// The key.
    pub key: K,
}

/// `HashMap::entry` and `Entry::or_insert` on the result: puts `value` under
/// `key` unless the key has a value, and lends the value that is under the
/// key then. Claimed, for keys that obey the key model: a key that was there
/// keeps its value and the map is unchanged; a key that was not there gets
/// `value`, and nothing else changes.
#[verifier::external_body]
fn settle<'a, K: Hash + Eq, T>(map: &'a mut HashMap<K, T>, key: K, value: T) -> (slot: &'a T)
    ensures
        obeys_key_model::<K>() && old(map)@.contains_key(key) ==> final(map)@ == old(map)@
            && *slot == old(map)@[key],
        obeys_key_model::<K>() && !old(map)@.contains_key(key) ==> final(map)@ == old(map)@.insert(
            key,
            value,
        ) && *slot == value,
{
    map.entry(key).or_insert(value)
}

/// Gives up the right to write for the rest of the borrow.
fn shared<'a, T>(x: &'a mut T) -> (r: &'a T)
    ensures
        *r == *old(x),
        *final(x) == *old(x),
{
    &*x
}

impl<'a, K: Hash + Eq, V> Entry<'a, K, V> {
    /// The entry for `key` in `map`.
    pub fn new(map: &'a mut HashMap<K, Cell<V>>, key: K) -> (e: Self)
        ensures
            e.map@ == old(map)@,
            e.key == key,
            final(e.map)@ == final(map)@,
    {
        Entry { map, key }
    }

    /// Puts `v` under the key unless the key has a value, then borrows the
    /// entry exclusively.
    ///
    /// A value that was there is not overwritten. The borrow is refused, as
    /// `BorrowConflictMut`, only if a guard of the entry was leaked earlier.
    pub fn or_insert(self, v: V) -> (r: Result<RefMut<'a, V>, BorrowFail>)
        ensures
            obeys_key_model::<K>() && old(self.map)@.contains_key(self.key) ==> {
                final(self.map)@ == old(self.map)@
            },
            obeys_key_model::<K>() && !old(self.map)@.contains_key(self.key) ==> {
                &&& final(self.map)@.dom() == old(self.map)@.dom().insert(self.key)
                &&& final(self.map)@.remove(self.key) == old(self.map)@
            },
            r is Err ==> r->Err_0 == BorrowFail::BorrowConflictMut,
    {
        let Entry { map, key } = self;
        let ghost before = map@;
        let slot = settle(map, key, Cell::new(v));
        proof {
            if obeys_key_model::<K>() && !before.contains_key(key) {
                assert(before.insert(key, *slot).remove(key) =~= before);
                assert(before.insert(key, *slot).dom() =~= before.dom().insert(key));
            }
        }
        RefMut::from_answer(Some(try_exclusive(slot)))
    }

    /// Puts the value that `f` makes under the key unless the key has a
    /// value, then borrows the entry exclusively.
    ///
    /// `f` is called only for a key without a value, and then once: so it need
    /// be callable only then. The borrow is refused, as `BorrowConflictMut`,
    /// only if a guard of the entry was leaked earlier.
    pub fn or_insert_with<F: FnOnce() -> V>(self, f: F) -> (r: Result<RefMut<'a, V>, BorrowFail>)
        requires
            f.requires(()) || (obeys_key_model::<K>() && old(self.map)@.contains_key(self.key)),
        ensures
            obeys_key_model::<K>() && old(self.map)@.contains_key(self.key) ==> {
                final(self.map)@ == old(self.map)@
            },
            obeys_key_model::<K>() && !old(self.map)@.contains_key(self.key) ==> {
                &&& final(self.map)@.dom() == old(self.map)@.dom().insert(self.key)
                &&& final(self.map)@.remove(self.key) == old(self.map)@
            },
            obeys_key_model::<K>() && r is Err ==> r->Err_0 == BorrowFail::BorrowConflictMut,
    {
        broadcast use vstd::std_specs::hash::group_hash_axioms;

        let Entry { map, key } = self;
        let ghost before = map@;
        if map.contains_key(&key) {
            let store = shared(map);
            let answer = match store.get(&key) {
                Some(cell) => Some(try_exclusive(cell)),
                None => None,
            };
            RefMut::from_answer(answer)
        } else {
            let v = f();
            let slot = settle(map, key, Cell::new(v));
            proof {
                if obeys_key_model::<K>() {
                    assert(before.insert(key, *slot).remove(key) =~= before);
                    assert(before.insert(key, *slot).dom() =~= before.dom().insert(key));
                }
            }
            RefMut::from_answer(Some(try_exclusive(slot)))
        }
    }
}

} // verus!
