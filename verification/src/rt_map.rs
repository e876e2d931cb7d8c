//! The container addressed by key.

use rt_ref::Cell;
use std::collections::HashMap;
use std::hash::Hash;
use vstd::prelude::*;
use vstd::std_specs::hash::obeys_key_model;

use crate::borrow_fail::BorrowFail;
use crate::cell::try_exclusive;
use crate::cell::try_shared;
use crate::diagnostic::debug_form;
use crate::diagnostic::fatal_message;
use crate::diagnostic::fatal_text;
use crate::diagnostic::key_subject;
use crate::diagnostic::key_text;
use crate::entry::Entry;
use crate::ref_mut::RefMut;
use crate::reference::Ref;

verus! {

/// A map from keys to entries, each borrowed on its own.
///
/// Borrowing takes the map by shared reference, so two entries can be
/// borrowed exclusively at once; whether a borrow of one entry is granted is
/// decided at run time by that entry's cell. Changing which keys there are
/// takes the map by `&mut`, which no live guard allows.
///
/// The view maps each key to its cell: which entries there are. What an entry
/// holds is not part of it. The contracts speak of keys that obey the key
/// model of `vstd`, as the integer types do.
#[derive(Debug)]
#[verifier::reject_recursive_types(K)]
#[verifier::reject_recursive_types(V)]
pub struct RtMap<K, V> {
    cells: HashMap<K, Cell<V>>,
}

impl<K, V> View for RtMap<K, V> {
    type V = Map<K, Cell<V>>;

    closed spec fn view(&self) -> Map<K, Cell<V>> {
        self.cells@
    }
}

/// `HashMap::capacity`. Nothing is claimed of the number.
#[verifier::external_body]
fn map_capacity<K, T>(map: &HashMap<K, T>) -> (capacity: usize) {
    map.capacity()
}

/// `HashMap::get_mut`. Claimed, for keys that obey the key model: a value is
/// lent exactly when the key has one; it is that value; the map afterwards
/// differs only in what was written through the loan.
#[verifier::external_body]
fn map_get_mut<'a, K: Hash + Eq, T>(map: &'a mut HashMap<K, T>, k: &K) -> (r: Option<&'a mut T>)
    ensures
        obeys_key_model::<K>() ==> (r is Some <==> old(map)@.contains_key(*k)),
        obeys_key_model::<K>() ==> match r {
            Some(slot) => *slot == old(map)@[*k] && final(map)@ == old(map)@.insert(
                *k,
                *final(slot),
            ),
            None => final(map)@ == old(map)@,
        },
{
    map.get_mut(k)
}

/// Whether `text` is the diagnostic for `fail` on an entry of a keyed
/// container, whatever the key's `Debug` form printed.
pub open spec fn is_fatal_key_text(text: Seq<char>, fail: BorrowFail) -> bool {
    exists|shown: Seq<char>| text == #[trigger] fatal_text(key_text(shown), fail)
}

impl<K, V> Default for RtMap<K, V> {
    fn default() -> (r: Self)
        ensures
            r@ == Map::<K, Cell<V>>::empty(),
    {
        RtMap { cells: HashMap::new() }
    }
}

impl<K, V> RtMap<K, V> where K: Hash + Eq {
    /// An empty map.
    pub fn new() -> (r: Self)
        ensures
            r@ == Map::<K, Cell<V>>::empty(),
    {
        RtMap { cells: HashMap::new() }
    }

    /// An empty map with room set aside for `capacity` entries.
    pub fn with_capacity(capacity: usize) -> (r: Self)
        ensures
            r@ == Map::<K, Cell<V>>::empty(),
    {
        RtMap { cells: HashMap::with_capacity(capacity) }
    }

    /// How many entries the map has room for without growing.
    pub fn capacity(&self) -> (capacity: usize) {
        map_capacity(&self.cells)
    }

    /// The store itself, with every entry's cell.
    pub fn into_inner(self) -> (r: HashMap<K, Cell<V>>)
        ensures
            r@ == self@,
    {
        self.cells
    }

    /// The entry for `k`, to insert a value into unless one is there.
    pub fn entry(&mut self, k: K) -> (e: Entry<'_, K, V>)
        ensures
            e.map@ == old(self)@,
            e.key == k,
            final(e.map)@ == final(self)@,
    {
        Entry::new(&mut self.cells, k)
    }

    /// Puts `v` under `k` in a fresh, unborrowed entry, and returns what the
    /// key's entry held before, if it had one.
    pub fn insert(&mut self, k: K, v: V) -> (r: Option<V>)
        ensures
            obeys_key_model::<K>() ==> {
                &&& r is Some <==> old(self)@.contains_key(k)
                &&& final(self)@.dom() == old(self)@.dom().insert(k)
                &&& final(self)@.remove(k) == old(self)@.remove(k)
            },
    {
        broadcast use vstd::std_specs::hash::group_hash_axioms;

        let ghost before = self.cells@;
        let previous = self.cells.insert(k, Cell::new(v));
        proof {
            if obeys_key_model::<K>() {
                assert(self.cells@.remove(k) =~= before.remove(k));
                assert(self.cells@.dom() =~= before.dom().insert(k));
            }
        }
        match previous {
            Some(cell) => Some(cell.into_inner()),
            None => None,
        }
    }

    /// Whether the map has no entry.
    pub fn is_empty(&self) -> (r: bool)
        ensures
            r == self@.is_empty(),
    {
        self.cells.is_empty()
    }

    /// Takes the entry under `k` out and returns what it held, if the key had
    /// an entry.
    pub fn remove(&mut self, k: &K) -> (r: Option<V>)
        ensures
            obeys_key_model::<K>() ==> {
                &&& r is Some <==> old(self)@.contains_key(*k)
                &&& final(self)@ == old(self)@.remove(*k)
            },
    {
        broadcast use vstd::std_specs::hash::group_hash_axioms;

        match self.cells.remove(k) {
            Some(cell) => Some(cell.into_inner()),
            None => None,
        }
    }

    /// Whether `k` has an entry.
    pub fn contains_key(&self, k: &K) -> (r: bool)
        ensures
            obeys_key_model::<K>() ==> r == self@.contains_key(*k),
    {
        broadcast use vstd::std_specs::hash::group_hash_axioms;

        self.cells.contains_key(k)
    }

    /// Borrows the entry under `k` shared, or says why not.
    ///
    /// A key without an entry is `ValueNotFound`, always and only then. For an
    /// entry that is there the cell decides: the borrow is granted, or refused
    /// as `BorrowConflictImm`, because an exclusive borrow is live or the
    /// entry counts as many shared guards as it can.
    pub fn try_borrow(&self, k: &K) -> (r: Result<Ref<'_, V>, BorrowFail>)
        ensures
            obeys_key_model::<K>() && !self@.contains_key(*k) ==> r is Err && r->Err_0
                == BorrowFail::ValueNotFound,
            obeys_key_model::<K>() && self@.contains_key(*k) ==> r is Ok || r->Err_0
                == BorrowFail::BorrowConflictImm,
    {
        broadcast use vstd::std_specs::hash::group_hash_axioms;

        let answer = match self.cells.get(k) {
            Some(cell) => Some(try_shared(cell)),
            None => None,
        };
        Ref::from_answer(answer)
    }

    /// Borrows the entry under `k` exclusively, or says why not.
    ///
    /// A key without an entry is `ValueNotFound`, always and only then. For an
    /// entry that is there the cell decides: the borrow is granted, or refused
    /// as `BorrowConflictMut` because some borrow of it is live.
    pub fn try_borrow_mut(&self, k: &K) -> (r: Result<RefMut<'_, V>, BorrowFail>)
        ensures
            obeys_key_model::<K>() && !self@.contains_key(*k) ==> r is Err && r->Err_0
                == BorrowFail::ValueNotFound,
            obeys_key_model::<K>() && self@.contains_key(*k) ==> r is Ok || r->Err_0
                == BorrowFail::BorrowConflictMut,
    {
        broadcast use vstd::std_specs::hash::group_hash_axioms;

        let answer = match self.cells.get(k) {
            Some(cell) => Some(try_exclusive(cell)),
            None => None,
        };
        RefMut::from_answer(answer)
    }

    /// Borrows the entry under `k` shared, for a caller to whom a refusal is
    /// fatal.
    ///
    /// A refusal comes back as the text to stop with: it names the key and
    /// says whether the entry does not exist or is already borrowed mutably.
    pub fn borrow(&self, k: &K) -> (r: Result<Ref<'_, V>, String>) where K: core::fmt::Debug
        ensures
            obeys_key_model::<K>() && !self@.contains_key(*k) ==> r is Err && is_fatal_key_text(
                r->Err_0@,
                BorrowFail::ValueNotFound,
            ),
            obeys_key_model::<K>() && self@.contains_key(*k) ==> r is Ok || is_fatal_key_text(
                r->Err_0@,
                BorrowFail::BorrowConflictImm,
            ),
    {
        match self.try_borrow(k) {
            Ok(guard) => Ok(guard),
            Err(fail) => {
                let shown = debug_form(k);
                Err(fatal_message(key_subject(shown.as_str()).as_str(), fail))
            },
        }
    }

    /// Borrows the entry under `k` exclusively, for a caller to whom a refusal
    /// is fatal.
    ///
    /// A refusal comes back as the text to stop with: it names the key and
    /// says whether the entry does not exist or is already borrowed.
    pub fn borrow_mut(&self, k: &K) -> (r: Result<RefMut<'_, V>, String>) where K: core::fmt::Debug
        ensures
            obeys_key_model::<K>() && !self@.contains_key(*k) ==> r is Err && is_fatal_key_text(
                r->Err_0@,
                BorrowFail::ValueNotFound,
            ),
            obeys_key_model::<K>() && self@.contains_key(*k) ==> r is Ok || is_fatal_key_text(
                r->Err_0@,
                BorrowFail::BorrowConflictMut,
            ),
    {
        match self.try_borrow_mut(k) {
            Ok(guard) => Ok(guard),
            Err(fail) => {
                let shown = debug_form(k);
                Err(fatal_message(key_subject(shown.as_str()).as_str(), fail))
            },
        }
    }

    /// The value of the entry under `k`, to read and write in place.
    ///
    /// With the whole map borrowed `&mut` no guard is live, so the entry's
    /// flag is not asked. The entries stay the same entries.
    pub fn get_mut(&mut self, k: &K) -> (r: Option<&mut V>)
        ensures
            obeys_key_model::<K>() ==> {
                &&& r is Some <==> old(self)@.contains_key(*k)
                &&& final(self)@ == old(self)@
            },
    {
        self.get_resource_mut(k)
    }

    /// The value of the entry under `k`, to read and write in place.
    ///
    /// With the whole map borrowed `&mut` no guard is live, so the entry's
    /// flag is not asked. The entries stay the same entries.
    pub fn get_resource_mut(&mut self, k: &K) -> (r: Option<&mut V>)
        ensures
            obeys_key_model::<K>() ==> {
                &&& r is Some <==> old(self)@.contains_key(*k)
                &&& final(self)@ == old(self)@
            },
    {
        let ghost before = self.cells@;
        match map_get_mut(&mut self.cells, k) {
            Some(cell) => {
                proof {
                    if obeys_key_model::<K>() {
                        assert(before.insert(*k, before[*k]) =~= before);
                    }
                }
                Some(cell.get_mut())
            },
            None => None,
        }
    }

    /// The cell of the entry under `k`, if the key has an entry.
    pub fn get_raw(&self, k: &K) -> (r: Option<&Cell<V>>)
        ensures
            obeys_key_model::<K>() ==> {
                &&& r is Some <==> self@.contains_key(*k)
                &&& r matches Some(cell) ==> *cell == self@[*k]
            },
    {
        broadcast use vstd::std_specs::hash::group_hash_axioms;

        self.cells.get(k)
    }
}

impl<K, V> core::ops::Deref for RtMap<K, V> {
    type Target = HashMap<K, Cell<V>>;

    fn deref(&self) -> (r: &HashMap<K, Cell<V>>)
        ensures
            r@ == self@,
    {
        &self.cells
    }
}

impl<K, V> core::ops::DerefMut for RtMap<K, V> {
    fn deref_mut(&mut self) -> (r: &mut HashMap<K, Cell<V>>)
        ensures
            r@ == old(self)@,
            final(self)@ == final(r)@,
    {
        &mut self.cells
    }
}

} // verus!
