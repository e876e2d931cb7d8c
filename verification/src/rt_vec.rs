//! The container addressed by position.

use rt_ref::Cell;
use vstd::prelude::*;

use crate::borrow_fail::BorrowFail;
use crate::cell::try_exclusive;
use crate::cell::try_shared;
use crate::diagnostic::fatal_message;
use crate::diagnostic::fatal_text;
use crate::diagnostic::index_subject;
use crate::diagnostic::index_text;
use crate::ref_mut::RefMut;
use crate::reference::Ref;

verus! {

/// A sequence of entries, each borrowed on its own.
///
/// Borrowing takes the container by shared reference, so two entries can be
/// borrowed exclusively at once; whether a borrow of one entry is granted is
/// decided at run time by that entry's cell. Changing the sequence itself
/// takes the container by `&mut`, which no live guard allows.
///
/// The view is the sequence of cells: which entries there are and in what
/// order. What an entry holds is not part of it.
#[derive(Debug)]
#[verifier::reject_recursive_types(V)]
pub struct RtVec<V> {
    cells: Vec<Cell<V>>,
}

impl<V> View for RtVec<V> {
    type V = Seq<Cell<V>>;

    closed spec fn view(&self) -> Seq<Cell<V>> {
        self.cells@
    }
}

/// `Vec::capacity`. Claimed: room for at least the elements that are there.
#[verifier::external_body]
fn vec_capacity<T>(v: &Vec<T>) -> (capacity: usize)
    ensures
        capacity >= v@.len(),
{
    v.capacity()
}

impl<V> Default for RtVec<V> {
    fn default() -> (r: Self)
        ensures
            r@ == Seq::<Cell<V>>::empty(),
    {
        RtVec { cells: Vec::new() }
    }
}

impl<V> RtVec<V> {
    /// An empty container.
    pub fn new() -> (r: Self)
        ensures
            r@ == Seq::<Cell<V>>::empty(),
    {
        RtVec { cells: Vec::new() }
    }

    /// An empty container with room set aside for `capacity` entries.
    pub fn with_capacity(capacity: usize) -> (r: Self)
        ensures
            r@ == Seq::<Cell<V>>::empty(),
    {
        RtVec { cells: Vec::with_capacity(capacity) }
    }

    /// How many entries the container has room for without growing.
    pub fn capacity(&self) -> (capacity: usize)
        ensures
            capacity >= self@.len(),
    {
        vec_capacity(&self.cells)
    }

    /// Appends an entry, unborrowed, after the others.
    pub fn push(&mut self, v: V)
        ensures
            final(self)@.len() == old(self)@.len() + 1,
            final(self)@.drop_last() == old(self)@,
    {
        self.cells.push(Cell::new(v));
        assert(self.cells@.drop_last() =~= old(self).cells@);
    }

    /// Puts a new entry, unborrowed, at `index`; the entries from there on
    /// move up by one.
    pub fn insert(&mut self, index: usize, v: V)
        requires
            index <= old(self)@.len(),
        ensures
            final(self)@.len() == old(self)@.len() + 1,
            final(self)@.remove(index as int) == old(self)@,
    {
        self.cells.insert(index, Cell::new(v));
        assert(self.cells@.remove(index as int) =~= old(self).cells@);
    }

    /// Whether the container has no entry.
    pub fn is_empty(&self) -> (r: bool)
        ensures
            r == (self@.len() == 0),
    {
        self.cells.is_empty()
    }

    /// Takes entry `index` out and returns what it held; the entries after it
    /// move down by one, in order.
    pub fn remove(&mut self, index: usize) -> (r: V)
        requires
            index < old(self)@.len(),
        ensures
            final(self)@ == old(self)@.remove(index as int),
    {
        let cell = self.cells.remove(index);
        cell.into_inner()
    }

    /// Takes entry `index` out and returns what it held; the last entry takes
    /// its place, so the order of the rest is not kept.
    pub fn swap_remove(&mut self, index: usize) -> (r: V)
        requires
            index < old(self)@.len(),
        ensures
            final(self)@ == old(self)@.update(index as int, old(self)@.last()).drop_last(),
    {
        let cell = self.cells.swap_remove(index);
        cell.into_inner()
    }

    /// Borrows entry `index` shared, or says why not.
    ///
    /// An index past the end is `ValueNotFound`, always and only then. For an
    /// entry that is there the cell decides: the borrow is granted, or refused
    /// as `BorrowConflictImm`, because an exclusive borrow is live or the
    /// entry counts as many shared guards as it can.
    pub fn try_borrow(&self, index: usize) -> (r: Result<Ref<'_, V>, BorrowFail>)
        ensures
            index >= self@.len() ==> r is Err && r->Err_0 == BorrowFail::ValueNotFound,
            index < self@.len() ==> r is Ok || r->Err_0 == BorrowFail::BorrowConflictImm,
    {
        let answer = if index < self.cells.len() {
            Some(try_shared(&self.cells[index]))
        } else {
            None
        };
        Ref::from_answer(answer)
    }

    /// Borrows entry `index` exclusively, or says why not.
    ///
    /// An index past the end is `ValueNotFound`, always and only then. For an
    /// entry that is there the cell decides: the borrow is granted, or refused
    /// as `BorrowConflictMut` because some borrow of it is live.
    pub fn try_borrow_mut(&self, index: usize) -> (r: Result<RefMut<'_, V>, BorrowFail>)
        ensures
            index >= self@.len() ==> r is Err && r->Err_0 == BorrowFail::ValueNotFound,
            index < self@.len() ==> r is Ok || r->Err_0 == BorrowFail::BorrowConflictMut,
    {
        let answer = if index < self.cells.len() {
            Some(try_exclusive(&self.cells[index]))
        } else {
            None
        };
        RefMut::from_answer(answer)
    }

    /// Borrows entry `index` shared, for a caller to whom a refusal is fatal.
    ///
    /// A refusal comes back as the text to stop with: it names the index and
    /// says whether the entry does not exist or is already borrowed mutably.
    pub fn borrow(&self, index: usize) -> (r: Result<Ref<'_, V>, String>)
        ensures
            index >= self@.len() ==> r is Err && r->Err_0@ == fatal_text(
                index_text(index as nat),
                BorrowFail::ValueNotFound,
            ),
            index < self@.len() ==> r is Ok || r->Err_0@ == fatal_text(
                index_text(index as nat),
                BorrowFail::BorrowConflictImm,
            ),
    {
        match self.try_borrow(index) {
            Ok(guard) => Ok(guard),
            Err(fail) => Err(fatal_message(index_subject(index).as_str(), fail)),
        }
    }

    /// Borrows entry `index` exclusively, for a caller to whom a refusal is
    /// fatal.
    ///
    /// A refusal comes back as the text to stop with: it names the index and
    /// says whether the entry does not exist or is already borrowed.
    pub fn borrow_mut(&self, index: usize) -> (r: Result<RefMut<'_, V>, String>)
        ensures
            index >= self@.len() ==> r is Err && r->Err_0@ == fatal_text(
                index_text(index as nat),
                BorrowFail::ValueNotFound,
            ),
            index < self@.len() ==> r is Ok || r->Err_0@ == fatal_text(
                index_text(index as nat),
                BorrowFail::BorrowConflictMut,
            ),
    {
        match self.try_borrow_mut(index) {
            Ok(guard) => Ok(guard),
            Err(fail) => Err(fatal_message(index_subject(index).as_str(), fail)),
        }
    }

    /// Borrows entry `index` shared if there is such an entry.
    ///
    /// An index past the end is `None`, always and only then. For an entry
    /// that is there a refusal is fatal, as in [`RtVec::borrow`].
    pub fn get(&self, index: usize) -> (r: Option<Result<Ref<'_, V>, String>>)
        ensures
            r is None <==> index >= self@.len(),
            r matches Some(Err(message)) ==> message@ == fatal_text(
                index_text(index as nat),
                BorrowFail::BorrowConflictImm,
            ),
    {
        if index < self.cells.len() {
            Some(self.borrow(index))
        } else {
            None
        }
    }

    /// The value of entry `index`, to read and write in place.
    ///
    /// With the whole container borrowed `&mut` no guard is live, so the
    /// entry's flag is not asked. The entries stay the same entries.
    pub fn get_mut(&mut self, index: usize) -> (r: Option<&mut V>)
        ensures
            r is Some <==> index < old(self)@.len(),
            final(self)@ == old(self)@,
    {
        self.get_value_mut(index)
    }

    /// The value of entry `index`, to read and write in place.
    ///
    /// With the whole container borrowed `&mut` no guard is live, so the
    /// entry's flag is not asked. The entries stay the same entries.
    pub fn get_value_mut(&mut self, index: usize) -> (r: Option<&mut V>)
        ensures
            r is Some <==> index < old(self)@.len(),
            final(self)@ == old(self)@,
    {
        if index < self.cells.len() {
            let cell = &mut self.cells[index];
            Some(cell.get_mut())
        } else {
            None
        }
    }

    /// The cell of entry `index`, if there is such an entry.
    pub fn get_raw(&self, index: usize) -> (r: Option<&Cell<V>>)
        ensures
            r is Some <==> index < self@.len(),
            r matches Some(cell) ==> *cell == self@[index as int],
    {
        if index < self.cells.len() {
            Some(&self.cells[index])
        } else {
            None
        }
    }
}

impl<V> core::ops::Deref for RtVec<V> {
    type Target = Vec<Cell<V>>;

    fn deref(&self) -> (r: &Vec<Cell<V>>)
        ensures
            r@ == self@,
    {
        &self.cells
    }
}

impl<V> core::ops::DerefMut for RtVec<V> {
    fn deref_mut(&mut self) -> (r: &mut Vec<Cell<V>>)
        ensures
            r@ == old(self)@,
            final(self)@ == final(r)@,
    {
        &mut self.cells
    }
}

} // verus!
