//! The storage cell of `rt_ref` and its two guards, as this library uses them.
//!
//! A `Cell` keeps its value and its borrow flag behind a shared reference, so
//! neither is part of what a `Cell` is in a contract: there a `Cell` stands
//! for the entry itself, and what it holds or how it is borrowed at a given
//! moment is learnt only by asking it at run time. The contracts below
//! therefore say what holds of every answer, and nothing that would have to
//! hold of two answers in a row.

use rt_ref::Cell;
use rt_ref::CellRef;
use rt_ref::CellRefMut;
use vstd::prelude::*;

use crate::borrow_fail::BorrowFail;

verus! {

/// `rt_ref::Cell`: one entry, with its value and its borrow flag inside.
#[verifier::external_type_specification]
#[verifier::external_body]
#[verifier::reject_recursive_types(T)]
pub struct ExCell<T>(rt_ref::Cell<T>);

/// `rt_ref::CellRef`: a shared guard, which counts itself out of the flag
/// when it is dropped.
#[verifier::external_type_specification]
#[verifier::external_body]
#[verifier::reject_recursive_types(T)]
pub struct ExCellRef<'a, T: ?Sized + 'a>(rt_ref::CellRef<'a, T>);

/// `rt_ref::CellRefMut`: the exclusive guard, which clears the flag when it
/// is dropped.
#[verifier::external_type_specification]
#[verifier::external_body]
#[verifier::reject_recursive_types(T)]
pub struct ExCellRefMut<'a, T: ?Sized + 'a>(rt_ref::CellRefMut<'a, T>);

/// `Cell::new` wraps a value in a fresh, unborrowed cell. Nothing is claimed
/// of the result: from here on the value is reached only at run time.
pub assume_specification<T>[ rt_ref::Cell::<T>::new ](inner: T) -> (cell: rt_ref::Cell<T>)
;

/// `Cell::into_inner` gives back the value that the cell holds now. Nothing is
/// claimed of it: guards may have written to it since the cell was made.
pub assume_specification<T>[ rt_ref::Cell::<T>::into_inner ](cell: rt_ref::Cell<T>) -> (inner: T)
;

/// `Cell::get_mut` lends the value without touching the flag, which `&mut`
/// access makes safe. Claimed: the cell is the same entry afterwards, whatever
/// is written through the result.
pub assume_specification<T>[ rt_ref::Cell::<T>::get_mut ](cell: &mut rt_ref::Cell<T>) -> (inner:
    &mut T)
    ensures
        *final(cell) == *old(cell),
;

/// `Cell::try_borrow`, with the refusal given in this library's own error
/// type. Claimed: the only refusal is `BorrowConflictImm`. Whether the call
/// succeeds depends on the flag at that moment and is not claimed.
#[verifier::external_body]
pub(crate) fn try_shared<'a, V>(cell: &'a Cell<V>) -> (r: Result<CellRef<'a, V>, BorrowFail>)
    ensures
        r is Err ==> r->Err_0 == BorrowFail::BorrowConflictImm,
{
    match cell.try_borrow() {
        Ok(guard) => Ok(guard),
        Err(rt_ref::BorrowFail::ValueNotFound) => Err(BorrowFail::ValueNotFound),
        Err(rt_ref::BorrowFail::BorrowConflictImm) => Err(BorrowFail::BorrowConflictImm),
        Err(rt_ref::BorrowFail::BorrowConflictMut) => Err(BorrowFail::BorrowConflictMut),
    }
}

/// `Cell::try_borrow_mut`, with the refusal given in this library's own error
/// type. Claimed: the only refusal is `BorrowConflictMut`. Whether the call
/// succeeds depends on the flag at that moment and is not claimed.
#[verifier::external_body]
pub(crate) fn try_exclusive<'a, V>(cell: &'a Cell<V>) -> (r: Result<
    CellRefMut<'a, V>,
    BorrowFail,
>)
    ensures
        r is Err ==> r->Err_0 == BorrowFail::BorrowConflictMut,
{
    match cell.try_borrow_mut() {
        Ok(guard) => Ok(guard),
        Err(rt_ref::BorrowFail::ValueNotFound) => Err(BorrowFail::ValueNotFound),
        Err(rt_ref::BorrowFail::BorrowConflictImm) => Err(BorrowFail::BorrowConflictImm),
        Err(rt_ref::BorrowFail::BorrowConflictMut) => Err(BorrowFail::BorrowConflictMut),
    }
}

/// The `value` field of a `CellRef`: the reference that the guard dereferences
/// to, good for the guard's whole lifetime. Nothing is claimed of it.
#[verifier::external_body]
pub(crate) fn shared_value<'a, V>(guard: &CellRef<'a, V>) -> (value: &'a V) {
    guard.value
}

/// `CellRef::try_clone` makes a second guard on the same cell and counts it
/// in the flag, unless the flag counts `isize::MAX` guards already: then it
/// makes none, which is `None` here. Nothing is claimed of the result.
#[verifier::external_body]
pub(crate) fn shared_again<'a, V>(guard: &CellRef<'a, V>) -> (again: Option<CellRef<'a, V>>) {
    match guard.try_clone() {
        Ok(again) => Some(again),
        Err(rt_ref::RefOverflow) => None,
    }
}

/// `Deref::deref` of a `CellRefMut` that is not wrapped yet: the value under
/// the exclusive guard. Nothing is claimed of it.
#[verifier::external_body]
pub(crate) fn exclusive_value<'b, 'a, V>(guard: &'b CellRefMut<'a, V>) -> (value: &'b V) {
    std::ops::Deref::deref(guard)
}

} // verus!
