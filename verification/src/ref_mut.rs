//! The exclusive guard.

use rt_ref::CellRefMut;
use vstd::prelude::*;

use vstd::std_specs::cmp::PartialEqSpec;

use crate::borrow_fail::BorrowFail;
use crate::cell::exclusive_value;

verus! {

/// The one live exclusive borrow of an entry.
///
/// While it lives nothing else reaches the entry's value, so the value is
/// what it was when the guard was wrapped until it is written through the
/// guard: that value is the guard's view. What the view is at the start no
/// contract says: it is what the entry held then.
#[verifier::reject_recursive_types(V)]
pub struct RefMut<'a, V> {
    inner: CellRefMut<'a, V>,
    shown: Ghost<V>,
}

impl<'a, V> View for RefMut<'a, V> {
    type V = V;

    closed spec fn view(&self) -> V {
        self.shown@
    }
}

/// `Deref::deref` of the `CellRefMut` that an exclusive guard rests on: the
/// value under the guard. Claimed: it is the guard's view, which is the value
/// that the same call gave when the guard was wrapped, or what was last
/// written through the guard.
#[verifier::external_body]
fn shown_value<'b, 'a, V>(guard: &'b RefMut<'a, V>) -> (value: &'b V)
    ensures
        *value == guard@,
{
    std::ops::Deref::deref(&guard.inner)
}

/// `DerefMut::deref_mut` of the `CellRefMut` that an exclusive guard rests
/// on: the value under the guard, to write to. Claimed: it starts as the
/// guard's view, and what it is left as is the guard's view afterwards; the
/// guard rests on the same `CellRefMut`.
#[verifier::external_body]
fn shown_value_mut<'b, 'a, V>(guard: &'b mut RefMut<'a, V>) -> (value: &'b mut V)
    ensures
        *value == old(guard)@,
        final(guard)@ == *final(value),
        final(guard).guard() == old(guard).guard(),
{
    std::ops::DerefMut::deref_mut(&mut guard.inner)
}

impl<'a, V> RefMut<'a, V> {
    /// The guard that this borrow rests on.
    pub closed spec fn guard(&self) -> CellRefMut<'a, V> {
        self.inner
    }

    /// Wraps the guard that a cell handed out.
    pub fn new(inner: CellRefMut<'a, V>) -> (r: Self)
        ensures
            r.guard() == inner,
    {
        let value = exclusive_value(&inner);
        let shown = Ghost(*value);
        RefMut { inner, shown }
    }

    /// What an exclusive borrow comes to: `answer` is `None` where no entry
    /// was found, and else what the entry's cell answered. No entry is
    /// `ValueNotFound`, a refusal is passed on, and a guard is wrapped.
    pub fn from_answer(answer: Option<Result<CellRefMut<'a, V>, BorrowFail>>) -> (r: Result<
        Self,
        BorrowFail,
    >)
        ensures
            answer is None ==> r is Err && r->Err_0 == BorrowFail::ValueNotFound,
            answer matches Some(Err(fail)) ==> r is Err && r->Err_0 == fail,
            answer matches Some(Ok(guard)) ==> r is Ok && r->Ok_0.guard() == guard,
    {
        match answer {
            None => Err(BorrowFail::ValueNotFound),
            Some(Err(fail)) => Err(fail),
            Some(Ok(guard)) => Ok(RefMut::new(guard)),
        }
    }
}

impl<'a, V> core::ops::Deref for RefMut<'a, V> {
    type Target = V;

    /// The value under the guard.
    fn deref(&self) -> (r: &V)
        ensures
            *r == self@,
    {
        shown_value(self)
    }
}

impl<'a, V> core::ops::DerefMut for RefMut<'a, V> {
    /// The value under the guard, to write to: what it is left as is what
    /// the guard shows from then on.
    fn deref_mut(&mut self) -> (r: &mut V)
        ensures
            *r == old(self)@,
            final(self)@ == *final(r),
            final(self).guard() == old(self).guard(),
    {
        shown_value_mut(self)
    }
}

impl<'a, V: PartialEq> PartialEq for RefMut<'a, V> {
    /// Two guards are equal when the values under them are: the borrow state
    /// takes no part.
    fn eq(&self, other: &Self) -> (r: bool) {
        let mine = shown_value(self);
        let theirs = shown_value(other);
        *mine == *theirs
    }
}

impl<'a, V: PartialEq> vstd::std_specs::cmp::PartialEqSpecImpl for RefMut<'a, V> {
    open spec fn obeys_eq_spec() -> bool {
        V::obeys_eq_spec()
    }

    open spec fn eq_spec(&self, other: &Self) -> bool {
        self@.eq_spec(&other@)
    }
}

impl<'a, V: core::fmt::Debug> core::fmt::Debug for RefMut<'a, V> {
    /// `Formatter::debug_struct`, with the value shown as the one field
    /// `inner`. Nothing is claimed of what is written.
    #[verifier::external_body]
    fn fmt(&self, f: &mut core::fmt::Formatter<'_>) -> core::fmt::Result {
        let inner: &V = &self.inner;
        f.debug_struct("RefMut").field("inner", inner).finish()
    }
}

} // verus!
