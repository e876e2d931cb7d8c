//! The shared guard.

use rt_ref::CellRef;
use vstd::prelude::*;
use vstd::std_specs::cmp::PartialEqSpec;

use crate::borrow_fail::BorrowFail;
use crate::cell::shared_again;
use crate::cell::shared_value;

verus! {

/// That a shared guard could not be copied: the entry counts as many shared
/// guards as it can.
#[derive(Clone, Copy, Debug, PartialEq, Eq, Structural)]
pub struct RefOverflow;

/// A live shared borrow of one entry.
///
/// While it lives the entry cannot be borrowed exclusively, so the value it
/// shows stays what it is: that value is the guard's view.
#[verifier::reject_recursive_types(V)]
pub struct Ref<'a, V> {
    /// The guard of the entry's cell: dropping it gives the borrow back.
    pub inner: CellRef<'a, V>,
    value: &'a V,
}

impl<'a, V> View for Ref<'a, V> {
    type V = V;

    closed spec fn view(&self) -> V {
        *self.value
    }
}

impl<'a, V> Ref<'a, V> {
    /// The guard that this borrow rests on.
    pub closed spec fn guard(&self) -> CellRef<'a, V> {
        self.inner
    }

    /// Wraps the guard that a cell handed out.
    pub fn new(inner: CellRef<'a, V>) -> (r: Self)
        ensures
            r.guard() == inner,
    {
        let value = shared_value(&inner);
        Ref { inner, value }
    }

    /// What a shared borrow comes to: `answer` is `None` where no entry was
    /// found, and else what the entry's cell answered. No entry is
    /// `ValueNotFound`, a refusal is passed on, and a guard is wrapped.
    pub fn from_answer(answer: Option<Result<CellRef<'a, V>, BorrowFail>>) -> (r: Result<
        Self,
        BorrowFail,
    >)
        ensures
            answer is None ==> r is Err && r->Err_0 == BorrowFail::ValueNotFound,
            answer matches Some(Err(fail)) ==> r is Err && r->Err_0 == fail,
            answer matches Some(Ok(guard)) ==> r is Ok && r->Ok_0.guard() == guard,
    {
        match answer {
            None => Err(BorrowFail::ValueNotFound),
            Some(Err(fail)) => Err(fail),
            Some(Ok(guard)) => Ok(Ref::new(guard)),
        }
    }

    /// A second shared borrow of the same entry, counted like the first: both
    /// must be dropped before the entry is unborrowed again. It shows the
    /// same value.
    ///
    /// The copy is refused only where the entry counts as many shared guards
    /// as it can.
    pub fn try_clone(&self) -> (r: Result<Self, RefOverflow>)
        ensures
            r matches Ok(copy) ==> copy@ == self@,
    {
        self.copied(shared_again(&self.inner))
    }

    /// What a copy of this guard comes to, given what the guard's own
    /// `CellRef` answered when asked for a second one: none is `RefOverflow`,
    /// and a second one is wrapped to show the value that this guard shows.
    fn copied(&self, answer: Option<CellRef<'a, V>>) -> (r: Result<Self, RefOverflow>)
        ensures
            answer is None ==> r is Err,
            answer matches Some(again) ==> r is Ok && r->Ok_0.guard() == again && r->Ok_0@
                == self@,
    {
        match answer {
            Some(inner) => Ok(Ref { inner, value: self.value }),
            None => Err(RefOverflow),
        }
    }
}

impl<'a, V> core::ops::Deref for Ref<'a, V> {
    type Target = V;

    fn deref(&self) -> (r: &V)
        ensures
            *r == self@,
    {
        self.value
    }
}

impl<'a, V: PartialEq> PartialEq for Ref<'a, V> {
    /// Two guards are equal when the values they show are: the borrow state
    /// takes no part.
    fn eq(&self, other: &Self) -> (r: bool) {
        *self.value == *other.value
    }
}

impl<'a, V: PartialEq> vstd::std_specs::cmp::PartialEqSpecImpl for Ref<'a, V> {
    open spec fn obeys_eq_spec() -> bool {
        V::obeys_eq_spec()
    }

    open spec fn eq_spec(&self, other: &Self) -> bool {
        self@.eq_spec(&other@)
    }
}

impl<'a, V: core::fmt::Debug> core::fmt::Debug for Ref<'a, V> {
    /// `Formatter::debug_struct`, with the value shown as the one field
    /// `inner`. Nothing is claimed of what is written.
    #[verifier::external_body]
    fn fmt(&self, f: &mut core::fmt::Formatter<'_>) -> core::fmt::Result {
        f.debug_struct("Ref").field("inner", self.value).finish()
    }
}

} // verus!
