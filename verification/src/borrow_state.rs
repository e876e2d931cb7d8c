//! The borrow state of one entry, and the moves it allows.
//!
//! An entry is unborrowed, or borrowed by a number of shared guards, or
//! borrowed by one exclusive guard. A guard's life is one acquisition and one
//! release. An acquisition that the state does not allow is refused and leaves
//! the state as it was.
//!
//! [`BorrowState`] is that state as a plain value, in the encoding of an
//! entry's flag, so that a flag read from a guard can be told
//! ([`BorrowState::from_flag`]) and a sequence of borrows followed. The
//! containers do not keep one: their entries' flags live in the cells and
//! move at run time.

use vstd::prelude::*;

verus! {

/// The most shared guards that one entry counts.
pub const SHARED_MAX: usize = usize::MAX / 2;

/// The flag value that stands for the exclusive borrow.
pub const EXCLUSIVE: usize = usize::MAX;

/// What a borrow state says.
pub enum Borrowing {
    /// No guard is live.
    Unborrowed,
    /// So many shared guards are live, at least one.
    Shared(nat),
    /// The one exclusive guard is live.
    Exclusive,
}

/// What can be asked of a borrow state.
pub enum Event {
    /// A new shared guard.
    AcquireShared,
    /// A copy of a live shared guard.
    DuplicateShared,
    /// The drop of a shared guard.
    ReleaseShared,
    /// The exclusive guard.
    AcquireExclusive,
    /// The drop of the exclusive guard.
    ReleaseExclusive,
}

impl Borrowing {
    /// The number of live shared guards.
    pub open spec fn shared(self) -> nat {
        match self {
            Borrowing::Shared(n) => n,
            _ => 0,
        }
    }

    /// The number of live exclusive guards.
    pub open spec fn exclusive(self) -> nat {
        match self {
            Borrowing::Exclusive => 1,
            _ => 0,
        }
    }

    /// A state that a flag can hold: a shared count is at least one and
    /// within the limit.
    pub open spec fn wf(self) -> bool {
        self matches Borrowing::Shared(n) ==> 1 <= n <= SHARED_MAX
    }

    /// The state with `n` shared guards and no exclusive one.
    pub open spec fn of_shared(n: nat) -> Borrowing {
        if n == 0 {
            Borrowing::Unborrowed
        } else {
            Borrowing::Shared(n)
        }
    }

    /// The flag value that stands for the state.
    pub open spec fn flag(self) -> nat {
        match self {
            Borrowing::Unborrowed => 0,
            Borrowing::Shared(n) => n,
            Borrowing::Exclusive => EXCLUSIVE as nat,
        }
    }
}

/// Whether state `s` allows `e`.
pub open spec fn granted(s: Borrowing, e: Event) -> bool {
    match e {
        Event::AcquireShared => !(s is Exclusive) && s.shared() < SHARED_MAX,
        Event::DuplicateShared => s is Shared && s.shared() < SHARED_MAX,
        Event::ReleaseShared => s is Shared,
        Event::AcquireExclusive => s is Unborrowed,
        Event::ReleaseExclusive => s is Exclusive,
    }
}

/// The state after `e` was asked of `s`: moved on where `e` is allowed, and
/// `s` itself where it is refused.
pub open spec fn after(s: Borrowing, e: Event) -> Borrowing {
    if !granted(s, e) {
        s
    } else {
        match e {
            Event::AcquireShared | Event::DuplicateShared => Borrowing::Shared(s.shared() + 1),
            Event::ReleaseShared => Borrowing::of_shared((s.shared() - 1) as nat),
            Event::AcquireExclusive => Borrowing::Exclusive,
            Event::ReleaseExclusive => Borrowing::Unborrowed,
        }
    }
}

/// The borrow state of one entry, kept as a flag: `0` for unborrowed, a count
/// from `1` to [`SHARED_MAX`] for that many shared guards, [`EXCLUSIVE`] for
/// the exclusive guard.
pub struct BorrowState {
    flag: usize,
}

impl View for BorrowState {
    type V = Borrowing;

    closed spec fn view(&self) -> Borrowing {
        if self.flag == 0 {
            Borrowing::Unborrowed
        } else if self.flag == EXCLUSIVE {
            Borrowing::Exclusive
        } else {
            Borrowing::Shared(self.flag as nat)
        }
    }
}

impl BorrowState {
    #[verifier::type_invariant]
    spec fn valid(self) -> bool {
        self.flag <= SHARED_MAX || self.flag == EXCLUSIVE
    }

    /// The state of a new entry.
    pub fn new() -> (r: Self)
        ensures
            r@ == Borrowing::Unborrowed,
    {
        BorrowState { flag: 0 }
    }

    /// The state that a flag value stands for, if it stands for one.
    pub fn from_flag(flag: usize) -> (r: Option<Self>)
        ensures
            r is Some <==> flag <= SHARED_MAX || flag == EXCLUSIVE,
            r matches Some(state) ==> state@.flag() == flag && state@.wf(),
    {
        if flag <= SHARED_MAX || flag == EXCLUSIVE {
            Some(BorrowState { flag })
        } else {
            None
        }
    }

    /// The flag value that stands for the state.
    pub fn flag(&self) -> (flag: usize)
        ensures
            flag == self@.flag(),
            self@.wf(),
    {
        proof {
            use_type_invariant(self);
        }
        self.flag
    }

    /// Whether no guard is live.
    pub fn is_unborrowed(&self) -> (r: bool)
        ensures
            r == (self@ is Unborrowed),
    {
        self.flag == 0
    }

    /// Whether the exclusive guard is live.
    pub fn is_exclusive(&self) -> (r: bool)
        ensures
            r == (self@ is Exclusive),
    {
        proof {
            use_type_invariant(self);
        }
        self.flag == EXCLUSIVE
    }

    /// The number of live shared guards.
    pub fn shared_count(&self) -> (n: usize)
        ensures
            n == self@.shared(),
    {
        proof {
            use_type_invariant(self);
        }
        if self.flag == EXCLUSIVE {
            0
        } else {
            self.flag
        }
    }

    /// Takes a shared guard if the state allows one: it does unless the
    /// exclusive guard is live or the count stands at its limit.
    pub fn try_acquire_shared(&mut self) -> (ok: bool)
        ensures
            ok == granted(old(self)@, Event::AcquireShared),
            final(self)@ == after(old(self)@, Event::AcquireShared),
            final(self)@.wf(),
    {
        proof {
            use_type_invariant(&*self);
        }
        if self.flag < SHARED_MAX {
            self.flag = self.flag + 1;
            true
        } else {
            false
        }
    }

    /// Takes a shared guard from a state that allows one.
    pub fn acquire_shared(&mut self)
        requires
            granted(old(self)@, Event::AcquireShared),
        ensures
            final(self)@ == after(old(self)@, Event::AcquireShared),
            final(self)@.wf(),
    {
        proof {
            use_type_invariant(&*self);
        }
        self.flag = self.flag + 1;
    }

    /// Takes a copy of a shared guard that is live.
    pub fn duplicate_shared(&mut self)
        requires
            granted(old(self)@, Event::DuplicateShared),
        ensures
            final(self)@ == after(old(self)@, Event::DuplicateShared),
            final(self)@.wf(),
    {
        proof {
            use_type_invariant(&*self);
        }
        self.flag = self.flag + 1;
    }

    /// Gives a shared guard back.
    pub fn release_shared(&mut self)
        requires
            granted(old(self)@, Event::ReleaseShared),
        ensures
            final(self)@ == after(old(self)@, Event::ReleaseShared),
            final(self)@.wf(),
    {
        proof {
            use_type_invariant(&*self);
        }
        self.flag = self.flag - 1;
    }

    /// Takes the exclusive guard if the state allows it: it does only when no
    /// guard is live.
    pub fn try_acquire_exclusive(&mut self) -> (ok: bool)
        ensures
            ok == granted(old(self)@, Event::AcquireExclusive),
            final(self)@ == after(old(self)@, Event::AcquireExclusive),
            final(self)@.wf(),
    {
        proof {
            use_type_invariant(&*self);
        }
        if self.flag == 0 {
            self.flag = EXCLUSIVE;
            true
        } else {
            false
        }
    }

    /// Takes the exclusive guard from a state that allows it.
    pub fn acquire_exclusive(&mut self)
        requires
            granted(old(self)@, Event::AcquireExclusive),
        ensures
            final(self)@ == after(old(self)@, Event::AcquireExclusive),
            final(self)@.wf(),
    {
        self.flag = EXCLUSIVE;
    }

    /// Gives the exclusive guard back.
    pub fn release_exclusive(&mut self)
        requires
            granted(old(self)@, Event::ReleaseExclusive),
        ensures
            final(self)@ == after(old(self)@, Event::ReleaseExclusive),
            final(self)@.wf(),
    {
        self.flag = 0;
    }
}

} // verus!
