//! What holds of every history of one entry's borrow state.
//!
//! A history is the sequence of what was asked of the state, oldest first.

use vstd::prelude::*;

use crate::borrow_state::after;
use crate::borrow_state::granted;
use crate::borrow_state::Borrowing;
use crate::borrow_state::Event;
use crate::borrow_state::SHARED_MAX;

verus! {

/// The state that `history` leaves when it starts from `s`.
pub open spec fn run(s: Borrowing, history: Seq<Event>) -> Borrowing
    decreases history.len(),
{
    if history.len() == 0 {
        s
    } else {
        after(run(s, history.drop_last()), history.last())
    }
}

/// Whether everything that `history` asks, starting from `s`, is allowed at
/// the moment it is asked.
pub open spec fn all_granted(s: Borrowing, history: Seq<Event>) -> bool
    decreases history.len(),
{
    history.len() == 0 || (all_granted(s, history.drop_last()) && granted(
        run(s, history.drop_last()),
        history.last(),
    ))
}

/// How often `history` asks `e`.
pub open spec fn asked(history: Seq<Event>, e: Event) -> nat
    decreases history.len(),
{
    if history.len() == 0 {
        0
    } else {
        asked(history.drop_last(), e) + if history.last() == e {
            1nat
        } else {
            0nat
        }
    }
}

/// The shared guards that are live after a history in which everything was
/// allowed: those at the start and those taken, less those dropped.
pub open spec fn live_shared(s: Borrowing, history: Seq<Event>) -> int {
    s.shared() + asked(history, Event::AcquireShared) + asked(history, Event::DuplicateShared)
        - asked(history, Event::ReleaseShared)
}

/// The exclusive guards that are live after a history in which everything was
/// allowed.
pub open spec fn live_exclusive(s: Borrowing, history: Seq<Event>) -> int {
    s.exclusive() + asked(history, Event::AcquireExclusive) - asked(
        history,
        Event::ReleaseExclusive,
    )
}

/// `n` times the same request.
pub open spec fn repeated(e: Event, n: nat) -> Seq<Event> {
    Seq::new(n, |i: int| e)
}

/// A state is told by its guards: two valid states with the same numbers of
/// shared and exclusive guards are the same state.
pub proof fn law_state_is_its_guards(a: Borrowing, b: Borrowing)
    requires
        a.wf(),
        b.wf(),
        a.shared() == b.shared(),
        a.exclusive() == b.exclusive(),
    ensures
        a == b,
{
}

/// Every move keeps the state valid, and never are shared and exclusive
/// guards live together.
pub proof fn law_moves_keep_validity(s: Borrowing, e: Event)
    requires
        s.wf(),
    ensures
        after(s, e).wf(),
        after(s, e).shared() == 0 || after(s, e).exclusive() == 0,
{
}

/// The state counts the live guards: after a history in which everything was
/// allowed, the state has as many shared and exclusive guards as were taken
/// and not yet dropped, and never both kinds at once.
pub proof fn law_state_counts_live_guards(s: Borrowing, history: Seq<Event>)
    requires
        s.wf(),
        all_granted(s, history),
    ensures
        run(s, history).wf(),
        run(s, history).shared() == live_shared(s, history),
        run(s, history).exclusive() == live_exclusive(s, history),
        run(s, history).shared() == 0 || run(s, history).exclusive() == 0,
    decreases history.len(),
{
    if history.len() > 0 {
        law_state_counts_live_guards(s, history.drop_last());
    }
}

/// Shared acquisitions that follow one another all succeed, and the state
/// counts them: from a state without the exclusive guard, `n` acquisitions
/// that stay within the limit are all allowed and leave `n` more shared
/// guards.
pub proof fn law_shared_acquisitions_succeed(s: Borrowing, n: nat)
    requires
        s.wf(),
        !(s is Exclusive),
        s.shared() + n <= SHARED_MAX,
    ensures
        all_granted(s, repeated(Event::AcquireShared, n)),
        run(s, repeated(Event::AcquireShared, n)) == Borrowing::of_shared(s.shared() + n),
    decreases n,
{
    let history = repeated(Event::AcquireShared, n);
    if n > 0 {
        law_shared_acquisitions_succeed(s, (n - 1) as nat);
        assert(history.drop_last() =~= repeated(Event::AcquireShared, (n - 1) as nat));
    }
}

/// While a shared guard is live the exclusive guard is refused, and the state
/// stays as it is.
pub proof fn law_shared_excludes_exclusive(s: Borrowing)
    requires
        s.shared() >= 1,
    ensures
        !granted(s, Event::AcquireExclusive),
        after(s, Event::AcquireExclusive) == s,
{
}

/// While the exclusive guard is live every other guard is refused, shared or
/// exclusive, new or copied, and the state stays as it is.
pub proof fn law_exclusive_excludes_all(s: Borrowing)
    requires
        s is Exclusive,
    ensures
        !granted(s, Event::AcquireShared),
        !granted(s, Event::DuplicateShared),
        !granted(s, Event::AcquireExclusive),
        after(s, Event::AcquireShared) == s,
        after(s, Event::DuplicateShared) == s,
        after(s, Event::AcquireExclusive) == s,
{
}

/// Once every guard is dropped the entry is unborrowed and the exclusive
/// guard is granted: after a history from the unborrowed state in which
/// everything was allowed and as many guards were dropped as taken.
pub proof fn law_exclusive_after_all_released(history: Seq<Event>)
    requires
        all_granted(Borrowing::Unborrowed, history),
        asked(history, Event::AcquireShared) + asked(history, Event::DuplicateShared) == asked(
            history,
            Event::ReleaseShared,
        ),
        asked(history, Event::AcquireExclusive) == asked(history, Event::ReleaseExclusive),
    ensures
        run(Borrowing::Unborrowed, history) == Borrowing::Unborrowed,
        granted(run(Borrowing::Unborrowed, history), Event::AcquireExclusive),
{
    law_state_counts_live_guards(Borrowing::Unborrowed, history);
}

/// A copy of a shared guard adds exactly one to the count and a drop takes
/// exactly one away.
pub proof fn law_copy_and_drop_count_one(s: Borrowing)
    requires
        s.wf(),
        s is Shared,
    ensures
        granted(s, Event::DuplicateShared) ==> after(s, Event::DuplicateShared).shared()
            == s.shared() + 1,
        granted(s, Event::ReleaseShared),
        after(s, Event::ReleaseShared).shared() == s.shared() - 1,
{
}

/// Copies are guards like any other: from `n` live shared guards, `copies`
/// copies within the limit are all allowed and leave `n + copies` guards, and
/// dropping all of them leaves the entry unborrowed.
pub proof fn law_copies_all_dropped(s: Borrowing, copies: nat)
    requires
        s.wf(),
        s is Shared,
        s.shared() + copies <= SHARED_MAX,
    ensures
        all_granted(s, repeated(Event::DuplicateShared, copies)),
        run(s, repeated(Event::DuplicateShared, copies)) == Borrowing::Shared(
            s.shared() + copies,
        ),
        all_granted(
            Borrowing::Shared(s.shared() + copies),
            repeated(Event::ReleaseShared, s.shared() + copies),
        ),
        run(
            Borrowing::Shared(s.shared() + copies),
            repeated(Event::ReleaseShared, s.shared() + copies),
        ) == Borrowing::Unborrowed,
{
    lemma_copies(s, copies);
    lemma_drops(s.shared() + copies, s.shared() + copies);
}

proof fn lemma_copies(s: Borrowing, copies: nat)
    requires
        s.wf(),
        s is Shared,
        s.shared() + copies <= SHARED_MAX,
    ensures
        all_granted(s, repeated(Event::DuplicateShared, copies)),
        run(s, repeated(Event::DuplicateShared, copies)) == Borrowing::Shared(
            s.shared() + copies,
        ),
    decreases copies,
{
    let history = repeated(Event::DuplicateShared, copies);
    if copies > 0 {
        lemma_copies(s, (copies - 1) as nat);
        assert(history.drop_last() =~= repeated(Event::DuplicateShared, (copies - 1) as nat));
    }
}

proof fn lemma_drops(n: nat, drops: nat)
    requires
        1 <= n <= SHARED_MAX,
        drops <= n,
    ensures
        all_granted(Borrowing::Shared(n), repeated(Event::ReleaseShared, drops)),
        run(Borrowing::Shared(n), repeated(Event::ReleaseShared, drops)) == Borrowing::of_shared(
            (n - drops) as nat,
        ),
    decreases drops,
{
    let history = repeated(Event::ReleaseShared, drops);
    if drops > 0 {
        lemma_drops(n, (drops - 1) as nat);
        assert(history.drop_last() =~= repeated(Event::ReleaseShared, (drops - 1) as nat));
    }
}

} // verus!
