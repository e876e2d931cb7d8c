//! The text with which a fatal borrow ends.
//!
//! A borrow that must not fail is fatal where it does. The functions here
//! decide what the caller is told then; making the program stop is left to
//! the caller. Each text names the entry and tells the three failures apart.

use vstd::prelude::*;
use vstd::string::StringExecFns;

use crate::borrow_fail::BorrowFail;

verus! {

/// The character of one decimal digit.
pub open spec fn digit(d: nat) -> char
    recommends
        d < 10,
{
    ('0' as nat + d) as char
}

/// A number written in decimal, without leading zeros.
pub open spec fn decimal(n: nat) -> Seq<char>
    decreases n,
{
    if n < 10 {
        seq![digit(n)]
    } else {
        decimal(n / 10).push(digit(n % 10))
    }
}

/// How an entry of an indexed container is named in a text.
pub open spec fn index_text(index: nat) -> Seq<char> {
    "index `"@ + decimal(index) + "`"@
}

/// How an entry of a keyed container is named in a text, given the key as its
/// `Debug` form prints it.
pub open spec fn key_text(shown: Seq<char>) -> Seq<char> {
    "`"@ + shown + "`"@
}

/// What follows the entry's name in the text, for each failure.
pub open spec fn failure_text(fail: BorrowFail) -> Seq<char> {
    match fail {
        BorrowFail::ValueNotFound => ", but it does not exist."@,
        BorrowFail::BorrowConflictImm => " immutably, but it was already borrowed mutably."@,
        BorrowFail::BorrowConflictMut => " mutably, but it was already borrowed."@,
    }
}

/// The whole text for a failed borrow of the entry named `subject`.
pub open spec fn fatal_text(subject: Seq<char>, fail: BorrowFail) -> Seq<char> {
    "Expected to borrow "@ + subject + failure_text(fail)
}

/// Whether `part` stands somewhere in `text`.
pub open spec fn contains(text: Seq<char>, part: Seq<char>) -> bool {
    exists|i: int|
        0 <= i && i + part.len() <= text.len() && #[trigger] text.subrange(i, i + part.len())
            == part
}

/// Every text names the entry it is about.
pub proof fn law_text_names_the_entry(subject: Seq<char>, fail: BorrowFail)
    ensures
        contains(fatal_text(subject, fail), subject),
{
    reveal_strlit("Expected to borrow ");
    let text = fatal_text(subject, fail);
    let end: int = 19 + subject.len() as int;
    assert(text.subrange(19, end) =~= subject);
}

/// Every text says which failure it is about: that the entry does not exist,
/// that it was already borrowed, or that it was already borrowed mutably.
pub proof fn law_text_says_the_failure(subject: Seq<char>)
    ensures
        contains(fatal_text(subject, BorrowFail::ValueNotFound), "does not exist"@),
        contains(fatal_text(subject, BorrowFail::BorrowConflictMut), "already borrowed"@),
        contains(fatal_text(subject, BorrowFail::BorrowConflictImm), "already borrowed mutably"@),
{
    reveal_strlit("Expected to borrow ");
    reveal_strlit(", but it does not exist.");
    reveal_strlit(" immutably, but it was already borrowed mutably.");
    reveal_strlit(" mutably, but it was already borrowed.");
    reveal_strlit("does not exist");
    reveal_strlit("already borrowed");
    reveal_strlit("already borrowed mutably");
    let start: int = 19 + subject.len() as int;
    let missing = fatal_text(subject, BorrowFail::ValueNotFound);
    assert(missing.subrange(start + 9, start + 9 + 14) =~= "does not exist"@);
    let exclusive = fatal_text(subject, BorrowFail::BorrowConflictMut);
    assert(exclusive.subrange(start + 21, start + 21 + 16) =~= "already borrowed"@);
    let shared = fatal_text(subject, BorrowFail::BorrowConflictImm);
    assert(shared.subrange(start + 23, start + 23 + 24) =~= "already borrowed mutably"@);
}

/// The three failures are told apart: for one entry, different failures give
/// different texts.
pub proof fn law_texts_differ(subject: Seq<char>, a: BorrowFail, b: BorrowFail)
    requires
        a != b,
    ensures
        fatal_text(subject, a) != fatal_text(subject, b),
{
    reveal_strlit(", but it does not exist.");
    reveal_strlit(" immutably, but it was already borrowed mutably.");
    reveal_strlit(" mutably, but it was already borrowed.");
    assert(fatal_text(subject, a).len() != fatal_text(subject, b).len());
}

/// `core::fmt::Formatter`: where a `Debug` impl writes.
#[verifier::external_type_specification]
#[verifier::external_body]
pub struct ExFormatter<'a>(core::fmt::Formatter<'a>);

/// `core::fmt::Error`: that writing failed.
#[verifier::external_type_specification]
#[verifier::external_body]
pub struct ExFmtError(core::fmt::Error);

/// `format!` with `{:?}`: a value as its `Debug` form prints it. Nothing is
/// claimed of the text, which is for the type's `Debug` impl to choose.
#[verifier::external_body]
pub(crate) fn debug_form<T: core::fmt::Debug>(value: &T) -> (shown: String) {
    format!("{:?}", value)
}

fn digit_str(d: usize) -> (s: &'static str)
    requires
        d < 10,
    ensures
        s@ == seq![digit(d as nat)],
{
    proof {
        reveal_strlit("0");
        reveal_strlit("1");
        reveal_strlit("2");
        reveal_strlit("3");
        reveal_strlit("4");
        reveal_strlit("5");
        reveal_strlit("6");
        reveal_strlit("7");
        reveal_strlit("8");
        reveal_strlit("9");
    }
    let s = if d == 0 {
        "0"
    } else if d == 1 {
        "1"
    } else if d == 2 {
        "2"
    } else if d == 3 {
        "3"
    } else if d == 4 {
        "4"
    } else if d == 5 {
        "5"
    } else if d == 6 {
        "6"
    } else if d == 7 {
        "7"
    } else if d == 8 {
        "8"
    } else {
        "9"
    };
    assert(s@ =~= seq![digit(d as nat)]);
    s
}

fn push_decimal(text: &mut String, n: usize)
    ensures
        final(text)@ == old(text)@ + decimal(n as nat),
    decreases n,
{
    if n >= 10 {
        push_decimal(text, n / 10);
    }
    text.append(digit_str(n % 10));
    assert(final(text)@ =~= old(text)@ + decimal(n as nat));
}

/// Names the entry at `index` of an indexed container.
pub fn index_subject(index: usize) -> (subject: String)
    ensures
        subject@ == index_text(index as nat),
{
    let mut subject = String::from_str("index `");
    push_decimal(&mut subject, index);
    subject.append("`");
    assert(subject@ =~= index_text(index as nat));
    subject
}

/// Names the entry under a key of a keyed container, from the key's `Debug`
/// form.
pub fn key_subject(shown: &str) -> (subject: String)
    ensures
        subject@ == key_text(shown@),
{
    let mut subject = String::from_str("`");
    subject.append(shown);
    subject.append("`");
    assert(subject@ =~= key_text(shown@));
    subject
}

/// The text with which a borrow of the entry named `subject` ends when it
/// failed with `fail`.
pub fn fatal_message(subject: &str, fail: BorrowFail) -> (message: String)
    ensures
        message@ == fatal_text(subject@, fail),
{
    let mut message = String::from_str("Expected to borrow ");
    message.append(subject);
    match fail {
        BorrowFail::ValueNotFound => message.append(", but it does not exist."),
        BorrowFail::BorrowConflictImm => message.append(
            " immutably, but it was already borrowed mutably.",
        ),
        BorrowFail::BorrowConflictMut => message.append(" mutably, but it was already borrowed."),
    }
    assert(message@ =~= fatal_text(subject@, fail));
    message
}

} // verus!
