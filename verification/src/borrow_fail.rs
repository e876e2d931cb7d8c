use vstd::prelude::*;

verus! {

/// Why a borrow of an entry was refused.
#[derive(Clone, Copy, Debug, PartialEq, Eq, Structural)]
pub enum BorrowFail {
    /// No entry stands under the key or index.
    ValueNotFound,
    /// A shared borrow was asked for while an exclusive borrow is live.
    BorrowConflictImm,
    /// An exclusive borrow was asked for while any borrow, shared or
    /// exclusive, is live.
    BorrowConflictMut,
}

} // verus!
