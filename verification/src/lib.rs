//! Containers whose entries are borrowed one by one, checked at run time.
//!
//! [`RtMap`] and [`RtVec`] hand out guards to single entries while the
//! container itself is only borrowed shared, so that several entries can be
//! written at once. Each entry sits in a [`Cell`] of `rt_ref`, which keeps the
//! entry's borrow state in a flag: a borrow that the flag does not allow is
//! refused, as a [`BorrowFail`].
//!
//! What is proved here, and what is not: which entries a container has, and
//! in what order, is its view, and every function says what it does to that.
//! What an entry holds and how it is borrowed at a given moment is kept
//! behind a shared reference and is no part of a container's view: a contract
//! says for which entries the cell is asked and which answers can come back,
//! never which one does. A guard's view is the value that it gives access to:
//! for a [`Ref`] the value it shows as long as it lives, for a [`RefMut`] the
//! value under it, which changes as it is written through the guard. The
//! moves of the borrow state itself are [`BorrowState`], with the laws that
//! hold of every history in [`borrow_laws`].
//!
//! A borrow that must not fail ([`RtVec::borrow`], [`RtMap::borrow`] and
//! their `_mut` forms) returns the text to stop with where it is refused:
//! stopping is left to the caller.

pub mod borrow_fail;
pub mod borrow_laws;
pub mod borrow_state;
pub mod cell;
pub mod diagnostic;
pub mod entry;
pub mod ref_mut;
pub mod reference;
pub mod rt_map;
pub mod rt_vec;

pub use rt_ref::Cell;
pub use rt_ref::CellRef;
pub use rt_ref::CellRefMut;

pub use crate::borrow_fail::BorrowFail;
pub use crate::borrow_state::BorrowState;
pub use crate::entry::Entry;
pub use crate::ref_mut::RefMut;
pub use crate::reference::Ref;
pub use crate::reference::RefOverflow;
pub use crate::rt_map::RtMap;
pub use crate::rt_vec::RtVec;
