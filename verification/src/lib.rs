//! A generic undo/redo history.
//!
//! An [`UndoRedo`] records [`Action`]s, each a list of operations that carry
//! an edit out and a list of operations that take it back, and keeps a cursor
//! between the actions that are applied and those that are not. The edited
//! target is never stored: [`UndoRedo::redo`] and [`UndoRedo::undo`] borrow it
//! for the length of the call.
//!
//! An edit is recorded in two steps. [`UndoRedo::create_action`] hands out a
//! new, empty action to fill, and the next redo applies it and moves the
//! cursor past it. Creating an action discards the actions that were undone
//! and not redone.
//!
//! Each type has a mathematical model, [`ActionView`] and [`HistoryView`],
//! over which the contracts are stated; [`laws`] proves what follows from
//! them for every history.

pub mod action;
pub mod history;
pub mod laws;
pub mod operation;

pub use action::{Action, ActionView};
pub use history::{HistoryView, UndoRedo, UndoRedoError};
pub use operation::Operation;
