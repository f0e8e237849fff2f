//! A minimal to-do list core: an ordered task list with a completion flag per
//! task, a current application mode, and the message-driven update step that a
//! reactive user interface dispatches into.
//!
//! The widget toolkit around this library only turns input events into
//! messages and redraws rows from the state held here; it keeps no authority
//! over the list itself.

pub mod header;
pub mod store;
