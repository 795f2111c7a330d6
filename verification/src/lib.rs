//! The Command design pattern, verified: an action and its inverse as a
//! first-class, storable, replayable value.
//!
//! A [`command::Command`] supports `execute`, `undo`, `redo` and
//! `duplicate`. Two variants exist: an addition on a shared accumulator
//! cell, and a stateless narration-only command. An
//! [`invoker::SimpleButton`] keeps two history stacks of duplicated
//! commands and offers `click` / `unclick` / `reclick`.
//!
//! The shared integer cells of the pattern (accumulator, addend) are
//! modelled as plain `i32` values owned by the caller and passed by
//! mutable reference: the system is single-threaded, so a single owner
//! with borrowed access has the same behaviour as a shared cell.
//! Every operation returns the trace lines it emits instead of printing
//! them; the caller decides where they go.

pub mod command;
pub mod invoker;
pub mod trace;
