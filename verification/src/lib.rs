//! A small interactive menu library: a list of string choices, a highlighted
//! cursor that wraps around, a confirmed item, and a derived message.
//!
//! The selection state and every operation on it live in [`state`]; the
//! mapping from key events to state changes lives in [`input`]; the pure
//! projection of the state onto the three displayed regions lives in
//! [`presenter`]. Terminal plumbing (raw events, drawing) is left to the
//! binary that embeds this library.

pub mod input;
pub mod presenter;
pub mod state;
