//! Key events and how they drive the selection state.
//!
//! The embedding binary reads raw terminal events and translates each one
//! into a [`KeyEvent`] before handing it to [`InputHandler::handle_key_event`];
//! every key the menu does not react to maps onto [`KeyCode::Other`].

use crate::state::{message_for, next_index, prev_index, App};
use vstd::prelude::*;

verus! {

/// The keys the menu reacts to; every other key is `Other`.
pub enum KeyCode {
    Esc,
    Up,
    Down,
    Enter,
    Other,
}

/// How a key event was produced. Only presses drive the menu; releases and
/// repeats are ignored.
pub enum KeyEventKind {
    Press,
    Release,
    Repeat,
}

/// One observed key event.
pub struct KeyEvent {
    pub code: KeyCode,
    pub kind: KeyEventKind,
}

pub struct InputHandler;

impl InputHandler {
    /// Apply one key event to the selection state. Returns `true` exactly
    /// when the interaction loop must stop (the user pressed Escape).
    ///
    /// Only press events act: a press of Down moves the highlight to the
    /// next entry, Up to the previous one, Enter confirms the highlighted
    /// choice. A press of Escape, a press of any other key, and every
    /// non-press event leave the state untouched.
    pub fn handle_key_event(app: &mut App, key_event: KeyEvent) -> (exit: bool)
        requires
            old(app).wf(),
        ensures
            final(app).wf(),
            final(app).choices == old(app).choices,
            exit == (key_event.kind is Press && key_event.code is Esc),
            !(key_event.kind is Press) ==> *final(app) == *old(app),
            key_event.kind is Press && (key_event.code is Esc || key_event.code is Other)
                ==> *final(app) == *old(app),
            key_event.kind is Press && key_event.code is Down ==> (
                final(app).selected_index as int == next_index(
                    old(app).selected_index as int,
                    old(app).choices@.len() as int,
                ) && final(app).selected_item == old(app).selected_item
                    && final(app).selected_message@ == message_for(
                    old(app).choices@[next_index(
                        old(app).selected_index as int,
                        old(app).choices@.len() as int,
                    )]@,
                )),
            key_event.kind is Press && key_event.code is Up ==> (
                final(app).selected_index as int == prev_index(
                    old(app).selected_index as int,
                    old(app).choices@.len() as int,
                ) && final(app).selected_item == old(app).selected_item
                    && final(app).selected_message@ == message_for(
                    old(app).choices@[prev_index(
                        old(app).selected_index as int,
                        old(app).choices@.len() as int,
                    )]@,
                )),
            key_event.kind is Press && key_event.code is Enter ==> (
                final(app).selected_index == old(app).selected_index
                    && final(app).selected_item@ == old(app).choices@[old(
                    app,
                ).selected_index as int]@ && final(app).selected_message@ == message_for(
                    old(app).choices@[old(app).selected_index as int]@,
                )),
    {
        match key_event.kind {
            KeyEventKind::Press => {},
            _ => {
                return false;
            },
        }
        match key_event.code {
            KeyCode::Esc => true,
            KeyCode::Down => {
                app.select_next();
                false
            },
            KeyCode::Up => {
                app.select_previous();
                false
            },
            KeyCode::Enter => {
                app.confirm_selection();
                false
            },
            KeyCode::Other => false,
        }
    }
}

} // verus!
