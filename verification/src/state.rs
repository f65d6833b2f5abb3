//! The selection state: an ordered, non-empty list of choices, the index of
//! the highlighted choice, the last confirmed choice, and a message derived
//! from the highlighted choice.

use vstd::arithmetic::div_mod::{lemma_mod_self_0, lemma_small_mod};
use vstd::prelude::*;
use vstd::string::StringExecFns;

verus! {

/// The message derived for a choice: `"You selected "`, the choice itself,
/// then `"!"`.
pub open spec fn message_for(choice: Seq<char>) -> Seq<char> {
    "You selected "@ + choice + "!"@
}

/// Index of the entry after `i` in a list of length `n`, wrapping from the
/// last entry back to the first.
pub open spec fn next_index(i: int, n: int) -> int
    recommends
        0 <= i < n,
{
    if i + 1 < n {
        i + 1
    } else {
        0
    }
}

/// Index of the entry before `i` in a list of length `n`, wrapping from the
/// first entry back to the last.
pub open spec fn prev_index(i: int, n: int) -> int
    recommends
        0 <= i < n,
{
    if i == 0 {
        n - 1
    } else {
        i - 1
    }
}

/// One step in either direction keeps the index inside `[0, n)`, so any
/// sequence of steps from a valid index only visits valid indices.
pub proof fn lemma_step_stays_in_range(i: int, n: int)
    requires
        0 <= i < n,
    ensures
        0 <= next_index(i, n) < n,
        0 <= prev_index(i, n) < n,
{
}

/// Stepping forward and then backward (or backward and then forward)
/// returns to the starting index, for every list length `n >= 1`.
pub proof fn lemma_next_previous_inverse(i: int, n: int)
    requires
        0 <= i < n,
    ensures
        prev_index(next_index(i, n), n) == i,
        next_index(prev_index(i, n), n) == i,
{
}

/// The selection state. `choices` is fixed for the life of the value and
/// never empty; `selected_index` always points into it.
pub struct App {
    pub selected_index: usize,
    pub selected_item: String,
    pub selected_message: String,
    pub choices: Vec<String>,
}

impl App {
    /// Well-formedness: the choice list is non-empty and the highlighted
    /// index points into it.
    pub open spec fn wf(self) -> bool {
        &&& self.choices@.len() >= 1
        &&& self.selected_index < self.choices@.len()
    }

    /// A fresh state over `choices`: the first entry is highlighted, nothing
    /// is confirmed yet and no message is shown.
    pub fn new(choices: Vec<String>) -> (app: Self)
        requires
            choices@.len() >= 1,
        ensures
            app.wf(),
            app.choices == choices,
            app.selected_index == 0,
            app.selected_item@ == Seq::<char>::empty(),
            app.selected_message@ == Seq::<char>::empty(),
    {
        App {
            selected_index: 0,
            selected_item: String::new(),
            selected_message: String::new(),
            choices,
        }
    }

    /// Recompute `selected_message` from the currently highlighted choice.
    pub fn update_message(&mut self)
        requires
            old(self).wf(),
        ensures
            final(self).wf(),
            final(self).selected_index == old(self).selected_index,
            final(self).selected_item == old(self).selected_item,
            final(self).choices == old(self).choices,
            final(self).selected_message@ == message_for(
                old(self).choices@[old(self).selected_index as int]@,
            ),
    {
        let mut message = "You selected ".to_owned();
        message.append(self.choices[self.selected_index].as_str());
        message.append("!");
        self.selected_message = message;
    }

    /// Move the highlight one entry down, wrapping from the last entry to
    /// the first, and recompute the message.
    pub fn select_next(&mut self)
        requires
            old(self).wf(),
        ensures
            final(self).wf(),
            final(self).selected_index as int == next_index(
                old(self).selected_index as int,
                old(self).choices@.len() as int,
            ),
            final(self).selected_item == old(self).selected_item,
            final(self).choices == old(self).choices,
            final(self).selected_message@ == message_for(
                old(self).choices@[next_index(
                    old(self).selected_index as int,
                    old(self).choices@.len() as int,
                )]@,
            ),
    {
        let n = self.choices.len();
        proof {
            if self.selected_index + 1 < n {
                lemma_small_mod((self.selected_index + 1) as nat, n as nat);
            } else {
                lemma_mod_self_0(n as int);
            }
        }
        self.selected_index = (self.selected_index + 1) % n;
        self.update_message();
    }

    /// Move the highlight one entry up, wrapping from the first entry to the
    /// last, and recompute the message.
    pub fn select_previous(&mut self)
        requires
            old(self).wf(),
        ensures
            final(self).wf(),
            final(self).selected_index as int == prev_index(
                old(self).selected_index as int,
                old(self).choices@.len() as int,
            ),
            final(self).selected_item == old(self).selected_item,
            final(self).choices == old(self).choices,
            final(self).selected_message@ == message_for(
                old(self).choices@[prev_index(
                    old(self).selected_index as int,
                    old(self).choices@.len() as int,
                )]@,
            ),
    {
        self.selected_index = if self.selected_index == 0 {
            self.choices.len() - 1
        } else {
            self.selected_index - 1
        };
        self.update_message();
    }

    /// Confirm the highlighted choice: copy it into `selected_item` and
    /// recompute the message.
    pub fn confirm_selection(&mut self)
        requires
            old(self).wf(),
        ensures
            final(self).wf(),
            final(self).selected_index == old(self).selected_index,
            final(self).selected_item@ == old(self).choices@[old(self).selected_index as int]@,
            final(self).choices == old(self).choices,
            final(self).selected_message@ == message_for(
                old(self).choices@[old(self).selected_index as int]@,
            ),
    {
        self.selected_item = self.choices[self.selected_index].clone();
        self.update_message();
    }
}

} // verus!

