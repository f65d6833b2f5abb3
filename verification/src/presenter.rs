//! The presenter: a pure projection of the selection state onto the three
//! displayed regions — the choice list with one highlighted row, the line
//! for the confirmed item, and the line for the derived message.
//!
//! The embedding binary draws a [`RenderModel`] onto the terminal; nothing
//! here touches the terminal itself.

use crate::state::App;
use vstd::prelude::*;

verus! {

/// Vertical share of the screen given to the choice list, in percent.
pub const CHOICES_PERCENT: u16 = 60;

/// Vertical share of the screen given to the confirmed-item frame, in percent.
pub const SELECTED_PERCENT: u16 = 20;

/// Vertical share of the screen given to the message frame, in percent.
pub const MESSAGE_PERCENT: u16 = 20;

/// One row of the choice list: its text and whether it is highlighted.
pub struct ChoiceRow {
    pub text: String,
    pub highlighted: bool,
}

/// Everything the three regions display, as plain values.
pub struct RenderModel {
    pub choice_rows: Vec<ChoiceRow>,
    pub selected_line: String,
    pub message_line: String,
}

pub struct AppPresenter;

impl AppPresenter {
    /// Project the state onto the displayed regions: one row per choice in
    /// order, exactly the row at `selected_index` highlighted, the
    /// confirmed-item line prefixed with `"Selected: "`, and the message
    /// line as it stands in the state.
    pub fn render(app: &App) -> (model: RenderModel)
        requires
            app.wf(),
        ensures
            model.choice_rows@.len() == app.choices@.len(),
            forall|i: int|
                0 <= i < app.choices@.len() ==> model.choice_rows@[i].text@ == app.choices@[i]@,
            forall|i: int|
                0 <= i < app.choices@.len() ==> (model.choice_rows@[i].highlighted <==> i
                    == app.selected_index as int),
            model.selected_line@ == "Selected: "@ + app.selected_item@,
            model.message_line@ == app.selected_message@,
    {
        let choice_rows = AppPresenter::render_choices(app);
        let mut selected_line = "Selected: ".to_owned();
        selected_line.append(app.selected_item.as_str());
        let message_line = app.selected_message.clone();
        RenderModel { choice_rows, selected_line, message_line }
    }

    /// One row per choice, in the order of the list, with exactly the row
    /// at `selected_index` highlighted.
    fn render_choices(app: &App) -> (rows: Vec<ChoiceRow>)
        requires
            app.wf(),
        ensures
            rows@.len() == app.choices@.len(),
            forall|i: int| 0 <= i < app.choices@.len() ==> rows@[i].text@ == app.choices@[i]@,
            forall|i: int|
                0 <= i < app.choices@.len() ==> (rows@[i].highlighted <==> i
                    == app.selected_index as int),
    {
        let mut rows: Vec<ChoiceRow> = Vec::new();
        let mut i: usize = 0;
        while i < app.choices.len()
            invariant
                app.wf(),
                i <= app.choices@.len(),
                rows@.len() == i,
                forall|j: int| 0 <= j < i ==> rows@[j].text@ == app.choices@[j]@,
                forall|j: int|
                    0 <= j < i ==> (rows@[j].highlighted <==> j == app.selected_index as int),
            decreases app.choices@.len() - i,
        {
            let highlighted = i == app.selected_index;
            let text = app.choices[i].clone();
            rows.push(ChoiceRow { text, highlighted });
            i = i + 1;
        }
        rows
    }
}

} // verus!
