//! The form that rolls initiative for every combatant in turn.

use crate::combatant::{number_text, text_of, CombatantView};
use crate::form::{
    form_input, form_keys, is_finish, is_finish_exec, is_next_key, is_next_key_exec,
    is_previous_key, is_previous_key_exec, number_or_empty, value_of, FormRow, FormView,
};
use crate::input::Input;
use crate::key::{Key, KeyEvent};
use crate::number::value_or_zero;
use crate::state::State;
use crate::tracker::{in_turn_order, Tracker};
use vstd::prelude::*;
use vstd::string::*;

verus! {

/// The help text of the form.
pub const ROLL_HELP: &'static str = "<escape>: cancel, back to initiative tracker
<enter>: set initiative
<ctrl-enter>: set initiative and finish, sort all combatants
+ or =: next combatant
- or _: previous combatant";

/// The row after `row` among `len` rows, wrapping to the first.
pub open spec fn next_row(row: usize, len: nat) -> usize {
    if row + 1 < len {
        (row + 1) as usize
    } else {
        0
    }
}

/// The row before `row` among `len` rows, wrapping to the last.
pub open spec fn previous_row(row: usize, len: nat) -> usize {
    if len == 0 {
        0
    } else if row == 0 || row > len {
        (len - 1) as usize
    } else {
        (row - 1) as usize
    }
}

/// The entries with the initiative of row `row`, if there is one, set to `value`.
pub open spec fn with_initiative(
    entries: Seq<(CombatantView, usize)>,
    row: usize,
    value: i32,
) -> Seq<(CombatantView, usize)> {
    if row < entries.len() {
        entries.update(
            row as int,
            (CombatantView { initiative: Some(value), ..entries[row as int].0 }, entries[row as int].1),
        )
    } else {
        entries
    }
}

/// Rolling initiative: the editor holds the initiative of the highlighted combatant.
#[derive(Debug, PartialEq, Eq)]
pub struct RollInitiative {
    /// The name of the combatant we're rolling initiative for.
    pub name: Option<String>,
    /// The initiative of that combatant when the form reached it.
    pub initiative: Option<i32>,
    /// The row of that combatant in the registry.
    pub row: usize,
    pub input: Input,
}

impl RollInitiative {
    /// Whether the form is as it is before it reaches any row.
    pub open spec fn is_fresh(&self) -> bool {
        &&& self.name is None
        &&& self.initiative is None
        &&& self.row == 0
        &&& self.input.text() == Seq::<char>::empty()
        &&& self.input.cursor() == 0
        &&& self.input.ignored() == form_keys()
    }

    /// Whether `new` holds what this form holds.
    pub open spec fn same_as(&self, new: RollInitiative) -> bool {
        &&& text_of(new.name) == text_of(self.name)
        &&& new.initiative == self.initiative
        &&& new.row == self.row
        &&& self.input.same_as(new.input)
    }

    /// Whether `new` and `new_tracker` are this form and a registry holding
    /// `entries` after the form moved to row `row`: the row is highlighted
    /// and its combatant's name and initiative are loaded.
    pub open spec fn moves_to(
        &self,
        entries: Seq<(CombatantView, usize)>,
        row: usize,
        new: RollInitiative,
        new_tracker: Tracker,
    ) -> bool {
        &&& new.row == row
        &&& new_tracker.entries() == entries
        &&& new_tracker.highlight_row() == (if row < entries.len() {
            Some(row)
        } else {
            None
        })
        &&& text_of(new.name) == (if row < entries.len() {
            entries[row as int].0.name
        } else {
            None
        })
        &&& new.initiative == (if row < entries.len() {
            entries[row as int].0.initiative
        } else {
            None
        })
        &&& self.input.set_to(number_text(new.initiative, Seq::empty()), new.input)
    }

    /// What handling `event` does: `new`, `new_tracker` and `r` are this form,
    /// `tracker` and the result after it.
    pub open spec fn handled(
        &self,
        event: KeyEvent,
        tracker: Tracker,
        new: RollInitiative,
        new_tracker: Tracker,
        r: Option<State>,
    ) -> bool {
        let len = tracker.entries().len();
        let value = value_or_zero(self.input.text());
        if self.input.consumes(event) {
            &&& r is None
            &&& tracker.same_as(new_tracker)
            &&& text_of(new.name) == text_of(self.name)
            &&& new.initiative == self.initiative
            &&& new.row == self.row
            &&& self.input.edits_to(event, new.input)
        } else if event.code == Key::Esc {
            &&& r == Some(State::Home)
            &&& tracker.same_as(new_tracker)
            &&& self.same_as(new)
        } else if event.code == Key::Enter {
            &&& r is None
            &&& self.moves_to(
                with_initiative(tracker.entries(), self.row, value),
                next_row(self.row, len),
                new,
                new_tracker,
            )
        } else if is_next_key(event.code) {
            &&& r is None
            &&& self.moves_to(tracker.entries(), next_row(self.row, len), new, new_tracker)
        } else if is_previous_key(event.code) {
            &&& r is None
            &&& self.moves_to(tracker.entries(), previous_row(self.row, len), new, new_tracker)
        } else if is_finish(event) {
            &&& r == Some(State::Home)
            &&& in_turn_order(new_tracker.entries())
            &&& new_tracker.entries().to_multiset() == with_initiative(
                tracker.entries(),
                self.row,
                value,
            ).to_multiset()
            &&& new_tracker.highlight_row() == tracker.highlight_row()
            &&& text_of(new.name) == text_of(self.name)
            &&& new.initiative == self.initiative
            &&& new.row == self.row
            &&& self.input.set_to(Seq::empty(), new.input)
        } else {
            &&& r is None
            &&& tracker.same_as(new_tracker)
            &&& self.same_as(new)
        }
    }

    /// Whether `view` shows this form: whose initiative is rolled, and the
    /// editor's text.
    pub open spec fn shows(&self, view: FormView) -> bool {
        &&& view.title@ == "Rolling Initiative for "@ + match text_of(self.name) {
            Some(n) => n,
            None => "Unknown"@,
        }
        &&& view.rows@.len() == 1
        &&& view.rows@[0].label@ == "Initiative"@
        &&& view.rows@[0].value@ == self.input.text()
        &&& view.rows@[0].highlighted
    }

    /// Reaching a row whose combatant has an initiative and committing it
    /// without an edit writes back the same initiative.
    pub proof fn lemma_row_round_trip(
        self,
        entries: Seq<(CombatantView, usize)>,
        row: usize,
        new: RollInitiative,
        new_tracker: Tracker,
    )
        requires
            self.moves_to(entries, row, new, new_tracker),
            row < entries.len(),
            entries[row as int].0.initiative is Some,
        ensures
            with_initiative(entries, row, value_or_zero(new.input.text())) == entries,
    {
        let v = entries[row as int].0.initiative.unwrap();
        crate::number::lemma_parse_decimal(v);
        assert(with_initiative(entries, row, v) =~= entries);
    }

    /// The form's editor.
    pub fn input(&self) -> (r: &Input)
        ensures
            *r == self.input,
    {
        &self.input
    }

    /// The help text of the form.
    pub fn help(&self) -> (r: String)
        ensures
            r@ == ROLL_HELP@,
    {
        String::from_str(ROLL_HELP)
    }

    /// What the form shows.
    pub fn render(&self) -> (r: FormView)
        ensures
            self.shows(r),
    {
        let mut title = String::from_str("Rolling Initiative for ");
        match &self.name {
            Some(n) => title.append(n.as_str()),
            None => title.append("Unknown"),
        }
        let mut rows: Vec<FormRow> = Vec::new();
        rows.push(
            FormRow {
                label: String::from_str("Initiative"),
                value: String::from_str(self.input.as_str()),
                highlighted: true,
            },
        );
        FormView { title, rows }
    }

    /// Moves to row `row`: highlights it and loads its combatant.
    pub fn set_row(&mut self, row: usize, tracker: &mut Tracker)
        ensures
            old(self).moves_to(old(tracker).entries(), row, *final(self), *final(tracker)),
    {
        self.row = row;
        tracker.highlight(row);
        match tracker.combatant(row) {
            Some(c) => {
                self.name = match &c.name {
                    Some(n) => Some(n.clone()),
                    None => None,
                };
                self.initiative = c.initiative;
            },
            None => {
                self.name = None;
                self.initiative = None;
            },
        }
        let text = number_or_empty(self.initiative);
        self.input.set(text);
    }

    /// Starts the form on the first row.
    pub fn init_tracker(&mut self, tracker: &mut Tracker)
        ensures
            old(self).moves_to(old(tracker).entries(), 0, *final(self), *final(tracker)),
    {
        self.set_row(0, tracker);
    }

    /// Sets the initiative of the current row to what the editor spells, or zero.
    fn commit(&mut self, tracker: &mut Tracker)
        ensures
            final(tracker).entries() == with_initiative(
                old(tracker).entries(),
                old(self).row,
                value_or_zero(old(self).input.text()),
            ),
            final(tracker).highlight_row() == old(tracker).highlight_row(),
            text_of(final(self).name) == text_of(old(self).name),
            final(self).initiative == old(self).initiative,
            final(self).row == old(self).row,
            old(self).input.set_to(Seq::empty(), final(self).input),
    {
        let text = self.input.take();
        let value = value_of(text.as_str());
        let ghost before = tracker.entries();
        if let Some(c) = tracker.combatant_mut(self.row) {
            c.initiative = Some(value);
        }
        proof {
            if self.row < before.len() {
                assert(tracker.entries() =~= with_initiative(before, self.row, value));
            }
        }
    }

    /// Handles a key press: edits the initiative, moves between combatants,
    /// or leaves the form.
    ///
    /// Returns the state to switch to, if any.
    pub fn handle_event(&mut self, key: KeyEvent, tracker: &mut Tracker) -> (r: Option<State>)
        ensures
            old(self).handled(key, *old(tracker), *final(self), *final(tracker), r),
    {
        let unhandled = self.input.update(key);
        let event = match unhandled {
            None => {
                return None;
            },
            Some(event) => event,
        };
        let len = tracker.len();
        match event.code {
            Key::Esc => Some(State::Home),
            Key::Enter => {
                self.commit(tracker);
                let next = if len > 0 && self.row < len - 1 {
                    self.row + 1
                } else {
                    0
                };
                self.set_row(next, tracker);
                None
            },
            _ => {
                if is_next_key_exec(event.code) {
                    let next = if len > 0 && self.row < len - 1 {
                        self.row + 1
                    } else {
                        0
                    };
                    self.set_row(next, tracker);
                    None
                } else if is_previous_key_exec(event.code) {
                    let previous = if len == 0 {
                        0
                    } else if self.row == 0 || self.row > len {
                        len - 1
                    } else {
                        self.row - 1
                    };
                    self.set_row(previous, tracker);
                    None
                } else if is_finish_exec(event) {
                    self.commit(tracker);
                    tracker.sort();
                    Some(State::Home)
                } else {
                    None
                }
            },
        }
    }
}

impl Default for RollInitiative {
    /// A form that has not reached any row yet.
    fn default() -> (r: RollInitiative)
        ensures
            r.is_fresh(),
    {
        RollInitiative { name: None, initiative: None, row: 0, input: form_input() }
    }
}

} // verus!
