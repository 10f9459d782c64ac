//! The form that adds combatants to the registry.

use crate::combatant::{new_combatant, number_text, text_of, Combatant};
use crate::form::{
    form_input, form_keys, is_finish, is_finish_exec, is_next_key, is_next_key_exec,
    is_previous_key, is_previous_key_exec, number_or_empty, or_empty, or_zero, take_or_empty,
    value_of, FormRow, FormView,
};
use crate::input::Input;
use crate::key::{Key, KeyEvent};
use crate::number::value_or_zero;
use crate::state::State;
use crate::tracker::Tracker;
use vstd::prelude::*;
use vstd::string::*;

verus! {

/// The help text of the form.
pub const ADD_HELP: &'static str = "<escape>: cancel, back to initiative tracker
<enter>: set field, next field
<ctrl-enter>: set field, add combatant and finish
+ or =: next field
- or _: previous field";

/// The staged name after leaving field `row` with `content` in the editor:
/// empty content leaves the staged value as it was.
pub open spec fn committed_name(name: Option<Seq<char>>, row: usize, content: Seq<char>) -> Option<
    Seq<char>,
> {
    if content.len() > 0 && row == 0 {
        Some(content)
    } else {
        name
    }
}

/// The staged hit points after leaving field `row` with `content` in the
/// editor: text that spells no number counts as zero.
pub open spec fn committed_hit_points(hit_points: Option<i32>, row: usize, content: Seq<char>) -> Option<i32> {
    if content.len() > 0 && row == 1 {
        Some(value_or_zero(content))
    } else {
        hit_points
    }
}

/// The field after `row`; with two fields it is also the one before.
pub open spec fn next_field(row: usize) -> usize {
    if row % 2 == 0 {
        1
    } else {
        0
    }
}

/// Adding a new combatant: a name field and a hit points field.
#[derive(Debug, PartialEq, Eq)]
pub struct AddCombatant {
    /// The staged name of the combatant.
    pub name: Option<String>,
    /// The staged hit points of the combatant.
    pub hit_points: Option<i32>,
    /// The field being edited: 0 for the name, 1 for the hit points.
    pub row: usize,
    /// The editor of the current field.
    pub input: Input,
}

impl AddCombatant {
    /// Whether the form is as it is when first entered.
    pub open spec fn is_fresh(&self) -> bool {
        &&& self.name is None
        &&& self.hit_points is None
        &&& self.row == 0
        &&& self.input.text() == Seq::<char>::empty()
        &&& self.input.cursor() == 0
        &&& self.input.ignored() == form_keys()
    }

    /// Whether `new` holds what this form holds.
    pub open spec fn same_as(&self, new: AddCombatant) -> bool {
        &&& text_of(new.name) == text_of(self.name)
        &&& new.hit_points == self.hit_points
        &&& new.row == self.row
        &&& self.input.same_as(new.input)
    }

    /// Whether `new` is this form on field `row`, with `name` and `hit_points`
    /// staged before: the entered field's staged value moves into the editor.
    pub open spec fn enters(
        &self,
        name: Option<Seq<char>>,
        hit_points: Option<i32>,
        row: usize,
        new: AddCombatant,
    ) -> bool {
        &&& new.row == row
        &&& row == 0 ==> {
            &&& text_of(new.name) is None
            &&& new.hit_points == hit_points
            &&& self.input.set_to(or_empty(name), new.input)
        }
        &&& row == 1 ==> {
            &&& text_of(new.name) == name
            &&& new.hit_points is None
            &&& self.input.set_to(number_text(hit_points, Seq::empty()), new.input)
        }
        &&& row > 1 ==> {
            &&& text_of(new.name) == name
            &&& new.hit_points == hit_points
            &&& self.input.same_as(new.input)
        }
    }

    /// What handling `event` does: `new`, `new_tracker` and `r` are this form,
    /// `tracker` and the result after it.
    pub open spec fn handled(
        &self,
        event: KeyEvent,
        tracker: Tracker,
        new: AddCombatant,
        new_tracker: Tracker,
        r: Option<State>,
    ) -> bool {
        let content = self.input.text();
        let name = committed_name(text_of(self.name), self.row, content);
        let hit_points = committed_hit_points(self.hit_points, self.row, content);
        let added = new_combatant(or_empty(name), or_zero(hit_points));
        if self.input.consumes(event) {
            &&& r is None
            &&& tracker.same_as(new_tracker)
            &&& text_of(new.name) == text_of(self.name)
            &&& new.hit_points == self.hit_points
            &&& new.row == self.row
            &&& self.input.edits_to(event, new.input)
        } else if event.code == Key::Esc {
            &&& r == Some(State::Home)
            &&& tracker.same_as(new_tracker)
            &&& self.same_as(new)
        } else if event.code == Key::Enter || is_next_key(event.code) || is_previous_key(
            event.code,
        ) {
            &&& r is None
            &&& tracker.same_as(new_tracker)
            &&& self.enters(name, hit_points, next_field(self.row), new)
        } else if is_finish(event) {
            &&& r == Some(State::Home)
            &&& tracker.adds(added, new_tracker)
            &&& text_of(new.name) is None
            &&& new.hit_points is None
            &&& new.row == self.row
            &&& self.input.set_to(Seq::empty(), new.input)
        } else {
            &&& r is None
            &&& tracker.same_as(new_tracker)
            &&& self.same_as(new)
        }
    }

    /// Whether `view` shows this form: the name and hit points fields, the
    /// edited one highlighted and showing the editor's text.
    pub open spec fn shows(&self, view: FormView) -> bool {
        &&& view.title@ == "Add Combatant"@
        &&& view.rows@.len() == 2
        &&& view.rows@[0].label@ == "Name"@
        &&& view.rows@[0].value@ == (if self.row == 0 {
            self.input.text()
        } else {
            or_empty(text_of(self.name))
        })
        &&& view.rows@[0].highlighted == (self.row == 0)
        &&& view.rows@[1].label@ == "Hit Points"@
        &&& view.rows@[1].value@ == (if self.row == 1 {
            self.input.text()
        } else {
            number_text(self.hit_points, Seq::empty())
        })
        &&& view.rows@[1].highlighted == (self.row == 1)
    }

    /// Entering a field and leaving it again without an edit stages what was
    /// staged before: the same hit points, and a name with the same text.
    pub proof fn lemma_field_round_trip(
        self,
        entered: AddCombatant,
        name: Option<Seq<char>>,
        hit_points: Option<i32>,
        row: usize,
    )
        requires
            self.enters(name, hit_points, row, entered),
            row <= 1,
        ensures
            or_empty(committed_name(text_of(entered.name), row, entered.input.text()))
                == or_empty(name),
            committed_hit_points(entered.hit_points, row, entered.input.text()) == hit_points,
    {
        if row == 1 {
            if let Some(h) = hit_points {
                crate::number::lemma_parse_decimal(h);
                crate::number::lemma_decimal_not_empty(h as int);
            }
        }
    }

    /// The form's editor.
    pub fn input(&self) -> (r: &Input)
        ensures
            *r == self.input,
    {
        &self.input
    }

    /// The help text of the form.
    pub fn help(&self) -> (r: String)
        ensures
            r@ == ADD_HELP@,
    {
        String::from_str(ADD_HELP)
    }

    /// What the form shows.
    pub fn render(&self) -> (r: FormView)
        ensures
            self.shows(r),
    {
        let name = if self.row == 0 {
            String::from_str(self.input.as_str())
        } else {
            match &self.name {
                Some(n) => n.clone(),
                None => String::new(),
            }
        };
        let hit_points = if self.row == 1 {
            String::from_str(self.input.as_str())
        } else {
            number_or_empty(self.hit_points)
        };
        let mut rows: Vec<FormRow> = Vec::new();
        rows.push(
            FormRow { label: String::from_str("Name"), value: name, highlighted: self.row == 0 },
        );
        rows.push(
            FormRow {
                label: String::from_str("Hit Points"),
                value: hit_points,
                highlighted: self.row == 1,
            },
        );
        FormView { title: String::from_str("Add Combatant"), rows }
    }

    /// Moves to field `row`, loading its staged value into the editor.
    pub fn set_row_idx(&mut self, row: usize)
        ensures
            old(self).enters(text_of(old(self).name), old(self).hit_points, row, *final(self)),
    {
        self.row = row;
        if row == 0 {
            let name = take_or_empty(&mut self.name);
            self.input.set(name);
        } else if row == 1 {
            let hit_points = number_or_empty(self.hit_points.take());
            self.input.set(hit_points);
        }
    }

    /// Stages `content` as the value of the current field; empty content stages nothing.
    pub fn set_row_content(&mut self, content: String)
        ensures
            text_of(final(self).name) == committed_name(
                text_of(old(self).name),
                old(self).row,
                content@,
            ),
            final(self).hit_points == committed_hit_points(
                old(self).hit_points,
                old(self).row,
                content@,
            ),
            final(self).row == old(self).row,
            old(self).input.same_as(final(self).input),
    {
        if content.as_str().is_empty() {
            return ;
        }
        if self.row == 0 {
            self.name = Some(content);
        } else if self.row == 1 {
            self.hit_points = Some(value_of(content.as_str()));
        }
    }

    /// Takes the editor's text into the current field.
    fn commit(&mut self)
        ensures
            text_of(final(self).name) == committed_name(
                text_of(old(self).name),
                old(self).row,
                old(self).input.text(),
            ),
            final(self).hit_points == committed_hit_points(
                old(self).hit_points,
                old(self).row,
                old(self).input.text(),
            ),
            final(self).row == old(self).row,
            old(self).input.set_to(Seq::empty(), final(self).input),
    {
        let content = self.input.take();
        self.set_row_content(content);
    }

    /// Adds the staged combatant to the registry, emptying the staged fields.
    fn add_to(&mut self, tracker: &mut Tracker)
        ensures
            old(tracker).adds(
                new_combatant(or_empty(text_of(old(self).name)), or_zero(old(self).hit_points)),
                *final(tracker),
            ),
            text_of(final(self).name) is None,
            final(self).hit_points is None,
            final(self).row == old(self).row,
            old(self).input.same_as(final(self).input),
    {
        let hit_points = match self.hit_points.take() {
            Some(h) => h,
            None => 0,
        };
        let name = take_or_empty(&mut self.name);
        tracker.add_combatant(Combatant::new(name, hit_points, hit_points));
    }

    /// Handles a key press: edits the current field, moves between fields,
    /// adds the combatant, or leaves the form.
    ///
    /// Returns the state to switch to, if any.
    pub fn handle_event(&mut self, key: KeyEvent, tracker: &mut Tracker) -> (r: Option<State>)
        ensures
            old(self).handled(key, *old(tracker), *final(self), *final(tracker), r),
    {
        let unhandled = self.input.update(key);
        let event = match unhandled {
            None => {
                return None;
            },
            Some(event) => event,
        };
        match event.code {
            Key::Esc => Some(State::Home),
            _ => {
                if event.code == Key::Enter || is_next_key_exec(event.code) || is_previous_key_exec(
                    event.code,
                ) {
                    self.commit();
                    let next = if self.row % 2 == 0 {
                        1
                    } else {
                        0
                    };
                    self.set_row_idx(next);
                    None
                } else if is_finish_exec(event) {
                    self.commit();
                    self.add_to(tracker);
                    Some(State::Home)
                } else {
                    None
                }
            },
        }
    }
}

impl Default for AddCombatant {
    /// An empty form on the name field.
    fn default() -> (r: AddCombatant)
        ensures
            r.is_fresh(),
    {
        AddCombatant { name: None, hit_points: None, row: 0, input: form_input() }
    }
}

} // verus!
