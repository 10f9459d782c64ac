//! What the forms share: their keys and the description of what they show.

use crate::input::Input;
use crate::key::{Key, KeyEvent};
use crate::number::{format_i32, value_or_zero};
use vstd::prelude::*;

verus! {

/// One labelled field of a form.
pub struct FormRow {
    pub label: String,
    pub value: String,
    /// Whether this is the field being edited.
    pub highlighted: bool,
}

/// What a form shows: a title and its fields.
pub struct FormView {
    pub title: String,
    pub rows: Vec<FormRow>,
}

/// The keys that move between fields or rows; the forms' editors leave them alone.
pub open spec fn form_keys() -> Seq<Key> {
    seq![Key::Char('+'), Key::Char('='), Key::Char('-'), Key::Char('_')]
}

/// Moves to the next field or row.
pub open spec fn is_next_key(key: Key) -> bool {
    key == Key::Char('+') || key == Key::Char('=')
}

/// Moves to the previous field or row.
pub open spec fn is_previous_key(key: Key) -> bool {
    key == Key::Char('-') || key == Key::Char('_')
}

/// The finish action: control and `j`, which is how terminals send control and enter.
pub open spec fn is_finish(event: KeyEvent) -> bool {
    event.code == Key::Char('j') && event.control
}

pub open spec fn or_empty(s: Option<Seq<char>>) -> Seq<char> {
    match s {
        Some(s) => s,
        None => Seq::empty(),
    }
}

pub open spec fn or_zero(n: Option<i32>) -> i32 {
    match n {
        Some(n) => n,
        None => 0,
    }
}

/// An editor for a form: empty, ignoring the keys that move between fields.
pub fn form_input() -> (r: Input)
    ensures
        r.text() == Seq::<char>::empty(),
        r.cursor() == 0,
        r.ignored() == form_keys(),
{
    let keys = vec![Key::Char('+'), Key::Char('='), Key::Char('-'), Key::Char('_')];
    Input::new().with_ignore(keys)
}

pub fn is_next_key_exec(key: Key) -> (r: bool)
    ensures
        r == is_next_key(key),
{
    key == Key::Char('+') || key == Key::Char('=')
}

pub fn is_previous_key_exec(key: Key) -> (r: bool)
    ensures
        r == is_previous_key(key),
{
    key == Key::Char('-') || key == Key::Char('_')
}

pub fn is_finish_exec(event: KeyEvent) -> (r: bool)
    ensures
        r == is_finish(event),
{
    event.code == Key::Char('j') && event.control
}

/// Takes the name out of an optional one, or an empty name.
pub fn take_or_empty(s: &mut Option<String>) -> (r: String)
    ensures
        r@ == or_empty(crate::combatant::text_of(*old(s))),
        *final(s) is None,
{
    match s.take() {
        Some(s) => s,
        None => String::new(),
    }
}

/// An optional number in decimal, or the empty string.
pub fn number_or_empty(n: Option<i32>) -> (r: String)
    ensures
        r@ == crate::combatant::number_text(n, Seq::empty()),
{
    match n {
        Some(v) => format_i32(v),
        None => String::new(),
    }
}

/// The number that a field's text spells, or zero.
pub fn value_of(text: &str) -> (r: i32)
    ensures
        r == value_or_zero(text@),
{
    match crate::number::parse_i32(text) {
        Some(v) => v,
        None => 0,
    }
}

} // verus!
