//! A single-line text editor with a cursor.

use crate::key::{Key, KeyEvent};
use crate::number::push_char;
use vstd::prelude::*;
use vstd::string::*;

verus! {

/// What a key press that the editor does not ignore does to its text and
/// cursor: the new text and cursor, or `None` when the key is not the
/// editor's to handle.
pub open spec fn edited(text: Seq<char>, cursor: nat, event: KeyEvent) -> Option<(Seq<char>, nat)> {
    match event.code {
        Key::Char(c) => if event.control {
            None
        } else {
            Some((text.insert(cursor as int, c), cursor + 1))
        },
        Key::Backspace => if cursor > 0 {
            Some((text.remove(cursor - 1), (cursor - 1) as nat))
        } else {
            Some((text, cursor))
        },
        Key::Delete => if cursor < text.len() {
            Some((text.remove(cursor as int), cursor))
        } else {
            Some((text, cursor))
        },
        Key::Left => Some((text, if cursor > 0 { (cursor - 1) as nat } else { 0 })),
        Key::Right => Some((text, if cursor < text.len() { cursor + 1 } else { text.len() })),
        _ => None,
    }
}

/// A single-line text buffer with a cursor, and a set of keys that it leaves
/// to its owner.
///
/// The cursor is a character position in `0..=len`: the place where the next
/// character goes.
#[derive(Debug, PartialEq, Eq)]
pub struct Input {
    buffer: String,
    cursor: usize,
    ignore: Vec<Key>,
}

impl Input {
    #[verifier::type_invariant]
    spec fn cursor_in_buffer(&self) -> bool {
        self.cursor <= self.buffer@.len()
    }

    /// The characters in the buffer.
    pub closed spec fn text(&self) -> Seq<char> {
        self.buffer@
    }

    /// The cursor position, counted in characters.
    pub closed spec fn cursor(&self) -> nat {
        self.cursor as nat
    }

    /// The keys that the editor hands back untouched.
    pub closed spec fn ignored(&self) -> Seq<Key> {
        self.ignore@
    }

    /// Whether the editor consumes the key press.
    pub open spec fn consumes(&self, event: KeyEvent) -> bool {
        &&& !self.ignored().contains(event.code)
        &&& edited(self.text(), self.cursor(), event) is Some
    }

    /// Whether `new` is this editor after it consumed the key press.
    pub open spec fn edits_to(&self, event: KeyEvent, new: Input) -> bool {
        &&& new.ignored() == self.ignored()
        &&& edited(self.text(), self.cursor(), event) matches Some(e)
        &&& new.text() == e.0
        &&& new.cursor() == e.1
    }

    /// Whether `new` holds the same text, cursor and ignored keys as this editor.
    pub open spec fn same_as(&self, new: Input) -> bool {
        &&& new.text() == self.text()
        &&& new.cursor() == self.cursor()
        &&& new.ignored() == self.ignored()
    }

    /// Whether `new` is this editor with its text replaced by `text` and the
    /// cursor at the end.
    pub open spec fn set_to(&self, text: Seq<char>, new: Input) -> bool {
        &&& new.text() == text
        &&& new.cursor() == text.len()
        &&& new.ignored() == self.ignored()
    }

    /// Whether `r` is the text taken out of this editor, leaving `new`:
    /// empty, with the cursor at 0.
    pub open spec fn takes(&self, r: Seq<char>, new: Input) -> bool {
        &&& r == self.text()
        &&& new.text() == Seq::<char>::empty()
        &&& new.cursor() == 0
        &&& new.ignored() == self.ignored()
    }

    /// Taking the text twice in a row: the second take yields nothing, and
    /// after each take the editor is empty with its cursor at 0.
    pub proof fn lemma_take_twice(self, first: Input, second: Input, r1: Seq<char>, r2: Seq<char>)
        requires
            self.takes(r1, first),
            first.takes(r2, second),
        ensures
            r2 == Seq::<char>::empty(),
            first.text() == Seq::<char>::empty(),
            first.cursor() == 0,
            second.text() == Seq::<char>::empty(),
            second.cursor() == 0,
    {
    }

    /// Setting the text and then taking it at once yields the text that was set.
    pub proof fn lemma_set_then_take(self, set: Input, taken: Input, text: Seq<char>, r: Seq<char>)
        requires
            self.set_to(text, set),
            set.takes(r, taken),
        ensures
            r == text,
    {
    }

    /// An empty editor that ignores no key.
    pub fn new() -> (r: Input)
        ensures
            r.text() == Seq::<char>::empty(),
            r.cursor() == 0,
            r.ignored() == Seq::<Key>::empty(),
    {
        Input { buffer: String::new(), cursor: 0, ignore: Vec::new() }
    }

    /// Sets the keys to ignore.
    pub fn with_ignore(self, ignore: Vec<Key>) -> (r: Input)
        ensures
            r.text() == self.text(),
            r.cursor() == self.cursor(),
            r.ignored() == ignore@,
    {
        proof {
            use_type_invariant(&self);
        }
        let Input { buffer, cursor, ignore: _ } = self;
        Input { buffer, cursor, ignore }
    }

    fn ignores(&self, key: Key) -> (r: bool)
        ensures
            r == self.ignore@.contains(key),
    {
        let mut i: usize = 0;
        while i < self.ignore.len()
            invariant
                i <= self.ignore@.len(),
                forall|j: int| 0 <= j < i ==> self.ignore@[j] != key,
            decreases self.ignore@.len() - i,
        {
            if self.ignore[i] == key {
                return true;
            }
            i = i + 1;
        }
        false
    }

    /// Updates the editor with a key press.
    ///
    /// Returns the key press when the editor did not consume it: when the key
    /// is ignored, or is not an editing key.
    pub fn update(&mut self, event: KeyEvent) -> (r: Option<KeyEvent>)
        ensures
            final(self).ignored() == old(self).ignored(),
            final(self).cursor() <= final(self).text().len(),
            old(self).ignored().contains(event.code) ==> {
                &&& r == Some(event)
                &&& final(self).text() == old(self).text()
                &&& final(self).cursor() == old(self).cursor()
            },
            !old(self).ignored().contains(event.code) ==> match edited(
                old(self).text(),
                old(self).cursor(),
                event,
            ) {
                Some(e) => r is None && final(self).text() == e.0 && final(self).cursor() == e.1,
                None => {
                    &&& r == Some(event)
                    &&& final(self).text() == old(self).text()
                    &&& final(self).cursor() == old(self).cursor()
                },
            },
    {
        proof {
            use_type_invariant(&*self);
        }
        if self.ignores(event.code) {
            return Some(event);
        }
        let len = self.buffer.as_str().unicode_len();
        match event.code {
            Key::Char(c) => {
                if event.control {
                    return Some(event);
                }
                let mut text = String::new();
                text.append(self.buffer.as_str().substring_char(0, self.cursor));
                push_char(&mut text, c);
                text.append(self.buffer.as_str().substring_char(self.cursor, len));
                proof {
                    assert(text@ =~= self.buffer@.insert(self.cursor as int, c));
                }
                // the new length is a usize, so the cursor cannot overflow
                let _new_len = text.as_str().unicode_len();
                self.buffer = text;
                self.cursor = self.cursor + 1;
            },
            Key::Backspace => {
                if self.cursor > 0 {
                    let at = self.cursor - 1;
                    self.cursor = at;
                    let mut text = String::new();
                    text.append(self.buffer.as_str().substring_char(0, at));
                    text.append(self.buffer.as_str().substring_char(at + 1, len));
                    proof {
                        assert(text@ =~= self.buffer@.remove(at as int));
                    }
                    self.buffer = text;
                }
            },
            Key::Delete => {
                if self.cursor < len {
                    let at = self.cursor;
                    let mut text = String::new();
                    text.append(self.buffer.as_str().substring_char(0, at));
                    text.append(self.buffer.as_str().substring_char(at + 1, len));
                    proof {
                        assert(text@ =~= self.buffer@.remove(at as int));
                    }
                    self.buffer = text;
                }
            },
            Key::Left => {
                if self.cursor > 0 {
                    self.cursor = self.cursor - 1;
                }
            },
            Key::Right => {
                if self.cursor < len {
                    self.cursor = self.cursor + 1;
                }
            },
            _ => {
                return Some(event);
            },
        }
        None
    }

    /// Takes the text out of the buffer, leaving it empty with the cursor at 0.
    pub fn take(&mut self) -> (r: String)
        ensures
            old(self).takes(r@, *final(self)),
    {
        self.cursor = 0;
        let mut text = String::new();
        std::mem::swap(&mut text, &mut self.buffer);
        text
    }

    /// The text in the buffer.
    pub fn as_str(&self) -> (r: &str)
        ensures
            r@ == self.text(),
    {
        self.buffer.as_str()
    }

    /// The cursor position, counted in characters.
    pub fn position(&self) -> (r: usize)
        ensures
            r == self.cursor(),
            r <= self.text().len(),
    {
        proof {
            use_type_invariant(self);
        }
        self.cursor
    }

    /// Whether the buffer is empty.
    pub fn is_empty(&self) -> (r: bool)
        ensures
            r == (self.text().len() == 0),
    {
        self.buffer.as_str().is_empty()
    }

    /// Replaces the text in the buffer, moving the cursor to its end.
    pub fn set(&mut self, buffer: String)
        ensures
            old(self).set_to(buffer@, *final(self)),
    {
        let len = buffer.as_str().unicode_len();
        self.cursor = 0;
        self.buffer = buffer;
        self.cursor = len;
    }
}

impl Default for Input {
    fn default() -> (r: Input)
        ensures
            r.text() == Seq::<char>::empty(),
            r.cursor() == 0,
            r.ignored() == Seq::<Key>::empty(),
    {
        Input::new()
    }
}

} // verus!
