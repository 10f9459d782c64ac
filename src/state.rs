//! The tracker's modes, the transitions between them, and the routing of key presses.

use crate::add::{AddCombatant, ADD_HELP};
use crate::form::FormView;
use crate::input::Input;
use crate::key::{Key, KeyEvent};
use crate::number::push_char;
use crate::roll::{RollInitiative, ROLL_HELP};
use crate::tracker::Tracker;
use vstd::prelude::*;
use vstd::string::*;

verus! {

/// Any state the initiative tracker can be in.
#[derive(Debug, PartialEq, Eq)]
pub enum State {
    /// The home state: the registry is shown, and the other states are a key away.
    Home,
    /// Adding a new combatant to the initiative order.
    AddCombatant(AddCombatant),
    /// Rolling initiative for every combatant.
    RollInitiative(RollInitiative),
    /// Exits the program.
    Quit,
}

/// A state transition declaration: the state to go to, and the key that leads there.
#[derive(Debug)]
pub struct Transition {
    pub state: State,
    pub key: Key,
}

/// Whether a transition switched to a new state.
#[derive(Clone, Copy, Debug, PartialEq, Eq, Structural)]
pub enum TransitionResult {
    /// Still in the same state.
    Old,
    /// Moved to another state.
    New,
}

/// The key that leads to a state from the states that declare a transition to it.
pub open spec fn default_key(s: State) -> Key {
    match s {
        State::Home => Key::Char('h'),
        State::AddCombatant(_) => Key::Char('a'),
        State::RollInitiative(_) => Key::Char('r'),
        State::Quit => Key::Char('q'),
    }
}

pub open spec fn description_text(s: State) -> Seq<char> {
    match s {
        State::Home => "back to initiative tracker"@,
        State::AddCombatant(_) => "add combatant to initiative order"@,
        State::RollInitiative(_) => "roll initiative!"@,
        State::Quit => "quit the program"@,
    }
}

/// The keys of the transitions that a state declares, in order.
pub open spec fn declared_keys(s: State) -> Seq<Key> {
    match s {
        State::Home => seq![Key::Char('a'), Key::Char('r'), Key::Char('q')],
        State::AddCombatant(_) => seq![Key::Char('h')],
        State::RollInitiative(_) => seq![Key::Char('h')],
        State::Quit => Seq::empty(),
    }
}

/// Whether the transition that `from` declares on `key` leads to `to`.
pub open spec fn leads_to(from: State, key: Key, to: State) -> bool {
    match from {
        State::Home => {
            ||| (key == Key::Char('a') && (to matches State::AddCombatant(a) && a.is_fresh()))
            ||| (key == Key::Char('r') && (to matches State::RollInitiative(r) && r.is_fresh()))
            ||| (key == Key::Char('q') && to is Quit)
        },
        State::AddCombatant(_) => key == Key::Char('h') && to is Home,
        State::RollInitiative(_) => key == Key::Char('h') && to is Home,
        State::Quit => false,
    }
}

/// How a key is written in help texts.
pub open spec fn key_text(key: Key) -> Seq<char> {
    match key {
        Key::Char(c) => seq![c],
        Key::Enter => "<enter>"@,
        Key::Esc => "<escape>"@,
        Key::Backspace => "<backspace>"@,
        Key::Delete => "<delete>"@,
        Key::Left => "<left>"@,
        Key::Right => "<right>"@,
        Key::Up => "<up>"@,
        Key::Down => "<down>"@,
        Key::Other => "<other>"@,
    }
}

/// The description of the state that a declared transition key leads to.
pub open spec fn described_by_key(key: Key) -> Seq<char> {
    if key == Key::Char('a') {
        description_text(State::AddCombatant(arbitrary()))
    } else if key == Key::Char('r') {
        description_text(State::RollInitiative(arbitrary()))
    } else if key == Key::Char('q') {
        description_text(State::Quit)
    } else {
        description_text(State::Home)
    }
}

/// One line of help: a key and where it leads.
pub open spec fn help_line(key: Key) -> Seq<char> {
    key_text(key) + ": "@ + described_by_key(key)
}

/// The help lines of `keys`, one per line.
pub open spec fn help_lines(keys: Seq<Key>) -> Seq<char>
    decreases keys.len(),
{
    if keys.len() == 0 {
        Seq::empty()
    } else if keys.len() == 1 {
        help_line(keys[0])
    } else {
        help_lines(keys.drop_last()) + "\n"@ + help_line(keys.last())
    }
}

/// The help text of a state.
pub open spec fn help_text(s: State) -> Seq<char> {
    match s {
        State::AddCombatant(_) => ADD_HELP@,
        State::RollInitiative(_) => ROLL_HELP@,
        _ => help_lines(declared_keys(s)),
    }
}

pub open spec fn is_form(s: State) -> bool {
    s is AddCombatant || s is RollInitiative
}

/// How a key is written in help texts.
pub fn key_label(key: Key) -> (r: String)
    ensures
        r@ == key_text(key),
{
    match key {
        Key::Char(c) => {
            let mut s = String::new();
            push_char(&mut s, c);
            s
        },
        Key::Enter => String::from_str("<enter>"),
        Key::Esc => String::from_str("<escape>"),
        Key::Backspace => String::from_str("<backspace>"),
        Key::Delete => String::from_str("<delete>"),
        Key::Left => String::from_str("<left>"),
        Key::Right => String::from_str("<right>"),
        Key::Up => String::from_str("<up>"),
        Key::Down => String::from_str("<down>"),
        Key::Other => String::from_str("<other>"),
    }
}

/// What one key press does to the registry and the state: `new_tracker`
/// and `new_state` are `tracker` and `state` after `event`.
///
/// In a form the key goes to the form, and the tracker follows the state the
/// form asks for. Elsewhere the key is looked up among the declared
/// transitions, and a new state is entered.
pub open spec fn dispatched(
    tracker: Tracker,
    state: State,
    event: KeyEvent,
    new_tracker: Tracker,
    new_state: State,
) -> bool {
    match state {
        State::AddCombatant(a0) => exists|a1: AddCombatant, r: Option<State>|
            {
                &&& #[trigger] a0.handled(event, tracker, a1, new_tracker, r)
                &&& r is None ==> new_state == State::AddCombatant(a1)
                &&& r is Some ==> new_state == State::Home
            },
        State::RollInitiative(f0) => exists|f1: RollInitiative, r: Option<State>|
            {
                &&& #[trigger] f0.handled(event, tracker, f1, new_tracker, r)
                &&& r is None ==> new_state == State::RollInitiative(f1)
                &&& r is Some ==> new_state == State::Home
            },
        _ => if !declared_keys(state).contains(event.code) {
            new_state == state && tracker.same_as(new_tracker)
        } else if event.code == Key::Char('r') {
            exists|f0: RollInitiative|
                {
                    &&& #[trigger] f0.is_fresh()
                    &&& new_state matches State::RollInitiative(f1)
                    &&& f0.moves_to(tracker.entries(), 0, f1, new_tracker)
                }
        } else {
            leads_to(state, event.code, new_state) && tracker.same_as(new_tracker)
        },
    }
}

/// A transition to a state on the state's default key.
impl From<State> for Transition {
    fn from(state: State) -> (r: Transition) {
        let key = state.default_key_event();
        Transition { state, key }
    }
}

impl vstd::std_specs::convert::FromSpecImpl<State> for Transition {
    open spec fn obeys_from_spec() -> bool {
        true
    }

    open spec fn from_spec(state: State) -> Transition {
        Transition { state, key: default_key(state) }
    }
}

impl State {
    /// The key that leads to this state.
    pub fn default_key_event(&self) -> (r: Key)
        ensures
            r == default_key(*self),
    {
        match self {
            State::Home => Key::Char('h'),
            State::AddCombatant(_) => Key::Char('a'),
            State::RollInitiative(_) => Key::Char('r'),
            State::Quit => Key::Char('q'),
        }
    }

    /// What this state is for.
    pub fn description(&self) -> (r: &'static str)
        ensures
            r@ == description_text(*self),
    {
        match self {
            State::Home => "back to initiative tracker",
            State::AddCombatant(_) => "add combatant to initiative order",
            State::RollInitiative(_) => "roll initiative!",
            State::Quit => "quit the program",
        }
    }

    /// The transitions this state declares, in order.
    pub fn transitions(&self) -> (r: Vec<Transition>)
        ensures
            r@.len() == declared_keys(*self).len(),
            forall|i: int|
                0 <= i < r@.len() ==> #[trigger] r@[i].key == declared_keys(*self)[i]
                    && leads_to(*self, r@[i].key, r@[i].state),
    {
        match self {
            State::Home => vec![
                Transition::from(State::AddCombatant(AddCombatant::default())),
                Transition::from(State::RollInitiative(RollInitiative::default())),
                Transition::from(State::Quit),
            ],
            State::AddCombatant(_) => vec![Transition::from(State::Home)],
            State::RollInitiative(_) => vec![Transition::from(State::Home)],
            State::Quit => Vec::new(),
        }
    }

    /// The first declared transition on `key`, if any.
    pub fn transition(&self, key: Key) -> (r: Option<Transition>)
        ensures
            r matches Some(t) ==> t.key == key && leads_to(*self, key, t.state),
            r is None <==> !declared_keys(*self).contains(key),
    {
        let mut transitions = self.transitions();
        let mut i: usize = 0;
        while i < transitions.len()
            invariant
                i <= transitions@.len(),
                transitions@.len() == declared_keys(*self).len(),
                forall|j: int|
                    0 <= j < transitions@.len() ==> #[trigger] transitions@[j].key
                        == declared_keys(*self)[j] && leads_to(*self, transitions@[j].key, transitions@[j].state),
                forall|j: int| 0 <= j < i ==> declared_keys(*self)[j] != key,
            decreases transitions@.len() - i,
        {
            if transitions[i].key == key {
                let t = transitions.remove(i);
                return Some(t);
            }
            i = i + 1;
        }
        None
    }

    /// Follows the declared transition on `key`, if there is one.
    pub fn apply_transition(&mut self, key: Key) -> (r: TransitionResult)
        ensures
            declared_keys(*old(self)).contains(key) ==> r == TransitionResult::New && leads_to(
                *old(self),
                key,
                *final(self),
            ),
            !declared_keys(*old(self)).contains(key) ==> r == TransitionResult::Old && *final(self)
                == *old(self),
    {
        match self.transition(key) {
            Some(t) => {
                *self = t.state;
                TransitionResult::New
            },
            None => TransitionResult::Old,
        }
    }

    /// The help text made from the declared transitions: one line per
    /// transition, its key and where it leads.
    pub fn default_help(&self) -> (r: String)
        ensures
            r@ == help_lines(declared_keys(*self)),
    {
        let transitions = self.transitions();
        let ghost keys = declared_keys(*self);
        let mut help = String::new();
        let mut i: usize = 0;
        while i < transitions.len()
            invariant
                i <= transitions@.len(),
                transitions@.len() == keys.len(),
                keys == declared_keys(*self),
                forall|j: int|
                    0 <= j < transitions@.len() ==> #[trigger] transitions@[j].key == keys[j]
                        && leads_to(*self, transitions@[j].key, transitions@[j].state),
                help@ == help_lines(keys.take(i as int)),
            decreases transitions@.len() - i,
        {
            let ghost prefix = keys.take(i + 1);
            proof {
                assert(prefix.drop_last() =~= keys.take(i as int));
            }
            if i > 0 {
                help.append("\n");
            }
            help.append(key_label(transitions[i].key).as_str());
            help.append(": ");
            help.append(transitions[i].state.description());
            proof {
                let t = transitions@[i as int];
                assert(description_text(t.state) == described_by_key(t.key));
                if i == 0 {
                    assert(help@ =~= help_line(prefix[0]));
                } else {
                    assert(help@ =~= help_lines(prefix.drop_last()) + "\n"@ + help_line(prefix.last()));
                }
            }
            i = i + 1;
        }
        proof {
            assert(keys.take(i as int) =~= keys);
        }
        help
    }

    /// The help text of the state.
    pub fn help(&self) -> (r: String)
        ensures
            r@ == help_text(*self),
    {
        match self {
            State::AddCombatant(add) => add.help(),
            State::RollInitiative(roll) => roll.help(),
            _ => self.default_help(),
        }
    }

    /// What a form state shows: the form and its editor; `None` outside forms.
    pub fn render(&self) -> (r: Option<(FormView, Option<&Input>)>)
        ensures
            r is Some <==> is_form(*self),
            self matches State::AddCombatant(a) ==> (r matches Some((v, Some(i))) && *i == a.input
                && a.shows(v)),
            self matches State::RollInitiative(f) ==> (r matches Some((v, Some(i))) && *i
                == f.input && f.shows(v)),
    {
        match self {
            State::AddCombatant(add) => Some((add.render(), Some(add.input()))),
            State::RollInitiative(roll) => Some((roll.render(), Some(roll.input()))),
            _ => None,
        }
    }

    /// Whether key presses go to the state's form before the transitions.
    pub fn needs_keyboard(&self) -> (r: bool)
        ensures
            r == is_form(*self),
    {
        match self {
            State::AddCombatant(_) => true,
            State::RollInitiative(_) => true,
            _ => false,
        }
    }

    /// Whether this is the quit state.
    pub fn is_quit(&self) -> (r: bool)
        ensures
            r == (*self is Quit),
    {
        match self {
            State::Quit => true,
            _ => false,
        }
    }

    /// Prepares the registry and the state on entering the state: rolling
    /// initiative starts on the first row.
    pub fn init_tracker(&mut self, tracker: &mut Tracker)
        ensures
            *old(self) matches State::RollInitiative(f0) ==> (*final(self) matches State::RollInitiative(
                f1,
            ) && f0.moves_to(old(tracker).entries(), 0, f1, *final(tracker))),
            !(*old(self) is RollInitiative) ==> *final(self) == *old(self) && *final(tracker) == *old(
                tracker,
            ),
    {
        match self {
            State::RollInitiative(roll) => roll.init_tracker(tracker),
            _ => {},
        }
    }

    /// Hands a key press to the state's form.
    ///
    /// Returns the state to switch to, if any.
    pub fn handle_event(&mut self, key: KeyEvent, tracker: &mut Tracker) -> (r: Option<State>)
        ensures
            *old(self) matches State::AddCombatant(a0) ==> (*final(self) matches State::AddCombatant(
                a1,
            ) && a0.handled(key, *old(tracker), a1, *final(tracker), r)),
            *old(self) matches State::RollInitiative(f0) ==> (*final(self) matches State::RollInitiative(
                f1,
            ) && f0.handled(key, *old(tracker), f1, *final(tracker), r)),
            !is_form(*old(self)) ==> r is None && *final(self) == *old(self) && old(
                tracker,
            ).same_as(*final(tracker)),
    {
        match self {
            State::AddCombatant(add) => add.handle_event(key, tracker),
            State::RollInitiative(roll) => roll.handle_event(key, tracker),
            _ => None,
        }
    }
}

impl Tracker {
    /// The state the tracker starts in.
    pub fn default_state() -> (r: State)
        ensures
            r is Home,
    {
        State::Home
    }

    /// Hands a key press to the form of `state`; see [`State::handle_event`].
    pub fn handle_event(&mut self, event: KeyEvent, state: &mut State) -> (r: Option<State>)
        ensures
            *old(state) matches State::AddCombatant(a0) ==> (*final(state) matches State::AddCombatant(
                a1,
            ) && a0.handled(event, *old(self), a1, *final(self), r)),
            *old(state) matches State::RollInitiative(f0) ==> (*final(state) matches State::RollInitiative(
                f1,
            ) && f0.handled(event, *old(self), f1, *final(self), r)),
            !is_form(*old(state)) ==> r is None && *final(state) == *old(state) && old(
                self,
            ).same_as(*final(self)),
    {
        state.handle_event(event, self)
    }

    /// Enters `state`; see [`State::init_tracker`].
    pub fn init(&mut self, state: &mut State)
        ensures
            *old(state) matches State::RollInitiative(f0) ==> (*final(state) matches State::RollInitiative(
                f1,
            ) && f0.moves_to(old(self).entries(), 0, f1, *final(self))),
            !(*old(state) is RollInitiative) ==> *final(state) == *old(state) && *final(self) == *old(
                self,
            ),
    {
        state.init_tracker(self)
    }

    /// Processes one key press: routes it to the form of `state`, or follows
    /// the transition it triggers, and enters the new state.
    pub fn dispatch(&mut self, state: &mut State, event: KeyEvent)
        ensures
            dispatched(*old(self), *old(state), event, *final(self), *final(state)),
    {
        if state.needs_keyboard() {
            let ghost s0 = *state;
            let ghost t0 = *self;
            let next = self.handle_event(event, state);
            let ghost s1 = *state;
            let ghost t1 = *self;
            if let Some(new_state) = next {
                *state = new_state;
                self.init(state);
            }
            proof {
                match s0 {
                    State::AddCombatant(a0) => {
                        let a1 = s1->AddCombatant_0;
                        assert(a0.handled(event, t0, a1, t1, next));
                    },
                    State::RollInitiative(f0) => {
                        let f1 = s1->RollInitiative_0;
                        assert(f0.handled(event, t0, f1, t1, next));
                    },
                    _ => {},
                }
            }
        } else {
            let ghost s0 = *state;
            if let TransitionResult::New = state.apply_transition(event.code) {
                let ghost s1 = *state;
                self.init(state);
                proof {
                    if event.code == Key::Char('r') {
                        let f0 = s1->RollInitiative_0;
                        assert(f0.is_fresh());
                    }
                }
            }
        }
    }
}

} // verus!
