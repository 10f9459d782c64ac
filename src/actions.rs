//! The actions a combatant can take on its turn.

use vstd::prelude::*;
use vstd::string::*;

verus! {

/// An action that a combatant can take.
#[derive(Clone, Copy, Debug, PartialEq, Eq, Structural)]
pub enum Action {
    /// Move up to the combatant's speed.
    Move,
    /// Take a standard action (attack, cast a spell, hide, ...).
    Action,
    /// Take a bonus action (attack with the offhand, drink a potion, ...).
    BonusAction,
    /// Take a reaction (opportunity attack, readied action, ...).
    Reaction,
}

pub open spec fn label_text(a: Action) -> Seq<char> {
    match a {
        Action::Move => "M"@,
        Action::Action => "A"@,
        Action::BonusAction => "BA"@,
        Action::Reaction => "R"@,
    }
}

/// The labels of `actions`, separated by `/`.
pub open spec fn joined_labels(actions: Seq<Action>) -> Seq<char>
    decreases actions.len(),
{
    if actions.len() == 0 {
        Seq::empty()
    } else if actions.len() == 1 {
        label_text(actions[0])
    } else {
        joined_labels(actions.drop_last()) + "/"@ + label_text(actions.last())
    }
}

/// The actions that a combatant starts with; not every creature has a bonus action.
pub open spec fn default_actions() -> Seq<Action> {
    seq![Action::Move, Action::Action, Action::Reaction]
}

impl Action {
    /// The short label of the action.
    pub fn label(&self) -> (r: &'static str)
        ensures
            r@ == label_text(*self),
    {
        match self {
            Action::Move => "M",
            Action::Action => "A",
            Action::BonusAction => "BA",
            Action::Reaction => "R",
        }
    }
}

/// The actions available to a combatant.
#[derive(Debug, PartialEq, Eq)]
pub struct Actions {
    pub actions: Vec<Action>,
}

impl Actions {
    /// The labels of the actions, separated by `/`.
    pub fn to_string(&self) -> (r: String)
        ensures
            r@ == joined_labels(self.actions@),
    {
        let mut s = String::new();
        let mut i: usize = 0;
        while i < self.actions.len()
            invariant
                i <= self.actions@.len(),
                s@ == joined_labels(self.actions@.take(i as int)),
            decreases self.actions@.len() - i,
        {
            let ghost prefix = self.actions@.take(i + 1);
            proof {
                assert(prefix.drop_last() =~= self.actions@.take(i as int));
            }
            if i > 0 {
                s.append("/");
            }
            s.append(self.actions[i].label());
            proof {
                if i == 0 {
                    assert(s@ =~= label_text(prefix[0]));
                }
            }
            i = i + 1;
        }
        proof {
            assert(self.actions@.take(i as int) =~= self.actions@);
        }
        s
    }
}

impl Default for Actions {
    fn default() -> (r: Actions)
        ensures
            r.actions@ == default_actions(),
    {
        Actions { actions: vec![Action::Move, Action::Action, Action::Reaction] }
    }
}

} // verus!
