//! A combatant of an encounter.

use crate::actions::{default_actions, joined_labels, Action, Actions};
use crate::number::{decimal, format_i32};
use vstd::prelude::*;
use vstd::string::*;

verus! {

/// A combatant in a combat encounter.
///
/// Every field but the actions is optional: a form fills in what it was given.
#[derive(Debug, PartialEq, Eq)]
pub struct Combatant {
    /// The name of the combatant.
    pub name: Option<String>,
    /// The combatant's initiative roll; higher goes first.
    pub initiative: Option<i32>,
    /// The hit points of the combatant.
    pub hit_points: Option<i32>,
    /// The maximum hit points of the combatant.
    pub max_hit_points: Option<i32>,
    /// Temporary hit points that the combatant has.
    pub temp_hit_points: Option<i32>,
    /// The actions available to the combatant.
    pub actions: Actions,
}

/// A combatant as a mathematical value.
pub struct CombatantView {
    pub name: Option<Seq<char>>,
    pub initiative: Option<i32>,
    pub hit_points: Option<i32>,
    pub max_hit_points: Option<i32>,
    pub temp_hit_points: Option<i32>,
    pub actions: Seq<Action>,
}

pub open spec fn text_of(s: Option<String>) -> Option<Seq<char>> {
    match s {
        Some(s) => Some(s@),
        None => None,
    }
}

impl View for Combatant {
    type V = CombatantView;

    open spec fn view(&self) -> CombatantView {
        CombatantView {
            name: text_of(self.name),
            initiative: self.initiative,
            hit_points: self.hit_points,
            max_hit_points: self.max_hit_points,
            temp_hit_points: self.temp_hit_points,
            actions: self.actions.actions@,
        }
    }
}

/// The combatant that a form adds: named, with the same current and maximum
/// hit points, no initiative and no temporary hit points.
pub open spec fn new_combatant(name: Seq<char>, hit_points: i32) -> CombatantView {
    CombatantView {
        name: Some(name),
        initiative: None,
        hit_points: Some(hit_points),
        max_hit_points: Some(hit_points),
        temp_hit_points: Some(0),
        actions: default_actions(),
    }
}

/// A number in decimal, or `missing` when there is none.
pub open spec fn number_text(n: Option<i32>, missing: Seq<char>) -> Seq<char> {
    match n {
        Some(v) => decimal(v as int),
        None => missing,
    }
}

/// The cells of a combatant's table row: initiative, name, actions,
/// hit points over maximum hit points, and temporary hit points.
pub open spec fn row_cells(c: CombatantView) -> Seq<Seq<char>> {
    seq![
        number_text(c.initiative, Seq::empty()),
        match c.name {
            Some(n) => n,
            None => Seq::empty(),
        },
        joined_labels(c.actions),
        number_text(c.hit_points, seq!['?']) + seq![' ', '/', ' '] + number_text(
            c.max_hit_points,
            seq!['?'],
        ),
        number_text(c.temp_hit_points, Seq::empty()),
    ]
}

/// Whether each string of `cells` holds the matching text of `texts`.
pub open spec fn spells(cells: Seq<String>, texts: Seq<Seq<char>>) -> bool {
    &&& cells.len() == texts.len()
    &&& forall|i: int| 0 <= i < cells.len() ==> #[trigger] cells[i]@ == texts[i]
}

fn number_or(n: Option<i32>, missing: &str) -> (r: String)
    ensures
        r@ == number_text(n, missing@),
{
    match n {
        Some(v) => format_i32(v),
        None => String::from_str(missing),
    }
}

impl Combatant {
    /// A combatant with the given name and hit points, no initiative yet,
    /// no temporary hit points and the usual actions.
    pub fn new(name: String, hit_points: i32, max_hit_points: i32) -> (r: Combatant)
        ensures
            r@ == (CombatantView {
                name: Some(name@),
                initiative: None,
                hit_points: Some(hit_points),
                max_hit_points: Some(max_hit_points),
                temp_hit_points: Some(0),
                actions: default_actions(),
            }),
    {
        Combatant {
            name: Some(name),
            initiative: None,
            hit_points: Some(hit_points),
            max_hit_points: Some(max_hit_points),
            temp_hit_points: Some(0),
            actions: Actions::default(),
        }
    }

    /// Possibly sets the name of the combatant.
    pub fn name(self, name: Option<String>) -> (r: Combatant)
        ensures
            r@ == (CombatantView { name: text_of(name), ..self@ }),
    {
        Combatant { name, ..self }
    }

    /// Possibly sets the initiative of the combatant.
    pub fn initiative(self, initiative: Option<i32>) -> (r: Combatant)
        ensures
            r@ == (CombatantView { initiative, ..self@ }),
    {
        Combatant { initiative, ..self }
    }

    /// Possibly sets the hit points of the combatant.
    pub fn hit_points(self, hit_points: Option<i32>) -> (r: Combatant)
        ensures
            r@ == (CombatantView { hit_points, ..self@ }),
    {
        Combatant { hit_points, ..self }
    }

    /// Possibly sets the maximum hit points of the combatant.
    pub fn max_hit_points(self, max_hit_points: Option<i32>) -> (r: Combatant)
        ensures
            r@ == (CombatantView { max_hit_points, ..self@ }),
    {
        Combatant { max_hit_points, ..self }
    }

    /// Possibly sets the temporary hit points of the combatant.
    pub fn temp_hit_points(self, temp_hit_points: Option<i32>) -> (r: Combatant)
        ensures
            r@ == (CombatantView { temp_hit_points, ..self@ }),
    {
        Combatant { temp_hit_points, ..self }
    }

    /// The text of the combatant's table row, one string per cell.
    pub fn row(&self) -> (r: Vec<String>)
        ensures
            spells(r@, row_cells(self@)),
    {
        let mut cells: Vec<String> = Vec::new();
        cells.push(number_or(self.initiative, ""));
        cells.push(
            match &self.name {
                Some(n) => n.clone(),
                None => String::new(),
            },
        );
        cells.push(self.actions.to_string());
        let mut points = number_or(self.hit_points, "?");
        points.append(" / ");
        points.append(number_or(self.max_hit_points, "?").as_str());
        cells.push(points);
        cells.push(number_or(self.temp_hit_points, ""));
        proof {
            reveal_strlit("");
            reveal_strlit("?");
            reveal_strlit(" / ");
            let want = row_cells(self@);
            assert(cells@[0]@ == want[0]);
            assert(cells@[1]@ == want[1]);
            assert(cells@[2]@ == want[2]);
            assert(cells@[3]@ =~= want[3]);
            assert(cells@[4]@ == want[4]);
        }
        cells
    }
}

impl Default for Combatant {
    /// A combatant with nothing filled in but the usual actions.
    fn default() -> (r: Combatant)
        ensures
            r@ == (CombatantView {
                name: None,
                initiative: None,
                hit_points: None,
                max_hit_points: None,
                temp_hit_points: None,
                actions: default_actions(),
            }),
    {
        Combatant {
            name: None,
            initiative: None,
            hit_points: None,
            max_hit_points: None,
            temp_hit_points: None,
            actions: Actions::default(),
        }
    }
}

} // verus!
