//! The registry of combatants, kept in turn order.

use crate::combatant::{row_cells, spells, Combatant, CombatantView};
use vstd::multiset::Multiset;
use vstd::prelude::*;

verus! {

/// Where an initiative places a combatant: a combatant without one goes
/// after every combatant that has one.
pub open spec fn rank(initiative: Option<i32>) -> int {
    match initiative {
        Some(v) => v as int,
        None => i32::MIN - 1,
    }
}

/// Combatants paired with the order in which they were added.
pub open spec fn entries_of(combatants: Seq<Combatant>, arrivals: Seq<usize>) -> Seq<
    (CombatantView, usize),
> {
    Seq::new(combatants.len(), |i: int| (combatants[i]@, arrivals[i]))
}

/// Turn order: initiative never rises down the list, and combatants with the
/// same initiative stand in the order in which they were added.
pub open spec fn in_turn_order(entries: Seq<(CombatantView, usize)>) -> bool {
    forall|i: int, j: int|
        0 <= i < j < entries.len() ==> {
            &&& rank(#[trigger] entries[i].0.initiative) >= rank(#[trigger] entries[j].0.initiative)
            &&& (rank(entries[i].0.initiative) == rank(entries[j].0.initiative) ==> entries[i].1
                < entries[j].1)
        }
}

/// Each combatant's arrival number is below the number of combatants, and no
/// two combatants share one: they number the combatants in the order in which
/// they were added.
pub open spec fn arrivals_valid(entries: Seq<(CombatantView, usize)>) -> bool {
    &&& forall|i: int| 0 <= i < entries.len() ==> #[trigger] entries[i].1 < entries.len()
    &&& forall|i: int, j: int|
        0 <= i < j < entries.len() ==> #[trigger] entries[i].1 != #[trigger] entries[j].1
}

spec fn goes_before(a: (CombatantView, usize), b: (CombatantView, usize)) -> bool {
    ||| rank(a.0.initiative) > rank(b.0.initiative)
    ||| (rank(a.0.initiative) == rank(b.0.initiative) && a.1 < b.1)
}

fn goes_before_exec(a: &Combatant, a_arrival: usize, b: &Combatant, b_arrival: usize) -> (r: bool)
    ensures
        r == goes_before((a@, a_arrival), (b@, b_arrival)),
{
    match (a.initiative, b.initiative) {
        (Some(x), Some(y)) => x > y || (x == y && a_arrival < b_arrival),
        (Some(_), None) => true,
        (None, Some(_)) => false,
        (None, None) => a_arrival < b_arrival,
    }
}

/// One row of the registry's table.
pub struct TableRow {
    /// The text of each cell.
    pub cells: Vec<String>,
    /// Whether the row is the highlighted one.
    pub highlighted: bool,
}

/// The combatants of an encounter in turn order, with an optional highlighted row.
#[derive(Debug, PartialEq, Eq)]
pub struct Tracker {
    combatants: Vec<Combatant>,
    /// For each combatant, how many combatants were added before it.
    arrivals: Vec<usize>,
    highlighted: Option<usize>,
}

impl Tracker {
    #[verifier::type_invariant]
    spec fn well_formed(&self) -> bool {
        &&& self.combatants@.len() == self.arrivals@.len()
        &&& forall|i: int|
            0 <= i < self.arrivals@.len() ==> #[trigger] self.arrivals@[i] < self.arrivals@.len()
        &&& forall|i: int, j: int|
            0 <= i < j < self.arrivals@.len() ==> #[trigger] self.arrivals@[i]
                != #[trigger] self.arrivals@[j]
        &&& self.highlighted matches Some(h) ==> h < self.combatants@.len()
    }

    /// The combatants, each as a value.
    pub open spec fn rows(&self) -> Seq<CombatantView> {
        self.entries().map_values(|e: (CombatantView, usize)| e.0)
    }

    /// The combatants, each with how many combatants were added before it.
    pub closed spec fn entries(&self) -> Seq<(CombatantView, usize)> {
        entries_of(self.combatants@, self.arrivals@)
    }

    /// The highlighted row, if any.
    pub closed spec fn highlight_row(&self) -> Option<usize> {
        self.highlighted
    }

    /// Whether `new` holds the same combatants in the same order, with the same highlight.
    pub open spec fn same_as(&self, new: Tracker) -> bool {
        &&& new.entries() == self.entries()
        &&& new.highlight_row() == self.highlight_row()
    }

    /// Whether `new` is this registry with `c` added last and then sorted into turn order.
    pub open spec fn adds(&self, c: CombatantView, new: Tracker) -> bool {
        &&& self.entries().len() <= usize::MAX
        &&& in_turn_order(new.entries())
        &&& new.entries().to_multiset() == self.entries().to_multiset().insert(
            (c, self.entries().len() as usize),
        )
        &&& new.highlight_row() == self.highlight_row()
        &&& arrivals_valid(new.entries())
    }

    /// A combatant added to a registry goes after every older combatant of
    /// the same initiative.
    pub proof fn lemma_added_after_equals(self, c: CombatantView, new: Tracker)
        requires
            arrivals_valid(self.entries()),
            self.adds(c, new),
        ensures
            exists|k: int|
                0 <= k < new.entries().len() && new.entries()[k] == (c, self.entries().len() as usize)
                    && forall|i: int|
                    0 <= i < new.entries().len() && i != k && #[trigger] new.entries()[i].0.initiative
                        == c.initiative ==> i < k,
    {
        broadcast use vstd::seq_lib::group_to_multiset_ensures;

        let old_e = self.entries();
        let e = new.entries();
        let n = old_e.len() as usize;
        let x = (c, n);
        assert(e.to_multiset().count(x) > 0);
        assert(e.contains(x));
        let k = choose|k: int| 0 <= k < e.len() && e[k] == x;
        assert forall|i: int|
            0 <= i < e.len() && i != k && #[trigger] e[i].0.initiative == c.initiative implies i < k by {
            assert(e[i] != x) by {
                if e[i] == x {
                    if i < k {
                        assert(e[i].1 != e[k].1);
                    } else {
                        assert(e[k].1 != e[i].1);
                    }
                }
            }
            assert(e.to_multiset().count(e[i]) > 0);
            assert(old_e.to_multiset().count(e[i]) > 0);
            assert(old_e.contains(e[i]));
            let j = choose|j: int| 0 <= j < old_e.len() && old_e[j] == e[i];
            assert(old_e[j].1 < n);
            if i > k {
                assert(rank(e[k].0.initiative) == rank(e[i].0.initiative));
            }
        }
    }

    /// An empty registry with nothing highlighted.
    pub fn new() -> (r: Tracker)
        ensures
            r.entries() == Seq::<(CombatantView, usize)>::empty(),
            r.rows() == Seq::<CombatantView>::empty(),
            r.highlight_row() is None,
            arrivals_valid(r.entries()),
    {
        let r = Tracker { combatants: Vec::new(), arrivals: Vec::new(), highlighted: None };
        proof {
            assert(r.entries() =~= Seq::<(CombatantView, usize)>::empty());
            assert(r.rows() =~= Seq::<CombatantView>::empty());
        }
        r
    }

    /// The number of combatants.
    pub fn len(&self) -> (r: usize)
        ensures
            r == self.rows().len(),
            r == self.entries().len(),
            arrivals_valid(self.entries()),
    {
        proof {
            use_type_invariant(self);
        }
        self.combatants.len()
    }

    /// The combatants, in their current order.
    pub fn combatants(&self) -> (r: &[Combatant])
        ensures
            r@.map_values(|c: Combatant| c@) == self.rows(),
            arrivals_valid(self.entries()),
    {
        proof {
            use_type_invariant(self);
            assert(self.combatants@.map_values(|c: Combatant| c@) =~= self.rows());
        }
        self.combatants.as_slice()
    }

    /// The combatant at the given row, if there is one.
    pub fn combatant(&self, idx: usize) -> (r: Option<&Combatant>)
        ensures
            idx < self.entries().len() ==> (r matches Some(c) && c@ == self.rows()[idx as int]
                && c@ == self.entries()[idx as int].0),
            idx >= self.entries().len() ==> r is None,
    {
        if idx < self.combatants.len() {
            Some(&self.combatants[idx])
        } else {
            None
        }
    }

    /// The highlighted row, if any.
    pub fn highlighted(&self) -> (r: Option<usize>)
        ensures
            r == self.highlight_row(),
            r matches Some(h) ==> h < self.rows().len(),
    {
        proof {
            use_type_invariant(self);
        }
        self.highlighted
    }

    /// Highlights the given row; a row past the end clears the highlight.
    pub fn highlight(&mut self, idx: usize)
        ensures
            final(self).entries() == old(self).entries(),
            final(self).rows() == old(self).rows(),
            final(self).highlight_row() == (if idx < old(self).entries().len() {
                Some(idx)
            } else {
                None
            }),
            arrivals_valid(final(self).entries()),
    {
        proof {
            use_type_invariant(&*self);
        }
        if idx < self.combatants.len() {
            self.highlighted = Some(idx);
        } else {
            self.highlighted = None;
        }
    }

    /// Clears the highlight.
    pub fn unhighlight(&mut self)
        ensures
            final(self).entries() == old(self).entries(),
            final(self).rows() == old(self).rows(),
            final(self).highlight_row() is None,
            arrivals_valid(final(self).entries()),
    {
        proof {
            use_type_invariant(&*self);
        }
        self.highlighted = None;
    }

    /// Sorts the combatants into turn order.
    pub fn sort(&mut self)
        ensures
            in_turn_order(final(self).entries()),
            final(self).entries().to_multiset() == old(self).entries().to_multiset(),
            final(self).highlight_row() == old(self).highlight_row(),
            arrivals_valid(final(self).entries()),
    {
        let mut whole = Tracker::new();
        std::mem::swap(self, &mut whole);
        proof {
            use_type_invariant(&whole);
        }
        let Tracker { combatants: mut rest, arrivals: mut rest_arrivals, highlighted } = whole;
        let ghost initial = entries_of(rest@, rest_arrivals@);
        let mut sorted: Vec<Combatant> = Vec::new();
        let mut sorted_arrivals: Vec<usize> = Vec::new();
        proof {
            broadcast use vstd::seq_lib::group_to_multiset_ensures;

            assert(entries_of(sorted@, sorted_arrivals@) =~= Seq::<(CombatantView, usize)>::empty());
            assert(entries_of(sorted@, sorted_arrivals@).to_multiset() =~= Multiset::empty());
            assert(initial.to_multiset().add(Multiset::empty()) =~= initial.to_multiset());
        }
        while rest.len() > 0
            invariant
                rest@.len() == rest_arrivals@.len(),
                sorted@.len() == sorted_arrivals@.len(),
                rest@.len() + sorted@.len() == initial.len(),
                highlighted matches Some(h) ==> h < initial.len(),
                forall|i: int|
                    0 <= i < sorted_arrivals@.len() ==> #[trigger] sorted_arrivals@[i]
                        < initial.len(),
                forall|i: int|
                    0 <= i < rest_arrivals@.len() ==> #[trigger] rest_arrivals@[i] < initial.len(),
                forall|i: int, j: int|
                    0 <= i < j < rest_arrivals@.len() ==> #[trigger] rest_arrivals@[i]
                        != #[trigger] rest_arrivals@[j],
                forall|i: int, j: int|
                    0 <= i < rest_arrivals@.len() && 0 <= j < sorted_arrivals@.len()
                        ==> #[trigger] rest_arrivals@[i] != #[trigger] sorted_arrivals@[j],
                forall|i: int, j: int|
                    0 <= i < j < sorted_arrivals@.len() ==> #[trigger] sorted_arrivals@[i]
                        != #[trigger] sorted_arrivals@[j],
                in_turn_order(entries_of(sorted@, sorted_arrivals@)),
                entries_of(rest@, rest_arrivals@).to_multiset().add(
                    entries_of(sorted@, sorted_arrivals@).to_multiset(),
                ) == initial.to_multiset(),
            decreases rest@.len(),
        {
            let ghost before_rest = entries_of(rest@, rest_arrivals@);
            let ghost before_sorted = entries_of(sorted@, sorted_arrivals@);
            let ghost rest_arrivals_before = rest_arrivals@;
            let c = rest.pop().unwrap();
            let a = rest_arrivals.pop().unwrap();
            let ghost x = (c@, a);
            proof {
                assert(before_rest =~= entries_of(rest@, rest_arrivals@).push(x));
                vstd::seq_lib::to_multiset_build(entries_of(rest@, rest_arrivals@), x);
            }
            let mut p: usize = 0;
            while p < sorted.len()
                invariant
                    p <= sorted@.len(),
                    sorted@.len() == sorted_arrivals@.len(),
                    before_sorted == entries_of(sorted@, sorted_arrivals@),
                    x == (c@, a),
                    forall|k: int| 0 <= k < p ==> goes_before(#[trigger] before_sorted[k], x),
                ensures
                    p <= sorted@.len(),
                    forall|k: int| 0 <= k < p ==> goes_before(#[trigger] before_sorted[k], x),
                    p < sorted@.len() ==> !goes_before(before_sorted[p as int], x),
                decreases sorted@.len() - p,
            {
                if !goes_before_exec(&sorted[p], sorted_arrivals[p], &c, a) {
                    break;
                }
                p = p + 1;
            }
            sorted.insert(p, c);
            sorted_arrivals.insert(p, a);
            proof {
                let after = entries_of(sorted@, sorted_arrivals@);
                assert(after =~= before_sorted.insert(p as int, x));
                vstd::seq_lib::to_multiset_insert(before_sorted, p as int, x);
                // x differs in arrival from every sorted entry
                assert forall|k: int| 0 <= k < before_sorted.len() implies #[trigger] before_sorted[k].1
                    != a by {
                    assert(rest_arrivals_before[rest_arrivals_before.len() - 1] == a);
                }
                if p < before_sorted.len() {
                    assert(!goes_before(before_sorted[p as int], x));
                    assert(goes_before(x, before_sorted[p as int]));
                }
                assert forall|i: int, j: int|
                    0 <= i < rest_arrivals@.len() && 0 <= j < sorted_arrivals@.len()
                        implies #[trigger] rest_arrivals@[i] != #[trigger] sorted_arrivals@[j] by {
                    assert(rest_arrivals@[i] == rest_arrivals_before[i]);
                    if j < p {
                        assert(sorted_arrivals@[j] == before_sorted[j].1);
                    } else if j > p {
                        assert(sorted_arrivals@[j] == before_sorted[j - 1].1);
                    } else {
                        assert(rest_arrivals_before[rest_arrivals_before.len() - 1] == a);
                    }
                }
                assert forall|i: int, j: int|
                    0 <= i < j < sorted_arrivals@.len() implies #[trigger] sorted_arrivals@[i]
                        != #[trigger] sorted_arrivals@[j] by {
                    assert(sorted_arrivals@[i] == after[i].1 && sorted_arrivals@[j] == after[j].1);
                    if i < p {
                        assert(after[i] == before_sorted[i]);
                    } else if i > p {
                        assert(after[i] == before_sorted[i - 1]);
                    }
                    if j < p {
                        assert(after[j] == before_sorted[j]);
                    } else if j > p {
                        assert(after[j] == before_sorted[j - 1]);
                    }
                }
                assert(entries_of(rest@, rest_arrivals@).to_multiset().add(after.to_multiset())
                    =~= initial.to_multiset());
            }
        }
        proof {
            assert(entries_of(rest@, rest_arrivals@) =~= Seq::<(CombatantView, usize)>::empty());
            broadcast use vstd::seq_lib::group_to_multiset_ensures;

            assert(entries_of(rest@, rest_arrivals@).to_multiset() =~= Multiset::empty());
            assert(entries_of(sorted@, sorted_arrivals@).to_multiset() =~= initial.to_multiset());
        }
        *self = Tracker { combatants: sorted, arrivals: sorted_arrivals, highlighted };
    }

    /// Adds a combatant, then sorts the registry into turn order.
    pub fn add_combatant(&mut self, combatant: Combatant)
        ensures
            old(self).adds(combatant@, *final(self)),
    {
        let mut whole = Tracker::new();
        std::mem::swap(self, &mut whole);
        proof {
            use_type_invariant(&whole);
        }
        let ghost before = whole.entries();
        let Tracker { mut combatants, mut arrivals, highlighted } = whole;
        let n = combatants.len();
        let ghost pair = (combatant@, n);
        combatants.push(combatant);
        arrivals.push(n);
        proof {
            assert(entries_of(combatants@, arrivals@) =~= before.push(pair));
            vstd::seq_lib::to_multiset_build(before, pair);
        }
        *self = Tracker { combatants, arrivals, highlighted };
        self.sort();
    }

    /// The combatant at the given row, for changing it in place.
    pub fn combatant_mut(&mut self, idx: usize) -> (r: Option<&mut Combatant>)
        ensures
            idx < old(self).entries().len() ==> {
                &&& r is Some
                &&& (*r.unwrap())@ == old(self).entries()[idx as int].0
                &&& final(self).entries() == old(self).entries().update(
                    idx as int,
                    ((*final(r.unwrap()))@, old(self).entries()[idx as int].1),
                )
                &&& final(self).highlight_row() == old(self).highlight_row()
            },
            arrivals_valid(final(self).entries()),
            idx >= old(self).entries().len() ==> {
                &&& r is None
                &&& final(self).entries() == old(self).entries()
                &&& final(self).highlight_row() == old(self).highlight_row()
            },
    {
        proof {
            use_type_invariant(&*self);
        }
        if idx < self.combatants.len() {
            Some(&mut self.combatants[idx])
        } else {
            None
        }
    }

    /// Whether `row` shows the combatant at row `k`, highlighted exactly when
    /// that row is.
    pub open spec fn shows(&self, row: TableRow, k: int) -> bool {
        &&& spells(row.cells@, row_cells(self.rows()[k]))
        &&& row.highlighted == (self.highlight_row() == Some(k as usize))
    }

    /// The table of the registry: one row per combatant, in order.
    pub fn render(&self) -> (r: Vec<TableRow>)
        ensures
            r@.len() == self.rows().len(),
            forall|i: int| 0 <= i < r@.len() ==> self.shows(#[trigger] r@[i], i),
    {
        let mut rows: Vec<TableRow> = Vec::new();
        let mut i: usize = 0;
        while i < self.combatants.len()
            invariant
                i <= self.combatants@.len(),
                rows@.len() == i,
                forall|k: int| 0 <= k < i ==> self.shows(#[trigger] rows@[k], k),
            decreases self.combatants@.len() - i,
        {
            let highlighted = match self.highlighted {
                Some(h) => h == i,
                None => false,
            };
            let cells = self.combatants[i].row();
            proof {
                assert(self.rows()[i as int] == self.combatants@[i as int]@);
            }
            rows.push(TableRow { cells, highlighted });
            i = i + 1;
        }
        rows
    }
}

} // verus!
