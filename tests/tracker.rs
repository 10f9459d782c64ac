use initiative_tracker::actions::{Action, Actions};
use initiative_tracker::add::AddCombatant;
use initiative_tracker::combatant::Combatant;
use initiative_tracker::key::{Key, KeyEvent};
use initiative_tracker::roll::RollInitiative;
use initiative_tracker::state::{key_label, State, TransitionResult};
use initiative_tracker::tracker::Tracker;

fn press(tracker: &mut Tracker, state: &mut State, key: Key) {
    tracker.dispatch(state, KeyEvent::plain(key));
}

fn type_text(tracker: &mut Tracker, state: &mut State, text: &str) {
    for c in text.chars() {
        press(tracker, state, Key::Char(c));
    }
}

fn finish(tracker: &mut Tracker, state: &mut State) {
    tracker.dispatch(state, KeyEvent::with_control(Key::Char('j')));
}

fn named(name: &str, initiative: Option<i32>) -> Combatant {
    Combatant::default().name(Some(name.to_string())).initiative(initiative)
}

fn names(tracker: &Tracker) -> Vec<String> {
    tracker.combatants().iter().map(|c| c.name.clone().unwrap_or_default()).collect()
}

#[test]
fn add_participant_through_form() {
    let mut tracker = Tracker::new();
    let mut state = Tracker::default_state();
    press(&mut tracker, &mut state, Key::Char('a'));
    assert!(matches!(state, State::AddCombatant(_)));
    type_text(&mut tracker, &mut state, "Aria");
    press(&mut tracker, &mut state, Key::Char('+'));
    type_text(&mut tracker, &mut state, "10");
    finish(&mut tracker, &mut state);
    assert_eq!(state, State::Home);
    assert_eq!(tracker.len(), 1);
    let c = tracker.combatant(0).unwrap();
    assert_eq!(c.name.as_deref(), Some("Aria"));
    assert_eq!(c.hit_points, Some(10));
    assert_eq!(c.max_hit_points, Some(10));
    assert_eq!(c.initiative, None);
}

#[test]
fn roll_initiative_for_two() {
    let mut tracker = Tracker::new();
    tracker.add_combatant(named("Bram", None));
    tracker.add_combatant(named("Cyra", None));
    let mut state = Tracker::default_state();
    press(&mut tracker, &mut state, Key::Char('r'));
    assert!(matches!(state, State::RollInitiative(_)));
    assert_eq!(tracker.highlighted(), Some(0));
    type_text(&mut tracker, &mut state, "15");
    press(&mut tracker, &mut state, Key::Enter);
    assert_eq!(tracker.combatant(0).unwrap().initiative, Some(15));
    assert_eq!(tracker.highlighted(), Some(1));
    type_text(&mut tracker, &mut state, "20");
    press(&mut tracker, &mut state, Key::Enter);
    assert_eq!(tracker.combatant(1).unwrap().initiative, Some(20));
    assert_eq!(tracker.highlighted(), Some(0));
    match &state {
        State::RollInitiative(roll) => {
            assert_eq!(roll.row, 0);
            assert_eq!(roll.input.as_str(), "15");
        },
        _ => panic!("still rolling initiative"),
    }
    finish(&mut tracker, &mut state);
    assert_eq!(state, State::Home);
    assert_eq!(names(&tracker), vec!["Cyra", "Bram"]);
    assert_eq!(tracker.combatant(0).unwrap().initiative, Some(20));
    assert_eq!(tracker.combatant(1).unwrap().initiative, Some(15));
}

#[test]
fn cancel_add_leaves_registry_alone() {
    let mut tracker = Tracker::new();
    let mut state = Tracker::default_state();
    press(&mut tracker, &mut state, Key::Char('a'));
    assert!(matches!(state, State::AddCombatant(_)));
    press(&mut tracker, &mut state, Key::Esc);
    assert_eq!(state, State::Home);
    assert_eq!(tracker.len(), 0);
}

#[test]
fn form_editor_leaves_ignored_key() {
    let mut add = AddCombatant::default();
    let plus = KeyEvent::plain(Key::Char('+'));
    assert_eq!(add.input.update(plus), Some(plus));
    assert_eq!(add.input().as_str(), "");
}

#[test]
fn sort_is_turn_order_with_ties_in_arrival_order() {
    let mut tracker = Tracker::new();
    tracker.add_combatant(named("A", Some(5)));
    tracker.add_combatant(named("B", None));
    tracker.add_combatant(named("C", Some(5)));
    tracker.add_combatant(named("D", Some(9)));
    tracker.add_combatant(named("E", None));
    assert_eq!(names(&tracker), vec!["D", "A", "C", "B", "E"]);
    // D drops to no initiative after being added before B: ties keep arrival order
    tracker.combatant_mut(0).unwrap().initiative = None;
    tracker.combatant_mut(3).unwrap().initiative = Some(-100);
    tracker.sort();
    assert_eq!(names(&tracker), vec!["A", "C", "B", "D", "E"]);
    let ranks: Vec<Option<i32>> = tracker.combatants().iter().map(|c| c.initiative).collect();
    assert_eq!(ranks, vec![Some(5), Some(5), Some(-100), None, None]);
}

#[test]
fn no_initiative_ranks_below_minimum() {
    let mut tracker = Tracker::new();
    tracker.add_combatant(named("none", None));
    tracker.add_combatant(named("min", Some(i32::MIN)));
    assert_eq!(names(&tracker), vec!["min", "none"]);
}

#[test]
fn out_of_range_access_is_absent() {
    let mut tracker = Tracker::new();
    assert!(tracker.combatant(0).is_none());
    assert!(tracker.combatant_mut(3).is_none());
    tracker.highlight(0);
    assert_eq!(tracker.highlighted(), None);
    tracker.add_combatant(named("A", None));
    tracker.highlight(0);
    assert_eq!(tracker.highlighted(), Some(0));
    tracker.highlight(1);
    assert_eq!(tracker.highlighted(), None);
    tracker.highlight(0);
    tracker.unhighlight();
    assert_eq!(tracker.highlighted(), None);
}

#[test]
fn rolling_with_no_combatants_does_not_fail() {
    let mut tracker = Tracker::new();
    let mut state = Tracker::default_state();
    press(&mut tracker, &mut state, Key::Char('r'));
    assert_eq!(tracker.highlighted(), None);
    type_text(&mut tracker, &mut state, "3");
    press(&mut tracker, &mut state, Key::Enter);
    press(&mut tracker, &mut state, Key::Char('-'));
    press(&mut tracker, &mut state, Key::Char('+'));
    finish(&mut tracker, &mut state);
    assert_eq!(state, State::Home);
    assert_eq!(tracker.len(), 0);
}

#[test]
fn rolling_moves_between_rows() {
    let mut tracker = Tracker::new();
    tracker.add_combatant(named("A", Some(3)));
    tracker.add_combatant(named("B", None));
    tracker.add_combatant(named("C", None));
    let mut state = Tracker::default_state();
    press(&mut tracker, &mut state, Key::Char('r'));
    match &state {
        State::RollInitiative(roll) => {
            assert_eq!(roll.input.as_str(), "3");
            assert_eq!(roll.name.as_deref(), Some("A"));
        },
        _ => panic!("rolling"),
    }
    press(&mut tracker, &mut state, Key::Char('-'));
    assert_eq!(tracker.highlighted(), Some(2));
    press(&mut tracker, &mut state, Key::Char('_'));
    assert_eq!(tracker.highlighted(), Some(1));
    press(&mut tracker, &mut state, Key::Char('='));
    assert_eq!(tracker.highlighted(), Some(2));
    press(&mut tracker, &mut state, Key::Char('+'));
    assert_eq!(tracker.highlighted(), Some(0));
    type_text(&mut tracker, &mut state, "x");
    press(&mut tracker, &mut state, Key::Esc);
    assert_eq!(state, State::Home);
    assert_eq!(tracker.combatant(0).unwrap().initiative, Some(3));
}

#[test]
fn unparseable_initiative_counts_as_zero() {
    let mut tracker = Tracker::new();
    tracker.add_combatant(named("A", None));
    let mut state = Tracker::default_state();
    press(&mut tracker, &mut state, Key::Char('r'));
    type_text(&mut tracker, &mut state, "abc");
    finish(&mut tracker, &mut state);
    assert_eq!(tracker.combatant(0).unwrap().initiative, Some(0));
}

#[test]
fn add_form_enter_moves_to_next_field() {
    let mut tracker = Tracker::new();
    let mut state = Tracker::default_state();
    press(&mut tracker, &mut state, Key::Char('a'));
    type_text(&mut tracker, &mut state, "Goblin");
    press(&mut tracker, &mut state, Key::Enter);
    assert_eq!(tracker.len(), 0);
    match &state {
        State::AddCombatant(add) => {
            assert_eq!(add.row, 1);
            assert_eq!(add.name.as_deref(), Some("Goblin"));
            assert_eq!(add.input.as_str(), "");
        },
        _ => panic!("still adding"),
    }
    type_text(&mut tracker, &mut state, "7x");
    press(&mut tracker, &mut state, Key::Enter);
    assert_eq!(tracker.len(), 0);
    match &state {
        State::AddCombatant(add) => {
            assert_eq!(add.row, 0);
            assert_eq!(add.hit_points, Some(0));
            assert_eq!(add.name, None);
            assert_eq!(add.input.as_str(), "Goblin");
        },
        _ => panic!("still adding"),
    }
    finish(&mut tracker, &mut state);
    assert_eq!(state, State::Home);
    assert_eq!(tracker.len(), 1);
    assert_eq!(tracker.combatant(0).unwrap().name.as_deref(), Some("Goblin"));
    assert_eq!(tracker.combatant(0).unwrap().hit_points, Some(0));
}

#[test]
fn add_form_finish_goes_after_equal_initiatives() {
    let mut tracker = Tracker::new();
    tracker.add_combatant(named("Bram", None));
    tracker.add_combatant(named("Cyra", Some(4)));
    let mut state = Tracker::default_state();
    press(&mut tracker, &mut state, Key::Char('a'));
    type_text(&mut tracker, &mut state, "Dax");
    finish(&mut tracker, &mut state);
    assert_eq!(names(&tracker), vec!["Cyra", "Bram", "Dax"]);
}

#[test]
fn add_form_field_round_trip() {
    let mut add = AddCombatant::default();
    let mut tracker = Tracker::new();
    for c in "12".chars() {
        add.handle_event(KeyEvent::plain(Key::Char(c)), &mut tracker);
    }
    add.set_row_idx(1);
    assert_eq!(add.input.as_str(), "");
    add.set_row_content("12".to_string());
    assert_eq!(add.hit_points, Some(12));
    add.set_row_idx(1);
    assert_eq!(add.input.as_str(), "12");
    assert_eq!(add.hit_points, None);
    add.handle_event(KeyEvent::plain(Key::Char('-')), &mut tracker);
    assert_eq!(add.row, 0);
    assert_eq!(add.hit_points, Some(12));
    add.handle_event(KeyEvent::plain(Key::Char('+')), &mut tracker);
    assert_eq!(add.row, 1);
    assert_eq!(add.input.as_str(), "12");
}

#[test]
fn add_form_render() {
    let mut add = AddCombatant::default();
    add.name = Some("Orc".to_string());
    add.set_row_idx(1);
    add.input.set("15".to_string());
    let view = add.render();
    assert_eq!(view.title, "Add Combatant");
    assert_eq!(view.rows.len(), 2);
    assert_eq!(view.rows[0].label, "Name");
    assert_eq!(view.rows[0].value, "Orc");
    assert!(!view.rows[0].highlighted);
    assert_eq!(view.rows[1].label, "Hit Points");
    assert_eq!(view.rows[1].value, "15");
    assert!(view.rows[1].highlighted);
}

#[test]
fn roll_form_render() {
    let mut roll = RollInitiative::default();
    assert_eq!(roll.render().title, "Rolling Initiative for Unknown");
    roll.name = Some("Aria".to_string());
    roll.input.set("12".to_string());
    let view = roll.render();
    assert_eq!(view.title, "Rolling Initiative for Aria");
    assert_eq!(view.rows[0].label, "Initiative");
    assert_eq!(view.rows[0].value, "12");
}

#[test]
fn transitions_and_help() {
    let home = State::Home;
    let keys: Vec<Key> = home.transitions().iter().map(|t| t.key).collect();
    assert_eq!(keys, vec![Key::Char('a'), Key::Char('r'), Key::Char('q')]);
    assert_eq!(
        home.help(),
        "a: add combatant to initiative order\nr: roll initiative!\nq: quit the program"
    );
    assert!(home.transition(Key::Char('x')).is_none());
    assert!(matches!(home.transition(Key::Char('q')).unwrap().state, State::Quit));
    let add = State::AddCombatant(AddCombatant::default());
    assert_eq!(add.default_help(), "h: back to initiative tracker");
    assert!(add.help().starts_with("<escape>: cancel"));
    assert!(add.needs_keyboard());
    assert!(!home.needs_keyboard());
    assert!(State::Quit.transitions().is_empty());
    assert_eq!(State::Quit.default_help(), "");
    assert_eq!(State::Quit.description(), "quit the program");
}

#[test]
fn apply_transition_reports_result() {
    let mut state = State::Home;
    assert_eq!(state.apply_transition(Key::Char('z')), TransitionResult::Old);
    assert_eq!(state, State::Home);
    assert_eq!(state.apply_transition(Key::Char('q')), TransitionResult::New);
    assert!(state.is_quit());
}

#[test]
fn quit_from_home() {
    let mut tracker = Tracker::new();
    let mut state = Tracker::default_state();
    press(&mut tracker, &mut state, Key::Char('h'));
    assert_eq!(state, State::Home);
    press(&mut tracker, &mut state, Key::Char('q'));
    assert!(state.is_quit());
    press(&mut tracker, &mut state, Key::Char('a'));
    assert!(state.is_quit());
}

#[test]
fn render_form_only_in_forms() {
    assert!(State::Home.render().is_none());
    let state = State::AddCombatant(AddCombatant::default());
    let (view, input) = state.render().unwrap();
    assert_eq!(view.rows.len(), 2);
    assert_eq!(input.unwrap().as_str(), "");
}

#[test]
fn combatant_row_cells() {
    let c = Combatant::new("Aria".to_string(), 10, 12);
    assert_eq!(c.row(), vec!["", "Aria", "M/A/R", "10 / 12", "0"]);
    let d = Combatant::default().initiative(Some(-4)).hit_points(Some(3)).temp_hit_points(Some(2)).max_hit_points(None);
    assert_eq!(d.row(), vec!["-4", "", "M/A/R", "3 / ?", "2"]);
}

#[test]
fn tracker_render_marks_highlight() {
    let mut tracker = Tracker::new();
    tracker.add_combatant(named("A", Some(1)));
    tracker.add_combatant(named("B", Some(2)));
    tracker.highlight(1);
    let rows = tracker.render();
    assert_eq!(rows.len(), 2);
    assert_eq!(rows[0].cells[1], "B");
    assert!(!rows[0].highlighted);
    assert_eq!(rows[1].cells[0], "1");
    assert!(rows[1].highlighted);
}

#[test]
fn actions_text() {
    assert_eq!(Actions::default().to_string(), "M/A/R");
    let all = Actions { actions: vec![Action::Move, Action::Action, Action::BonusAction, Action::Reaction] };
    assert_eq!(all.to_string(), "M/A/BA/R");
    assert_eq!(Actions { actions: vec![] }.to_string(), "");
    assert_eq!(Action::BonusAction.label(), "BA");
}

#[test]
fn key_labels() {
    assert_eq!(key_label(Key::Char('a')), "a");
    assert_eq!(key_label(Key::Enter), "<enter>");
}
