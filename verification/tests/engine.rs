//! The execution engine's run-control behaviour: stepping, accept/reject,
//! breakpoints, reset, and the end-to-end scenarios.

use turing_engine::machine::{RunStatus, TuringMachine};
use turing_engine::symbol::{Direction, Symbol};
use turing_engine::table::Transition;

fn rule(
    current_state: &str,
    read_symbol: Symbol,
    new_state: &str,
    write_symbol: Symbol,
    direction: Direction,
) -> Transition {
    Transition {
        current_state: current_state.to_owned(),
        read_symbol,
        new_state: new_state.to_owned(),
        write_symbol,
        direction,
        has_breakpoint: false,
    }
}

#[test]
fn new_machine_is_idle_at_origin() {
    let mut m = TuringMachine::new();
    assert_eq!(m.current_state(), "q0");
    assert_eq!(m.start_state(), "q0");
    assert_eq!(m.accept_state(), "qa");
    assert_eq!(m.reject_state(), "qr");
    assert_eq!(m.head_pos(), 0);
    assert_eq!(m.step_count(), 0);
    assert_eq!(m.status(), RunStatus::Idle);
    assert_eq!(m.transition_count(), 0);
    assert_eq!(m.speed_ms(), 500);
    assert_eq!(m.read_tape(0), Symbol::Blank);
}

#[test]
fn no_rule_for_read_symbol_rejects_without_moving() {
    let mut m = TuringMachine::new();
    // A rule exists, but not for the blank under the head.
    assert!(m.add_transition(rule("q0", Symbol::One, "q0", Symbol::One, Direction::Right)));
    let cont = m.step();
    assert!(!cont);
    assert_eq!(m.status(), RunStatus::Rejected);
    assert_eq!(m.head_pos(), 0);
    assert_eq!(m.step_count(), 0);
    assert_eq!(m.current_state(), "q0");
}

#[test]
fn entering_accept_state_accepts_and_counts_the_step() {
    let mut m = TuringMachine::new();
    assert!(m.add_transition(rule("q0", Symbol::Blank, "qa", Symbol::Blank, Direction::Right)));
    let cont = m.step();
    assert!(!cont);
    assert_eq!(m.status(), RunStatus::Accepted);
    assert_eq!(m.step_count(), 1);
}

#[test]
fn entering_reject_state_rejects_and_counts_the_step() {
    let mut m = TuringMachine::new();
    assert!(m.add_transition(rule("q0", Symbol::Blank, "qr", Symbol::Blank, Direction::Left)));
    let cont = m.step();
    assert!(!cont);
    assert_eq!(m.status(), RunStatus::Rejected);
    assert_eq!(m.step_count(), 1);
    assert_eq!(m.head_pos(), -1);
}

#[test]
fn transition_breakpoint_pauses_without_changing_status() {
    let mut m = TuringMachine::new();
    let mut t = rule("q0", Symbol::Blank, "q1", Symbol::One, Direction::Right);
    t.has_breakpoint = true;
    assert!(m.add_transition(t));
    let cont = m.step();
    assert!(!cont);
    assert_eq!(m.status(), RunStatus::Idle);
    assert_eq!(m.step_count(), 1);
    assert_eq!(m.head_pos(), 1);
    assert_eq!(m.current_state(), "q1");
    assert_eq!(m.read_tape(0), Symbol::One);
}

#[test]
fn state_breakpoint_pauses_on_entry_without_changing_status() {
    let mut m = TuringMachine::new();
    assert!(m.add_transition(rule("q0", Symbol::Blank, "q1", Symbol::Zero, Direction::Right)));
    m.toggle_state_breakpoint(&"q1".to_owned());
    let cont = m.step();
    assert!(!cont);
    assert_eq!(m.status(), RunStatus::Idle);
    assert_eq!(m.step_count(), 1);
    assert_eq!(m.current_state(), "q1");
}

#[test]
fn breakpoint_pause_keeps_a_running_status_running() {
    let mut m = TuringMachine::new();
    let mut t = rule("q0", Symbol::Blank, "q1", Symbol::One, Direction::Right);
    t.has_breakpoint = true;
    assert!(m.add_transition(t));
    m.set_running();
    let cont = m.step();
    assert!(!cont);
    assert_eq!(m.status(), RunStatus::Running);
    // The driver, not the engine, decides to go idle on such a pause.
    m.set_idle();
    assert_eq!(m.status(), RunStatus::Idle);
}

#[test]
fn plain_transition_signals_may_continue() {
    let mut m = TuringMachine::new();
    assert!(m.add_transition(rule("q0", Symbol::Blank, "q1", Symbol::One, Direction::Right)));
    assert!(m.add_transition(rule("q1", Symbol::Blank, "q0", Symbol::Zero, Direction::Left)));
    assert!(m.step());
    assert_eq!(m.current_state(), "q1");
    assert!(m.step());
    assert_eq!(m.current_state(), "q0");
    assert_eq!(m.step_count(), 2);
    assert_eq!(m.head_pos(), 0);
}

#[test]
fn step_on_terminal_machine_is_a_no_op() {
    let mut m = TuringMachine::new();
    assert!(m.add_transition(rule("q0", Symbol::Blank, "qa", Symbol::Blank, Direction::Right)));
    assert!(!m.step());
    assert_eq!(m.status(), RunStatus::Accepted);
    let cont = m.step();
    assert!(!cont);
    assert_eq!(m.status(), RunStatus::Accepted);
    assert_eq!(m.step_count(), 1);
    assert_eq!(m.head_pos(), 1);
}

#[test]
fn standing_in_accept_state_becomes_accepted_without_a_step() {
    let mut m = TuringMachine::new();
    assert!(m.add_transition(rule("q0", Symbol::Blank, "qa", Symbol::Blank, Direction::Right)));
    assert!(m.add_transition(rule("qa", Symbol::Blank, "q0", Symbol::Blank, Direction::Left)));
    assert!(!m.step());
    assert_eq!(m.status(), RunStatus::Accepted);
    // The rule for `qa` never fires: the accept state check comes first.
    assert_eq!(m.step_count(), 1);
}

#[test]
fn reset_restores_run_state_and_keeps_configuration() {
    let mut m = TuringMachine::new();
    let mut t = rule("q0", Symbol::Blank, "q1", Symbol::One, Direction::Right);
    t.has_breakpoint = true;
    assert!(m.add_transition(t));
    assert!(m.add_transition(rule("q1", Symbol::Blank, "qr", Symbol::Zero, Direction::Left)));
    m.toggle_state_breakpoint(&"q9".to_owned());
    m.set_speed(900);
    m.step();
    m.step();
    assert_ne!(m.step_count(), 0);
    m.reset();
    assert_eq!(m.step_count(), 0);
    assert_eq!(m.status(), RunStatus::Idle);
    assert_eq!(m.current_state(), "q0");
    assert_eq!(m.head_pos(), 0);
    assert_eq!(m.read_tape(0), Symbol::Blank);
    assert_eq!(m.read_tape(1), Symbol::Blank);
    assert_eq!(m.read_tape(-1), Symbol::Blank);
    // Configuration survives: both rules, the flag, the name, the speed.
    assert_eq!(m.transition_count(), 2);
    assert!(m.transition(0).has_breakpoint);
    assert_eq!(m.transition(1).new_state, "qr");
    assert!(m.has_state_breakpoint(&"q9".to_owned()));
    assert_eq!(m.speed_ms(), 900);
}

#[test]
fn reset_lets_a_terminal_machine_run_again() {
    let mut m = TuringMachine::new();
    assert!(m.add_transition(rule("q0", Symbol::Blank, "qa", Symbol::Blank, Direction::Right)));
    assert!(!m.step());
    assert_eq!(m.status(), RunStatus::Accepted);
    m.reset();
    assert_eq!(m.status(), RunStatus::Idle);
    assert!(!m.step());
    assert_eq!(m.status(), RunStatus::Accepted);
    assert_eq!(m.step_count(), 1);
}

#[test]
fn tape_window_with_even_width_starts_half_left_of_center() {
    let mut m = TuringMachine::new();
    let w = m.tape_window(0, 4);
    assert_eq!(w.len(), 4);
    assert_eq!(w[0].0, -2);
    assert_eq!(w[1].0, -1);
    assert_eq!(w[2].0, 0);
    assert!(w[2].2);
    assert_eq!(w[3].0, 1);
}

#[test]
fn duplicate_key_is_rejected_and_leaves_table_unchanged() {
    let mut m = TuringMachine::new();
    assert!(m.add_transition(rule("q0", Symbol::Blank, "qa", Symbol::One, Direction::Right)));
    let added = m.add_transition(rule("q0", Symbol::Blank, "qr", Symbol::Zero, Direction::Left));
    assert!(!added);
    assert_eq!(m.transition_count(), 1);
    assert_eq!(m.transition(0).new_state, "qa");
    assert_eq!(m.transition(0).write_symbol, Symbol::One);
    assert_eq!(m.transition(0).direction, Direction::Right);
}

#[test]
fn same_state_different_symbol_is_no_duplicate() {
    let mut m = TuringMachine::new();
    assert!(m.add_transition(rule("q0", Symbol::Blank, "qa", Symbol::One, Direction::Right)));
    assert!(m.add_transition(rule("q0", Symbol::One, "qa", Symbol::One, Direction::Right)));
    assert_eq!(m.transition_count(), 2);
}

#[test]
fn single_rule_accepts_from_blank_tape() {
    let mut m = TuringMachine::new();
    assert!(m.add_transition(rule("q0", Symbol::Blank, "qa", Symbol::Blank, Direction::Right)));
    let cont = m.step();
    assert!(!cont);
    assert_eq!(m.status(), RunStatus::Accepted);
    assert_eq!(m.step_count(), 1);
}

#[test]
fn empty_table_rejects_without_consuming_a_step() {
    let mut m = TuringMachine::new();
    let cont = m.step();
    assert!(!cont);
    assert_eq!(m.status(), RunStatus::Rejected);
    assert_eq!(m.step_count(), 0);
}

#[test]
fn unary_increment_accepts_after_three_steps() {
    let mut m = TuringMachine::new();
    assert!(m.add_transition(rule("q0", Symbol::Zero, "q0", Symbol::Zero, Direction::Right)));
    assert!(m.add_transition(rule("q0", Symbol::One, "q0", Symbol::One, Direction::Right)));
    assert!(m.add_transition(rule("q0", Symbol::Blank, "qa", Symbol::One, Direction::Right)));
    m.write_tape(0, Symbol::One);
    m.write_tape(1, Symbol::One);
    assert!(m.step());
    assert!(m.step());
    let cont = m.step();
    assert!(!cont);
    assert_eq!(m.status(), RunStatus::Accepted);
    assert_eq!(m.step_count(), 3);
    assert_eq!(m.read_tape(2), Symbol::One);
    assert_eq!(m.read_tape(0), Symbol::One);
    assert_eq!(m.read_tape(1), Symbol::One);
    assert_eq!(m.read_tape(3), Symbol::Blank);
}

#[test]
fn head_walks_left_past_the_initial_window() {
    let mut m = TuringMachine::new();
    assert!(m.add_transition(rule("q0", Symbol::Blank, "q0", Symbol::One, Direction::Left)));
    for _ in 0..60 {
        assert!(m.step());
    }
    assert_eq!(m.head_pos(), -60);
    assert_eq!(m.step_count(), 60);
    assert_eq!(m.status(), RunStatus::Idle);
    assert_eq!(m.read_tape(-59), Symbol::One);
    assert_eq!(m.read_tape(0), Symbol::One);
    assert_eq!(m.read_tape(-60), Symbol::Blank);
}

#[test]
fn set_running_and_set_idle_drive_the_status() {
    let mut m = TuringMachine::new();
    assert_eq!(m.status(), RunStatus::Idle);
    m.set_running();
    assert_eq!(m.status(), RunStatus::Running);
    m.set_idle();
    assert_eq!(m.status(), RunStatus::Idle);
    m.set_idle();
    assert_eq!(m.status(), RunStatus::Idle);
    // A terminal machine cannot be marked running again.
    m.step();
    assert_eq!(m.status(), RunStatus::Rejected);
    m.set_running();
    assert_eq!(m.status(), RunStatus::Rejected);
    m.set_idle();
    assert_eq!(m.status(), RunStatus::Rejected);
}

#[test]
fn set_speed_clamps_to_the_allowed_range() {
    let mut m = TuringMachine::new();
    m.set_speed(10);
    assert_eq!(m.speed_ms(), 50);
    m.set_speed(5000);
    assert_eq!(m.speed_ms(), 2000);
    m.set_speed(700);
    assert_eq!(m.speed_ms(), 700);
    m.set_speed(50);
    assert_eq!(m.speed_ms(), 50);
    m.set_speed(2000);
    assert_eq!(m.speed_ms(), 2000);
}

#[test]
fn tape_window_lists_positions_symbols_and_head() {
    let mut m = TuringMachine::new();
    m.write_tape(-1, Symbol::Zero);
    m.write_tape(1, Symbol::One);
    let w = m.tape_window(0, 5);
    assert_eq!(w.len(), 5);
    assert_eq!(w[0], (-2, Symbol::Blank, false));
    assert_eq!(w[1], (-1, Symbol::Zero, false));
    assert_eq!(w[2], (0, Symbol::Blank, true));
    assert_eq!(w[3], (1, Symbol::One, false));
    assert_eq!(w[4], (2, Symbol::Blank, false));
}

#[test]
fn tape_window_far_from_head_grows_without_changing_symbols() {
    let mut m = TuringMachine::new();
    m.write_tape(0, Symbol::One);
    let w = m.tape_window(-400, 3);
    assert_eq!(w.len(), 3);
    assert_eq!(w[0], (-401, Symbol::Blank, false));
    assert_eq!(m.read_tape(0), Symbol::One);
    assert_eq!(m.head_pos(), 0);
}

#[test]
fn tape_window_of_width_zero_is_empty() {
    let mut m = TuringMachine::new();
    let w = m.tape_window(0, 0);
    assert!(w.is_empty());
}

#[test]
fn update_transition_replaces_unconditionally() {
    let mut m = TuringMachine::new();
    assert!(m.add_transition(rule("q0", Symbol::Blank, "qa", Symbol::Blank, Direction::Right)));
    assert!(m.add_transition(rule("q1", Symbol::One, "qr", Symbol::One, Direction::Left)));
    m.update_transition(1, rule("q2", Symbol::Zero, "q3", Symbol::One, Direction::Right));
    assert_eq!(m.transition_count(), 2);
    assert_eq!(m.transition(1).current_state, "q2");
    assert_eq!(m.transition(1).new_state, "q3");
    assert_eq!(m.transition(0).current_state, "q0");
}

#[test]
fn delete_transition_shifts_later_positions_down() {
    let mut m = TuringMachine::new();
    assert!(m.add_transition(rule("q0", Symbol::Blank, "qa", Symbol::Blank, Direction::Right)));
    assert!(m.add_transition(rule("q1", Symbol::One, "qr", Symbol::One, Direction::Left)));
    assert!(m.add_transition(rule("q2", Symbol::Zero, "q0", Symbol::Zero, Direction::Right)));
    m.delete_transition(1);
    assert_eq!(m.transition_count(), 2);
    assert_eq!(m.transition(0).current_state, "q0");
    assert_eq!(m.transition(1).current_state, "q2");
}

#[test]
fn toggle_transition_breakpoint_flips_only_the_flag() {
    let mut m = TuringMachine::new();
    assert!(m.add_transition(rule("q0", Symbol::Blank, "qa", Symbol::One, Direction::Right)));
    assert!(!m.transition(0).has_breakpoint);
    m.toggle_transition_breakpoint(0);
    assert!(m.transition(0).has_breakpoint);
    assert_eq!(m.transition(0).current_state, "q0");
    assert_eq!(m.transition(0).new_state, "qa");
    assert_eq!(m.transition(0).write_symbol, Symbol::One);
    m.toggle_transition_breakpoint(0);
    assert!(!m.transition(0).has_breakpoint);
}

#[test]
fn toggle_state_breakpoint_twice_removes_it() {
    let mut m = TuringMachine::new();
    let name = "loop".to_owned();
    assert!(!m.has_state_breakpoint(&name));
    m.toggle_state_breakpoint(&name);
    assert!(m.has_state_breakpoint(&name));
    assert_eq!(m.state_breakpoint_names().len(), 1);
    assert_eq!(m.state_breakpoint_names()[0], "loop");
    m.toggle_state_breakpoint(&name);
    assert!(!m.has_state_breakpoint(&name));
    assert!(m.state_breakpoint_names().is_empty());
}

#[test]
fn find_transition_returns_the_first_match() {
    let mut m = TuringMachine::new();
    assert!(m.add_transition(rule("q0", Symbol::Blank, "qa", Symbol::Blank, Direction::Right)));
    assert!(m.add_transition(rule("q0", Symbol::One, "qr", Symbol::One, Direction::Left)));
    assert_eq!(m.find_transition(&"q0".to_owned(), Symbol::Blank), Some(0));
    assert_eq!(m.find_transition(&"q0".to_owned(), Symbol::One), Some(1));
    assert_eq!(m.find_transition(&"q0".to_owned(), Symbol::Zero), None);
    assert_eq!(m.find_transition(&"q9".to_owned(), Symbol::Blank), None);
}
