use counter_app::app::{App, RunningState};
use counter_app::keys::{KeyCode, KeyEvent, KeyEventKind, Transition};

fn press(code: KeyCode) -> KeyEvent {
    KeyEvent {
        code,
        kind: KeyEventKind::Press,
    }
}

#[test]
fn default_state_is_zero_and_running() {
    let app = App::default();
    assert_eq!(app.counter, 0);
    assert_eq!(app.running_state, RunningState::Running);
}

#[test]
fn counter_is_net_sum_of_calls() {
    let mut app = App::default();
    app.increment();
    app.increment();
    app.increment();
    app.decrement();
    app.increment();
    app.decrement();
    // 4 increments and 2 decrements from 0
    assert_eq!(app.counter, 2);
    app.decrement();
    app.decrement();
    app.decrement();
    // now 4 increments and 5 decrements: no floor at zero
    assert_eq!(app.counter, -1);
}

#[test]
fn finish_is_idempotent() {
    let mut app = App::default();
    app.increment();
    app.finish();
    assert_eq!(app.running_state, RunningState::Finished);
    app.finish();
    app.finish();
    assert_eq!(app.running_state, RunningState::Finished);
    assert_eq!(app.counter, 1);
}

#[test]
fn is_finished_false_before_finish_true_after() {
    let mut app = App::default();
    assert!(!app.is_finished());
    app.increment();
    app.decrement();
    assert!(!app.is_finished());
    app.finish();
    assert!(app.is_finished());
}

#[test]
fn increment_key_press_increments() {
    let mut app = App::default();
    app.handle_key_event(press(KeyCode::Right));
    assert_eq!(app.counter, 1);
    assert_eq!(app.running_state, RunningState::Running);
}

#[test]
fn decrement_key_press_decrements() {
    let mut app = App {
        counter: 5,
        running_state: RunningState::Running,
    };
    app.handle_key_event(press(KeyCode::Left));
    assert_eq!(app.counter, 4);
}

#[test]
fn quit_key_press_finishes() {
    let mut app = App::default();
    app.handle_key_event(press(KeyCode::Char('q')));
    assert_eq!(app.running_state, RunningState::Finished);
    assert_eq!(app.counter, 0);
}

#[test]
fn uppercase_quit_key_press_finishes() {
    let mut app = App::default();
    app.handle_key_event(press(KeyCode::Char('Q')));
    assert_eq!(app.running_state, RunningState::Finished);
}

#[test]
fn key_release_changes_nothing() {
    let mut app = App::default();
    app.handle_key_event(KeyEvent {
        code: KeyCode::Right,
        kind: KeyEventKind::Release,
    });
    assert_eq!(app.counter, 0);
    assert_eq!(app.running_state, RunningState::Running);
}

#[test]
fn key_repeat_changes_nothing() {
    let mut app = App::default();
    app.handle_key_event(KeyEvent {
        code: KeyCode::Right,
        kind: KeyEventKind::Repeat,
    });
    assert_eq!(app.counter, 0);
}

#[test]
fn unbound_keys_change_nothing() {
    let mut app = App::default();
    app.handle_key_event(press(KeyCode::Char('x')));
    app.handle_key_event(press(KeyCode::Other));
    assert_eq!(app.counter, 0);
    assert_eq!(app.running_state, RunningState::Running);
}

#[test]
fn finished_state_absorbs_later_transitions() {
    let mut app = App::default();
    app.handle_key_event(press(KeyCode::Right));
    app.handle_key_event(press(KeyCode::Char('q')));
    app.handle_key_event(press(KeyCode::Right));
    app.handle_key_event(press(KeyCode::Left));
    assert_eq!(app.counter, 1);
    assert_eq!(app.running_state, RunningState::Finished);
}

#[test]
fn key_mapping_table() {
    assert_eq!(counter_app::keys::transition_for(press(KeyCode::Right)), Transition::Increment);
    assert_eq!(counter_app::keys::transition_for(press(KeyCode::Left)), Transition::Decrement);
    assert_eq!(counter_app::keys::transition_for(press(KeyCode::Char('q'))), Transition::Finish);
    assert_eq!(counter_app::keys::transition_for(press(KeyCode::Char('Q'))), Transition::Finish);
    assert_eq!(counter_app::keys::transition_for(press(KeyCode::Char('j'))), Transition::NoOp);
    assert_eq!(counter_app::keys::transition_for(press(KeyCode::Other)), Transition::NoOp);
    assert_eq!(
        counter_app::keys::transition_for(KeyEvent {
            code: KeyCode::Char('q'),
            kind: KeyEventKind::Release,
        }),
        Transition::NoOp
    );
}

#[test]
fn apply_takes_single_transitions() {
    let mut app = App::default();
    app.apply(Transition::Increment);
    app.apply(Transition::Increment);
    app.apply(Transition::NoOp);
    app.apply(Transition::Decrement);
    assert_eq!(app.counter, 1);
    app.apply(Transition::Finish);
    assert!(app.is_finished());
    app.apply(Transition::Increment);
    assert_eq!(app.counter, 1);
}
