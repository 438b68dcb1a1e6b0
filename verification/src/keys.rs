//! Keyboard events as the application sees them, and the fixed table that
//! maps a key event to a state-machine transition.
//!
//! The mapping is: `<Left>` decrements, `<Right>` increments, `q` or `Q`
//! quits. Only key-press events act; repeats and releases are filtered out,
//! so one physical keypress causes at most one transition.

use vstd::prelude::*;

verus! {

/// The keys the application distinguishes. Everything else is `Other`.
#[derive(Debug, Clone, Copy, PartialEq, Eq, Structural)]
pub enum KeyCode {
    Left,
    Right,
    Char(char),
    Other,
}

/// Whether a key event reports the key going down, being held, or going up.
#[derive(Debug, Clone, Copy, PartialEq, Eq, Structural)]
pub enum KeyEventKind {
    Press,
    Repeat,
    Release,
}

/// One keyboard event: which key, and whether it was pressed or released.
#[derive(Debug, Clone, Copy, PartialEq, Eq, Structural)]
pub struct KeyEvent {
    pub code: KeyCode,
    pub kind: KeyEventKind,
}

/// The state transitions the application state machine can take.
#[derive(Debug, Clone, Copy, PartialEq, Eq, Structural)]
pub enum Transition {
    Increment,
    Decrement,
    Finish,
    NoOp,
}

/// The key-mapping table: which transition a key event asks for.
/// Non-press events always map to `NoOp`.
pub open spec fn spec_transition(event: KeyEvent) -> Transition {
    if event.kind != KeyEventKind::Press {
        Transition::NoOp
    } else {
        match event.code {
            KeyCode::Right => Transition::Increment,
            KeyCode::Left => Transition::Decrement,
            KeyCode::Char(c) => if c == 'q' || c == 'Q' {
                Transition::Finish
            } else {
                Transition::NoOp
            },
            KeyCode::Other => Transition::NoOp,
        }
    }
}

/// Looks up the transition a key event asks for in the key-mapping table.
pub fn transition_for(event: KeyEvent) -> (t: Transition)
    ensures
        t == spec_transition(event),
{
    if !matches!(event.kind, KeyEventKind::Press) {
        return Transition::NoOp;
    }
    match event.code {
        KeyCode::Right => Transition::Increment,
        KeyCode::Left => Transition::Decrement,
        KeyCode::Char(c) => {
            if c == 'q' || c == 'Q' {
                Transition::Finish
            } else {
                Transition::NoOp
            }
        },
        KeyCode::Other => Transition::NoOp,
    }
}

} // verus!
