//! The events that one iteration of the render/poll/handle loop can observe,
//! as plain values, together with the classification of key codes that the
//! controller dispatches on.

use vstd::prelude::*;

verus! {

/// A key code, reduced to what the application distinguishes: the two arrow
/// keys, escape, a printable character, or anything else.
#[derive(Clone, Copy, Debug, PartialEq, Eq, Structural)]
pub enum Key {
    Up,
    Down,
    Esc,
    Character(char),
    Other,
}

/// Whether a key event is a press, a release, or an auto-repeat. Only
/// presses are acted on; platforms that do not distinguish them deliver
/// presses only.
#[derive(Clone, Copy, Debug, PartialEq, Eq, Structural)]
pub enum KeyKind {
    Press,
    Release,
    Repeat,
}

/// What one bounded poll of the terminal yields: nothing within the timeout,
/// a key event, some other terminal event (resize, focus, mouse, paste), or
/// a failure of polling, reading or rendering, which is fatal.
#[derive(Clone, Copy, Debug, PartialEq, Eq, Structural)]
pub enum Input {
    Timeout,
    Key(KeyKind, Key),
    OtherEvent,
    Failure,
}

/// The quit keys: 'q' or escape.
pub open spec fn is_quit_key(k: Key) -> bool {
    k == Key::Character('q') || k == Key::Esc
}

/// The increment keys: the up arrow or 'k'.
pub open spec fn is_up_key(k: Key) -> bool {
    k == Key::Up || k == Key::Character('k')
}

/// The decrement keys: the down arrow or 'j'.
pub open spec fn is_down_key(k: Key) -> bool {
    k == Key::Down || k == Key::Character('j')
}

/// An input that presses a quit key.
pub open spec fn is_quit_press(inp: Input) -> bool {
    match inp {
        Input::Key(kind, k) => kind == KeyKind::Press && is_quit_key(k),
        _ => false,
    }
}

/// An input that presses an increment key.
pub open spec fn is_up_press(inp: Input) -> bool {
    match inp {
        Input::Key(kind, k) => kind == KeyKind::Press && is_up_key(k),
        _ => false,
    }
}

/// An input that presses a decrement key.
pub open spec fn is_down_press(inp: Input) -> bool {
    match inp {
        Input::Key(kind, k) => kind == KeyKind::Press && is_down_key(k),
        _ => false,
    }
}

} // verus!
