//! The window events the application distinguishes, and which of them are
//! requests to exit.

use vstd::prelude::*;

verus! {

/// The one key the application recognizes; every other key is `Other`.
#[derive(Clone, Copy, PartialEq, Eq, Structural, Debug)]
pub enum Key {
    Escape,
    Other,
}

/// A window event, reduced to what the event loop distinguishes: a
/// window-close request, a key press (whose keycode the windowing layer may
/// not know), and everything else.
#[derive(Clone, Copy, PartialEq, Eq, Structural, Debug)]
pub enum AppEvent {
    Quit,
    KeyDown { keycode: Option<Key> },
    Other,
}

/// The events on which the event loop exits: a window-close request, or a
/// press of the Escape key. No other event ends the loop.
pub open spec fn requests_exit(e: AppEvent) -> bool {
    ||| e is Quit
    ||| e matches AppEvent::KeyDown { keycode: Some(k) } && k is Escape
}

/// Decides whether an event ends the event loop.
pub fn is_exit_request(e: &AppEvent) -> (r: bool)
    ensures
        r == requests_exit(*e),
{
    match e {
        AppEvent::Quit => true,
        AppEvent::KeyDown { keycode: Some(Key::Escape) } => true,
        _ => false,
    }
}

} // verus!
