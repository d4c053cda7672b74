//! Input and window events, as far as playback cares about them.

use vstd::prelude::*;

verus! {

/// An event from the window system.
#[derive(Clone, Copy, Debug, PartialEq, Eq, Structural)]
pub enum InputEvent {
    /// The user asked to close the player.
    Quit,
    /// A key went down; `is_escape` tells whether it was the escape key.
    KeyDown { is_escape: bool },
    /// The output window changed size.
    WindowResized,
    /// Anything else.
    Other,
}

/// Whether the event ends playback.
pub open spec fn is_quit(e: InputEvent) -> bool {
    match e {
        InputEvent::Quit => true,
        InputEvent::KeyDown { is_escape } => is_escape,
        _ => false,
    }
}

/// Whether any of the events ends playback.
pub open spec fn has_quit(events: Seq<InputEvent>) -> bool {
    exists|i: int| 0 <= i < events.len() && is_quit(#[trigger] events[i])
}

/// Whether a resize comes before the first event that ends playback.
pub open spec fn resized_before_quit(events: Seq<InputEvent>) -> bool {
    exists|i: int|
        0 <= i < events.len() && #[trigger] events[i] == InputEvent::WindowResized && forall|
            j: int,
        |
            0 <= j < i ==> !is_quit(#[trigger] events[j])
}

impl InputEvent {
    /// Whether this event ends playback.
    pub fn is_quit(&self) -> (r: bool)
        ensures
            r == is_quit(*self),
    {
        match self {
            InputEvent::Quit => true,
            InputEvent::KeyDown { is_escape } => *is_escape,
            _ => false,
        }
    }
}

} // verus!
