//! What the keyboard and the window report, as plain values.

use vstd::prelude::*;

verus! {

/// The arrow keys that are held down when a frame begins.
#[derive(Clone, Copy, Debug, PartialEq, Eq, Structural)]
pub struct Keys {
    pub up: bool,
    pub down: bool,
    pub left: bool,
    pub right: bool,
}

/// A key named by an event.
#[derive(Clone, Copy, Debug, PartialEq, Eq, Structural)]
pub enum Key {
    Escape,
    Other,
}

/// An event taken from the window's queue.
#[derive(Clone, Copy, Debug, PartialEq, Eq, Structural)]
pub enum Signal {
    /// The window was asked to close.
    Close,
    /// A key went down.
    KeyDown { key: Key },
    /// Anything else.
    Other,
}

impl Signal {
    /// Whether the event ends the frame loop: a request to close the
    /// window, or Escape going down.
    pub open spec fn spec_ends_loop(self) -> bool {
        self == Signal::Close || self == (Signal::KeyDown { key: Key::Escape })
    }

    /// Whether the event ends the frame loop.
    #[verifier::when_used_as_spec(spec_ends_loop)]
    pub fn ends_loop(self) -> (r: bool)
        ensures
            r == self.spec_ends_loop(),
    {
        match self {
            Signal::Close => true,
            Signal::KeyDown { key: Key::Escape } => true,
            _ => false,
        }
    }
}

} // verus!
