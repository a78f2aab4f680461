//! Keyboard input as the core sees it, and what handling a key asks of the world
//! outside.

use vstd::prelude::*;

verus! {

/// What keystrokes currently mean.
#[derive(Clone, Copy, Debug, PartialEq, Eq, Structural)]
pub enum InputMode {
    /// Keys move the cursor and start actions.
    Normal,
    /// Keys edit the search query.
    Editing,
    /// The detail inspector is open.
    Details,
}

/// The keys the core tells apart. Everything else is `Other`.
#[derive(Clone, Copy, Debug, PartialEq, Eq, Structural)]
pub enum KeyCode {
    /// A key that types a character.
    Char(char),
    /// Arrow up.
    Up,
    /// Arrow down.
    Down,
    /// The confirm key.
    Enter,
    /// Escape.
    Esc,
    Backspace,
    Delete,
    /// Any key that has no meaning here.
    Other,
}

/// Whether a key went down, is held, or came up. Only `Press` is acted on.
#[derive(Clone, Copy, Debug, PartialEq, Eq, Structural)]
pub enum KeyEventKind {
    Press,
    Repeat,
    Release,
}

/// What the caller has to do after a key was handled.
#[derive(Clone, Copy, Debug, PartialEq, Eq, Structural)]
pub enum Action {
    /// Nothing at all.
    Nothing,
    /// Ask the host to terminate the process with this identifier. Whether that works
    /// is of no concern here: the next tick shows what became of it.
    Terminate(u32),
}

} // verus!
