//! Input events as the controller reads them.

use vstd::prelude::*;

verus! {

/// The key of a key press.
#[derive(Debug, Clone, Copy, PartialEq, Eq, Structural)]
pub enum KeyCode {
    Backspace,
    Enter,
    Left,
    Right,
    Up,
    Down,
    Tab,
    BackTab,
    Esc,
    Char(char),
    /// Any key that the controller gives no meaning to.
    Other,
}

/// The modifier keys held during a key press, as far as the controller
/// reads them.
#[derive(Debug, Clone, Copy, PartialEq, Eq, Structural)]
pub struct KeyModifiers {
    pub shift: bool,
    pub control: bool,
}

/// A key press.
#[derive(Debug, Clone, Copy, PartialEq, Eq, Structural)]
pub struct KeyEvent {
    pub code: KeyCode,
    pub modifiers: KeyModifiers,
}

impl KeyEvent {
    /// A key pressed with no modifier held.
    pub fn plain(code: KeyCode) -> (r: KeyEvent)
        ensures
            r == (KeyEvent { code, modifiers: KeyModifiers { shift: false, control: false } }),
    {
        KeyEvent { code, modifiers: KeyModifiers { shift: false, control: false } }
    }
}

/// What the terminal reports between two frames.
#[derive(Debug, Clone)]
pub enum Event {
    Key(KeyEvent),
    /// Text pasted in one piece.
    Paste(String),
    /// Anything else, such as a resize.
    Other,
}

/// An event over plain values.
pub enum EventView {
    Key(KeyEvent),
    Paste(Seq<char>),
    Other,
}

impl View for Event {
    type V = EventView;

    open spec fn view(&self) -> EventView {
        match *self {
            Event::Key(key) => EventView::Key(key),
            Event::Paste(text) => EventView::Paste(text@),
            Event::Other => EventView::Other,
        }
    }
}

} // verus!
