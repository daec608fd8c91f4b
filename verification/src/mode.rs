//! The screens and input modes of the controller.

use vstd::prelude::*;

verus! {

/// Which screen is shown.
#[derive(Debug, Clone, Copy, PartialEq, Eq, Structural)]
pub enum View {
    Kanban,
    Settings,
}

impl Default for View {
    /// The board.
    fn default() -> (r: Self)
        ensures
            r == View::Kanban,
    {
        View::Kanban
    }
}

/// What the keys mean at the moment.
#[derive(Debug, Clone, Copy, PartialEq, Eq, Structural)]
pub enum InputMode {
    Normal,
    NewSession,
    EditSession,
    MoveSession,
    ConfirmDelete,
    ConfirmDeleteField,
    NewFieldName,
    NewFieldDesc,
    EditFieldName,
    EditFieldDesc,
}

/// How the rows of the session editor are filled: by hand or by the
/// assistant.
#[derive(Debug, Clone, Copy, PartialEq, Eq, Structural)]
pub enum EditMode {
    Manual,
    AI,
}

impl Default for EditMode {
    /// By hand.
    fn default() -> (r: Self)
        ensures
            r == EditMode::Manual,
    {
        EditMode::Manual
    }
}

} // verus!
