//! What the controller asks of its surroundings: writes to the record
//! store, work on terminal sessions, a run of the assistant.

use crate::db::{opt_text, Status};
use vstd::prelude::*;

verus! {

/// One write to the record store.
#[derive(Debug, Clone)]
pub enum StoreWrite {
    /// Add a session with the status `Planned`.
    CreateSession { project_id: i64, name: String },
    UpdateSessionName { session_id: i64, name: String },
    UpdateSessionStatus { session_id: i64, status: Status },
    /// Remove a session and its field values.
    DeleteSession { session_id: i64 },
    /// Record the terminal session of a session.
    SetTmuxSession { session_id: i64, tmux_name: String },
    /// Forget the terminal session of a session.
    ClearTmuxSession { session_id: i64 },
    /// Set the value of a field for a session, whether one was set before or
    /// not.
    SetSessionFieldValue { session_id: i64, field_id: i64, value: String },
    /// Add a field behind the last one.
    CreateField { project_id: i64, name: String, description: String },
    UpdateField { field_id: i64, name: String, description: String },
    /// Remove a field and its values.
    DeleteField { field_id: i64 },
    /// Let a field trade places with the one before it.
    MoveFieldUp { project_id: i64, field_id: i64 },
    /// Let a field trade places with the one after it.
    MoveFieldDown { project_id: i64, field_id: i64 },
    /// Flip whether a field is shown on the cards.
    ToggleFieldVisibility { field_id: i64 },
}

/// A write over plain values.
pub enum StoreWriteView {
    CreateSession { project_id: i64, name: Seq<char> },
    UpdateSessionName { session_id: i64, name: Seq<char> },
    UpdateSessionStatus { session_id: i64, status: Status },
    DeleteSession { session_id: i64 },
    SetTmuxSession { session_id: i64, tmux_name: Seq<char> },
    ClearTmuxSession { session_id: i64 },
    SetSessionFieldValue { session_id: i64, field_id: i64, value: Seq<char> },
    CreateField { project_id: i64, name: Seq<char>, description: Seq<char> },
    UpdateField { field_id: i64, name: Seq<char>, description: Seq<char> },
    DeleteField { field_id: i64 },
    MoveFieldUp { project_id: i64, field_id: i64 },
    MoveFieldDown { project_id: i64, field_id: i64 },
    ToggleFieldVisibility { field_id: i64 },
}

impl View for StoreWrite {
    type V = StoreWriteView;

    open spec fn view(&self) -> StoreWriteView {
        match *self {
            StoreWrite::CreateSession { project_id, name } => StoreWriteView::CreateSession {
                project_id,
                name: name@,
            },
            StoreWrite::UpdateSessionName { session_id, name } => StoreWriteView::UpdateSessionName {
                session_id,
                name: name@,
            },
            StoreWrite::UpdateSessionStatus {
                session_id,
                status,
            } => StoreWriteView::UpdateSessionStatus { session_id, status },
            StoreWrite::DeleteSession { session_id } => StoreWriteView::DeleteSession { session_id },
            StoreWrite::SetTmuxSession { session_id, tmux_name } => StoreWriteView::SetTmuxSession {
                session_id,
                tmux_name: tmux_name@,
            },
            StoreWrite::ClearTmuxSession { session_id } => StoreWriteView::ClearTmuxSession {
                session_id,
            },
            StoreWrite::SetSessionFieldValue {
                session_id,
                field_id,
                value,
            } => StoreWriteView::SetSessionFieldValue { session_id, field_id, value: value@ },
            StoreWrite::CreateField { project_id, name, description } => StoreWriteView::CreateField {
                project_id,
                name: name@,
                description: description@,
            },
            StoreWrite::UpdateField { field_id, name, description } => StoreWriteView::UpdateField {
                field_id,
                name: name@,
                description: description@,
            },
            StoreWrite::DeleteField { field_id } => StoreWriteView::DeleteField { field_id },
            StoreWrite::MoveFieldUp { project_id, field_id } => StoreWriteView::MoveFieldUp {
                project_id,
                field_id,
            },
            StoreWrite::MoveFieldDown { project_id, field_id } => StoreWriteView::MoveFieldDown {
                project_id,
                field_id,
            },
            StoreWrite::ToggleFieldVisibility {
                field_id,
            } => StoreWriteView::ToggleFieldVisibility { field_id },
        }
    }
}

impl DeepView for StoreWrite {
    type V = StoreWriteView;

    open spec fn deep_view(&self) -> StoreWriteView {
        self@
    }
}

/// What to read again from the record store after the writes.
#[derive(Debug, Clone, Copy, PartialEq, Eq, Structural)]
pub enum Reload {
    /// The sessions of the project, then the terminal sessions.
    Sessions,
    /// The fields of the project.
    Fields,
}

/// Views of pairs of texts.
pub open spec fn pairs_view(pairs: Seq<(String, String)>) -> Seq<(Seq<char>, Seq<char>)> {
    Seq::new(pairs.len(), |i: int| (pairs[i].0@, pairs[i].1@))
}

/// A run of the assistant that the controller asks for.
#[derive(Debug, Clone)]
pub struct AiRequest {
    /// What the user asked, and the session's name.
    pub prompt: String,
    /// Name and description of each field to fill, in order.
    pub fields: Vec<(String, String)>,
    /// The terminal session whose pane gives the context, if the session
    /// has one.
    pub terminal: Option<String>,
    /// How many values are wanted back.
    pub num_fields: usize,
}

/// A run of the assistant over plain values.
pub struct AiRequestView {
    pub prompt: Seq<char>,
    pub fields: Seq<(Seq<char>, Seq<char>)>,
    pub terminal: Option<Seq<char>>,
    pub num_fields: int,
}

impl View for AiRequest {
    type V = AiRequestView;

    open spec fn view(&self) -> AiRequestView {
        AiRequestView {
            prompt: self.prompt@,
            fields: pairs_view(self.fields@),
            terminal: opt_text(self.terminal),
            num_fields: self.num_fields as int,
        }
    }
}

/// What the surroundings must do after an event was handled.
#[derive(Debug, Clone)]
pub enum AppAction {
    /// Nothing to do.
    Nothing,
    /// Hand the terminal over to the named terminal session.
    AttachTmux(String),
    /// End the terminal session `kill` if there is one, whether that works
    /// or not; apply the writes in their order; then read again what
    /// `reload` names and hand it to the controller.
    Commit { kill: Option<String>, writes: Vec<StoreWrite>, reload: Reload },
    /// Read the value of each field for the session and hand the values to
    /// `App::load_field_values`.
    LoadFieldValues { session_id: i64 },
    /// Open the terminal of a session: attach to the one it has on record
    /// if that still lives, else make one, named `base_name` unless that
    /// name is taken.
    OpenTerminal { session_id: i64, stored: Option<String>, base_name: String },
    /// End the terminal sessions of the project that no session refers to.
    CleanupOrphans,
    /// Run the assistant and hand what comes back to `App::handle_events`.
    RunAiFill(AiRequest),
}

/// What the surroundings must do, over plain values.
pub enum AppActionView {
    Nothing,
    AttachTmux(Seq<char>),
    Commit { kill: Option<Seq<char>>, writes: Seq<StoreWriteView>, reload: Reload },
    LoadFieldValues { session_id: i64 },
    OpenTerminal { session_id: i64, stored: Option<Seq<char>>, base_name: Seq<char> },
    CleanupOrphans,
    RunAiFill(AiRequestView),
}

impl View for AppAction {
    type V = AppActionView;

    open spec fn view(&self) -> AppActionView {
        match *self {
            AppAction::Nothing => AppActionView::Nothing,
            AppAction::AttachTmux(name) => AppActionView::AttachTmux(name@),
            AppAction::Commit { kill, writes, reload } => AppActionView::Commit {
                kill: opt_text(kill),
                writes: writes.deep_view(),
                reload,
            },
            AppAction::LoadFieldValues { session_id } => AppActionView::LoadFieldValues {
                session_id,
            },
            AppAction::OpenTerminal { session_id, stored, base_name } => AppActionView::OpenTerminal {
                session_id,
                stored: opt_text(stored),
                base_name: base_name@,
            },
            AppAction::CleanupOrphans => AppActionView::CleanupOrphans,
            AppAction::RunAiFill(request) => AppActionView::RunAiFill(request@),
        }
    }
}

} // verus!
