//! The controller as a transition system over plain values: what each
//! event makes of the state, and what it asks of the surroundings.

use crate::action::{AiRequestView, AppActionView, Reload, StoreWriteView};
use crate::ai::fitted;
use crate::db::{FieldView, ProjectView, SessionView, Status};
use crate::key::{EventView, KeyCode, KeyEvent};
use crate::mode;
use crate::mode::{EditMode, InputMode};
use crate::text::int_decimal;
use crate::tmux::{session_name_of, shows_prompt};
use vstd::prelude::*;

verus! {

/// The state of the controller.
pub struct AppView {
    pub should_quit: bool,
    pub project: ProjectView,
    pub sessions: Seq<SessionView>,
    pub selected_column: int,
    pub selected_row: int,
    pub input_mode: InputMode,
    pub input_buffer: Seq<char>,
    pub active_tmux_sessions: Seq<Seq<char>>,
    pub sessions_waiting_input: Seq<Seq<char>>,
    pub editing_session_id: Option<i64>,
    pub moving_session_id: Option<i64>,
    pub deleting_session_id: Option<i64>,
    pub peek_active: bool,
    pub edit_row: int,
    pub edit_session_name: Seq<char>,
    pub edit_field_values: Seq<Seq<char>>,
    pub edit_mode: EditMode,
    pub ai_input: Seq<char>,
    pub ai_running: bool,
    pub ai_error: Option<Seq<char>>,
    pub view: mode::View,
    pub fields: Seq<FieldView>,
    pub selected_field: int,
    pub editing_field_id: Option<i64>,
    pub deleting_field_id: Option<i64>,
    pub new_field_name: Seq<char>,
    pub new_field_desc: Seq<char>,
    pub status_message: Option<Seq<char>>,
}

/// The state after an event, and what the surroundings must do.
pub struct Outcome {
    pub state: AppView,
    pub action: AppActionView,
}

/// The given state, and nothing asked of the surroundings.
pub open spec fn quiet(s: AppView) -> Outcome {
    Outcome { state: s, action: AppActionView::Nothing }
}

/// Writes to the store, then a reload.
pub open spec fn commit(s: AppView, writes: Seq<StoreWriteView>, reload: Reload) -> Outcome {
    Outcome { state: s, action: AppActionView::Commit { kill: None, writes, reload } }
}

/// The sessions with the given status, in their order.
pub open spec fn with_status(sessions: Seq<SessionView>, status: Status) -> Seq<SessionView>
    decreases sessions.len(),
{
    if sessions.len() == 0 {
        Seq::empty()
    } else if sessions.last().status == status {
        with_status(sessions.drop_last(), status).push(sessions.last())
    } else {
        with_status(sessions.drop_last(), status)
    }
}

/// The sessions of the selected column.
pub open spec fn column(s: AppView) -> Seq<SessionView> {
    with_status(s.sessions, Status::at(s.selected_column))
}

/// The selected session, if the selected column is one of the four and has
/// a session at the selected row.
pub open spec fn selected(s: AppView) -> Option<SessionView> {
    if 0 <= s.selected_column < 4 && 0 <= s.selected_row < column(s).len() {
        Some(column(s)[s.selected_row])
    } else {
        None
    }
}

/// An index brought into a list of `count` entries: the last entry where it
/// lies behind the list, 0 where the list is empty.
pub open spec fn clamped(index: int, count: int) -> int {
    if count <= 0 || index < 0 {
        0
    } else if index >= count {
        count - 1
    } else {
        index
    }
}

/// The state with the selected row brought into the selected column.
pub open spec fn row_clamped(s: AppView) -> AppView {
    AppView { selected_row: clamped(s.selected_row, column(s).len() as int), ..s }
}

/// The state is in order. The selection lies within what is shown: the
/// column is one of the four, the row lies in the column and the selected
/// field among the fields (each is 0 where there is nothing to select). And
/// no terminal session is named twice among the live ones or among the
/// waiting ones.
pub open spec fn wf(s: AppView) -> bool {
    &&& 0 <= s.selected_column < 4
    &&& s.selected_row == clamped(s.selected_row, column(s).len() as int)
    &&& s.selected_field == clamped(s.selected_field, s.fields.len() as int)
    &&& 0 <= s.edit_row
    &&& s.active_tmux_sessions.no_duplicates()
    &&& s.sessions_waiting_input.no_duplicates()
}

/// The text without its last character.
pub open spec fn popped(t: Seq<char>) -> Seq<char> {
    if t.len() > 0 {
        t.drop_last()
    } else {
        t
    }
}

/// The first session with the given id.
pub open spec fn find_session(sessions: Seq<SessionView>, id: i64) -> Option<SessionView>
    decreases sessions.len(),
{
    if sessions.len() == 0 {
        None
    } else if sessions[0].id == id {
        Some(sessions[0])
    } else {
        find_session(sessions.drop_first(), id)
    }
}

/// The terminal session on record for the session with the given id.
pub open spec fn terminal_of(sessions: Seq<SessionView>, id: Option<i64>) -> Option<Seq<char>> {
    match id {
        Some(i) => match find_session(sessions, i) {
            Some(x) => x.tmux_window,
            None => None,
        },
        None => None,
    }
}

/// `n` empty texts.
pub open spec fn empty_values(n: int) -> Seq<Seq<char>> {
    Seq::new(n as nat, |i: int| Seq::<char>::empty())
}

/// The row after `row` among `rows + 1` rows, going round.
pub open spec fn next_row(row: int, rows: int) -> int {
    if row < rows {
        row + 1
    } else {
        0
    }
}

/// The row before `row` among `rows + 1` rows, going round.
pub open spec fn prev_row(row: int, rows: int) -> int {
    if row > 0 {
        row - 1
    } else {
        rows
    }
}

/// The active buffer saved into the row under the cursor.
pub open spec fn row_saved(s: AppView) -> AppView {
    if s.edit_row == 0 {
        AppView { edit_session_name: s.input_buffer, ..s }
    } else if 0 <= s.edit_row - 1 < s.edit_field_values.len() {
        AppView {
            edit_field_values: s.edit_field_values.update(s.edit_row - 1, s.input_buffer),
            ..s
        }
    } else {
        s
    }
}

/// The row under the cursor loaded into the active buffer.
pub open spec fn row_loaded(s: AppView) -> AppView {
    if s.edit_row == 0 {
        AppView { input_buffer: s.edit_session_name, ..s }
    } else if 0 <= s.edit_row - 1 < s.edit_field_values.len() {
        AppView { input_buffer: s.edit_field_values[s.edit_row - 1], ..s }
    } else {
        AppView { input_buffer: Seq::empty(), ..s }
    }
}

/// The session editor closed and its buffers emptied.
pub open spec fn edit_closed(s: AppView) -> AppView {
    AppView {
        input_mode: InputMode::Normal,
        input_buffer: Seq::empty(),
        editing_session_id: None,
        edit_session_name: Seq::empty(),
        edit_field_values: Seq::empty(),
        edit_mode: EditMode::Manual,
        ai_input: Seq::empty(),
        ..s
    }
}

/// The field editor closed and its buffers emptied.
pub open spec fn field_closed(s: AppView) -> AppView {
    AppView {
        input_mode: InputMode::Normal,
        new_field_name: Seq::empty(),
        new_field_desc: Seq::empty(),
        ..s
    }
}

/// The field editor closed, and no field under edit any more.
pub open spec fn field_edit_closed(s: AppView) -> AppView {
    AppView { editing_field_id: None, ..field_closed(s) }
}

/// The writes that set the first `n` edited values, each for its field.
pub open spec fn value_writes(
    fields: Seq<FieldView>,
    values: Seq<Seq<char>>,
    session_id: i64,
    n: int,
) -> Seq<StoreWriteView>
    decreases n,
{
    if n <= 0 {
        Seq::empty()
    } else {
        value_writes(fields, values, session_id, n - 1).push(
            StoreWriteView::SetSessionFieldValue {
                session_id,
                field_id: fields[n - 1].id,
                value: values[n - 1],
            },
        )
    }
}

/// The writes that commit the session editor: the name if it is not empty,
/// then every field row that there is, empty or not.
pub open spec fn edit_writes(s: AppView, session_id: i64) -> Seq<StoreWriteView> {
    let n = if s.fields.len() <= s.edit_field_values.len() {
        s.fields.len() as int
    } else {
        s.edit_field_values.len() as int
    };
    let values = value_writes(s.fields, s.edit_field_values, session_id, n);
    if s.edit_session_name.len() > 0 {
        seq![StoreWriteView::UpdateSessionName { session_id, name: s.edit_session_name }] + values
    } else {
        values
    }
}

/// Commit of the session editor.
pub open spec fn edit_saved(s: AppView) -> Outcome {
    match s.editing_session_id {
        Some(id) => commit(edit_closed(s), edit_writes(s, id), Reload::Sessions),
        None => quiet(edit_closed(s)),
    }
}

/// Name and description of each field.
pub open spec fn field_pairs(fields: Seq<FieldView>) -> Seq<(Seq<char>, Seq<char>)> {
    Seq::new(fields.len(), |i: int| (fields[i].name, fields[i].description))
}

/// Start of a run of the assistant. Without fields there is nothing to fill
/// and nothing happens.
pub open spec fn ai_started(s: AppView) -> Outcome {
    if s.fields.len() == 0 {
        quiet(s)
    } else {
        Outcome {
            state: AppView { ai_running: true, ai_error: None, ..s },
            action: AppActionView::RunAiFill(
                AiRequestView {
                    prompt: s.ai_input + "\nSession name: "@ + s.edit_session_name,
                    fields: field_pairs(s.fields),
                    terminal: terminal_of(s.sessions, s.editing_session_id),
                    num_fields: s.edit_field_values.len() as int,
                },
            ),
        }
    }
}

/// The edited values with the assistant's values laid over them, place by
/// place, as far as both reach.
pub open spec fn overlaid(old_values: Seq<Seq<char>>, values: Seq<Seq<char>>) -> Seq<Seq<char>> {
    Seq::new(
        old_values.len(),
        |i: int|
            if i < values.len() {
                values[i]
            } else {
                old_values[i]
            },
    )
}

/// End of a run of the assistant: its values or its error are taken over,
/// and the editor is back in manual mode on the name row. Without a run in
/// flight nothing happens.
pub open spec fn ai_settled(s: AppView, result: Result<Seq<Seq<char>>, Seq<char>>) -> AppView {
    if !s.ai_running {
        s
    } else {
        let taken = match result {
            Ok(values) => AppView {
                edit_field_values: overlaid(s.edit_field_values, values),
                ai_error: None,
                ..s
            },
            Err(e) => AppView { ai_error: Some(e), ..s },
        };
        AppView {
            edit_mode: EditMode::Manual,
            edit_row: 0,
            input_buffer: taken.edit_session_name,
            ai_input: Seq::empty(),
            ai_running: false,
            ..taken
        }
    }
}

/// Enter on the board: open the terminal of the selected session.
pub open spec fn enter_key(s: AppView) -> Outcome {
    match selected(s) {
        Some(x) => Outcome {
            state: s,
            action: AppActionView::OpenTerminal {
                session_id: x.id,
                stored: x.tmux_window,
                base_name: session_name_of(s.project.id as int, x.id as int),
            },
        },
        None => quiet(s),
    }
}

/// A key on the board.
pub open spec fn normal_key(s: AppView, k: KeyEvent) -> Outcome {
    let c = k.code;
    if c == KeyCode::Char('q') {
        quiet(AppView { should_quit: true, ..s })
    } else if c == KeyCode::Char('c') && k.modifiers.control {
        quiet(AppView { should_quit: true, ..s })
    } else if c == KeyCode::Char('n') {
        quiet(AppView { input_mode: InputMode::NewSession, input_buffer: Seq::empty(), ..s })
    } else if c == KeyCode::Char('h') || c == KeyCode::Left {
        if s.selected_column > 0 {
            quiet(row_clamped(AppView { selected_column: s.selected_column - 1, ..s }))
        } else {
            quiet(s)
        }
    } else if c == KeyCode::Char('l') || c == KeyCode::Right {
        if s.selected_column < 3 {
            quiet(row_clamped(AppView { selected_column: s.selected_column + 1, ..s }))
        } else {
            quiet(s)
        }
    } else if c == KeyCode::Char('j') || c == KeyCode::Down {
        if s.selected_row + 1 < column(s).len() {
            quiet(AppView { selected_row: s.selected_row + 1, ..s })
        } else {
            quiet(s)
        }
    } else if c == KeyCode::Char('k') || c == KeyCode::Up {
        if s.selected_row > 0 {
            quiet(AppView { selected_row: s.selected_row - 1, ..s })
        } else {
            quiet(s)
        }
    } else if c == KeyCode::Char('m') {
        match selected(s) {
            Some(x) => quiet(
                AppView { moving_session_id: Some(x.id), input_mode: InputMode::MoveSession, ..s },
            ),
            None => quiet(s),
        }
    } else if c == KeyCode::Char('d') {
        match selected(s) {
            Some(x) => quiet(
                AppView {
                    deleting_session_id: Some(x.id),
                    input_mode: InputMode::ConfirmDelete,
                    ..s
                },
            ),
            None => quiet(s),
        }
    } else if c == KeyCode::Char('r') {
        commit(s, Seq::empty(), Reload::Sessions)
    } else if c == KeyCode::Char('e') {
        match selected(s) {
            Some(x) => Outcome {
                state: AppView {
                    editing_session_id: Some(x.id),
                    edit_session_name: x.name,
                    edit_row: 0,
                    input_buffer: x.name,
                    edit_field_values: empty_values(s.fields.len() as int),
                    input_mode: InputMode::EditSession,
                    ..s
                },
                action: AppActionView::LoadFieldValues { session_id: x.id },
            },
            None => quiet(s),
        }
    } else if c == KeyCode::Enter {
        enter_key(s)
    } else if c == KeyCode::Char(' ') {
        match selected(s) {
            Some(x) => if x.tmux_window is Some {
                quiet(AppView { peek_active: !s.peek_active, ..s })
            } else {
                quiet(s)
            },
            None => quiet(s),
        }
    } else if c == KeyCode::Char('s') {
        quiet(AppView { view: mode::View::Settings, selected_field: 0, ..s })
    } else if c == KeyCode::Char('x') {
        Outcome { state: s, action: AppActionView::CleanupOrphans }
    } else {
        quiet(s)
    }
}

/// A key while the name of a new session is typed.
pub open spec fn input_key(s: AppView, k: KeyEvent) -> Outcome {
    let closed = AppView { input_mode: InputMode::Normal, input_buffer: Seq::empty(), ..s };
    match k.code {
        KeyCode::Esc => quiet(closed),
        KeyCode::Enter => if s.input_buffer.len() > 0 {
            commit(
                closed,
                seq![
                    StoreWriteView::CreateSession { project_id: s.project.id, name: s.input_buffer },
                ],
                Reload::Sessions,
            )
        } else {
            quiet(closed)
        },
        KeyCode::Backspace => quiet(AppView { input_buffer: popped(s.input_buffer), ..s }),
        KeyCode::Char(c) => quiet(AppView { input_buffer: s.input_buffer.push(c), ..s }),
        _ => quiet(s),
    }
}

/// A key in the session editor while its rows are typed by hand.
pub open spec fn manual_edit_key(s: AppView, k: KeyEvent) -> Outcome {
    let rows = s.fields.len() as int;
    match k.code {
        KeyCode::Tab | KeyCode::Down => {
            let saved = row_saved(s);
            quiet(row_loaded(AppView { edit_row: next_row(s.edit_row, rows), ..saved }))
        },
        KeyCode::BackTab | KeyCode::Up => {
            let saved = row_saved(s);
            quiet(row_loaded(AppView { edit_row: prev_row(s.edit_row, rows), ..saved }))
        },
        KeyCode::Enter => edit_saved(row_saved(s)),
        KeyCode::Backspace => quiet(AppView { input_buffer: popped(s.input_buffer), ..s }),
        KeyCode::Char(c) => quiet(AppView { input_buffer: s.input_buffer.push(c), ..s }),
        _ => quiet(s),
    }
}

/// A key in the session editor while the request to the assistant is typed.
pub open spec fn ai_edit_key(s: AppView, k: KeyEvent) -> Outcome {
    let rows = s.fields.len() as int;
    match k.code {
        KeyCode::Tab | KeyCode::Down => quiet(AppView { edit_row: next_row(s.edit_row, rows), ..s }),
        KeyCode::BackTab | KeyCode::Up => quiet(
            AppView { edit_row: prev_row(s.edit_row, rows), ..s },
        ),
        KeyCode::Enter => if s.ai_input.len() > 0 {
            ai_started(s)
        } else {
            quiet(s)
        },
        KeyCode::Backspace => quiet(AppView { ai_input: popped(s.ai_input), ..s }),
        KeyCode::Char(c) => quiet(AppView { ai_input: s.ai_input.push(c), ..s }),
        _ => quiet(s),
    }
}

/// A key in the session editor.
pub open spec fn edit_session_key(s: AppView, k: KeyEvent) -> Outcome {
    if k.code == KeyCode::Esc {
        quiet(edit_closed(s))
    } else if k.code == KeyCode::BackTab && k.modifiers.shift {
        match s.edit_mode {
            EditMode::Manual => quiet(AppView { edit_mode: EditMode::AI, ..row_saved(s) }),
            EditMode::AI => quiet(row_loaded(AppView { edit_mode: EditMode::Manual, ..s })),
        }
    } else {
        match s.edit_mode {
            EditMode::Manual => manual_edit_key(s, k),
            EditMode::AI => ai_edit_key(s, k),
        }
    }
}

/// The digit keys `1` to `4` as positions 0 to 3; -1 for any other key.
pub open spec fn digit_index(code: KeyCode) -> int {
    if code == KeyCode::Char('1') {
        0
    } else if code == KeyCode::Char('2') {
        1
    } else if code == KeyCode::Char('3') {
        2
    } else if code == KeyCode::Char('4') {
        3
    } else {
        -1
    }
}

/// A key while a session is moved to another column.
pub open spec fn move_key(s: AppView, k: KeyEvent) -> Outcome {
    let closed = AppView { input_mode: InputMode::Normal, moving_session_id: None, ..s };
    if k.code == KeyCode::Esc {
        quiet(closed)
    } else if digit_index(k.code) >= 0 {
        match s.moving_session_id {
            Some(id) => commit(
                closed,
                seq![
                    StoreWriteView::UpdateSessionStatus {
                        session_id: id,
                        status: Status::at(digit_index(k.code)),
                    },
                ],
                Reload::Sessions,
            ),
            None => quiet(closed),
        }
    } else {
        quiet(s)
    }
}

/// A key that says yes to a question.
pub open spec fn is_yes(code: KeyCode) -> bool {
    code == KeyCode::Char('y') || code == KeyCode::Char('Y')
}

/// A key while the deletion of a session waits to be confirmed: a yes ends
/// the terminal session on record and deletes the session, any other key
/// leaves the session alone and closes the question.
pub open spec fn confirm_delete_key(s: AppView, k: KeyEvent) -> Outcome {
    let closed = AppView { input_mode: InputMode::Normal, deleting_session_id: None, ..s };
    if is_yes(k.code) {
        match s.deleting_session_id {
            Some(id) => Outcome {
                state: closed,
                action: AppActionView::Commit {
                    kill: terminal_of(s.sessions, Some(id)),
                    writes: seq![StoreWriteView::DeleteSession { session_id: id }],
                    reload: Reload::Sessions,
                },
            },
            None => quiet(closed),
        }
    } else {
        quiet(closed)
    }
}

/// A key while the deletion of a field waits to be confirmed: a yes deletes
/// the field, any other key leaves the field alone and closes the question.
pub open spec fn confirm_delete_field_key(s: AppView, k: KeyEvent) -> Outcome {
    let closed = AppView { input_mode: InputMode::Normal, deleting_field_id: None, ..s };
    if is_yes(k.code) {
        match s.deleting_field_id {
            Some(id) => commit(
                closed,
                seq![StoreWriteView::DeleteField { field_id: id }],
                Reload::Fields,
            ),
            None => quiet(closed),
        }
    } else {
        quiet(closed)
    }
}

/// The selected field, if there is one.
pub open spec fn selected_field(s: AppView) -> Option<FieldView> {
    if 0 <= s.selected_field < s.fields.len() {
        Some(s.fields[s.selected_field])
    } else {
        None
    }
}

/// A key on the settings screen.
pub open spec fn settings_key(s: AppView, k: KeyEvent) -> Outcome {
    let c = k.code;
    if c == KeyCode::Char('q') || c == KeyCode::Esc {
        quiet(AppView { view: mode::View::Kanban, ..s })
    } else if c == KeyCode::Char('c') && k.modifiers.control {
        quiet(AppView { should_quit: true, ..s })
    } else if c == KeyCode::Char('j') || c == KeyCode::Down {
        if s.selected_field + 1 < s.fields.len() {
            quiet(AppView { selected_field: s.selected_field + 1, ..s })
        } else {
            quiet(s)
        }
    } else if c == KeyCode::Char('k') || c == KeyCode::Up {
        if s.selected_field > 0 {
            quiet(AppView { selected_field: s.selected_field - 1, ..s })
        } else {
            quiet(s)
        }
    } else if c == KeyCode::Char('n') {
        quiet(
            AppView {
                new_field_name: Seq::empty(),
                new_field_desc: Seq::empty(),
                input_mode: InputMode::NewFieldName,
                ..s
            },
        )
    } else if c == KeyCode::Char('e') {
        match selected_field(s) {
            Some(f) => quiet(
                AppView {
                    editing_field_id: Some(f.id),
                    new_field_name: f.name,
                    new_field_desc: f.description,
                    input_mode: InputMode::EditFieldName,
                    ..s
                },
            ),
            None => quiet(s),
        }
    } else if c == KeyCode::Char('d') {
        match selected_field(s) {
            Some(f) => quiet(
                AppView {
                    deleting_field_id: Some(f.id),
                    input_mode: InputMode::ConfirmDeleteField,
                    ..s
                },
            ),
            None => quiet(s),
        }
    } else if c == KeyCode::Char('K') {
        match selected_field(s) {
            Some(f) => commit(
                AppView {
                    selected_field: if s.selected_field > 0 {
                        s.selected_field - 1
                    } else {
                        s.selected_field
                    },
                    ..s
                },
                seq![StoreWriteView::MoveFieldUp { project_id: s.project.id, field_id: f.id }],
                Reload::Fields,
            ),
            None => quiet(s),
        }
    } else if c == KeyCode::Char('J') {
        match selected_field(s) {
            Some(f) => commit(
                AppView {
                    selected_field: if s.selected_field + 1 < s.fields.len() {
                        s.selected_field + 1
                    } else {
                        s.selected_field
                    },
                    ..s
                },
                seq![StoreWriteView::MoveFieldDown { project_id: s.project.id, field_id: f.id }],
                Reload::Fields,
            ),
            None => quiet(s),
        }
    } else if c == KeyCode::Char('v') {
        match selected_field(s) {
            Some(f) => commit(
                s,
                seq![StoreWriteView::ToggleFieldVisibility { field_id: f.id }],
                Reload::Fields,
            ),
            None => quiet(s),
        }
    } else {
        quiet(s)
    }
}

/// A key while the name of a field is typed: Enter goes on to the
/// description in the mode `then` once there is a name, Esc leaves the
/// editor in the state `closed`.
pub open spec fn field_name_key(s: AppView, k: KeyEvent, then: InputMode, closed: AppView) -> Outcome {
    match k.code {
        KeyCode::Esc => quiet(closed),
        KeyCode::Enter => if s.new_field_name.len() > 0 {
            quiet(AppView { input_mode: then, ..s })
        } else {
            quiet(s)
        },
        KeyCode::Backspace => quiet(AppView { new_field_name: popped(s.new_field_name), ..s }),
        KeyCode::Char(c) => quiet(AppView { new_field_name: s.new_field_name.push(c), ..s }),
        _ => quiet(s),
    }
}

/// A key while the description of a field is typed: Enter commits with the
/// outcome `done`, Esc leaves the editor in the state `closed`.
pub open spec fn field_desc_key(s: AppView, k: KeyEvent, done: Outcome, closed: AppView) -> Outcome {
    match k.code {
        KeyCode::Esc => quiet(closed),
        KeyCode::Enter => done,
        KeyCode::Backspace => quiet(AppView { new_field_desc: popped(s.new_field_desc), ..s }),
        KeyCode::Char(c) => quiet(AppView { new_field_desc: s.new_field_desc.push(c), ..s }),
        _ => quiet(s),
    }
}

/// A key while the name of a new field is typed.
pub open spec fn new_field_name_key(s: AppView, k: KeyEvent) -> Outcome {
    field_name_key(s, k, InputMode::NewFieldDesc, field_closed(s))
}

/// A key while the description of a new field is typed: Enter adds the
/// field, whatever the description holds.
pub open spec fn new_field_desc_key(s: AppView, k: KeyEvent) -> Outcome {
    let done = commit(
        field_closed(s),
        seq![
            StoreWriteView::CreateField {
                project_id: s.project.id,
                name: s.new_field_name,
                description: s.new_field_desc,
            },
        ],
        Reload::Fields,
    );
    field_desc_key(s, k, done, field_closed(s))
}

/// A key while the name of an edited field is typed.
pub open spec fn edit_field_name_key(s: AppView, k: KeyEvent) -> Outcome {
    field_name_key(s, k, InputMode::EditFieldDesc, field_edit_closed(s))
}

/// A key while the description of an edited field is typed: Enter writes
/// name and description to the field under edit.
pub open spec fn edit_field_desc_key(s: AppView, k: KeyEvent) -> Outcome {
    let done = match s.editing_field_id {
        Some(id) => commit(
            field_edit_closed(s),
            seq![
                StoreWriteView::UpdateField {
                    field_id: id,
                    name: s.new_field_name,
                    description: s.new_field_desc,
                },
            ],
            Reload::Fields,
        ),
        None => quiet(field_edit_closed(s)),
    };
    field_desc_key(s, k, done, field_edit_closed(s))
}

/// A key press: ignored while the assistant runs; else it clears the status
/// message and goes to the handler of the input mode.
pub open spec fn key_step(s: AppView, k: KeyEvent) -> Outcome {
    if s.ai_running {
        quiet(s)
    } else {
        let t = AppView { status_message: None, ..s };
        match t.input_mode {
            InputMode::Normal => match t.view {
                mode::View::Kanban => normal_key(t, k),
                mode::View::Settings => settings_key(t, k),
            },
            InputMode::NewSession => input_key(t, k),
            InputMode::EditSession => edit_session_key(t, k),
            InputMode::MoveSession => move_key(t, k),
            InputMode::ConfirmDelete => confirm_delete_key(t, k),
            InputMode::ConfirmDeleteField => confirm_delete_field_key(t, k),
            InputMode::NewFieldName => new_field_name_key(t, k),
            InputMode::NewFieldDesc => new_field_desc_key(t, k),
            InputMode::EditFieldName => edit_field_name_key(t, k),
            InputMode::EditFieldDesc => edit_field_desc_key(t, k),
        }
    }
}

/// Pasted text goes to the end of the buffer that the input mode types into.
pub open spec fn pasted(s: AppView, text: Seq<char>) -> AppView {
    match s.input_mode {
        InputMode::EditSession => if s.edit_mode == EditMode::AI {
            AppView { ai_input: s.ai_input + text, ..s }
        } else {
            AppView { input_buffer: s.input_buffer + text, ..s }
        },
        InputMode::NewSession => AppView { input_buffer: s.input_buffer + text, ..s },
        InputMode::NewFieldName | InputMode::EditFieldName => AppView {
            new_field_name: s.new_field_name + text,
            ..s
        },
        InputMode::NewFieldDesc | InputMode::EditFieldDesc => AppView {
            new_field_desc: s.new_field_desc + text,
            ..s
        },
        _ => s,
    }
}

/// One turn of the event loop: first what the assistant sent, if anything,
/// then the event from the terminal, if any.
pub open spec fn event_step(
    s: AppView,
    ai_result: Option<Result<Seq<Seq<char>>, Seq<char>>>,
    event: Option<EventView>,
) -> Outcome {
    let t = match ai_result {
        Some(r) => ai_settled(s, r),
        None => s,
    };
    match event {
        Some(EventView::Key(k)) => key_step(t, k),
        Some(EventView::Paste(text)) => if t.ai_running {
            quiet(t)
        } else {
            quiet(pasted(t, text))
        },
        _ => quiet(t),
    }
}

/// The sessions taken over from the store, the row brought into the column.
pub open spec fn sessions_refreshed(s: AppView, sessions: Seq<SessionView>) -> AppView {
    row_clamped(AppView { sessions, ..s })
}

/// The fields taken over from the store, the selection brought among them.
pub open spec fn fields_refreshed(s: AppView, fields: Seq<FieldView>) -> AppView {
    AppView { fields, selected_field: clamped(s.selected_field, fields.len() as int), ..s }
}

/// Whether `name` is among `names`.
pub open spec fn has_name(names: Seq<Seq<char>>, name: Seq<char>) -> bool {
    exists|i: int| 0 <= i < names.len() && #[trigger] names[i] == name
}

/// The names with one more, unless it is among them already.
pub open spec fn with_name(names: Seq<Seq<char>>, name: Seq<char>) -> Seq<Seq<char>> {
    if has_name(names, name) {
        names
    } else {
        names.push(name)
    }
}

/// The first `n` names of a listing, each where it occurs first.
pub open spec fn distinct_names(live: Seq<Seq<char>>, n: int) -> Seq<Seq<char>>
    decreases n,
{
    if n <= 0 {
        Seq::empty()
    } else {
        with_name(distinct_names(live, n - 1), live[n - 1])
    }
}

/// Among the first `n` names of a listing of live terminal sessions, those
/// whose pane shows a prompt, each where it occurs first. A session whose
/// pane could not be read shows none.
pub open spec fn waiting_names(
    live: Seq<Seq<char>>,
    panes: Seq<Option<Seq<char>>>,
    n: int,
) -> Seq<Seq<char>>
    decreases n,
{
    if n <= 0 {
        Seq::empty()
    } else if !has_name(distinct_names(live, n - 1), live[n - 1]) && n - 1 < panes.len() && panes[n
        - 1] is Some && shows_prompt(panes[n - 1]->Some_0) {
        waiting_names(live, panes, n - 1).push(live[n - 1])
    } else {
        waiting_names(live, panes, n - 1)
    }
}

/// For the first `n` sessions: a write that forgets the terminal session of
/// each one whose terminal session on record is not among the live ones.
pub open spec fn stale_writes(sessions: Seq<SessionView>, live: Seq<Seq<char>>, n: int) -> Seq<
    StoreWriteView,
>
    decreases n,
{
    if n <= 0 {
        Seq::empty()
    } else if sessions[n - 1].tmux_window is Some && !has_name(
        live,
        sessions[n - 1].tmux_window->Some_0,
    ) {
        stale_writes(sessions, live, n - 1).push(
            StoreWriteView::ClearTmuxSession { session_id: sessions[n - 1].id },
        )
    } else {
        stale_writes(sessions, live, n - 1)
    }
}

/// The live terminal sessions taken over.
pub open spec fn terminals_refreshed(
    s: AppView,
    live: Seq<Seq<char>>,
    panes: Seq<Option<Seq<char>>>,
) -> AppView {
    AppView {
        active_tmux_sessions: distinct_names(live, live.len() as int),
        sessions_waiting_input: waiting_names(live, panes, live.len() as int),
        ..s
    }
}

/// A name added to names that hold none twice leaves none twice.
pub proof fn lemma_with_name_distinct(names: Seq<Seq<char>>, name: Seq<char>)
    requires
        names.no_duplicates(),
    ensures
        with_name(names, name).no_duplicates(),
        has_name(with_name(names, name), name),
        forall|other: Seq<char>| has_name(names, other) ==> has_name(with_name(names, name), other),
{
    let r = with_name(names, name);
    if !has_name(names, name) {
        assert(r[names.len() as int] == name);
        assert forall|other: Seq<char>| has_name(names, other) implies has_name(r, other) by {
            let i = choose|i: int| 0 <= i < names.len() && names[i] == other;
            assert(r[i] == other);
        }
    }
}

/// Among the live and among the waiting terminal sessions taken from a
/// listing none is named twice, and every waiting one is a live one.
pub proof fn lemma_listing_distinct(live: Seq<Seq<char>>, panes: Seq<Option<Seq<char>>>, n: int)
    requires
        0 <= n <= live.len(),
    ensures
        distinct_names(live, n).no_duplicates(),
        waiting_names(live, panes, n).no_duplicates(),
        forall|name: Seq<char>|
            has_name(waiting_names(live, panes, n), name) ==> has_name(
                distinct_names(live, n),
                name,
            ),
    decreases n,
{
    if n > 0 {
        lemma_listing_distinct(live, panes, n - 1);
        let d = distinct_names(live, n - 1);
        let w = waiting_names(live, panes, n - 1);
        let name = live[n - 1];
        lemma_with_name_distinct(d, name);
        let d2 = distinct_names(live, n);
        let w2 = waiting_names(live, panes, n);
        assert(d2 == with_name(d, name));
        if w2 != w {
            assert(w2 == w.push(name));
            assert(!has_name(d, name));
            if has_name(w, name) {
                assert(has_name(d, name));
            }
            assert(w2.no_duplicates());
        }
        assert forall|other: Seq<char>| has_name(w2, other) implies has_name(d2, other) by {
            let i = choose|i: int| 0 <= i < w2.len() && w2[i] == other;
            if i < w.len() {
                assert(w[i] == other);
                assert(has_name(w, other));
                assert(has_name(d, other));
                assert(has_name(d2, other));
            } else {
                assert(other == name);
                assert(has_name(d2, name));
            }
        }
    }
}

/// The names taken from the first `n` names of a listing are those names.
pub proof fn lemma_distinct_names_are_listed(live: Seq<Seq<char>>, n: int, name: Seq<char>)
    requires
        0 <= n <= live.len(),
    ensures
        has_name(distinct_names(live, n), name) <==> has_name(live.subrange(0, n), name),
    decreases n,
{
    let part = live.subrange(0, n);
    if n > 0 {
        let before = live.subrange(0, n - 1);
        let d = distinct_names(live, n - 1);
        let d2 = distinct_names(live, n);
        lemma_distinct_names_are_listed(live, n - 1, name);
        lemma_distinct_names_are_listed(live, n - 1, live[n - 1]);
        if has_name(d2, name) {
            let i = choose|i: int| 0 <= i < d2.len() && d2[i] == name;
            if i < d.len() && d2 == d {
                assert(has_name(d, name));
            } else if i < d.len() {
                assert(d[i] == name);
                assert(has_name(d, name));
            } else {
                assert(name == live[n - 1]);
                assert(part[n - 1] == name);
            }
            if has_name(d, name) {
                let k = choose|k: int| 0 <= k < before.len() && before[k] == name;
                assert(part[k] == name);
            }
        }
        if has_name(part, name) {
            let k = choose|k: int| 0 <= k < part.len() && part[k] == name;
            if k < n - 1 {
                assert(before[k] == name);
                assert(has_name(d, name));
                let i = choose|i: int| 0 <= i < d.len() && d[i] == name;
                assert(d2[i] == name);
            } else {
                assert(name == live[n - 1]);
                if has_name(d, name) {
                    assert(d2 == d);
                } else {
                    assert(d2[d.len() as int] == name);
                }
            }
        }
    }
}

/// After a refresh, the terminal sessions that count as live are those that
/// the listing names, and no others: one that was ended and is listed no
/// more is live no more.
pub proof fn lemma_live_is_listed(
    s: AppView,
    live: Seq<Seq<char>>,
    panes: Seq<Option<Seq<char>>>,
    name: Seq<char>,
)
    ensures
        has_name(terminals_refreshed(s, live, panes).active_tmux_sessions, name) <==> has_name(
            live,
            name,
        ),
{
    lemma_distinct_names_are_listed(live, live.len() as int, name);
    assert(live.subrange(0, live.len() as int) == live);
}

/// Taking over the live terminal sessions keeps the state in order.
pub proof fn lemma_terminals_refreshed_keeps_wf(
    s: AppView,
    live: Seq<Seq<char>>,
    panes: Seq<Option<Seq<char>>>,
)
    requires
        wf(s),
    ensures
        wf(terminals_refreshed(s, live, panes)),
{
    lemma_listing_distinct(live, panes, live.len() as int);
}

/// Whether a session has `name` on record as its terminal session.
pub open spec fn is_tracked(sessions: Seq<SessionView>, name: Seq<char>) -> bool {
    exists|i: int| 0 <= i < sessions.len() && (#[trigger] sessions[i]).tmux_window == Some(name)
}

/// Among the first `n` names, those that no session has on record.
pub open spec fn orphans(sessions: Seq<SessionView>, names: Seq<Seq<char>>, n: int) -> Seq<
    Seq<char>,
>
    decreases n,
{
    if n <= 0 {
        Seq::empty()
    } else if !is_tracked(sessions, names[n - 1]) {
        orphans(sessions, names, n - 1).push(names[n - 1])
    } else {
        orphans(sessions, names, n - 1)
    }
}

/// The session editor is open on the session with the given id.
pub open spec fn is_editing(s: AppView, session_id: i64) -> bool {
    s.input_mode == InputMode::EditSession && s.editing_session_id == Some(session_id)
}

/// The values read from the store for the session under edit, cut or filled
/// up to one per field. Values for another session, or outside the session
/// editor, change nothing.
pub open spec fn values_loaded(s: AppView, session_id: i64, values: Seq<Seq<char>>) -> AppView {
    if is_editing(s, session_id) {
        row_loaded(AppView { edit_field_values: fitted(values, s.fields.len() as int), ..s })
    } else {
        s
    }
}

/// What the status line says after a cleanup that ended `killed` terminal
/// sessions.
pub open spec fn cleanup_message(killed: int) -> Seq<char> {
    if killed == 0 {
        "No orphaned sessions found"@
    } else if killed == 1 {
        "Cleaned up "@ + int_decimal(killed) + " orphaned session"@
    } else {
        "Cleaned up "@ + int_decimal(killed) + " orphaned session"@ + "s"@
    }
}

/// Where the selection lies within what is shown and the selected column
/// holds sessions, the selected row is one of its rows and a session is
/// selected.
pub proof fn lemma_selection_in_range(s: AppView)
    requires
        wf(s),
    ensures
        column(s).len() > 0 ==> 0 <= s.selected_row < column(s).len() && selected(s) is Some,
        column(s).len() == 0 ==> s.selected_row == 0 && selected(s) is None,
        s.fields.len() > 0 ==> 0 <= s.selected_field < s.fields.len(),
        s.fields.len() == 0 ==> s.selected_field == 0,
{
}

/// A key on the board keeps the selection within what is shown.
pub proof fn lemma_normal_key_keeps_wf(s: AppView, k: KeyEvent)
    requires
        wf(s),
    ensures
        wf(normal_key(s, k).state),
{
}

/// A key on the settings screen keeps the selection within what is shown.
pub proof fn lemma_settings_key_keeps_wf(s: AppView, k: KeyEvent)
    requires
        wf(s),
    ensures
        wf(settings_key(s, k).state),
{
}

/// A key in the session editor keeps the selection within what is shown.
pub proof fn lemma_edit_session_key_keeps_wf(s: AppView, k: KeyEvent)
    requires
        wf(s),
    ensures
        wf(edit_session_key(s, k).state),
{
}

/// A key in one of the small dialogs keeps the selection within what is
/// shown.
pub proof fn lemma_dialog_key_keeps_wf(s: AppView, k: KeyEvent)
    requires
        wf(s),
    ensures
        wf(input_key(s, k).state),
        wf(move_key(s, k).state),
        wf(confirm_delete_key(s, k).state),
        wf(confirm_delete_field_key(s, k).state),
        wf(new_field_name_key(s, k).state),
        wf(new_field_desc_key(s, k).state),
        wf(edit_field_name_key(s, k).state),
        wf(edit_field_desc_key(s, k).state),
{
}

/// A key press keeps the selection within what is shown.
pub proof fn lemma_key_step_keeps_wf(s: AppView, k: KeyEvent)
    requires
        wf(s),
    ensures
        wf(key_step(s, k).state),
{
    if !s.ai_running {
        let t = AppView { status_message: None, ..s };
        assert(wf(t));
        lemma_normal_key_keeps_wf(t, k);
        lemma_settings_key_keeps_wf(t, k);
        lemma_edit_session_key_keeps_wf(t, k);
        lemma_dialog_key_keeps_wf(t, k);
    }
}

/// Whatever comes in, the selection stays within what is shown: the column
/// is one of the four, the row lies in the column, the selected field among
/// the fields.
pub proof fn lemma_event_step_keeps_wf(
    s: AppView,
    ai_result: Option<Result<Seq<Seq<char>>, Seq<char>>>,
    event: Option<EventView>,
)
    requires
        wf(s),
    ensures
        wf(event_step(s, ai_result, event).state),
{
    let t = match ai_result {
        Some(r) => ai_settled(s, r),
        None => s,
    };
    assert(wf(t));
    match event {
        Some(EventView::Key(k)) => {
            lemma_key_step_keeps_wf(t, k);
        },
        Some(EventView::Paste(text)) => {
            assert(wf(pasted(t, text)));
        },
        _ => {},
    }
}

/// While the assistant runs, no key and no pasted text changes the state or
/// asks anything of the surroundings: only what the assistant sends back is
/// taken.
pub proof fn lemma_ignored_while_running(s: AppView, event: Option<EventView>)
    requires
        s.ai_running,
    ensures
        event_step(s, None, event) == quiet(s),
        event is Some && event->Some_0 is Key ==> key_step(s, event->Some_0->Key_0) == quiet(s),
{
}

/// What a write changes in the store: the sessions of the project (their
/// field values count among them) or its fields.
pub open spec fn reload_for(w: StoreWriteView) -> Reload {
    match w {
        StoreWriteView::CreateField { .. }
        | StoreWriteView::UpdateField { .. }
        | StoreWriteView::DeleteField { .. }
        | StoreWriteView::MoveFieldUp { .. }
        | StoreWriteView::MoveFieldDown { .. }
        | StoreWriteView::ToggleFieldVisibility { .. } => Reload::Fields,
        _ => Reload::Sessions,
    }
}

/// Every write of the session editor changes the sessions.
pub proof fn lemma_value_writes_reload(
    fields: Seq<FieldView>,
    values: Seq<Seq<char>>,
    session_id: i64,
    n: int,
)
    ensures
        forall|i: int|
            0 <= i < value_writes(fields, values, session_id, n).len() ==> reload_for(
                #[trigger] value_writes(fields, values, session_id, n)[i],
            ) == Reload::Sessions,
    decreases n,
{
    if n > 0 {
        lemma_value_writes_reload(fields, values, session_id, n - 1);
    }
}

/// No drift: whatever the controller writes to the store, it asks in the same
/// breath to read again what the write changes. What it shows after a
/// write is what the store lists, never what it expects the store to hold.
pub proof fn lemma_writes_are_followed_by_reload(
    s: AppView,
    ai_result: Option<Result<Seq<Seq<char>>, Seq<char>>>,
    event: Option<EventView>,
)
    ensures
        match event_step(s, ai_result, event).action {
            AppActionView::Commit { kill, writes, reload } => forall|i: int|
                0 <= i < writes.len() ==> reload_for(#[trigger] writes[i]) == reload,
            _ => true,
        },
{
    let t = match ai_result {
        Some(r) => ai_settled(s, r),
        None => s,
    };
    match event {
        Some(EventView::Key(k)) => {
            if !t.ai_running {
                let u = AppView { status_message: None, ..t };
                if u.input_mode == InputMode::EditSession {
                    let saved = row_saved(u);
                    match saved.editing_session_id {
                        Some(id) => {
                            let n = if saved.fields.len() <= saved.edit_field_values.len() {
                                saved.fields.len() as int
                            } else {
                                saved.edit_field_values.len() as int
                            };
                            lemma_value_writes_reload(
                                saved.fields,
                                saved.edit_field_values,
                                id,
                                n,
                            );
                        },
                        None => {},
                    }
                }
            }
        },
        _ => {},
    }
}

/// A cleanup ends exactly the terminal sessions found that no session has
/// on record: each of them, and none that a session has on record.
pub proof fn lemma_orphans_are_untracked(
    sessions: Seq<SessionView>,
    names: Seq<Seq<char>>,
    n: int,
    name: Seq<char>,
)
    requires
        0 <= n <= names.len(),
    ensures
        has_name(orphans(sessions, names, n), name) <==> has_name(names.subrange(0, n), name)
            && !is_tracked(sessions, name),
    decreases n,
{
    let part = names.subrange(0, n);
    if n > 0 {
        let before = names.subrange(0, n - 1);
        let o = orphans(sessions, names, n - 1);
        let o2 = orphans(sessions, names, n);
        lemma_orphans_are_untracked(sessions, names, n - 1, name);
        if has_name(o2, name) {
            let i = choose|i: int| 0 <= i < o2.len() && o2[i] == name;
            if i < o.len() {
                assert(o[i] == name);
                assert(has_name(o, name));
                let k = choose|k: int| 0 <= k < before.len() && before[k] == name;
                assert(part[k] == name);
            } else {
                assert(name == names[n - 1]);
                assert(part[n - 1] == name);
            }
        }
        if has_name(part, name) && !is_tracked(sessions, name) {
            let k = choose|k: int| 0 <= k < part.len() && part[k] == name;
            if k < n - 1 {
                assert(before[k] == name);
                assert(has_name(o, name));
                let i = choose|i: int| 0 <= i < o.len() && o[i] == name;
                assert(o2[i] == name);
            } else {
                assert(o2[o.len() as int] == name);
            }
        }
    }
}

/// Bringing the row into the column: with sessions in the column the row
/// is the smaller of itself and the last row; in an empty column it is 0.
/// Nothing else changes.
pub proof fn lemma_row_clamped(s: AppView)
    requires
        0 <= s.selected_row,
    ensures
        column(s).len() > 0 ==> row_clamped(s).selected_row == if s.selected_row < column(s).len() {
            s.selected_row
        } else {
            column(s).len() - 1
        },
        column(s).len() == 0 ==> row_clamped(s).selected_row == 0,
        row_clamped(s) == (AppView { selected_row: row_clamped(s).selected_row, ..s }),
        column(row_clamped(s)) == column(s),
{
}

/// The keys that change the column on the board: one column to the left or
/// to the right, never out of the four, with the row brought into the new
/// column; the sessions stay and nothing is asked of the surroundings.
pub proof fn lemma_column_step(s: AppView, k: KeyEvent)
    requires
        wf(s),
        k.code == KeyCode::Char('h') || k.code == KeyCode::Left || k.code == KeyCode::Char('l')
            || k.code == KeyCode::Right,
    ensures
        ({
            let o = normal_key(s, k);
            let left = k.code == KeyCode::Char('h') || k.code == KeyCode::Left;
            &&& o.action == AppActionView::Nothing
            &&& o.state.sessions == s.sessions
            &&& o.state.selected_column == if left {
                if s.selected_column > 0 {
                    s.selected_column - 1
                } else {
                    s.selected_column
                }
            } else {
                if s.selected_column < 3 {
                    s.selected_column + 1
                } else {
                    s.selected_column
                }
            }
            &&& 0 <= o.state.selected_column < 4
            &&& 0 <= o.state.selected_row
            &&& column(o.state).len() > 0 ==> o.state.selected_row < column(o.state).len()
            &&& column(o.state).len() == 0 ==> o.state.selected_row == 0
        }),
{
}

/// The keys that change the row on the board: down only while a row
/// follows, up only above the first row; the column and the sessions stay,
/// the row stays within the column, and nothing is asked of the
/// surroundings.
pub proof fn lemma_row_step(s: AppView, k: KeyEvent)
    requires
        wf(s),
        k.code == KeyCode::Char('j') || k.code == KeyCode::Down || k.code == KeyCode::Char('k')
            || k.code == KeyCode::Up,
    ensures
        ({
            let o = normal_key(s, k);
            let down = k.code == KeyCode::Char('j') || k.code == KeyCode::Down;
            &&& o.action == AppActionView::Nothing
            &&& o.state == (AppView { selected_row: o.state.selected_row, ..s })
            &&& o.state.selected_row == if down {
                if s.selected_row + 1 < column(s).len() {
                    s.selected_row + 1
                } else {
                    s.selected_row
                }
            } else {
                if s.selected_row > 0 {
                    s.selected_row - 1
                } else {
                    s.selected_row
                }
            }
            &&& column(s).len() > 0 ==> 0 <= o.state.selected_row < column(s).len()
            &&& column(s).len() == 0 ==> o.state.selected_row == 0
        }),
{
}

/// A digit while a session is moved writes the status at the digit's place
/// for that session and asks for the sessions to be read again; the mode is
/// normal again and no session is under move. Read again, the row lies in
/// the column whatever the store lists.
pub proof fn lemma_move_writes_status(s: AppView, k: KeyEvent, id: i64, listed: Seq<SessionView>)
    requires
        wf(s),
        s.moving_session_id == Some(id),
        0 <= digit_index(k.code),
    ensures
        ({
            let o = move_key(s, k);
            &&& o.action == AppActionView::Commit {
                kill: None,
                writes: seq![
                    StoreWriteView::UpdateSessionStatus {
                        session_id: id,
                        status: Status::at(digit_index(k.code)),
                    },
                ],
                reload: Reload::Sessions,
            }
            &&& o.state.input_mode == InputMode::Normal
            &&& o.state.moving_session_id is None
            &&& wf(sessions_refreshed(o.state, listed))
            &&& sessions_refreshed(o.state, listed).sessions == listed
        }),
{
}

/// A yes to the deletion of a session asks, in one commit, for the terminal
/// session on record to be ended, then for the session to be deleted, then
/// for the sessions to be read again. Any other key asks for nothing. Either
/// way the question is closed. Read again, the row lies in the column and
/// the column is the one it was.
pub proof fn lemma_delete_confirmed(s: AppView, k: KeyEvent, id: i64, listed: Seq<SessionView>)
    requires
        wf(s),
        s.deleting_session_id == Some(id),
    ensures
        ({
            let o = confirm_delete_key(s, k);
            let after = sessions_refreshed(o.state, listed);
            &&& is_yes(k.code) ==> o.action == AppActionView::Commit {
                kill: terminal_of(s.sessions, Some(id)),
                writes: seq![StoreWriteView::DeleteSession { session_id: id }],
                reload: Reload::Sessions,
            }
            &&& !is_yes(k.code) ==> o.action == AppActionView::Nothing
            &&& o.state.input_mode == InputMode::Normal
            &&& o.state.deleting_session_id is None
            &&& o.state.sessions == s.sessions
            &&& wf(after)
            &&& after.selected_column == s.selected_column
            &&& after.selected_row == clamped(s.selected_row, column(after).len() as int)
        }),
{
}

/// Values from the assistant, as many as there are rows, replace every row
/// and clear the error; the number of rows stays.
pub proof fn lemma_ai_values_replace_rows(s: AppView, values: Seq<Seq<char>>)
    requires
        s.ai_running,
        values.len() == s.edit_field_values.len(),
    ensures
        ai_settled(s, Ok(values)).edit_field_values == values,
        ai_settled(s, Ok(values)).ai_error is None,
        !ai_settled(s, Ok(values)).ai_running,
{
    assert(overlaid(s.edit_field_values, values) =~= values);
}

/// Whatever the assistant sends, the number of rows stays.
pub proof fn lemma_ai_keeps_row_count(s: AppView, result: Result<Seq<Seq<char>>, Seq<char>>)
    ensures
        ai_settled(s, result).edit_field_values.len() == s.edit_field_values.len(),
        result is Err ==> ai_settled(s, result).edit_field_values == s.edit_field_values,
{
}

} // verus!
