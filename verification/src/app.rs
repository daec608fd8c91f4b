//! The controller: application state and the input-mode state machine.

use crate::action::{
    pairs_view, AiRequest, AppAction, AppActionView, Reload, StoreWrite, StoreWriteView,
};
use crate::ai::fit_values;
use crate::db::{opt_text, Field, Project, Session, Status};
use crate::key::{Event, EventView, KeyCode, KeyEvent};
use crate::mode;
use crate::mode::{EditMode, InputMode};
use crate::model::{
    ai_edit_key, ai_settled, ai_started, cleanup_message, column, confirm_delete_field_key,
    confirm_delete_key, edit_closed, edit_field_desc_key, edit_field_name_key, edit_saved,
    distinct_names, edit_session_key, edit_writes, empty_values, enter_key, event_step, field_closed,
    field_pairs, lemma_terminals_refreshed_keeps_wf, lemma_with_name_distinct,
    fields_refreshed, find_session, has_name, input_key, is_tracked, key_step,
    lemma_event_step_keeps_wf, lemma_ignored_while_running, manual_edit_key, move_key,
    new_field_desc_key, new_field_name_key, normal_key, orphans, overlaid, pasted, row_clamped,
    row_loaded, row_saved, selected, sessions_refreshed, settings_key, stale_writes, terminal_of,
    terminals_refreshed, value_writes, values_loaded, waiting_names, wf, with_name, with_status,
    AppView,
};
use crate::text::{decimal_u64, pop_char, push_char, str_eq};
use crate::tmux::{is_waiting_for_input, session_name};
use vstd::prelude::*;
use vstd::string::*;

verus! {

/// The state of the controller. Every key press and every answer of the
/// assistant goes through `handle_events`, which changes the state and says
/// what the surroundings must do.
pub struct App {
    pub should_quit: bool,
    pub project: Project,
    pub sessions: Vec<Session>,
    pub selected_column: usize,
    pub selected_row: usize,
    pub input_mode: InputMode,
    pub input_buffer: String,
    pub active_tmux_sessions: Vec<String>,
    pub sessions_waiting_input: Vec<String>,
    pub editing_session_id: Option<i64>,
    pub moving_session_id: Option<i64>,
    pub deleting_session_id: Option<i64>,
    pub peek_active: bool,
    pub edit_row: usize,
    pub edit_session_name: String,
    pub edit_field_values: Vec<String>,
    pub edit_mode: EditMode,
    pub ai_input: String,
    pub ai_running: bool,
    pub ai_error: Option<String>,
    pub view: mode::View,
    pub fields: Vec<Field>,
    pub selected_field: usize,
    pub editing_field_id: Option<i64>,
    pub deleting_field_id: Option<i64>,
    pub new_field_name: String,
    pub new_field_desc: String,
    pub status_message: Option<String>,
}

impl View for App {
    type V = AppView;

    open spec fn view(&self) -> AppView {
        AppView {
            should_quit: self.should_quit,
            project: self.project@,
            sessions: self.sessions.deep_view(),
            selected_column: self.selected_column as int,
            selected_row: self.selected_row as int,
            input_mode: self.input_mode,
            input_buffer: self.input_buffer@,
            active_tmux_sessions: self.active_tmux_sessions.deep_view(),
            sessions_waiting_input: self.sessions_waiting_input.deep_view(),
            editing_session_id: self.editing_session_id,
            moving_session_id: self.moving_session_id,
            deleting_session_id: self.deleting_session_id,
            peek_active: self.peek_active,
            edit_row: self.edit_row as int,
            edit_session_name: self.edit_session_name@,
            edit_field_values: self.edit_field_values.deep_view(),
            edit_mode: self.edit_mode,
            ai_input: self.ai_input@,
            ai_running: self.ai_running,
            ai_error: opt_text(self.ai_error),
            view: self.view,
            fields: self.fields.deep_view(),
            selected_field: self.selected_field as int,
            editing_field_id: self.editing_field_id,
            deleting_field_id: self.deleting_field_id,
            new_field_name: self.new_field_name@,
            new_field_desc: self.new_field_desc@,
            status_message: opt_text(self.status_message),
        }
    }
}

/// Whether `name` is among `names`.
fn contains_name(names: &Vec<String>, name: &str) -> (r: bool)
    ensures
        r == has_name(names.deep_view(), name@),
{
    let mut i: usize = 0;
    while i < names.len()
        invariant
            i <= names.len(),
            forall|k: int| 0 <= k < i ==> #[trigger] names.deep_view()[k] != name@,
        decreases names.len() - i,
    {
        assert(names.deep_view()[i as int] == names[i as int]@);
        if str_eq(names[i].as_str(), name) {
            return true;
        }
        i += 1;
    }
    false
}

/// Whether no name is among `names` twice.
fn all_distinct(names: &Vec<String>) -> (r: bool)
    ensures
        r == names.deep_view().no_duplicates(),
{
    let mut i: usize = 0;
    while i < names.len()
        invariant
            i <= names.len(),
            forall|a: int, b: int|
                0 <= a < b < names.len() && b < i ==> names.deep_view()[a] != names.deep_view()[b],
        decreases names.len() - i,
    {
        let mut j: usize = 0;
        while j < i
            invariant
                j <= i < names.len(),
                forall|a: int| 0 <= a < j ==> names.deep_view()[a] != names.deep_view()[i as int],
            decreases i - j,
        {
            assert(names.deep_view()[i as int] == names[i as int]@);
            assert(names.deep_view()[j as int] == names[j as int]@);
            if str_eq(names[j].as_str(), names[i].as_str()) {
                return false;
            }
            j += 1;
        }
        i += 1;
    }
    true
}

/// A copy of an optional text.
fn clone_text(text: &Option<String>) -> (r: Option<String>)
    ensures
        opt_text(r) == opt_text(*text),
{
    match text {
        Some(t) => Some(t.clone()),
        None => None,
    }
}

/// View of what a run of the assistant sent back.
pub open spec fn result_view(result: Result<Vec<String>, String>) -> Result<
    Seq<Seq<char>>,
    Seq<char>,
> {
    match result {
        Ok(values) => Ok(values.deep_view()),
        Err(e) => Err(e@),
    }
}

/// Lays `values` over `target`, place by place, as far as both reach.
fn overlay(target: &mut Vec<String>, values: &Vec<String>)
    ensures
        final(target).deep_view() == overlaid(old(target).deep_view(), values.deep_view()),
{
    let ghost given = target.deep_view();
    let mut i: usize = 0;
    while i < values.len() && i < target.len()
        invariant
            target.len() == given.len(),
            i <= values.len(),
            i <= target.len(),
            forall|k: int|
                0 <= k < given.len() ==> #[trigger] target.deep_view()[k] == if k < i {
                    values.deep_view()[k]
                } else {
                    given[k]
                },
        decreases values.len() - i,
    {
        assert(values.deep_view()[i as int] == values[i as int]@);
        let value = values[i].clone();
        let ghost before = target.deep_view();
        target.set(i, value);
        assert(target.deep_view() =~= before.update(i as int, values[i as int]@));
        i += 1;
    }
    assert(target.deep_view() =~= overlaid(given, values.deep_view()));
}

/// View of what may have come back from the assistant.
pub open spec fn ai_view(ai_result: Option<Result<Vec<String>, String>>) -> Option<
    Result<Seq<Seq<char>>, Seq<char>>,
> {
    match ai_result {
        Some(r) => Some(result_view(r)),
        None => None,
    }
}

/// View of what the terminal may have reported.
pub open spec fn event_view(event: Option<Event>) -> Option<EventView> {
    match event {
        Some(e) => Some(e@),
        None => None,
    }
}

/// `n` empty texts.
fn empty_texts(n: usize) -> (r: Vec<String>)
    ensures
        r.deep_view() == empty_values(n as int),
{
    let mut out: Vec<String> = Vec::new();
    while out.len() < n
        invariant
            out.len() <= n,
            out.deep_view() == empty_values(out.len() as int),
        decreases n - out.len(),
    {
        let ghost before = out.deep_view();
        out.push(String::new());
        assert(out.deep_view() =~= before.push(Seq::empty()));
        assert(out.deep_view() =~= empty_values(out.len() as int));
    }
    out
}

impl App {
    /// The state is in order: the selection lies within what is shown, and
    /// no terminal session is named twice among the live ones or among the
    /// waiting ones.
    pub open spec fn wf(&self) -> bool {
        wf(self@)
    }

    /// Whether the state is in order.
    pub fn is_wf(&self) -> (r: bool)
        ensures
            r == self.wf(),
    {
        if self.selected_column >= 4 {
            return false;
        }
        let count = self.column_len();
        let row_ok = if count == 0 {
            self.selected_row == 0
        } else {
            self.selected_row < count
        };
        let n = self.fields.len();
        let field_ok = if n == 0 {
            self.selected_field == 0
        } else {
            self.selected_field < n
        };
        row_ok && field_ok && all_distinct(&self.active_tmux_sessions) && all_distinct(
            &self.sessions_waiting_input,
        )
    }

    /// The controller at its start: on the board, with the first entries
    /// selected, no editor open and no terminal session known to live.
    pub fn new(project: Project, sessions: Vec<Session>, fields: Vec<Field>) -> (r: App)
        ensures
            r.wf(),
            r@ == (AppView {
                should_quit: false,
                project: project@,
                sessions: sessions.deep_view(),
                selected_column: 0,
                selected_row: 0,
                input_mode: InputMode::Normal,
                input_buffer: Seq::empty(),
                active_tmux_sessions: Seq::empty(),
                sessions_waiting_input: Seq::empty(),
                editing_session_id: None,
                moving_session_id: None,
                deleting_session_id: None,
                peek_active: false,
                edit_row: 0,
                edit_session_name: Seq::empty(),
                edit_field_values: Seq::empty(),
                edit_mode: EditMode::Manual,
                ai_input: Seq::empty(),
                ai_running: false,
                ai_error: None,
                view: mode::View::Kanban,
                fields: fields.deep_view(),
                selected_field: 0,
                editing_field_id: None,
                deleting_field_id: None,
                new_field_name: Seq::empty(),
                new_field_desc: Seq::empty(),
                status_message: None,
            }),
    {
        let r = App {
            should_quit: false,
            project,
            sessions,
            selected_column: 0,
            selected_row: 0,
            input_mode: InputMode::Normal,
            input_buffer: String::new(),
            active_tmux_sessions: Vec::new(),
            sessions_waiting_input: Vec::new(),
            editing_session_id: None,
            moving_session_id: None,
            deleting_session_id: None,
            peek_active: false,
            edit_row: 0,
            edit_session_name: String::new(),
            edit_field_values: Vec::new(),
            edit_mode: EditMode::Manual,
            ai_input: String::new(),
            ai_running: false,
            ai_error: None,
            view: mode::View::Kanban,
            fields,
            selected_field: 0,
            editing_field_id: None,
            deleting_field_id: None,
            new_field_name: String::new(),
            new_field_desc: String::new(),
            status_message: None,
        };
        assert(r.edit_field_values.deep_view() =~= Seq::empty());
        assert(r.active_tmux_sessions.deep_view() =~= Seq::empty());
        assert(r.sessions_waiting_input.deep_view() =~= Seq::empty());
        r
    }

    /// The sessions with the given status, in the order of the list.
    pub fn sessions_by_status(&self, status: Status) -> (r: Vec<&Session>)
        ensures
            r.deep_view() == with_status(self.sessions.deep_view(), status),
    {
        let mut out: Vec<&Session> = Vec::new();
        let mut i: usize = 0;
        while i < self.sessions.len()
            invariant
                i <= self.sessions.len(),
                out.deep_view() == with_status(self.sessions.deep_view().subrange(0, i as int), status),
            decreases self.sessions.len() - i,
        {
            proof {
                let next = self.sessions.deep_view().subrange(0, i + 1);
                assert(next.drop_last() == self.sessions.deep_view().subrange(0, i as int));
                assert(next.last() == self.sessions[i as int]@);
            }
            if self.sessions[i].status == status {
                let ghost before = out.deep_view();
                out.push(&self.sessions[i]);
                assert(out.deep_view() =~= before.push(self.sessions[i as int]@));
            }
            i += 1;
        }
        assert(self.sessions.deep_view().subrange(0, self.sessions.len() as int)
            == self.sessions.deep_view());
        out
    }

    /// The selected session, if the selected column has a session at the
    /// selected row.
    pub fn selected_session(&self) -> (r: Option<&Session>)
        ensures
            match r {
                Some(x) => selected(self@) == Some(x@),
                None => selected(self@) is None,
            },
    {
        if self.selected_column >= 4 {
            return None;
        }
        let status = Status::all()[self.selected_column];
        let col = self.sessions_by_status(status);
        if self.selected_row < col.len() {
            assert(col.deep_view()[self.selected_row as int] == col[self.selected_row as int]@);
            Some(col[self.selected_row])
        } else {
            None
        }
    }

    /// How many sessions the selected column holds.
    fn column_len(&self) -> (r: usize)
        requires
            self.selected_column < 4,
        ensures
            r == column(self@).len(),
    {
        let status = Status::all()[self.selected_column];
        let col = self.sessions_by_status(status);
        col.len()
    }

    /// Brings the selected row into the selected column.
    pub fn clamp_row(&mut self)
        requires
            old(self).selected_column < 4,
        ensures
            final(self)@ == row_clamped(old(self)@),
    {
        let count = self.column_len();
        if count == 0 {
            self.selected_row = 0;
        } else if self.selected_row >= count {
            self.selected_row = count - 1;
        }
    }

    /// Takes over the sessions as the store lists them: afterwards the
    /// sessions in memory are exactly those, and the selected row lies in
    /// the selected column.
    pub fn refresh_sessions(&mut self, sessions: Vec<Session>)
        requires
            old(self).wf(),
        ensures
            final(self)@ == sessions_refreshed(old(self)@, sessions.deep_view()),
            final(self).sessions.deep_view() == sessions.deep_view(),
            final(self).wf(),
    {
        self.sessions = sessions;
        self.clamp_row();
    }

    /// Takes over the fields as the store lists them, and brings the
    /// selection among them.
    pub fn refresh_fields(&mut self, fields: Vec<Field>)
        requires
            old(self).wf(),
        ensures
            final(self)@ == fields_refreshed(old(self)@, fields.deep_view()),
            final(self).fields.deep_view() == fields.deep_view(),
            final(self).wf(),
    {
        self.fields = fields;
        let count = self.fields.len();
        if count == 0 {
            self.selected_field = 0;
        } else if self.selected_field >= count {
            self.selected_field = count - 1;
        }
    }

    /// Takes over a listing of the live terminal sessions, each with the
    /// text of its pane where that could be read. A name that the listing
    /// holds twice counts once. The sessions whose pane shows a prompt count
    /// as waiting. Returns, for each session whose terminal session on
    /// record is not among the live ones, the write that forgets it.
    pub fn refresh_tmux_sessions(&mut self, live: Vec<String>, panes: Vec<Option<String>>) -> (r:
        Vec<StoreWrite>)
        ensures
            final(self)@ == terminals_refreshed(old(self)@, live.deep_view(), panes.deep_view()),
            r.deep_view() == stale_writes(
                old(self)@.sessions,
                live.deep_view(),
                old(self)@.sessions.len() as int,
            ),
            old(self).wf() ==> final(self).wf(),
    {
        proof {
            if self.wf() {
                lemma_terminals_refreshed_keeps_wf(self@, live.deep_view(), panes.deep_view());
            }
        }
        let mut active: Vec<String> = Vec::new();
        let mut waiting: Vec<String> = Vec::new();
        let mut i: usize = 0;
        while i < live.len()
            invariant
                i <= live.len(),
                active.deep_view() == distinct_names(live.deep_view(), i as int),
                waiting.deep_view() == waiting_names(live.deep_view(), panes.deep_view(), i as int),
            decreases live.len() - i,
        {
            assert(live.deep_view()[i as int] == live[i as int]@);
            if !contains_name(&active, live[i].as_str()) {
                let mut shows = false;
                if i < panes.len() {
                    assert(panes.deep_view()[i as int] == panes[i as int].deep_view());
                    match &panes[i] {
                        Some(text) => {
                            shows = is_waiting_for_input(text.as_str());
                        },
                        None => {},
                    }
                }
                let ghost listed = active.deep_view();
                active.push(live[i].clone());
                assert(active.deep_view() =~= listed.push(live[i as int]@));
                if shows {
                    let ghost before = waiting.deep_view();
                    waiting.push(live[i].clone());
                    assert(waiting.deep_view() =~= before.push(live[i as int]@));
                }
            }
            i += 1;
        }
        let mut writes: Vec<StoreWrite> = Vec::new();
        let mut j: usize = 0;
        while j < self.sessions.len()
            invariant
                j <= self.sessions.len(),
                writes.deep_view() == stale_writes(
                    self.sessions.deep_view(),
                    live.deep_view(),
                    j as int,
                ),
            decreases self.sessions.len() - j,
        {
            assert(self.sessions.deep_view()[j as int] == self.sessions[j as int]@);
            let stale = match &self.sessions[j].tmux_window {
                Some(name) => !contains_name(&live, name.as_str()),
                None => false,
            };
            if stale {
                let ghost before = writes.deep_view();
                writes.push(StoreWrite::ClearTmuxSession { session_id: self.sessions[j].id });
                assert(writes.deep_view() =~= before.push(
                    StoreWriteView::ClearTmuxSession { session_id: self.sessions[j as int].id },
                ));
            }
            j += 1;
        }
        self.active_tmux_sessions = active;
        self.sessions_waiting_input = waiting;
        writes
    }

    /// Whether the terminal session on record for the session lives.
    pub fn has_active_terminal(&self, session: &Session) -> (r: bool)
        ensures
            r == match session@.tmux_window {
                Some(name) => has_name(self@.active_tmux_sessions, name),
                None => false,
            },
    {
        match &session.tmux_window {
            Some(name) => contains_name(&self.active_tmux_sessions, name.as_str()),
            None => false,
        }
    }

    /// Whether the terminal session on record for the session shows a
    /// prompt that waits for the user.
    pub fn is_waiting_for_input(&self, session: &Session) -> (r: bool)
        ensures
            r == match session@.tmux_window {
                Some(name) => has_name(self@.sessions_waiting_input, name),
                None => false,
            },
    {
        match &session.tmux_window {
            Some(name) => contains_name(&self.sessions_waiting_input, name.as_str()),
            None => false,
        }
    }

    /// Saves the active buffer into the row under the cursor.
    pub fn save_current_edit_row(&mut self)
        ensures
            final(self)@ == row_saved(old(self)@),
    {
        if self.edit_row == 0 {
            self.edit_session_name = self.input_buffer.clone();
        } else {
            let field_idx = self.edit_row - 1;
            if field_idx < self.edit_field_values.len() {
                let ghost before = self.edit_field_values.deep_view();
                let value = self.input_buffer.clone();
                self.edit_field_values.set(field_idx, value);
                assert(self.edit_field_values.deep_view() =~= before.update(
                    field_idx as int,
                    self.input_buffer@,
                ));
            }
        }
    }

    /// Loads the row under the cursor into the active buffer.
    pub fn load_current_edit_row(&mut self)
        ensures
            final(self)@ == row_loaded(old(self)@),
    {
        if self.edit_row == 0 {
            self.input_buffer = self.edit_session_name.clone();
        } else {
            let field_idx = self.edit_row - 1;
            if field_idx < self.edit_field_values.len() {
                assert(self.edit_field_values.deep_view()[field_idx as int]
                    == self.edit_field_values[field_idx as int]@);
                self.input_buffer = self.edit_field_values[field_idx].clone();
            } else {
                self.input_buffer = String::new();
            }
        }
    }

    /// Closes the session editor and empties its buffers.
    fn close_edit(&mut self)
        ensures
            final(self)@ == edit_closed(old(self)@),
    {
        self.input_mode = InputMode::Normal;
        self.input_buffer = String::new();
        self.editing_session_id = None;
        self.edit_session_name = String::new();
        self.edit_field_values = Vec::new();
        self.edit_mode = EditMode::Manual;
        self.ai_input = String::new();
        assert(self.edit_field_values.deep_view() =~= Seq::empty());
    }

    /// Commits the session editor: the name is written if it is not empty,
    /// every field row is written, and the editor closes.
    pub fn save_and_close_edit(&mut self) -> (r: AppAction)
        ensures
            final(self)@ == edit_saved(old(self)@).state,
            r@ == edit_saved(old(self)@).action,
    {
        let action = match self.editing_session_id {
            Some(session_id) => {
                let mut writes: Vec<StoreWrite> = Vec::new();
                if !self.edit_session_name.as_str().is_empty() {
                    writes.push(
                        StoreWrite::UpdateSessionName {
                            session_id,
                            name: self.edit_session_name.clone(),
                        },
                    );
                }
                let ghost head = writes.deep_view();
                assert(head =~= if self@.edit_session_name.len() > 0 {
                    seq![
                        StoreWriteView::UpdateSessionName {
                            session_id,
                            name: self@.edit_session_name,
                        },
                    ]
                } else {
                    Seq::empty()
                });
                let n = if self.fields.len() <= self.edit_field_values.len() {
                    self.fields.len()
                } else {
                    self.edit_field_values.len()
                };
                let mut i: usize = 0;
                while i < n
                    invariant
                        i <= n,
                        n <= self.fields.len(),
                        n <= self.edit_field_values.len(),
                        writes.deep_view() == head + value_writes(
                            self@.fields,
                            self@.edit_field_values,
                            session_id,
                            i as int,
                        ),
                    decreases n - i,
                {
                    let ghost before = writes.deep_view();
                    assert(self.fields.deep_view()[i as int] == self.fields[i as int]@);
                    assert(self.edit_field_values.deep_view()[i as int]
                        == self.edit_field_values[i as int]@);
                    writes.push(
                        StoreWrite::SetSessionFieldValue {
                            session_id,
                            field_id: self.fields[i].id,
                            value: self.edit_field_values[i].clone(),
                        },
                    );
                    assert(writes.deep_view() =~= before.push(
                        StoreWriteView::SetSessionFieldValue {
                            session_id,
                            field_id: self@.fields[i as int].id,
                            value: self@.edit_field_values[i as int],
                        },
                    ));
                    assert(writes.deep_view() =~= head + value_writes(
                        self@.fields,
                        self@.edit_field_values,
                        session_id,
                        i + 1,
                    ));
                    i += 1;
                }
                assert(writes.deep_view() =~= edit_writes(self@, session_id));
                AppAction::Commit { kill: None, writes, reload: Reload::Sessions }
            },
            None => AppAction::Nothing,
        };
        self.close_edit();
        action
    }

    /// Starts a run of the assistant on the request typed so far.
    pub fn run_ai_fill(&mut self) -> (r: AppAction)
        ensures
            final(self)@ == ai_started(old(self)@).state,
            r@ == ai_started(old(self)@).action,
    {
        if self.fields.len() == 0 {
            return AppAction::Nothing;
        }
        let mut fields: Vec<(String, String)> = Vec::new();
        let mut i: usize = 0;
        while i < self.fields.len()
            invariant
                i <= self.fields.len(),
                fields.len() == i,
                forall|k: int|
                    0 <= k < i ==> (#[trigger] fields@[k]).0@ == self.fields[k].name@ && fields@[k].1@
                        == self.fields[k].description@,
            decreases self.fields.len() - i,
        {
            let pair = (self.fields[i].name.clone(), self.fields[i].description.clone());
            fields.push(pair);
            i += 1;
        }
        assert(pairs_view(fields@) =~= field_pairs(self@.fields));
        let terminal = match self.editing_session_id {
            Some(id) => self.terminal_of(id),
            None => None,
        };
        let mut prompt = self.ai_input.clone();
        prompt.append("\nSession name: ");
        prompt.append(self.edit_session_name.as_str());
        let num_fields = self.edit_field_values.len();
        self.ai_running = true;
        self.ai_error = None;
        AppAction::RunAiFill(AiRequest { prompt, fields, terminal, num_fields })
    }

    /// The terminal session on record for the first session with the id.
    fn terminal_of(&self, id: i64) -> (r: Option<String>)
        ensures
            opt_text(r) == terminal_of(self@.sessions, Some(id)),
    {
        let mut i: usize = 0;
        assert(self@.sessions.subrange(0, self.sessions.len() as int) == self@.sessions);
        while i < self.sessions.len()
            invariant
                i <= self.sessions.len(),
                find_session(self@.sessions, id) == find_session(
                    self@.sessions.subrange(i as int, self.sessions.len() as int),
                    id,
                ),
            decreases self.sessions.len() - i,
        {
            let ghost rest = self@.sessions.subrange(i as int, self.sessions.len() as int);
            assert(rest[0] == self.sessions[i as int]@);
            assert(rest.drop_first() == self@.sessions.subrange(i + 1, self.sessions.len() as int));
            if self.sessions[i].id == id {
                return clone_text(&self.sessions[i].tmux_window);
            }
            i += 1;
        }
        assert(self@.sessions.subrange(self.sessions.len() as int, self.sessions.len() as int).len()
            == 0);
        None
    }

    /// Takes over what a run of the assistant sent back: its values go over
    /// the edited values place by place, or its error is kept for display.
    /// Either way the run is over and the editor is back in manual mode on
    /// the name row. Without a run in flight nothing happens.
    pub fn check_ai_result(&mut self, result: Result<Vec<String>, String>)
        ensures
            final(self)@ == ai_settled(old(self)@, result_view(result)),
    {
        if !self.ai_running {
            return ;
        }
        match result {
            Ok(values) => {
                overlay(&mut self.edit_field_values, &values);
                self.ai_error = None;
            },
            Err(e) => {
                self.ai_error = Some(e);
            },
        }
        self.edit_mode = EditMode::Manual;
        self.edit_row = 0;
        self.input_buffer = self.edit_session_name.clone();
        self.ai_input = String::new();
        self.ai_running = false;
    }

    /// Adds pasted text to the end of the buffer that the input mode types
    /// into.
    pub fn handle_paste(&mut self, text: &str)
        ensures
            final(self)@ == pasted(old(self)@, text@),
    {
        match self.input_mode {
            InputMode::EditSession => {
                if self.edit_mode == EditMode::AI {
                    self.ai_input.append(text);
                } else {
                    self.input_buffer.append(text);
                }
            },
            InputMode::NewSession => {
                self.input_buffer.append(text);
            },
            InputMode::NewFieldName | InputMode::EditFieldName => {
                self.new_field_name.append(text);
            },
            InputMode::NewFieldDesc | InputMode::EditFieldDesc => {
                self.new_field_desc.append(text);
            },
            _ => {},
        }
    }

    /// Enter on the board: asks for the terminal of the selected session.
    pub fn handle_enter_key(&mut self) -> (r: AppAction)
        requires
            old(self).wf(),
        ensures
            final(self)@ == enter_key(old(self)@).state,
            r@ == enter_key(old(self)@).action,
    {
        match self.selected_session() {
            Some(session) => AppAction::OpenTerminal {
                session_id: session.id,
                stored: clone_text(&session.tmux_window),
                base_name: session_name(self.project.id, session.id),
            },
            None => AppAction::Nothing,
        }
    }

    /// A key on the board.
    pub fn handle_normal_key(&mut self, key: KeyEvent) -> (r: AppAction)
        requires
            old(self).wf(),
        ensures
            final(self)@ == normal_key(old(self)@, key).state,
            r@ == normal_key(old(self)@, key).action,
    {
        let c = key.code;
        if c == KeyCode::Char('q') {
            self.should_quit = true;
        } else if c == KeyCode::Char('c') && key.modifiers.control {
            self.should_quit = true;
        } else if c == KeyCode::Char('n') {
            self.input_mode = InputMode::NewSession;
            self.input_buffer = String::new();
        } else if c == KeyCode::Char('h') || c == KeyCode::Left {
            if self.selected_column > 0 {
                self.selected_column -= 1;
                self.clamp_row();
            }
        } else if c == KeyCode::Char('l') || c == KeyCode::Right {
            if self.selected_column < 3 {
                self.selected_column += 1;
                self.clamp_row();
            }
        } else if c == KeyCode::Char('j') || c == KeyCode::Down {
            let count = self.column_len();
            if count > 0 && self.selected_row < count - 1 {
                self.selected_row += 1;
            }
        } else if c == KeyCode::Char('k') || c == KeyCode::Up {
            if self.selected_row > 0 {
                self.selected_row -= 1;
            }
        } else if c == KeyCode::Char('m') {
            let found = match self.selected_session() {
                Some(session) => Some(session.id),
                None => None,
            };
            match found {
                Some(id) => {
                    self.moving_session_id = Some(id);
                    self.input_mode = InputMode::MoveSession;
                },
                None => {},
            }
        } else if c == KeyCode::Char('d') {
            let found = match self.selected_session() {
                Some(session) => Some(session.id),
                None => None,
            };
            match found {
                Some(id) => {
                    self.deleting_session_id = Some(id);
                    self.input_mode = InputMode::ConfirmDelete;
                },
                None => {},
            }
        } else if c == KeyCode::Char('r') {
            let writes: Vec<StoreWrite> = Vec::new();
            assert(writes.deep_view() =~= Seq::empty());
            return AppAction::Commit { kill: None, writes, reload: Reload::Sessions };
        } else if c == KeyCode::Char('e') {
            let found = match self.selected_session() {
                Some(session) => Some((session.id, session.name.clone())),
                None => None,
            };
            match found {
                Some((id, name)) => {
                    self.editing_session_id = Some(id);
                    self.edit_session_name = name.clone();
                    self.edit_row = 0;
                    self.input_buffer = name;
                    self.edit_field_values = empty_texts(self.fields.len());
                    self.input_mode = InputMode::EditSession;
                    return AppAction::LoadFieldValues { session_id: id };
                },
                None => {},
            }
        } else if c == KeyCode::Enter {
            return self.handle_enter_key();
        } else if c == KeyCode::Char(' ') {
            let has_terminal = match self.selected_session() {
                Some(session) => session.tmux_window.is_some(),
                None => false,
            };
            if has_terminal {
                self.peek_active = !self.peek_active;
            }
        } else if c == KeyCode::Char('s') {
            self.view = mode::View::Settings;
            self.selected_field = 0;
        } else if c == KeyCode::Char('x') {
            return AppAction::CleanupOrphans;
        }
        AppAction::Nothing
    }

    /// A key while the name of a new session is typed.
    pub fn handle_input_key(&mut self, key: KeyEvent) -> (r: AppAction)
        ensures
            final(self)@ == input_key(old(self)@, key).state,
            r@ == input_key(old(self)@, key).action,
    {
        match key.code {
            KeyCode::Esc => {
                self.input_mode = InputMode::Normal;
                self.input_buffer = String::new();
                AppAction::Nothing
            },
            KeyCode::Enter => {
                let action = if !self.input_buffer.as_str().is_empty() {
                    let mut writes: Vec<StoreWrite> = Vec::new();
                    writes.push(
                        StoreWrite::CreateSession {
                            project_id: self.project.id,
                            name: self.input_buffer.clone(),
                        },
                    );
                    assert(writes.deep_view() =~= seq![
                        StoreWriteView::CreateSession {
                            project_id: self.project.id,
                            name: self.input_buffer@,
                        },
                    ]);
                    AppAction::Commit { kill: None, writes, reload: Reload::Sessions }
                } else {
                    AppAction::Nothing
                };
                self.input_mode = InputMode::Normal;
                self.input_buffer = String::new();
                action
            },
            KeyCode::Backspace => {
                pop_char(&mut self.input_buffer);
                AppAction::Nothing
            },
            KeyCode::Char(c) => {
                push_char(&mut self.input_buffer, c);
                AppAction::Nothing
            },
            _ => AppAction::Nothing,
        }
    }

    /// A key in the session editor while its rows are typed by hand.
    pub fn handle_manual_edit_key(&mut self, key: KeyEvent) -> (r: AppAction)
        ensures
            final(self)@ == manual_edit_key(old(self)@, key).state,
            r@ == manual_edit_key(old(self)@, key).action,
    {
        match key.code {
            KeyCode::Tab | KeyCode::Down => {
                self.save_current_edit_row();
                if self.edit_row < self.fields.len() {
                    self.edit_row += 1;
                } else {
                    self.edit_row = 0;
                }
                self.load_current_edit_row();
                AppAction::Nothing
            },
            KeyCode::BackTab | KeyCode::Up => {
                self.save_current_edit_row();
                if self.edit_row > 0 {
                    self.edit_row -= 1;
                } else {
                    self.edit_row = self.fields.len();
                }
                self.load_current_edit_row();
                AppAction::Nothing
            },
            KeyCode::Enter => {
                self.save_current_edit_row();
                self.save_and_close_edit()
            },
            KeyCode::Backspace => {
                pop_char(&mut self.input_buffer);
                AppAction::Nothing
            },
            KeyCode::Char(c) => {
                push_char(&mut self.input_buffer, c);
                AppAction::Nothing
            },
            _ => AppAction::Nothing,
        }
    }

    /// A key in the session editor while the request to the assistant is
    /// typed.
    pub fn handle_ai_edit_key(&mut self, key: KeyEvent) -> (r: AppAction)
        ensures
            final(self)@ == ai_edit_key(old(self)@, key).state,
            r@ == ai_edit_key(old(self)@, key).action,
    {
        match key.code {
            KeyCode::Tab | KeyCode::Down => {
                if self.edit_row < self.fields.len() {
                    self.edit_row += 1;
                } else {
                    self.edit_row = 0;
                }
                AppAction::Nothing
            },
            KeyCode::BackTab | KeyCode::Up => {
                if self.edit_row > 0 {
                    self.edit_row -= 1;
                } else {
                    self.edit_row = self.fields.len();
                }
                AppAction::Nothing
            },
            KeyCode::Enter => {
                if !self.ai_input.as_str().is_empty() {
                    self.run_ai_fill()
                } else {
                    AppAction::Nothing
                }
            },
            KeyCode::Backspace => {
                pop_char(&mut self.ai_input);
                AppAction::Nothing
            },
            KeyCode::Char(c) => {
                push_char(&mut self.ai_input, c);
                AppAction::Nothing
            },
            _ => AppAction::Nothing,
        }
    }

    /// A key in the session editor.
    pub fn handle_edit_session_key(&mut self, key: KeyEvent) -> (r: AppAction)
        ensures
            final(self)@ == edit_session_key(old(self)@, key).state,
            r@ == edit_session_key(old(self)@, key).action,
    {
        if key.code == KeyCode::Esc {
            self.close_edit();
            AppAction::Nothing
        } else if key.code == KeyCode::BackTab && key.modifiers.shift {
            match self.edit_mode {
                EditMode::Manual => {
                    self.save_current_edit_row();
                    self.edit_mode = EditMode::AI;
                },
                EditMode::AI => {
                    self.edit_mode = EditMode::Manual;
                    self.load_current_edit_row();
                },
            }
            AppAction::Nothing
        } else {
            match self.edit_mode {
                EditMode::Manual => self.handle_manual_edit_key(key),
                EditMode::AI => self.handle_ai_edit_key(key),
            }
        }
    }

    /// A key while a session is moved to another column.
    pub fn handle_move_key(&mut self, key: KeyEvent) -> (r: AppAction)
        ensures
            final(self)@ == move_key(old(self)@, key).state,
            r@ == move_key(old(self)@, key).action,
    {
        let target = match key.code {
            KeyCode::Char('1') => Some(Status::Planned),
            KeyCode::Char('2') => Some(Status::InProgress),
            KeyCode::Char('3') => Some(Status::Review),
            KeyCode::Char('4') => Some(Status::Done),
            _ => None,
        };
        if key.code == KeyCode::Esc {
            self.input_mode = InputMode::Normal;
            self.moving_session_id = None;
            return AppAction::Nothing;
        }
        match target {
            Some(status) => {
                let action = match self.moving_session_id {
                    Some(session_id) => {
                        let mut writes: Vec<StoreWrite> = Vec::new();
                        writes.push(StoreWrite::UpdateSessionStatus { session_id, status });
                        assert(writes.deep_view() =~= seq![
                            StoreWriteView::UpdateSessionStatus { session_id, status },
                        ]);
                        AppAction::Commit { kill: None, writes, reload: Reload::Sessions }
                    },
                    None => AppAction::Nothing,
                };
                self.input_mode = InputMode::Normal;
                self.moving_session_id = None;
                action
            },
            None => AppAction::Nothing,
        }
    }

    /// A key while the deletion of a session waits to be confirmed: `y`
    /// deletes, any other key cancels.
    pub fn handle_confirm_delete_key(&mut self, key: KeyEvent) -> (r: AppAction)
        ensures
            final(self)@ == confirm_delete_key(old(self)@, key).state,
            r@ == confirm_delete_key(old(self)@, key).action,
    {
        let c = key.code;
        if c == KeyCode::Char('y') || c == KeyCode::Char('Y') {
            let action = match self.deleting_session_id {
                Some(session_id) => {
                    let kill = self.terminal_of(session_id);
                    let mut writes: Vec<StoreWrite> = Vec::new();
                    writes.push(StoreWrite::DeleteSession { session_id });
                    assert(writes.deep_view() =~= seq![StoreWriteView::DeleteSession { session_id }]);
                    AppAction::Commit { kill, writes, reload: Reload::Sessions }
                },
                None => AppAction::Nothing,
            };
            self.input_mode = InputMode::Normal;
            self.deleting_session_id = None;
            action
        } else {
            self.input_mode = InputMode::Normal;
            self.deleting_session_id = None;
            AppAction::Nothing
        }
    }

    /// A key while the deletion of a field waits to be confirmed: `y`
    /// deletes, any other key cancels.
    pub fn handle_confirm_delete_field_key(&mut self, key: KeyEvent) -> (r: AppAction)
        ensures
            final(self)@ == confirm_delete_field_key(old(self)@, key).state,
            r@ == confirm_delete_field_key(old(self)@, key).action,
    {
        let c = key.code;
        if c == KeyCode::Char('y') || c == KeyCode::Char('Y') {
            let action = match self.deleting_field_id {
                Some(field_id) => {
                    let mut writes: Vec<StoreWrite> = Vec::new();
                    writes.push(StoreWrite::DeleteField { field_id });
                    assert(writes.deep_view() =~= seq![StoreWriteView::DeleteField { field_id }]);
                    AppAction::Commit { kill: None, writes, reload: Reload::Fields }
                },
                None => AppAction::Nothing,
            };
            self.input_mode = InputMode::Normal;
            self.deleting_field_id = None;
            action
        } else {
            self.input_mode = InputMode::Normal;
            self.deleting_field_id = None;
            AppAction::Nothing
        }
    }

    /// A key on the settings screen.
    pub fn handle_settings_key(&mut self, key: KeyEvent) -> (r: AppAction)
        ensures
            final(self)@ == settings_key(old(self)@, key).state,
            r@ == settings_key(old(self)@, key).action,
    {
        let c = key.code;
        let has_field = self.selected_field < self.fields.len();
        proof {
            if has_field {
                assert(self.fields.deep_view()[self.selected_field as int]
                    == self.fields[self.selected_field as int]@);
            }
        }
        if c == KeyCode::Char('q') || c == KeyCode::Esc {
            self.view = mode::View::Kanban;
        } else if c == KeyCode::Char('c') && key.modifiers.control {
            self.should_quit = true;
        } else if c == KeyCode::Char('j') || c == KeyCode::Down {
            if self.fields.len() > 0 && self.selected_field < self.fields.len() - 1 {
                self.selected_field += 1;
            }
        } else if c == KeyCode::Char('k') || c == KeyCode::Up {
            if self.selected_field > 0 {
                self.selected_field -= 1;
            }
        } else if c == KeyCode::Char('n') {
            self.new_field_name = String::new();
            self.new_field_desc = String::new();
            self.input_mode = InputMode::NewFieldName;
        } else if c == KeyCode::Char('e') {
            if has_field {
                self.editing_field_id = Some(self.fields[self.selected_field].id);
                self.new_field_name = self.fields[self.selected_field].name.clone();
                self.new_field_desc = self.fields[self.selected_field].description.clone();
                self.input_mode = InputMode::EditFieldName;
            }
        } else if c == KeyCode::Char('d') {
            if has_field {
                self.deleting_field_id = Some(self.fields[self.selected_field].id);
                self.input_mode = InputMode::ConfirmDeleteField;
            }
        } else if c == KeyCode::Char('K') {
            if has_field {
                let field_id = self.fields[self.selected_field].id;
                let mut writes: Vec<StoreWrite> = Vec::new();
                writes.push(StoreWrite::MoveFieldUp { project_id: self.project.id, field_id });
                assert(writes.deep_view() =~= seq![
                    StoreWriteView::MoveFieldUp { project_id: self.project.id, field_id },
                ]);
                if self.selected_field > 0 {
                    self.selected_field -= 1;
                }
                return AppAction::Commit { kill: None, writes, reload: Reload::Fields };
            }
        } else if c == KeyCode::Char('J') {
            if has_field {
                let field_id = self.fields[self.selected_field].id;
                let mut writes: Vec<StoreWrite> = Vec::new();
                writes.push(StoreWrite::MoveFieldDown { project_id: self.project.id, field_id });
                assert(writes.deep_view() =~= seq![
                    StoreWriteView::MoveFieldDown { project_id: self.project.id, field_id },
                ]);
                if self.selected_field < self.fields.len() - 1 {
                    self.selected_field += 1;
                }
                return AppAction::Commit { kill: None, writes, reload: Reload::Fields };
            }
        } else if c == KeyCode::Char('v') {
            if has_field {
                let field_id = self.fields[self.selected_field].id;
                let mut writes: Vec<StoreWrite> = Vec::new();
                writes.push(StoreWrite::ToggleFieldVisibility { field_id });
                assert(writes.deep_view() =~= seq![
                    StoreWriteView::ToggleFieldVisibility { field_id },
                ]);
                return AppAction::Commit { kill: None, writes, reload: Reload::Fields };
            }
        }
        AppAction::Nothing
    }

    /// Closes the field editor and empties its buffers.
    fn close_field(&mut self)
        ensures
            final(self)@ == field_closed(old(self)@),
    {
        self.input_mode = InputMode::Normal;
        self.new_field_name = String::new();
        self.new_field_desc = String::new();
    }

    /// A key while the name of a new field is typed.
    pub fn handle_new_field_name_key(&mut self, key: KeyEvent) -> (r: AppAction)
        ensures
            final(self)@ == new_field_name_key(old(self)@, key).state,
            r@ == new_field_name_key(old(self)@, key).action,
    {
        match key.code {
            KeyCode::Esc => {
                self.close_field();
            },
            KeyCode::Enter => {
                if !self.new_field_name.as_str().is_empty() {
                    self.input_mode = InputMode::NewFieldDesc;
                }
            },
            KeyCode::Backspace => {
                pop_char(&mut self.new_field_name);
            },
            KeyCode::Char(c) => {
                push_char(&mut self.new_field_name, c);
            },
            _ => {},
        }
        AppAction::Nothing
    }

    /// A key while the description of a new field is typed.
    pub fn handle_new_field_desc_key(&mut self, key: KeyEvent) -> (r: AppAction)
        ensures
            final(self)@ == new_field_desc_key(old(self)@, key).state,
            r@ == new_field_desc_key(old(self)@, key).action,
    {
        match key.code {
            KeyCode::Esc => {
                self.close_field();
                AppAction::Nothing
            },
            KeyCode::Enter => {
                let mut writes: Vec<StoreWrite> = Vec::new();
                writes.push(
                    StoreWrite::CreateField {
                        project_id: self.project.id,
                        name: self.new_field_name.clone(),
                        description: self.new_field_desc.clone(),
                    },
                );
                assert(writes.deep_view() =~= seq![
                    StoreWriteView::CreateField {
                        project_id: self.project.id,
                        name: self.new_field_name@,
                        description: self.new_field_desc@,
                    },
                ]);
                self.close_field();
                AppAction::Commit { kill: None, writes, reload: Reload::Fields }
            },
            KeyCode::Backspace => {
                pop_char(&mut self.new_field_desc);
                AppAction::Nothing
            },
            KeyCode::Char(c) => {
                push_char(&mut self.new_field_desc, c);
                AppAction::Nothing
            },
            _ => AppAction::Nothing,
        }
    }

    /// A key while the name of an edited field is typed.
    pub fn handle_edit_field_name_key(&mut self, key: KeyEvent) -> (r: AppAction)
        ensures
            final(self)@ == edit_field_name_key(old(self)@, key).state,
            r@ == edit_field_name_key(old(self)@, key).action,
    {
        match key.code {
            KeyCode::Esc => {
                self.close_field();
                self.editing_field_id = None;
            },
            KeyCode::Enter => {
                if !self.new_field_name.as_str().is_empty() {
                    self.input_mode = InputMode::EditFieldDesc;
                }
            },
            KeyCode::Backspace => {
                pop_char(&mut self.new_field_name);
            },
            KeyCode::Char(c) => {
                push_char(&mut self.new_field_name, c);
            },
            _ => {},
        }
        AppAction::Nothing
    }

    /// A key while the description of an edited field is typed.
    pub fn handle_edit_field_desc_key(&mut self, key: KeyEvent) -> (r: AppAction)
        ensures
            final(self)@ == edit_field_desc_key(old(self)@, key).state,
            r@ == edit_field_desc_key(old(self)@, key).action,
    {
        match key.code {
            KeyCode::Esc => {
                self.close_field();
                self.editing_field_id = None;
                AppAction::Nothing
            },
            KeyCode::Enter => {
                let action = match self.editing_field_id {
                    Some(field_id) => {
                        let mut writes: Vec<StoreWrite> = Vec::new();
                        writes.push(
                            StoreWrite::UpdateField {
                                field_id,
                                name: self.new_field_name.clone(),
                                description: self.new_field_desc.clone(),
                            },
                        );
                        assert(writes.deep_view() =~= seq![
                            StoreWriteView::UpdateField {
                                field_id,
                                name: self.new_field_name@,
                                description: self.new_field_desc@,
                            },
                        ]);
                        AppAction::Commit { kill: None, writes, reload: Reload::Fields }
                    },
                    None => AppAction::Nothing,
                };
                self.close_field();
                self.editing_field_id = None;
                action
            },
            KeyCode::Backspace => {
                pop_char(&mut self.new_field_desc);
                AppAction::Nothing
            },
            KeyCode::Char(c) => {
                push_char(&mut self.new_field_desc, c);
                AppAction::Nothing
            },
            _ => AppAction::Nothing,
        }
    }

    /// A key press. While the assistant runs it is ignored; else it clears
    /// the status message and goes to the handler of the input mode.
    pub fn handle_key(&mut self, key: KeyEvent) -> (r: AppAction)
        requires
            old(self).wf(),
        ensures
            final(self)@ == key_step(old(self)@, key).state,
            r@ == key_step(old(self)@, key).action,
    {
        if self.ai_running {
            return AppAction::Nothing;
        }
        self.status_message = None;
        match self.input_mode {
            InputMode::Normal => match self.view {
                mode::View::Kanban => self.handle_normal_key(key),
                mode::View::Settings => self.handle_settings_key(key),
            },
            InputMode::NewSession => self.handle_input_key(key),
            InputMode::EditSession => self.handle_edit_session_key(key),
            InputMode::MoveSession => self.handle_move_key(key),
            InputMode::ConfirmDelete => self.handle_confirm_delete_key(key),
            InputMode::ConfirmDeleteField => self.handle_confirm_delete_field_key(key),
            InputMode::NewFieldName => self.handle_new_field_name_key(key),
            InputMode::NewFieldDesc => self.handle_new_field_desc_key(key),
            InputMode::EditFieldName => self.handle_edit_field_name_key(key),
            InputMode::EditFieldDesc => self.handle_edit_field_desc_key(key),
        }
    }

    /// One turn of the event loop: takes over what the assistant sent, if
    /// anything came, then handles the event from the terminal, if there is
    /// one. While the assistant runs, keys and pasted text change nothing.
    /// The selection stays within what is shown.
    pub fn handle_events(
        &mut self,
        ai_result: Option<Result<Vec<String>, String>>,
        event: Option<Event>,
    ) -> (r: AppAction)
        requires
            old(self).wf(),
        ensures
            final(self)@ == event_step(old(self)@, ai_view(ai_result), event_view(event)).state,
            r@ == event_step(old(self)@, ai_view(ai_result), event_view(event)).action,
            final(self).wf(),
            old(self).ai_running && ai_result is None ==> final(self)@ == old(self)@ && r@
                == AppActionView::Nothing,
    {
        proof {
            lemma_event_step_keeps_wf(self@, ai_view(ai_result), event_view(event));
            if self.ai_running {
                lemma_ignored_while_running(self@, event_view(event));
            }
        }
        match ai_result {
            Some(result) => {
                self.check_ai_result(result);
            },
            None => {},
        }
        match event {
            Some(Event::Key(key)) => self.handle_key(key),
            Some(Event::Paste(text)) => {
                if !self.ai_running {
                    self.handle_paste(text.as_str());
                }
                AppAction::Nothing
            },
            _ => AppAction::Nothing,
        }
    }

    /// Takes over the values of the fields for the session under edit, as
    /// read from the store in the order of the fields: they are cut or filled
    /// up to one per field and become the field rows of the editor. Values
    /// for another session, or outside the session editor, change nothing.
    pub fn load_field_values(&mut self, session_id: i64, values: Vec<String>)
        ensures
            final(self)@ == values_loaded(old(self)@, session_id, values.deep_view()),
            old(self).wf() ==> final(self).wf(),
    {
        let editing = match self.editing_session_id {
            Some(id) => id == session_id,
            None => false,
        };
        if self.input_mode == InputMode::EditSession && editing {
            self.edit_field_values = fit_values(values, self.fields.len());
            self.load_current_edit_row();
        }
    }

    /// Takes note that the terminal session `tmux_name` was made: it counts
    /// as live from now on. Asks to attach to it.
    pub fn terminal_created(&mut self, tmux_name: String) -> (r: AppAction)
        ensures
            final(self)@ == (AppView {
                active_tmux_sessions: with_name(old(self)@.active_tmux_sessions, tmux_name@),
                ..old(self)@
            }),
            r@ == AppActionView::AttachTmux(tmux_name@),
            old(self).wf() ==> final(self).wf(),
    {
        proof {
            if self.wf() {
                lemma_with_name_distinct(self@.active_tmux_sessions, tmux_name@);
            }
        }
        if !contains_name(&self.active_tmux_sessions, tmux_name.as_str()) {
            let ghost before = self.active_tmux_sessions.deep_view();
            self.active_tmux_sessions.push(tmux_name.clone());
            assert(self.active_tmux_sessions.deep_view() =~= before.push(tmux_name@));
        }
        AppAction::AttachTmux(tmux_name)
    }

    /// Whether a session has `name` on record as its terminal session.
    fn tracks(&self, name: &str) -> (r: bool)
        ensures
            r == is_tracked(self@.sessions, name@),
    {
        let mut i: usize = 0;
        while i < self.sessions.len()
            invariant
                i <= self.sessions.len(),
                forall|k: int|
                    0 <= k < i ==> (#[trigger] self@.sessions[k]).tmux_window != Some(name@),
            decreases self.sessions.len() - i,
        {
            assert(self.sessions.deep_view()[i as int] == self.sessions[i as int]@);
            let found = match &self.sessions[i].tmux_window {
                Some(t) => str_eq(t.as_str(), name),
                None => false,
            };
            if found {
                return true;
            }
            i += 1;
        }
        false
    }

    /// Among the terminal sessions found under the project's prefix, those
    /// that no session has on record: the ones a cleanup must end.
    pub fn orphaned_tmux_sessions(&self, names: &Vec<String>) -> (r: Vec<String>)
        ensures
            r.deep_view() == orphans(self@.sessions, names.deep_view(), names.len() as int),
    {
        let mut out: Vec<String> = Vec::new();
        let mut i: usize = 0;
        while i < names.len()
            invariant
                i <= names.len(),
                out.deep_view() == orphans(self@.sessions, names.deep_view(), i as int),
            decreases names.len() - i,
        {
            assert(names.deep_view()[i as int] == names[i as int]@);
            if !self.tracks(names[i].as_str()) {
                let ghost before = out.deep_view();
                out.push(names[i].clone());
                assert(out.deep_view() =~= before.push(names[i as int]@));
            }
            i += 1;
        }
        out
    }

    /// Reports a cleanup on the status line: how many orphaned terminal
    /// sessions were ended.
    pub fn cleanup_orphaned_tmux_sessions(&mut self, killed: usize)
        ensures
            final(self)@ == (AppView {
                status_message: Some(cleanup_message(killed as int)),
                ..old(self)@
            }),
            old(self).wf() ==> final(self).wf(),
    {
        let message = if killed == 0 {
            String::from_str("No orphaned sessions found")
        } else {
            let mut m = String::from_str("Cleaned up ");
            let n = decimal_u64(killed as u64);
            m.append(n.as_str());
            m.append(" orphaned session");
            if killed != 1 {
                m.append("s");
            }
            m
        };
        self.status_message = Some(message);
    }
}

} // verus!
