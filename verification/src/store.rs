//! The record store: projects, sessions, fields and field values in an
//! SQLite database.

use crate::action::{StoreWrite, StoreWriteView};
use crate::db::{
    plan_move_down, plan_move_up, status_from_stored, Field, FieldView, OrderSwap, Project,
    ProjectView, Session, SessionView, Status,
};
use vstd::pervasive::unreached;
use vstd::prelude::*;
use vstd::string::*;

verus! {

/// A value bound to a statement or read from a row.
#[derive(Debug, Clone)]
pub enum SqlValue {
    Null,
    Integer(i64),
    Text(String),
    /// A value of a kind that the schema does not use.
    Other,
}

/// A value over plain values.
pub enum SqlValueView {
    Null,
    Integer(i64),
    Text(Seq<char>),
    Other,
}

impl View for SqlValue {
    type V = SqlValueView;

    open spec fn view(&self) -> SqlValueView {
        match *self {
            SqlValue::Null => SqlValueView::Null,
            SqlValue::Integer(i) => SqlValueView::Integer(i),
            SqlValue::Text(t) => SqlValueView::Text(t@),
            SqlValue::Other => SqlValueView::Other,
        }
    }
}

impl DeepView for SqlValue {
    type V = SqlValueView;

    open spec fn deep_view(&self) -> SqlValueView {
        self@
    }
}

/// Why the store could not do what was asked.
#[derive(Debug, Clone)]
pub enum StoreError {
    /// The database failed or refused; holds its message.
    Database(String),
    /// A row does not have the shape or the place that the schema and the
    /// query promise.
    Malformed,
    /// The fields of the project have used up the display orders.
    OrderExhausted,
}

impl StoreError {
    /// The message shown for the error.
    pub fn message(&self) -> (r: String)
        ensures
            r@ == match *self {
                StoreError::Database(m) => m@,
                StoreError::Malformed => "The record store returned a malformed row"@,
                StoreError::OrderExhausted => "No display order is left for another field"@,
            },
    {
        match self {
            StoreError::Database(m) => m.clone(),
            StoreError::Malformed => String::from_str("The record store returned a malformed row"),
            StoreError::OrderExhausted => String::from_str(
                "No display order is left for another field",
            ),
        }
    }
}

/// `rusqlite::Connection`: an open database.
#[verifier::external_type_specification]
#[verifier::external_body]
pub struct ExConnection(rusqlite::Connection);

/// `rusqlite::Error`: why a call of the database failed.
#[verifier::external_type_specification]
#[verifier::external_body]
pub struct ExSqlError(rusqlite::Error);

/// `rusqlite::types::Value`: a value as the database binds and gives it.
#[verifier::external_type_specification]
#[verifier::external_body]
pub struct ExOutsideValue(rusqlite::types::Value);

/// `rusqlite::Row`: one row of the answer to a query.
#[verifier::external_type_specification]
#[verifier::external_body]
pub struct ExRow<'a>(rusqlite::Row<'a>);

/// Turns a value into a `rusqlite::types::Value`, variant for variant; a
/// value of another kind becomes `Null`. Nothing is claimed of the outcome.
#[verifier::external_body]
fn outside_value(value: &SqlValue) -> rusqlite::types::Value {
    match value {
        SqlValue::Null => rusqlite::types::Value::Null,
        SqlValue::Integer(i) => rusqlite::types::Value::Integer(*i),
        SqlValue::Text(t) => rusqlite::types::Value::Text(t.clone()),
        SqlValue::Other => rusqlite::types::Value::Null,
    }
}

/// Name for what `rusqlite` gives for the columns of a row, in their order:
/// for each column its value, or `None` where the column holds a text that
/// is no UTF-8.
pub uninterp spec fn row_values(row: &rusqlite::Row<'_>) -> Seq<Option<SqlValueView>>;

/// `rusqlite::Row::get_ref`, and for a text `rusqlite::Row::get` at
/// `String`: the value in a column of a row, variant for variant. An index
/// behind the last column gives an error, and so does a text that is no
/// UTF-8; every other column gives its value.
#[verifier::external_body]
fn column_value(row: &rusqlite::Row<'_>, index: usize) -> (r: Result<SqlValue, rusqlite::Error>)
    ensures
        match r {
            Ok(v) => index < row_values(row).len() && row_values(row)[index as int] == Some(v@),
            Err(_) => index >= row_values(row).len() || row_values(row)[index as int] is None,
        },
{
    match row.get_ref(index)? {
        rusqlite::types::ValueRef::Null => Ok(SqlValue::Null),
        rusqlite::types::ValueRef::Integer(i) => Ok(SqlValue::Integer(i)),
        rusqlite::types::ValueRef::Text(_) => row.get::<usize, String>(index).map(SqlValue::Text),
        rusqlite::types::ValueRef::Real(_) => Ok(SqlValue::Other),
        rusqlite::types::ValueRef::Blob(_) => Ok(SqlValue::Other),
    }
}

/// The display text of a `rusqlite::Error`. Nothing is claimed of the
/// outcome.
#[verifier::external_body]
fn error_text(error: &rusqlite::Error) -> String {
    format!("{}", error)
}

/// `rusqlite::Connection::open`: opens the database at the path, making it
/// if there is none. Nothing is claimed of the outcome.
#[verifier::external_body]
fn open_connection(path: &str) -> Result<rusqlite::Connection, rusqlite::Error> {
    rusqlite::Connection::open(path)
}

/// `rusqlite::Connection::execute_batch`: runs statements separated by
/// semicolons. Nothing is claimed of the outcome.
#[verifier::external_body]
fn run_batch(conn: &rusqlite::Connection, sql: &str) -> Result<(), rusqlite::Error> {
    conn.execute_batch(sql)
}

/// `rusqlite::Connection::execute` with the parameters bound by position
/// through `rusqlite::params_from_iter`: runs one statement and gives the
/// number of rows it changed. Nothing is claimed of the outcome.
#[verifier::external_body]
fn run_statement(
    conn: &rusqlite::Connection,
    sql: &str,
    params: &Vec<rusqlite::types::Value>,
) -> Result<usize, rusqlite::Error> {
    conn.execute(sql, rusqlite::params_from_iter(params.iter()))
}

/// `rusqlite::Connection::prepare` and `Statement::query_map` with the
/// parameters bound by position through `rusqlite::params_from_iter`: runs a
/// query and gives what `read_row` makes of each row. Every row that comes
/// back holds `columns` values, as `read_row` gives them; nothing else is
/// claimed of the outcome.
#[verifier::external_body]
fn run_query(
    conn: &rusqlite::Connection,
    sql: &str,
    params: &Vec<rusqlite::types::Value>,
    columns: usize,
) -> (r: Result<Vec<Vec<SqlValue>>, rusqlite::Error>)
    ensures
        r is Ok ==> forall|i: int| 0 <= i < r->Ok_0.len() ==> (#[trigger] r->Ok_0[i]).len() == columns,
{
    let mut stmt = conn.prepare(sql)?;
    let rows = stmt.query_map(rusqlite::params_from_iter(params.iter()), |row| {
        read_row(row, columns)
    })?;
    rows.collect()
}

/// `rusqlite::Connection::last_insert_rowid`: the row id of the most recent
/// successful insert on the connection. Nothing is claimed of the outcome.
#[verifier::external_body]
fn last_rowid(conn: &rusqlite::Connection) -> i64 {
    conn.last_insert_rowid()
}

/// The first `columns` columns of a row can all be read: the row has that
/// many columns, and none of them holds a text that is no UTF-8.
pub open spec fn row_readable(values: Seq<Option<SqlValueView>>, columns: int) -> bool {
    columns <= values.len() && forall|i: int| 0 <= i < columns ==> (#[trigger] values[i]) is Some
}

/// The values of the first `columns` columns of a row, in their order. They
/// come back exactly where all of them can be read; else the error of the
/// first that cannot.
fn read_row(row: &rusqlite::Row<'_>, columns: usize) -> (r: Result<Vec<SqlValue>, rusqlite::Error>)
    ensures
        match r {
            Ok(values) => row_readable(row_values(row), columns as int) && values.len() == columns
                && forall|i: int|
                0 <= i < columns ==> row_values(row)[i] == Some(#[trigger] values.deep_view()[i]),
            Err(_) => !row_readable(row_values(row), columns as int),
        },
{
    let mut values: Vec<SqlValue> = Vec::new();
    let mut i: usize = 0;
    while i < columns
        invariant
            i <= columns,
            values.len() == i,
            i <= row_values(row).len(),
            forall|k: int|
                0 <= k < i ==> row_values(row)[k] == Some(#[trigger] values.deep_view()[k]),
            forall|k: int| 0 <= k < i ==> (#[trigger] row_values(row)[k]) is Some,
        decreases columns - i,
    {
        match column_value(row, i) {
            Ok(v) => {
                let ghost before = values.deep_view();
                values.push(v);
                assert(values.deep_view() =~= before.push(v@));
            },
            Err(e) => {
                assert(i >= row_values(row).len() || !(row_values(row)[i as int] is Some));
                return Err(e);
            },
        }
        i += 1;
    }
    Ok(values)
}

/// The values in the shape in which the database binds them.
fn bind(params: &Vec<SqlValue>) -> (r: Vec<rusqlite::types::Value>)
    ensures
        r.len() == params.len(),
{
    let mut out: Vec<rusqlite::types::Value> = Vec::new();
    let mut i: usize = 0;
    while i < params.len()
        invariant
            i <= params.len(),
            out.len() == i,
        decreases params.len() - i,
    {
        out.push(outside_value(&params[i]));
        i += 1;
    }
    out
}

/// The integer that a value holds.
pub open spec fn integer_of(v: SqlValueView) -> Option<i64> {
    match v {
        SqlValueView::Integer(i) => Some(i),
        _ => None,
    }
}

/// The text that a value holds.
pub open spec fn text_of(v: SqlValueView) -> Option<Seq<char>> {
    match v {
        SqlValueView::Text(t) => Some(t),
        _ => None,
    }
}

/// The text that a value of a column that may be empty holds: no text for
/// `Null`.
pub open spec fn optional_text_of(v: SqlValueView) -> Option<Option<Seq<char>>> {
    match v {
        SqlValueView::Null => Some(None),
        SqlValueView::Text(t) => Some(Some(t)),
        _ => None,
    }
}

/// The integer that a value holds.
fn as_integer(v: &SqlValue) -> (r: Option<i64>)
    ensures
        r == integer_of(v@),
{
    match v {
        SqlValue::Integer(i) => Some(*i),
        _ => None,
    }
}

/// The text that a value holds.
fn as_text(v: &SqlValue) -> (r: Option<String>)
    ensures
        match r {
            Some(t) => text_of(v@) == Some(t@),
            None => text_of(v@) is None,
        },
{
    match v {
        SqlValue::Text(t) => Some(t.clone()),
        _ => None,
    }
}

/// The text that a value of a column that may be empty holds.
fn as_optional_text(v: &SqlValue) -> (r: Option<Option<String>>)
    ensures
        match r {
            Some(t) => optional_text_of(v@) == Some(crate::db::opt_text(t)),
            None => optional_text_of(v@) is None,
        },
{
    match v {
        SqlValue::Null => Some(None),
        SqlValue::Text(t) => Some(Some(t.clone())),
        _ => None,
    }
}

/// The project that a row of `id, name, path` stands for.
pub open spec fn project_of_row(row: Seq<SqlValueView>) -> Option<ProjectView> {
    if row.len() == 3 && integer_of(row[0]) is Some && text_of(row[1]) is Some && text_of(row[2])
        is Some {
        Some(
            ProjectView {
                id: integer_of(row[0])->Some_0,
                name: text_of(row[1])->Some_0,
                path: text_of(row[2])->Some_0,
            },
        )
    } else {
        None
    }
}

/// The status that a stored text stands for, `Planned` for any other text.
pub open spec fn stored_status(text: Seq<char>) -> Status {
    match Status::parse(text) {
        Some(s) => s,
        None => Status::Planned,
    }
}

/// The session that a row of the ten columns of a session stands for.
pub open spec fn session_of_row(row: Seq<SqlValueView>) -> Option<SessionView> {
    if row.len() == 10 && integer_of(row[0]) is Some && integer_of(row[1]) is Some && text_of(
        row[2],
    ) is Some && text_of(row[3]) is Some && optional_text_of(row[4]) is Some && optional_text_of(
        row[5],
    ) is Some && optional_text_of(row[6]) is Some && optional_text_of(row[7]) is Some
        && optional_text_of(row[8]) is Some && optional_text_of(row[9]) is Some {
        Some(
            SessionView {
                id: integer_of(row[0])->Some_0,
                project_id: integer_of(row[1])->Some_0,
                name: text_of(row[2])->Some_0,
                status: stored_status(text_of(row[3])->Some_0),
                checkout_path: optional_text_of(row[4])->Some_0,
                branch_name: optional_text_of(row[5])->Some_0,
                ticket_id: optional_text_of(row[6])->Some_0,
                ticket_url: optional_text_of(row[7])->Some_0,
                tmux_window: optional_text_of(row[8])->Some_0,
                claude_session_id: optional_text_of(row[9])->Some_0,
            },
        )
    } else {
        None
    }
}

/// The field that a row of the six columns of a field stands for. The field
/// is visible unless the last column holds 0.
pub open spec fn field_of_row(row: Seq<SqlValueView>) -> Option<FieldView> {
    if row.len() == 6 && integer_of(row[0]) is Some && integer_of(row[1]) is Some && text_of(row[2])
        is Some && text_of(row[3]) is Some && integer_of(row[4]) is Some && integer_of(row[5])
        is Some {
        Some(
            FieldView {
                id: integer_of(row[0])->Some_0,
                project_id: integer_of(row[1])->Some_0,
                name: text_of(row[2])->Some_0,
                description: text_of(row[3])->Some_0,
                display_order: integer_of(row[4])->Some_0,
                visible: integer_of(row[5])->Some_0 != 0,
            },
        )
    } else {
        None
    }
}

/// Reads a row of `id, name, path` as a project.
pub fn project_from_row(row: &Vec<SqlValue>) -> (r: Option<Project>)
    ensures
        match r {
            Some(p) => project_of_row(row.deep_view()) == Some(p@),
            None => project_of_row(row.deep_view()) is None,
        },
{
    if row.len() != 3 {
        return None;
    }
    assert(row.deep_view()[0] == row[0]@ && row.deep_view()[1] == row[1]@ && row.deep_view()[2]
        == row[2]@);
    let id = as_integer(&row[0])?;
    let name = as_text(&row[1])?;
    let path = as_text(&row[2])?;
    Some(Project { id, name, path })
}

/// Reads a row of the ten columns of a session as a session.
pub fn session_from_row(row: &Vec<SqlValue>) -> (r: Option<Session>)
    ensures
        match r {
            Some(x) => session_of_row(row.deep_view()) == Some(x@),
            None => session_of_row(row.deep_view()) is None,
        },
{
    if row.len() != 10 {
        return None;
    }
    assert(forall|i: int| 0 <= i < 10 ==> #[trigger] row.deep_view()[i] == row[i]@);
    let id = as_integer(&row[0])?;
    let project_id = as_integer(&row[1])?;
    let name = as_text(&row[2])?;
    let status_text = as_text(&row[3])?;
    let checkout_path = as_optional_text(&row[4])?;
    let branch_name = as_optional_text(&row[5])?;
    let ticket_id = as_optional_text(&row[6])?;
    let ticket_url = as_optional_text(&row[7])?;
    let tmux_window = as_optional_text(&row[8])?;
    let claude_session_id = as_optional_text(&row[9])?;
    Some(
        Session {
            id,
            project_id,
            name,
            status: status_from_stored(status_text.as_str()),
            checkout_path,
            branch_name,
            ticket_id,
            ticket_url,
            tmux_window,
            claude_session_id,
        },
    )
}

/// Reads a row of the six columns of a field as a field.
pub fn field_from_row(row: &Vec<SqlValue>) -> (r: Option<Field>)
    ensures
        match r {
            Some(f) => field_of_row(row.deep_view()) == Some(f@),
            None => field_of_row(row.deep_view()) is None,
        },
{
    if row.len() != 6 {
        return None;
    }
    assert(forall|i: int| 0 <= i < 6 ==> #[trigger] row.deep_view()[i] == row[i]@);
    let id = as_integer(&row[0])?;
    let project_id = as_integer(&row[1])?;
    let name = as_text(&row[2])?;
    let description = as_text(&row[3])?;
    let display_order = as_integer(&row[4])?;
    let visible = as_integer(&row[5])?;
    Some(Field { id, project_id, name, description, display_order, visible: visible != 0 })
}

/// Makes the tables that are missing, and lets the removal of a session or
/// a field take its values along.
pub const SCHEMA: &'static str =
    "
    PRAGMA foreign_keys = ON;

    CREATE TABLE IF NOT EXISTS projects (
        id INTEGER PRIMARY KEY,
        name TEXT NOT NULL,
        path TEXT NOT NULL UNIQUE
    );

    CREATE TABLE IF NOT EXISTS sessions (
        id INTEGER PRIMARY KEY,
        project_id INTEGER NOT NULL,
        name TEXT NOT NULL,
        status TEXT NOT NULL DEFAULT 'planned',
        checkout_path TEXT,
        branch_name TEXT,
        ticket_id TEXT,
        ticket_url TEXT,
        tmux_window TEXT,
        claude_session_id TEXT,
        created_at TEXT DEFAULT CURRENT_TIMESTAMP,
        updated_at TEXT DEFAULT CURRENT_TIMESTAMP,
        FOREIGN KEY (project_id) REFERENCES projects(id)
    );

    CREATE TABLE IF NOT EXISTS fields (
        id INTEGER PRIMARY KEY,
        project_id INTEGER NOT NULL,
        name TEXT NOT NULL,
        description TEXT NOT NULL DEFAULT '',
        display_order INTEGER NOT NULL DEFAULT 0,
        visible INTEGER NOT NULL DEFAULT 1,
        FOREIGN KEY (project_id) REFERENCES projects(id)
    );

    CREATE TABLE IF NOT EXISTS session_field_values (
        id INTEGER PRIMARY KEY,
        session_id INTEGER NOT NULL,
        field_id INTEGER NOT NULL,
        value TEXT NOT NULL DEFAULT '',
        FOREIGN KEY (session_id) REFERENCES sessions(id) ON DELETE CASCADE,
        FOREIGN KEY (field_id) REFERENCES fields(id) ON DELETE CASCADE,
        UNIQUE(session_id, field_id)
    );
    ";

/// Finds the project kept for a path.
pub const SELECT_PROJECT: &'static str = "SELECT id, name, path FROM projects WHERE path = ?1";

/// Adds a project.
pub const INSERT_PROJECT: &'static str = "INSERT INTO projects (name, path) VALUES (?1, ?2)";

/// Lists the sessions of a project, by rising id.
pub const SELECT_SESSIONS: &'static str =
    "SELECT id, project_id, name, status, checkout_path, branch_name, ticket_id, ticket_url, tmux_window, claude_session_id FROM sessions WHERE project_id = ?1 ORDER BY id";

/// Adds a planned session.
pub const INSERT_SESSION: &'static str =
    "INSERT INTO sessions (project_id, name, status) VALUES (?1, ?2, 'planned')";

/// Sets the status of a session.
pub const UPDATE_SESSION_STATUS: &'static str =
    "UPDATE sessions SET status = ?1, updated_at = CURRENT_TIMESTAMP WHERE id = ?2";

/// Sets the name of a session.
pub const UPDATE_SESSION_NAME: &'static str =
    "UPDATE sessions SET name = ?1, updated_at = CURRENT_TIMESTAMP WHERE id = ?2";

/// Removes a session.
pub const DELETE_SESSION: &'static str = "DELETE FROM sessions WHERE id = ?1";

/// Records the terminal session of a session.
pub const SET_TMUX_SESSION: &'static str =
    "UPDATE sessions SET tmux_window = ?1, updated_at = CURRENT_TIMESTAMP WHERE id = ?2";

/// Forgets the terminal session of a session.
pub const CLEAR_TMUX_SESSION: &'static str =
    "UPDATE sessions SET tmux_window = NULL, updated_at = CURRENT_TIMESTAMP WHERE id = ?1";

/// Lists the fields of a project, by `display_order` and then by id.
pub const SELECT_FIELDS: &'static str =
    "SELECT id, project_id, name, description, display_order, visible FROM fields WHERE project_id = ?1 ORDER BY display_order, id";

/// Finds the last `display_order` in use in a project, -1 where it has no field.
pub const SELECT_LAST_ORDER: &'static str =
    "SELECT COALESCE(MAX(display_order), -1) FROM fields WHERE project_id = ?1";

/// Adds a field.
pub const INSERT_FIELD: &'static str =
    "INSERT INTO fields (project_id, name, description, display_order) VALUES (?1, ?2, ?3, ?4)";

/// Sets name and description of a field.
pub const UPDATE_FIELD: &'static str = "UPDATE fields SET name = ?1, description = ?2 WHERE id = ?3";

/// Removes a field.
pub const DELETE_FIELD: &'static str = "DELETE FROM fields WHERE id = ?1";

/// Flips whether a field is shown on the cards.
pub const TOGGLE_FIELD_VISIBILITY: &'static str =
    "UPDATE fields SET visible = NOT visible WHERE id = ?1";

/// Sets the `display_order` of a field.
pub const UPDATE_FIELD_ORDER: &'static str = "UPDATE fields SET display_order = ?1 WHERE id = ?2";

/// Finds the value of a field for a session.
pub const SELECT_FIELD_VALUE: &'static str =
    "SELECT value FROM session_field_values WHERE session_id = ?1 AND field_id = ?2";

/// Sets the value of a field for a session, kept before or not.
pub const SET_FIELD_VALUE: &'static str =
    "INSERT INTO session_field_values (session_id, field_id, value) VALUES (?1, ?2, ?3) ON CONFLICT(session_id, field_id) DO UPDATE SET value = ?3";

/// Lists the values kept for a session.
pub const SELECT_SESSION_VALUES: &'static str =
    "SELECT field_id, value FROM session_field_values WHERE session_id = ?1";

/// A statement with the values bound to its parameters, by position.
#[derive(Debug, Clone)]
pub struct Statement {
    pub sql: &'static str,
    pub params: Vec<SqlValue>,
}

/// A statement over plain values.
pub struct StatementView {
    pub sql: Seq<char>,
    pub params: Seq<SqlValueView>,
}

impl View for Statement {
    type V = StatementView;

    open spec fn view(&self) -> StatementView {
        StatementView { sql: self.sql@, params: self.params.deep_view() }
    }
}

/// The statement that carries out a write, for the writes that take one
/// statement: all but the moves of a field, which read the listing first,
/// and the making of a field, which reads the last order first.
pub open spec fn statement_of(w: StoreWriteView) -> Option<StatementView> {
    match w {
        StoreWriteView::CreateSession { project_id, name } => Some(
            StatementView {
                sql: INSERT_SESSION@,
                params: seq![SqlValueView::Integer(project_id), SqlValueView::Text(name)],
            },
        ),
        StoreWriteView::UpdateSessionName { session_id, name } => Some(
            StatementView {
                sql: UPDATE_SESSION_NAME@,
                params: seq![SqlValueView::Text(name), SqlValueView::Integer(session_id)],
            },
        ),
        StoreWriteView::UpdateSessionStatus { session_id, status } => Some(
            StatementView {
                sql: UPDATE_SESSION_STATUS@,
                params: seq![
                    SqlValueView::Text(status.stored_text()),
                    SqlValueView::Integer(session_id),
                ],
            },
        ),
        StoreWriteView::DeleteSession { session_id } => Some(
            StatementView { sql: DELETE_SESSION@, params: seq![SqlValueView::Integer(session_id)] },
        ),
        StoreWriteView::SetTmuxSession { session_id, tmux_name } => Some(
            StatementView {
                sql: SET_TMUX_SESSION@,
                params: seq![SqlValueView::Text(tmux_name), SqlValueView::Integer(session_id)],
            },
        ),
        StoreWriteView::ClearTmuxSession { session_id } => Some(
            StatementView {
                sql: CLEAR_TMUX_SESSION@,
                params: seq![SqlValueView::Integer(session_id)],
            },
        ),
        StoreWriteView::SetSessionFieldValue { session_id, field_id, value } => Some(
            StatementView {
                sql: SET_FIELD_VALUE@,
                params: seq![
                    SqlValueView::Integer(session_id),
                    SqlValueView::Integer(field_id),
                    SqlValueView::Text(value),
                ],
            },
        ),
        StoreWriteView::UpdateField { field_id, name, description } => Some(
            StatementView {
                sql: UPDATE_FIELD@,
                params: seq![
                    SqlValueView::Text(name),
                    SqlValueView::Text(description),
                    SqlValueView::Integer(field_id),
                ],
            },
        ),
        StoreWriteView::DeleteField { field_id } => Some(
            StatementView { sql: DELETE_FIELD@, params: seq![SqlValueView::Integer(field_id)] },
        ),
        StoreWriteView::ToggleFieldVisibility { field_id } => Some(
            StatementView {
                sql: TOGGLE_FIELD_VISIBILITY@,
                params: seq![SqlValueView::Integer(field_id)],
            },
        ),
        StoreWriteView::CreateField { .. }
        | StoreWriteView::MoveFieldUp { .. }
        | StoreWriteView::MoveFieldDown { .. } => None,
    }
}

/// The statement that adds a field with a given order.
pub open spec fn insert_field_of(
    project_id: i64,
    name: Seq<char>,
    description: Seq<char>,
    display_order: i64,
) -> StatementView {
    StatementView {
        sql: INSERT_FIELD@,
        params: seq![
            SqlValueView::Integer(project_id),
            SqlValueView::Text(name),
            SqlValueView::Text(description),
            SqlValueView::Integer(display_order),
        ],
    }
}

/// The two statements of a swap, in their order.
pub open spec fn swap_statements_of(swap: OrderSwap) -> (StatementView, StatementView) {
    (
        StatementView {
            sql: UPDATE_FIELD_ORDER@,
            params: seq![
                SqlValueView::Integer(swap.first_order),
                SqlValueView::Integer(swap.first_id),
            ],
        },
        StatementView {
            sql: UPDATE_FIELD_ORDER@,
            params: seq![
                SqlValueView::Integer(swap.second_order),
                SqlValueView::Integer(swap.second_id),
            ],
        },
    )
}

/// One parameter.
fn one(a: SqlValue) -> (r: Vec<SqlValue>)
    ensures
        r.deep_view() == seq![a@],
{
    let mut v: Vec<SqlValue> = Vec::new();
    v.push(a);
    assert(v.deep_view() =~= seq![a@]);
    v
}

/// Two parameters.
fn two(a: SqlValue, b: SqlValue) -> (r: Vec<SqlValue>)
    ensures
        r.deep_view() == seq![a@, b@],
{
    let mut v: Vec<SqlValue> = Vec::new();
    v.push(a);
    v.push(b);
    assert(v.deep_view() =~= seq![a@, b@]);
    v
}

/// Three parameters.
fn three(a: SqlValue, b: SqlValue, c: SqlValue) -> (r: Vec<SqlValue>)
    ensures
        r.deep_view() == seq![a@, b@, c@],
{
    let mut v: Vec<SqlValue> = Vec::new();
    v.push(a);
    v.push(b);
    v.push(c);
    assert(v.deep_view() =~= seq![a@, b@, c@]);
    v
}

/// A text as a value.
fn text(t: &str) -> (r: SqlValue)
    ensures
        r@ == SqlValueView::Text(t@),
{
    SqlValue::Text(String::from_str(t))
}

/// The statement that carries out a write, for the writes that take one
/// statement.
pub fn statement_for(write: &StoreWrite) -> (r: Option<Statement>)
    ensures
        match r {
            Some(s) => statement_of(write@) == Some(s@),
            None => statement_of(write@) is None,
        },
{
    match write {
        StoreWrite::CreateSession { project_id, name } => Some(
            Statement {
                sql: INSERT_SESSION,
                params: two(SqlValue::Integer(*project_id), text(name.as_str())),
            },
        ),
        StoreWrite::UpdateSessionName { session_id, name } => Some(
            Statement {
                sql: UPDATE_SESSION_NAME,
                params: two(text(name.as_str()), SqlValue::Integer(*session_id)),
            },
        ),
        StoreWrite::UpdateSessionStatus { session_id, status } => Some(
            Statement {
                sql: UPDATE_SESSION_STATUS,
                params: two(text(status.as_str()), SqlValue::Integer(*session_id)),
            },
        ),
        StoreWrite::DeleteSession { session_id } => Some(
            Statement { sql: DELETE_SESSION, params: one(SqlValue::Integer(*session_id)) },
        ),
        StoreWrite::SetTmuxSession { session_id, tmux_name } => Some(
            Statement {
                sql: SET_TMUX_SESSION,
                params: two(text(tmux_name.as_str()), SqlValue::Integer(*session_id)),
            },
        ),
        StoreWrite::ClearTmuxSession { session_id } => Some(
            Statement { sql: CLEAR_TMUX_SESSION, params: one(SqlValue::Integer(*session_id)) },
        ),
        StoreWrite::SetSessionFieldValue { session_id, field_id, value } => Some(
            Statement {
                sql: SET_FIELD_VALUE,
                params: three(
                    SqlValue::Integer(*session_id),
                    SqlValue::Integer(*field_id),
                    text(value.as_str()),
                ),
            },
        ),
        StoreWrite::UpdateField { field_id, name, description } => Some(
            Statement {
                sql: UPDATE_FIELD,
                params: three(
                    text(name.as_str()),
                    text(description.as_str()),
                    SqlValue::Integer(*field_id),
                ),
            },
        ),
        StoreWrite::DeleteField { field_id } => Some(
            Statement { sql: DELETE_FIELD, params: one(SqlValue::Integer(*field_id)) },
        ),
        StoreWrite::ToggleFieldVisibility { field_id } => Some(
            Statement { sql: TOGGLE_FIELD_VISIBILITY, params: one(SqlValue::Integer(*field_id)) },
        ),
        _ => None,
    }
}

/// The statement that adds a field with a given order.
pub fn insert_field(project_id: i64, name: &str, description: &str, display_order: i64) -> (r:
    Statement)
    ensures
        r@ == insert_field_of(project_id, name@, description@, display_order),
{
    let mut params = three(SqlValue::Integer(project_id), text(name), text(description));
    let ghost before = params.deep_view();
    params.push(SqlValue::Integer(display_order));
    assert(params.deep_view() =~= before.push(SqlValueView::Integer(display_order)));
    assert(params.deep_view() =~= insert_field_of(
        project_id,
        name@,
        description@,
        display_order,
    ).params);
    Statement { sql: INSERT_FIELD, params }
}

/// The two statements of a swap, in their order.
pub fn swap_statements(swap: OrderSwap) -> (r: (Statement, Statement))
    ensures
        (r.0@, r.1@) == swap_statements_of(swap),
{
    (
        Statement {
            sql: UPDATE_FIELD_ORDER,
            params: two(SqlValue::Integer(swap.first_order), SqlValue::Integer(swap.first_id)),
        },
        Statement {
            sql: UPDATE_FIELD_ORDER,
            params: two(SqlValue::Integer(swap.second_order), SqlValue::Integer(swap.second_id)),
        },
    )
}

/// One field comes before another in a listing: by `display_order`, and by
/// id where the orders are equal.
pub open spec fn field_before(a: FieldView, b: FieldView) -> bool {
    a.display_order < b.display_order || (a.display_order == b.display_order && a.id < b.id)
}

/// The sessions are those of one project, by rising id.
pub open spec fn sessions_listed(sessions: Seq<SessionView>, project_id: i64) -> bool {
    &&& forall|i: int| 0 <= i < sessions.len() ==> (#[trigger] sessions[i]).project_id == project_id
    &&& forall|i: int, j: int|
        0 <= i < j < sessions.len() ==> (#[trigger] sessions[i]).id < (#[trigger] sessions[j]).id
}

/// The fields are those of one project, by rising `display_order` and, within
/// one order, by rising id.
pub open spec fn fields_listed(fields: Seq<FieldView>, project_id: i64) -> bool {
    &&& forall|i: int| 0 <= i < fields.len() ==> (#[trigger] fields[i]).project_id == project_id
    &&& forall|i: int, j: int|
        0 <= i < j < fields.len() ==> field_before(#[trigger] fields[i], #[trigger] fields[j])
}

/// A session as the store makes it: planned, with nothing on record but its
/// name.
pub open spec fn fresh_session(id: i64, project_id: i64, name: Seq<char>) -> SessionView {
    SessionView {
        id,
        project_id,
        name,
        status: Status::Planned,
        checkout_path: None,
        branch_name: None,
        ticket_id: None,
        ticket_url: None,
        tmux_window: None,
        claude_session_id: None,
    }
}

/// The record store, on one open database.
pub struct Database {
    conn: rusqlite::Connection,
}

impl Database {
    /// Opens the database at `path`, making it and its tables where they are
    /// missing. The path `:memory:` gives a database that lives in memory.
    pub fn new(path: &str) -> (r: Result<Database, StoreError>)
        ensures
            r is Err ==> r->Err_0 is Database,
    {
        let conn = store_result(open_connection(path))?;
        let db = Database { conn };
        db.init_schema()?;
        Ok(db)
    }

    /// Makes the tables that are missing.
    fn init_schema(&self) -> (r: Result<(), StoreError>)
        ensures
            r is Err ==> r->Err_0 is Database,
    {
        store_result(run_batch(&self.conn, SCHEMA))
    }

    /// Runs one statement that changes the store.
    fn execute(&self, statement: &Statement) -> (r: Result<(), StoreError>)
        ensures
            r is Err ==> r->Err_0 is Database,
    {
        let changed = run_statement(&self.conn, statement.sql, &bind(&statement.params));
        match store_result(changed) {
            Ok(_) => Ok(()),
            Err(e) => Err(e),
        }
    }

    /// Runs one query and gives its rows, each with as many values as the
    /// query reads columns.
    fn query(&self, query: &Query) -> (r: Result<Vec<Vec<SqlValue>>, StoreError>)
        ensures
            r is Err ==> r->Err_0 is Database,
            r is Ok ==> forall|i: int|
                0 <= i < r->Ok_0.len() ==> (#[trigger] r->Ok_0[i]).len() == query.columns,
    {
        store_result(
            run_query(
                &self.conn,
                query.statement.sql,
                &bind(&query.statement.params),
                query.columns,
            ),
        )
    }

    /// Performs one write that the controller asked for: with its one
    /// statement where it has one, else by reading first what it needs. A
    /// write with one statement fails only where the database fails.
    pub fn apply(&self, write: &StoreWrite) -> (r: Result<(), StoreError>)
        ensures
            r is Err && statement_of(write@) is Some ==> r->Err_0 is Database,
    {
        match statement_for(write) {
            Some(statement) => self.execute(&statement),
            None => match write {
                StoreWrite::CreateField { project_id, name, description } => {
                    self.create_field(*project_id, name.as_str(), description.as_str())?;
                    Ok(())
                },
                StoreWrite::MoveFieldUp { project_id, field_id } => self.move_field_up(
                    *project_id,
                    *field_id,
                ),
                StoreWrite::MoveFieldDown { project_id, field_id } => self.move_field_down(
                    *project_id,
                    *field_id,
                ),
                _ => unreached(),
            },
        }
    }

    /// The project kept for a path, made if there is none yet. Whatever the
    /// store holds, a project that comes back has the path asked for.
    pub fn get_or_create_project(&self, name: &str, path: &str) -> (r: Result<Project, StoreError>)
        ensures
            match r {
                Ok(p) => p@.path == path@,
                Err(e) => e is Database || e is Malformed,
            },
    {
        match self.get_project_by_path(path)? {
            Some(project) => {
                return Ok(project);
            },
            None => {},
        }
        self.execute(&insert_project(name, path))?;
        let id = last_rowid(&self.conn);
        Ok(Project { id, name: String::from_str(name), path: String::from_str(path) })
    }

    /// The project kept for a path, if there is one.
    fn get_project_by_path(&self, path: &str) -> (r: Result<Option<Project>, StoreError>)
        ensures
            match r {
                Ok(Some(p)) => p@.path == path@,
                Ok(None) => true,
                Err(e) => e is Database || e is Malformed,
            },
    {
        let rows = self.query(&query_for(&StoreRead::Project { path: String::from_str(path) }))?;
        project_from_rows(&rows, path)
    }

    /// The sessions of a project, by rising id. Whatever the store holds, a
    /// listing that comes back holds sessions of that project only, each id
    /// once.
    pub fn list_sessions(&self, project_id: i64) -> (r: Result<Vec<Session>, StoreError>)
        ensures
            match r {
                Ok(list) => sessions_listed(list.deep_view(), project_id),
                Err(e) => e is Database || e is Malformed,
            },
    {
        let rows = self.query(&query_for(&StoreRead::Sessions { project_id }))?;
        sessions_from_rows(&rows, project_id)
    }

    /// Adds a session to a project. A session that comes back is planned
    /// and has the name asked for and nothing else on record.
    pub fn create_session(&self, project_id: i64, name: &str) -> (r: Result<Session, StoreError>)
        ensures
            match r {
                Ok(x) => x@ == fresh_session(x.id, project_id, name@),
                Err(e) => e is Database,
            },
    {
        self.apply(&StoreWrite::CreateSession { project_id, name: String::from_str(name) })?;
        let id = last_rowid(&self.conn);
        Ok(
            Session {
                id,
                project_id,
                name: String::from_str(name),
                status: Status::Planned,
                checkout_path: None,
                branch_name: None,
                ticket_id: None,
                ticket_url: None,
                tmux_window: None,
                claude_session_id: None,
            },
        )
    }

    /// Sets the status of a session.
    pub fn update_session_status(&self, session_id: i64, status: Status) -> (r: Result<(), StoreError>)
        ensures
            r is Err ==> r->Err_0 is Database,
    {
        self.apply(&StoreWrite::UpdateSessionStatus { session_id, status })
    }

    /// Sets the name of a session.
    pub fn update_session_name(&self, session_id: i64, name: &str) -> (r: Result<(), StoreError>)
        ensures
            r is Err ==> r->Err_0 is Database,
    {
        self.apply(&StoreWrite::UpdateSessionName { session_id, name: String::from_str(name) })
    }

    /// Removes a session; its field values go with it.
    pub fn delete_session(&self, session_id: i64) -> (r: Result<(), StoreError>)
        ensures
            r is Err ==> r->Err_0 is Database,
    {
        self.apply(&StoreWrite::DeleteSession { session_id })
    }

    /// Records the terminal session of a session.
    pub fn set_tmux_session(&self, session_id: i64, tmux_name: &str) -> (r: Result<(), StoreError>)
        ensures
            r is Err ==> r->Err_0 is Database,
    {
        self.apply(
            &StoreWrite::SetTmuxSession { session_id, tmux_name: String::from_str(tmux_name) },
        )
    }

    /// Forgets the terminal session of a session.
    pub fn clear_tmux_session(&self, session_id: i64) -> (r: Result<(), StoreError>)
        ensures
            r is Err ==> r->Err_0 is Database,
    {
        self.apply(&StoreWrite::ClearTmuxSession { session_id })
    }

    /// The fields of a project, by `display_order` and then by id. Whatever
    /// the store holds, a listing that comes back holds fields of that
    /// project only, in that order.
    pub fn list_fields(&self, project_id: i64) -> (r: Result<Vec<Field>, StoreError>)
        ensures
            match r {
                Ok(list) => fields_listed(list.deep_view(), project_id),
                Err(e) => e is Database || e is Malformed,
            },
    {
        let rows = self.query(&query_for(&StoreRead::Fields { project_id }))?;
        fields_from_rows(&rows, project_id)
    }

    /// Adds a field behind the last one of the project. A field that comes
    /// back is visible and has the name and description asked for.
    pub fn create_field(&self, project_id: i64, name: &str, description: &str) -> (r: Result<
        Field,
        StoreError,
    >)
        ensures
            match r {
                Ok(f) => f@ == (FieldView {
                    id: f.id,
                    project_id,
                    name: name@,
                    description: description@,
                    display_order: f.display_order,
                    visible: true,
                }),
                Err(_) => true,
            },
    {
        let rows = self.query(&query_for(&StoreRead::LastOrder { project_id }))?;
        let display_order = next_order(&rows)?;
        self.execute(&insert_field(project_id, name, description, display_order))?;
        let id = last_rowid(&self.conn);
        Ok(
            Field {
                id,
                project_id,
                name: String::from_str(name),
                description: String::from_str(description),
                display_order,
                visible: true,
            },
        )
    }

    /// Sets name and description of a field.
    pub fn update_field(&self, field_id: i64, name: &str, description: &str) -> (r: Result<
        (),
        StoreError,
    >)
        ensures
            r is Err ==> r->Err_0 is Database,
    {
        self.apply(
            &StoreWrite::UpdateField {
                field_id,
                name: String::from_str(name),
                description: String::from_str(description),
            },
        )
    }

    /// Removes a field; its values go with it.
    pub fn delete_field(&self, field_id: i64) -> (r: Result<(), StoreError>)
        ensures
            r is Err ==> r->Err_0 is Database,
    {
        self.apply(&StoreWrite::DeleteField { field_id })
    }

    /// Flips whether a field is shown on the cards.
    pub fn toggle_field_visibility(&self, field_id: i64) -> (r: Result<(), StoreError>)
        ensures
            r is Err ==> r->Err_0 is Database,
    {
        self.apply(&StoreWrite::ToggleFieldVisibility { field_id })
    }

    /// Writes the two orders of a swap, one after the other.
    fn apply_swap(&self, swap: OrderSwap) -> (r: Result<(), StoreError>)
        ensures
            r is Err ==> r->Err_0 is Database,
    {
        let (first, second) = swap_statements(swap);
        self.execute(&first)?;
        self.execute(&second)
    }

    /// Lets a field trade places with the one before it in the project's
    /// listing. Nothing is written for a field that is first or not listed.
    pub fn move_field_up(&self, project_id: i64, field_id: i64) -> (r: Result<(), StoreError>)
        ensures
            r is Err ==> r->Err_0 is Database || r->Err_0 is Malformed,
    {
        let fields = self.list_fields(project_id)?;
        match plan_move_up(&fields, field_id) {
            Some(swap) => self.apply_swap(swap),
            None => Ok(()),
        }
    }

    /// Lets a field trade places with the one after it in the project's
    /// listing. Nothing is written for a field that is last or not listed.
    pub fn move_field_down(&self, project_id: i64, field_id: i64) -> (r: Result<(), StoreError>)
        ensures
            r is Err ==> r->Err_0 is Database || r->Err_0 is Malformed,
    {
        let fields = self.list_fields(project_id)?;
        match plan_move_down(&fields, field_id) {
            Some(swap) => self.apply_swap(swap),
            None => Ok(()),
        }
    }

    /// The value of a field for a session; the empty text where none is
    /// kept or the store cannot tell. This never fails.
    pub fn get_session_field_value(&self, session_id: i64, field_id: i64) -> (r: Result<
        String,
        StoreError,
    >)
        ensures
            r is Ok,
    {
        let found = self.query(&query_for(&StoreRead::FieldValue { session_id, field_id }));
        Ok(first_text(found))
    }

    /// Sets the value of a field for a session, whether one was kept before
    /// or not.
    pub fn set_session_field_value(&self, session_id: i64, field_id: i64, value: &str) -> (r:
        Result<(), StoreError>)
        ensures
            r is Err ==> r->Err_0 is Database,
    {
        self.apply(
            &StoreWrite::SetSessionFieldValue {
                session_id,
                field_id,
                value: String::from_str(value),
            },
        )
    }

    /// The values kept for a session, each with the id of its field.
    pub fn get_all_session_field_values(&self, session_id: i64) -> (r: Result<
        Vec<(i64, String)>,
        StoreError,
    >)
        ensures
            r is Err ==> r->Err_0 is Database || r->Err_0 is Malformed,
    {
        let rows = self.query(&query_for(&StoreRead::SessionValues { session_id }))?;
        values_from_rows(&rows)
    }
}

/// The rows stand for sessions of one project, by rising id.
pub open spec fn session_rows_listed(rows: Seq<Seq<SqlValueView>>, project_id: i64) -> bool {
    &&& forall|i: int|
        0 <= i < rows.len() ==> session_of_row(#[trigger] rows[i]) is Some && session_of_row(
            rows[i],
        )->Some_0.project_id == project_id
    &&& forall|i: int, j: int|
        0 <= i < j < rows.len() ==> session_of_row(#[trigger] rows[i])->Some_0.id < session_of_row(
            #[trigger] rows[j],
        )->Some_0.id
}

/// The sessions that the rows of a listing stand for. They come back
/// exactly where every row stands for a session of the project and the ids
/// rise from row to row; rows of another shape, of another project or out
/// of the order of ids are refused.
pub fn sessions_from_rows(rows: &Vec<Vec<SqlValue>>, project_id: i64) -> (r: Result<
    Vec<Session>,
    StoreError,
>)
    ensures
        r is Ok <==> session_rows_listed(rows.deep_view(), project_id),
        match r {
            Ok(list) => sessions_listed(list.deep_view(), project_id) && list.len() == rows.len()
                && forall|i: int|
                0 <= i < rows.len() ==> session_of_row(#[trigger] rows.deep_view()[i]) == Some(
                    list.deep_view()[i],
                ),
            Err(e) => e is Malformed,
        },
{
    let ghost all = rows.deep_view();
    let mut out: Vec<Session> = Vec::new();
    let mut i: usize = 0;
    while i < rows.len()
        invariant
            i <= rows.len(),
            out.len() == i,
            all == rows.deep_view(),
            sessions_listed(out.deep_view(), project_id),
            forall|k: int|
                0 <= k < i ==> session_of_row(#[trigger] rows.deep_view()[k]) == Some(
                    out.deep_view()[k],
                ),
        decreases rows.len() - i,
    {
        assert(rows.deep_view()[i as int] == rows[i as int].deep_view());
        let session = match session_from_row(&rows[i]) {
            Some(s) => s,
            None => {
                assert(session_of_row(all[i as int]) is None);
                return Err(StoreError::Malformed);
            },
        };
        assert(session_of_row(all[i as int]) == Some(session@));
        if session.project_id != project_id {
            return Err(StoreError::Malformed);
        }
        if out.len() > 0 && out[out.len() - 1].id >= session.id {
            proof {
                assert(out.deep_view()[i - 1] == out[i - 1]@);
                assert(session_of_row(all[i - 1]) == Some(out.deep_view()[i - 1]));
            }
            return Err(StoreError::Malformed);
        }
        let ghost before = out.deep_view();
        proof {
            if before.len() > 0 {
                assert(before[before.len() - 1] == out[out.len() - 1]@);
            }
        }
        out.push(session);
        assert(out.deep_view() =~= before.push(session@));
        i += 1;
    }
    proof {
        let list = out.deep_view();
        assert forall|a: int| 0 <= a < all.len() implies session_of_row(#[trigger] all[a]) is Some
            && session_of_row(all[a])->Some_0.project_id == project_id by {
            assert(session_of_row(all[a]) == Some(list[a]));
        }
        assert forall|a: int, b: int| 0 <= a < b < all.len() implies session_of_row(
            #[trigger] all[a],
        )->Some_0.id < session_of_row(#[trigger] all[b])->Some_0.id by {
            assert(session_of_row(all[a]) == Some(list[a]));
            assert(session_of_row(all[b]) == Some(list[b]));
        }
    }
    Ok(out)
}

/// The rows stand for fields of one project, each before the next by
/// `display_order` and then by id.
pub open spec fn field_rows_listed(rows: Seq<Seq<SqlValueView>>, project_id: i64) -> bool {
    &&& forall|i: int|
        0 <= i < rows.len() ==> field_of_row(#[trigger] rows[i]) is Some && field_of_row(
            rows[i],
        )->Some_0.project_id == project_id
    &&& forall|i: int, j: int|
        0 <= i < j < rows.len() ==> field_before(
            field_of_row(#[trigger] rows[i])->Some_0,
            field_of_row(#[trigger] rows[j])->Some_0,
        )
}

/// The fields that the rows of a listing stand for. They come back exactly
/// where every row stands for a field of the project and each comes before
/// the next; rows of another shape, of another project or out of the
/// listing's order are refused.
pub fn fields_from_rows(rows: &Vec<Vec<SqlValue>>, project_id: i64) -> (r: Result<
    Vec<Field>,
    StoreError,
>)
    ensures
        r is Ok <==> field_rows_listed(rows.deep_view(), project_id),
        match r {
            Ok(list) => fields_listed(list.deep_view(), project_id) && list.len() == rows.len()
                && forall|i: int|
                0 <= i < rows.len() ==> field_of_row(#[trigger] rows.deep_view()[i]) == Some(
                    list.deep_view()[i],
                ),
            Err(e) => e is Malformed,
        },
{
    let ghost all = rows.deep_view();
    let mut out: Vec<Field> = Vec::new();
    let mut i: usize = 0;
    while i < rows.len()
        invariant
            i <= rows.len(),
            out.len() == i,
            all == rows.deep_view(),
            fields_listed(out.deep_view(), project_id),
            forall|k: int|
                0 <= k < i ==> field_of_row(#[trigger] rows.deep_view()[k]) == Some(
                    out.deep_view()[k],
                ),
        decreases rows.len() - i,
    {
        assert(rows.deep_view()[i as int] == rows[i as int].deep_view());
        let field = match field_from_row(&rows[i]) {
            Some(f) => f,
            None => {
                assert(field_of_row(all[i as int]) is None);
                return Err(StoreError::Malformed);
            },
        };
        assert(field_of_row(all[i as int]) == Some(field@));
        if field.project_id != project_id {
            return Err(StoreError::Malformed);
        }
        if out.len() > 0 {
            let last = &out[out.len() - 1];
            let before = last.display_order < field.display_order || (last.display_order
                == field.display_order && last.id < field.id);
            if !before {
                proof {
                    assert(out.deep_view()[i - 1] == out[i - 1]@);
                    assert(field_of_row(all[i - 1]) == Some(out.deep_view()[i - 1]));
                }
                return Err(StoreError::Malformed);
            }
        }
        let ghost listed = out.deep_view();
        proof {
            if listed.len() > 0 {
                assert(listed[listed.len() - 1] == out[out.len() - 1]@);
            }
        }
        out.push(field);
        assert(out.deep_view() =~= listed.push(field@));
        i += 1;
    }
    proof {
        let list = out.deep_view();
        assert forall|a: int| 0 <= a < all.len() implies field_of_row(#[trigger] all[a]) is Some
            && field_of_row(all[a])->Some_0.project_id == project_id by {
            assert(field_of_row(all[a]) == Some(list[a]));
        }
        assert forall|a: int, b: int| 0 <= a < b < all.len() implies field_before(
            field_of_row(#[trigger] all[a])->Some_0,
            field_of_row(#[trigger] all[b])->Some_0,
        ) by {
            assert(field_of_row(all[a]) == Some(list[a]));
            assert(field_of_row(all[b]) == Some(list[b]));
        }
    }
    Ok(out)
}

/// The order for a new field, from the answer to the query for the last
/// order in use (-1 where the project has no field): one more.
pub fn next_order(rows: &Vec<Vec<SqlValue>>) -> (r: Result<i64, StoreError>)
    ensures
        match r {
            Ok(order) => rows.len() > 0 && rows[0].len() == 1 && integer_of(rows[0][0]@) == Some(
                (order - 1) as i64,
            ) && order - 1 >= i64::MIN,
            Err(StoreError::OrderExhausted) => rows.len() > 0 && rows[0].len() == 1 && integer_of(
                rows[0][0]@,
            ) == Some(i64::MAX),
            Err(StoreError::Malformed) => rows.len() == 0 || rows[0].len() != 1 || integer_of(
                rows[0][0]@,
            ) is None,
            Err(StoreError::Database(_)) => false,
        },
{
    if rows.len() == 0 || rows[0].len() != 1 {
        return Err(StoreError::Malformed);
    }
    let last = match as_integer(&rows[0][0]) {
        Some(m) => m,
        None => {
            return Err(StoreError::Malformed);
        },
    };
    if last == i64::MAX {
        return Err(StoreError::OrderExhausted);
    }
    Ok(last + 1)
}

/// Every row holds two values, an integer and then a text.
pub open spec fn value_rows_listed(rows: Seq<Seq<SqlValueView>>) -> bool {
    forall|i: int|
        0 <= i < rows.len() ==> (#[trigger] rows[i]).len() == 2 && integer_of(rows[i][0]) is Some
            && text_of(rows[i][1]) is Some
}

/// The values that the rows of `field_id, value` stand for. They come back
/// exactly where every row holds an integer and then a text; any other row
/// is refused.
pub fn values_from_rows(rows: &Vec<Vec<SqlValue>>) -> (r: Result<Vec<(i64, String)>, StoreError>)
    ensures
        r is Ok <==> value_rows_listed(rows.deep_view()),
        match r {
            Ok(list) => list.len() == rows.len() && forall|i: int|
                0 <= i < rows.len() ==> (#[trigger] rows[i]).len() == 2 && integer_of(rows[i][0]@)
                    == Some(list[i].0) && text_of(rows[i][1]@) == Some(list[i].1@),
            Err(e) => e is Malformed,
        },
{
    let mut out: Vec<(i64, String)> = Vec::new();
    let mut i: usize = 0;
    while i < rows.len()
        invariant
            i <= rows.len(),
            out.len() == i,
            forall|k: int|
                0 <= k < i ==> (#[trigger] rows[k]).len() == 2 && integer_of(rows[k][0]@) == Some(
                    out[k].0,
                ) && text_of(rows[k][1]@) == Some(out[k].1@),
        decreases rows.len() - i,
    {
        proof {
            assert(rows.deep_view()[i as int] == rows[i as int].deep_view());
            if rows[i as int].len() == 2 {
                assert(rows[i as int].deep_view()[0] == rows[i as int][0]@);
                assert(rows[i as int].deep_view()[1] == rows[i as int][1]@);
            }
        }
        if rows[i].len() != 2 {
            assert(rows.deep_view()[i as int].len() != 2);
            return Err(StoreError::Malformed);
        }
        let field_id = match as_integer(&rows[i][0]) {
            Some(f) => f,
            None => {
                return Err(StoreError::Malformed);
            },
        };
        let value = match as_text(&rows[i][1]) {
            Some(v) => v,
            None => {
                return Err(StoreError::Malformed);
            },
        };
        out.push((field_id, value));
        i += 1;
    }
    proof {
        let all = rows.deep_view();
        assert forall|a: int| 0 <= a < all.len() implies (#[trigger] all[a]).len() == 2
            && integer_of(all[a][0]) is Some && text_of(all[a][1]) is Some by {
            assert(all[a] == rows[a].deep_view());
            assert(rows[a].len() == 2);
            assert(rows[a].deep_view()[0] == rows[a][0]@);
            assert(rows[a].deep_view()[1] == rows[a][1]@);
        }
    }
    Ok(out)
}

/// The text in the first column of the first row of what a query gave; the
/// empty text where the query failed, gave no row, or gave no text there.
pub open spec fn first_text_of(found: Result<Seq<Seq<SqlValueView>>, ()>) -> Seq<char> {
    match found {
        Ok(rows) => if rows.len() > 0 && rows[0].len() > 0 && text_of(rows[0][0]) is Some {
            text_of(rows[0][0])->Some_0
        } else {
            Seq::empty()
        },
        Err(_) => Seq::empty(),
    }
}

/// View of what a query gave, without the reason of a failure.
pub open spec fn found_view(found: Result<Vec<Vec<SqlValue>>, StoreError>) -> Result<
    Seq<Seq<SqlValueView>>,
    (),
> {
    match found {
        Ok(rows) => Ok(rows.deep_view()),
        Err(_) => Err(()),
    }
}

/// The value of a field for a session in what the query for it gave: the
/// text in the first column of the first row, or the empty text where the
/// query failed, gave no row, or gave no text there.
pub fn first_text(found: Result<Vec<Vec<SqlValue>>, StoreError>) -> (r: String)
    ensures
        r@ == first_text_of(found_view(found)),
{
    match found {
        Ok(rows) => {
            if rows.len() > 0 && rows[0].len() > 0 {
                assert(rows.deep_view()[0] == rows[0].deep_view());
                assert(rows[0].deep_view()[0] == rows[0][0]@);
                match as_text(&rows[0][0]) {
                    Some(t) => t,
                    None => String::new(),
                }
            } else {
                String::new()
            }
        },
        Err(_) => String::new(),
    }
}

/// What the store makes of the outcome of a call of the database: what came
/// back where the call succeeded, else the error `Database` with the
/// database's message.
fn store_result<T>(outcome: Result<T, rusqlite::Error>) -> (r: Result<T, StoreError>)
    ensures
        match outcome {
            Ok(value) => r == Ok::<T, StoreError>(value),
            Err(_) => r is Err && r->Err_0 is Database,
        },
{
    match outcome {
        Ok(value) => Ok(value),
        Err(e) => Err(StoreError::Database(error_text(&e))),
    }
}

/// The project that the answer to the query for a path holds: none where
/// there is no row, else what the first row stands for. A first row that
/// stands for no project, or for one of another path, is refused.
pub open spec fn project_of_rows(rows: Seq<Seq<SqlValueView>>, path: Seq<char>) -> Result<
    Option<ProjectView>,
    (),
> {
    if rows.len() == 0 {
        Ok(None)
    } else {
        match project_of_row(rows[0]) {
            Some(p) => if p.path == path {
                Ok(Some(p))
            } else {
                Err(())
            },
            None => Err(()),
        }
    }
}

/// The project that the answer to the query for a path holds.
pub fn project_from_rows(rows: &Vec<Vec<SqlValue>>, path: &str) -> (r: Result<
    Option<Project>,
    StoreError,
>)
    ensures
        match r {
            Ok(Some(p)) => project_of_rows(rows.deep_view(), path@) == Ok::<
                Option<ProjectView>,
                (),
            >(Some(p@)),
            Ok(None) => project_of_rows(rows.deep_view(), path@) == Ok::<Option<ProjectView>, ()>(
                None,
            ),
            Err(e) => e is Malformed && project_of_rows(rows.deep_view(), path@) is Err,
        },
{
    if rows.len() == 0 {
        return Ok(None);
    }
    assert(rows.deep_view()[0] == rows[0].deep_view());
    match project_from_row(&rows[0]) {
        Some(project) => {
            if crate::text::str_eq(project.path.as_str(), path) {
                Ok(Some(project))
            } else {
                Err(StoreError::Malformed)
            }
        },
        None => Err(StoreError::Malformed),
    }
}

/// One read of the record store.
#[derive(Debug, Clone)]
pub enum StoreRead {
    /// The project kept for a path.
    Project { path: String },
    /// The sessions of a project, by rising id.
    Sessions { project_id: i64 },
    /// The fields of a project, by `display_order` and then by id.
    Fields { project_id: i64 },
    /// The last `display_order` in use in a project.
    LastOrder { project_id: i64 },
    /// The value of a field for a session.
    FieldValue { session_id: i64, field_id: i64 },
    /// The values kept for a session, each with the id of its field.
    SessionValues { session_id: i64 },
}

/// A read over plain values.
pub enum StoreReadView {
    Project { path: Seq<char> },
    Sessions { project_id: i64 },
    Fields { project_id: i64 },
    LastOrder { project_id: i64 },
    FieldValue { session_id: i64, field_id: i64 },
    SessionValues { session_id: i64 },
}

impl View for StoreRead {
    type V = StoreReadView;

    open spec fn view(&self) -> StoreReadView {
        match *self {
            StoreRead::Project { path } => StoreReadView::Project { path: path@ },
            StoreRead::Sessions { project_id } => StoreReadView::Sessions { project_id },
            StoreRead::Fields { project_id } => StoreReadView::Fields { project_id },
            StoreRead::LastOrder { project_id } => StoreReadView::LastOrder { project_id },
            StoreRead::FieldValue { session_id, field_id } => StoreReadView::FieldValue {
                session_id,
                field_id,
            },
            StoreRead::SessionValues { session_id } => StoreReadView::SessionValues { session_id },
        }
    }
}

/// A query: its statement, and how many columns are read of each row of the
/// answer.
#[derive(Debug, Clone)]
pub struct Query {
    pub statement: Statement,
    pub columns: usize,
}

/// A query over plain values.
pub struct QueryView {
    pub statement: StatementView,
    pub columns: int,
}

impl View for Query {
    type V = QueryView;

    open spec fn view(&self) -> QueryView {
        QueryView { statement: self.statement@, columns: self.columns as int }
    }
}

/// The query that carries out a read: its statement with the parameters in
/// their places, and the number of columns that the statement selects.
pub open spec fn query_of(read: StoreReadView) -> QueryView {
    match read {
        StoreReadView::Project { path } => QueryView {
            statement: StatementView { sql: SELECT_PROJECT@, params: seq![SqlValueView::Text(path)] },
            columns: 3,
        },
        StoreReadView::Sessions { project_id } => QueryView {
            statement: StatementView {
                sql: SELECT_SESSIONS@,
                params: seq![SqlValueView::Integer(project_id)],
            },
            columns: 10,
        },
        StoreReadView::Fields { project_id } => QueryView {
            statement: StatementView {
                sql: SELECT_FIELDS@,
                params: seq![SqlValueView::Integer(project_id)],
            },
            columns: 6,
        },
        StoreReadView::LastOrder { project_id } => QueryView {
            statement: StatementView {
                sql: SELECT_LAST_ORDER@,
                params: seq![SqlValueView::Integer(project_id)],
            },
            columns: 1,
        },
        StoreReadView::FieldValue { session_id, field_id } => QueryView {
            statement: StatementView {
                sql: SELECT_FIELD_VALUE@,
                params: seq![SqlValueView::Integer(session_id), SqlValueView::Integer(field_id)],
            },
            columns: 1,
        },
        StoreReadView::SessionValues { session_id } => QueryView {
            statement: StatementView {
                sql: SELECT_SESSION_VALUES@,
                params: seq![SqlValueView::Integer(session_id)],
            },
            columns: 2,
        },
    }
}

/// The query that carries out a read.
pub fn query_for(read: &StoreRead) -> (r: Query)
    ensures
        r@ == query_of(read@),
{
    match read {
        StoreRead::Project { path } => Query {
            statement: Statement { sql: SELECT_PROJECT, params: one(text(path.as_str())) },
            columns: 3,
        },
        StoreRead::Sessions { project_id } => Query {
            statement: Statement { sql: SELECT_SESSIONS, params: one(SqlValue::Integer(*project_id)) },
            columns: 10,
        },
        StoreRead::Fields { project_id } => Query {
            statement: Statement { sql: SELECT_FIELDS, params: one(SqlValue::Integer(*project_id)) },
            columns: 6,
        },
        StoreRead::LastOrder { project_id } => Query {
            statement: Statement {
                sql: SELECT_LAST_ORDER,
                params: one(SqlValue::Integer(*project_id)),
            },
            columns: 1,
        },
        StoreRead::FieldValue { session_id, field_id } => Query {
            statement: Statement {
                sql: SELECT_FIELD_VALUE,
                params: two(SqlValue::Integer(*session_id), SqlValue::Integer(*field_id)),
            },
            columns: 1,
        },
        StoreRead::SessionValues { session_id } => Query {
            statement: Statement {
                sql: SELECT_SESSION_VALUES,
                params: one(SqlValue::Integer(*session_id)),
            },
            columns: 2,
        },
    }
}

/// The statement that adds a project.
pub open spec fn insert_project_of(name: Seq<char>, path: Seq<char>) -> StatementView {
    StatementView {
        sql: INSERT_PROJECT@,
        params: seq![SqlValueView::Text(name), SqlValueView::Text(path)],
    }
}

/// The statement that adds a project.
pub fn insert_project(name: &str, path: &str) -> (r: Statement)
    ensures
        r@ == insert_project_of(name@, path@),
{
    Statement { sql: INSERT_PROJECT, params: two(text(name), text(path)) }
}

} // verus!
