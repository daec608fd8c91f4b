//! Keeps what the controller shows and what the record store holds in step:
//! writes go to the store first, then what they change is read again.

use crate::action::{AppAction, AppActionView, Reload, StoreWrite};
use crate::app::App;
use crate::model::{
    fields_refreshed, is_editing, row_loaded, sessions_refreshed, terminals_refreshed, with_name,
    AppView,
};
use crate::store::{fields_listed, sessions_listed, Database, StoreError};
use vstd::prelude::*;

verus! {

/// Performs the writes in their order and stops at the first that fails.
/// Without writes there is nothing that can fail.
pub fn apply_writes(db: &Database, writes: &Vec<StoreWrite>) -> (r: Result<(), StoreError>)
    ensures
        writes.len() == 0 ==> r is Ok,
{
    let mut i: usize = 0;
    while i < writes.len()
        invariant
            i <= writes.len(),
        decreases writes.len() - i,
    {
        db.apply(&writes[i])?;
        i += 1;
    }
    Ok(())
}

/// Reads again from the store what `what` names and hands it to the
/// controller. Where the store fails, the controller stays as it is.
/// Whatever the store holds, what it listed is what the controller shows
/// afterwards: sessions or fields of its project only, in the store's
/// order, with the selection among them.
pub fn reload(app: &mut App, db: &Database, what: Reload) -> (r: Result<(), StoreError>)
    requires
        old(app).wf(),
    ensures
        final(app).wf(),
        match r {
            Ok(()) => match what {
                Reload::Sessions => final(app)@ == sessions_refreshed(
                    old(app)@,
                    final(app)@.sessions,
                ) && sessions_listed(final(app)@.sessions, old(app).project.id),
                Reload::Fields => final(app)@ == fields_refreshed(old(app)@, final(app)@.fields)
                    && fields_listed(final(app)@.fields, old(app).project.id),
            },
            Err(_) => final(app)@ == old(app)@,
        },
{
    match what {
        Reload::Sessions => {
            let sessions = db.list_sessions(app.project.id)?;
            app.refresh_sessions(sessions);
        },
        Reload::Fields => {
            let fields = db.list_fields(app.project.id)?;
            app.refresh_fields(fields);
        },
    }
    Ok(())
}

/// Carries out a commit on the store: all writes first, in their order,
/// then the reload. Where a write or the reading fails, the controller stays
/// as it is.
pub fn commit(app: &mut App, db: &Database, writes: &Vec<StoreWrite>, what: Reload) -> (r: Result<
    (),
    StoreError,
>)
    requires
        old(app).wf(),
    ensures
        final(app).wf(),
        match r {
            Ok(()) => match what {
                Reload::Sessions => final(app)@ == sessions_refreshed(
                    old(app)@,
                    final(app)@.sessions,
                ) && sessions_listed(final(app)@.sessions, old(app).project.id),
                Reload::Fields => final(app)@ == fields_refreshed(old(app)@, final(app)@.fields)
                    && fields_listed(final(app)@.fields, old(app).project.id),
            },
            Err(_) => final(app)@ == old(app)@,
        },
{
    apply_writes(db, writes)?;
    reload(app, db, what)
}

/// Reads the value of each field for a session, in the order of the fields,
/// and hands the values to the session editor: afterwards the editor has one
/// row per field. A value that the store does not have or cannot give reads
/// as the empty text, so this never fails. Outside the editor of that
/// session nothing changes.
pub fn load_field_values(app: &mut App, db: &Database, session_id: i64)
    ensures
        is_editing(old(app)@, session_id) ==> final(app)@.edit_field_values.len() == old(
            app,
        )@.fields.len() && final(app)@ == row_loaded(
            AppView { edit_field_values: final(app)@.edit_field_values, ..old(app)@ },
        ),
        !is_editing(old(app)@, session_id) ==> final(app)@ == old(app)@,
        old(app).wf() ==> final(app).wf(),
{
    let mut values: Vec<String> = Vec::new();
    let mut i: usize = 0;
    while i < app.fields.len()
        invariant
            i <= app.fields.len(),
            values.len() == i,
        decreases app.fields.len() - i,
    {
        match db.get_session_field_value(session_id, app.fields[i].id) {
            Ok(value) => {
                values.push(value);
            },
            Err(_) => {
                values.push(String::new());
            },
        }
        i += 1;
    }
    app.load_field_values(session_id, values);
}

/// Takes over the live terminal sessions and forgets in the store, as far
/// as the store lets it, the terminal session of every session whose
/// terminal session is gone. The sessions in memory keep what they have on
/// record until they are read again.
pub fn refresh_terminals(
    app: &mut App,
    db: &Database,
    live: Vec<String>,
    panes: Vec<Option<String>>,
)
    ensures
        final(app)@ == terminals_refreshed(old(app)@, live.deep_view(), panes.deep_view()),
        old(app).wf() ==> final(app).wf(),
{
    let writes = app.refresh_tmux_sessions(live, panes);
    let mut i: usize = 0;
    while i < writes.len()
        invariant
            i <= writes.len(),
        decreases writes.len() - i,
    {
        let _ = db.apply(&writes[i]);
        i += 1;
    }
}

/// Puts on record that a terminal session was made for a session, and
/// asks to attach to it. Where the store fails, the controller stays as it
/// is.
pub fn record_terminal(app: &mut App, db: &Database, session_id: i64, tmux_name: String) -> (r:
    Result<AppAction, StoreError>)
    ensures
        match r {
            Ok(action) => action@ == AppActionView::AttachTmux(tmux_name@) && final(app)@ == (
            AppView {
                active_tmux_sessions: with_name(old(app)@.active_tmux_sessions, tmux_name@),
                ..old(app)@
            }),
            Err(_) => final(app)@ == old(app)@,
        },
        old(app).wf() ==> final(app).wf(),
{
    db.set_tmux_session(session_id, tmux_name.as_str())?;
    Ok(app.terminal_created(tmux_name))
}

} // verus!
