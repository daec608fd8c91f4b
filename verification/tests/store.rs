use workbench::action::StoreWrite;
use workbench::db::Status;
use workbench::db::OrderSwap;
use workbench::store::{insert_project, query_for, StoreRead};
use workbench::store::{
    field_from_row, fields_from_rows, first_text, insert_field, next_order, project_from_row,
    project_from_rows,
    session_from_row, sessions_from_rows, statement_for, swap_statements, values_from_rows,
    Database, SqlValue, Statement, StoreError,
};

fn open() -> Database {
    match Database::new(":memory:") {
        Ok(db) => db,
        Err(e) => panic!("cannot open: {}", e.message()),
    }
}

fn ok<T>(r: Result<T, StoreError>) -> T {
    match r {
        Ok(v) => v,
        Err(e) => panic!("store error: {}", e.message()),
    }
}

fn t(s: &str) -> SqlValue {
    SqlValue::Text(s.to_string())
}

#[test]
fn project_is_made_once_per_path() {
    let db = open();
    let a = ok(db.get_or_create_project("alpha", "/work/alpha"));
    assert_eq!(a.name, "alpha");
    assert_eq!(a.path, "/work/alpha");
    let again = ok(db.get_or_create_project("renamed", "/work/alpha"));
    assert_eq!(again.id, a.id);
    assert_eq!(again.name, "alpha");
    let b = ok(db.get_or_create_project("beta", "/work/beta"));
    assert_ne!(b.id, a.id);
}

#[test]
fn created_session_is_planned_and_listed() {
    let db = open();
    let p = ok(db.get_or_create_project("p", "/p"));
    assert!(ok(db.list_sessions(p.id)).is_empty());
    let s = ok(db.create_session(p.id, "first"));
    assert_eq!(s.project_id, p.id);
    assert_eq!(s.name, "first");
    assert_eq!(s.status, Status::Planned);
    assert_eq!(s.tmux_window, None);
    let listed = ok(db.list_sessions(p.id));
    assert_eq!(listed.len(), 1);
    assert_eq!(listed[0].id, s.id);
    assert_eq!(listed[0].name, "first");
    assert_eq!(listed[0].status, Status::Planned);
    assert_eq!(listed[0].checkout_path, None);
}

#[test]
fn listing_follows_create_rename_delete() {
    let db = open();
    let p = ok(db.get_or_create_project("p", "/p"));
    let other = ok(db.get_or_create_project("q", "/q"));
    let a = ok(db.create_session(p.id, "a"));
    let b = ok(db.create_session(p.id, "b"));
    ok(db.create_session(other.id, "elsewhere"));
    let c = ok(db.create_session(p.id, "c"));
    ok(db.update_session_name(b.id, "b2"));
    ok(db.delete_session(a.id));
    let listed = ok(db.list_sessions(p.id));
    let names: Vec<(i64, String)> = listed.iter().map(|s| (s.id, s.name.clone())).collect();
    assert_eq!(names, vec![(b.id, "b2".to_string()), (c.id, "c".to_string())]);
    assert!(listed.iter().all(|s| s.project_id == p.id));
}

#[test]
fn status_and_terminal_are_updated() {
    let db = open();
    let p = ok(db.get_or_create_project("p", "/p"));
    let s = ok(db.create_session(p.id, "s"));
    ok(db.update_session_status(s.id, Status::Review));
    ok(db.set_tmux_session(s.id, "workbench-1-1"));
    let listed = ok(db.list_sessions(p.id));
    assert_eq!(listed[0].status, Status::Review);
    assert_eq!(listed[0].tmux_window, Some("workbench-1-1".to_string()));
    ok(db.clear_tmux_session(s.id));
    assert_eq!(ok(db.list_sessions(p.id))[0].tmux_window, None);
}

#[test]
fn fields_get_rising_orders() {
    let db = open();
    let p = ok(db.get_or_create_project("p", "/p"));
    let a = ok(db.create_field(p.id, "Ticket", "the id"));
    let b = ok(db.create_field(p.id, "Notes", ""));
    assert_eq!(a.display_order, 0);
    assert_eq!(b.display_order, 1);
    assert!(a.visible);
    let listed = ok(db.list_fields(p.id));
    let got: Vec<(i64, String, String, i64, bool)> = listed
        .iter()
        .map(|f| (f.id, f.name.clone(), f.description.clone(), f.display_order, f.visible))
        .collect();
    assert_eq!(
        got,
        vec![
            (a.id, "Ticket".to_string(), "the id".to_string(), 0, true),
            (b.id, "Notes".to_string(), String::new(), 1, true),
        ]
    );
}

#[test]
fn field_is_updated_toggled_and_deleted() {
    let db = open();
    let p = ok(db.get_or_create_project("p", "/p"));
    let a = ok(db.create_field(p.id, "A", ""));
    ok(db.update_field(a.id, "A2", "described"));
    ok(db.toggle_field_visibility(a.id));
    let listed = ok(db.list_fields(p.id));
    assert_eq!(listed[0].name, "A2");
    assert_eq!(listed[0].description, "described");
    assert!(!listed[0].visible);
    ok(db.toggle_field_visibility(a.id));
    assert!(ok(db.list_fields(p.id))[0].visible);
    ok(db.delete_field(a.id));
    assert!(ok(db.list_fields(p.id)).is_empty());
}

fn order(db: &Database, project_id: i64) -> Vec<(i64, i64)> {
    ok(db.list_fields(project_id)).iter().map(|f| (f.id, f.display_order)).collect()
}

#[test]
fn moving_a_field_up_then_down_restores_the_order() {
    let db = open();
    let p = ok(db.get_or_create_project("p", "/p"));
    let a = ok(db.create_field(p.id, "A", ""));
    let b = ok(db.create_field(p.id, "B", ""));
    let c = ok(db.create_field(p.id, "C", ""));
    let before = order(&db, p.id);
    assert_eq!(before, vec![(a.id, 0), (b.id, 1), (c.id, 2)]);
    ok(db.move_field_up(p.id, c.id));
    assert_eq!(order(&db, p.id), vec![(a.id, 0), (c.id, 1), (b.id, 2)]);
    ok(db.move_field_down(p.id, c.id));
    assert_eq!(order(&db, p.id), before);
}

#[test]
fn moving_at_the_ends_changes_nothing() {
    let db = open();
    let p = ok(db.get_or_create_project("p", "/p"));
    let a = ok(db.create_field(p.id, "A", ""));
    let b = ok(db.create_field(p.id, "B", ""));
    let before = order(&db, p.id);
    ok(db.move_field_up(p.id, a.id));
    ok(db.move_field_down(p.id, b.id));
    ok(db.move_field_up(p.id, 9999));
    assert_eq!(order(&db, p.id), before);
}

#[test]
fn field_value_defaults_to_empty_and_is_upserted() {
    let db = open();
    let p = ok(db.get_or_create_project("p", "/p"));
    let s = ok(db.create_session(p.id, "s"));
    let f = ok(db.create_field(p.id, "F", ""));
    assert_eq!(ok(db.get_session_field_value(s.id, f.id)), "");
    ok(db.set_session_field_value(s.id, f.id, "one"));
    assert_eq!(ok(db.get_session_field_value(s.id, f.id)), "one");
    ok(db.set_session_field_value(s.id, f.id, "two"));
    assert_eq!(ok(db.get_session_field_value(s.id, f.id)), "two");
    assert_eq!(ok(db.get_all_session_field_values(s.id)), vec![(f.id, "two".to_string())]);
    ok(db.set_session_field_value(s.id, f.id, ""));
    assert_eq!(ok(db.get_session_field_value(s.id, f.id)), "");
}

#[test]
fn deleting_a_session_removes_its_values() {
    let db = open();
    let p = ok(db.get_or_create_project("p", "/p"));
    let s = ok(db.create_session(p.id, "s"));
    let f = ok(db.create_field(p.id, "F", ""));
    ok(db.set_session_field_value(s.id, f.id, "kept"));
    ok(db.delete_session(s.id));
    assert!(ok(db.get_all_session_field_values(s.id)).is_empty());
    assert_eq!(ok(db.get_session_field_value(s.id, f.id)), "");
}

#[test]
fn deleting_a_field_removes_its_values() {
    let db = open();
    let p = ok(db.get_or_create_project("p", "/p"));
    let s = ok(db.create_session(p.id, "s"));
    let f = ok(db.create_field(p.id, "F", ""));
    ok(db.set_session_field_value(s.id, f.id, "kept"));
    ok(db.delete_field(f.id));
    assert!(ok(db.get_all_session_field_values(s.id)).is_empty());
}

#[test]
fn apply_performs_each_write() {
    let db = open();
    let p = ok(db.get_or_create_project("p", "/p"));
    ok(db.apply(&StoreWrite::CreateSession { project_id: p.id, name: "s".to_string() }));
    let s = ok(db.list_sessions(p.id));
    assert_eq!(s.len(), 1);
    let sid = s[0].id;
    ok(db.apply(&StoreWrite::UpdateSessionName { session_id: sid, name: "t".to_string() }));
    ok(db.apply(&StoreWrite::UpdateSessionStatus { session_id: sid, status: Status::Done }));
    ok(db.apply(&StoreWrite::SetTmuxSession { session_id: sid, tmux_name: "w".to_string() }));
    let s = ok(db.list_sessions(p.id));
    assert_eq!((s[0].name.as_str(), s[0].status), ("t", Status::Done));
    assert_eq!(s[0].tmux_window, Some("w".to_string()));
    ok(db.apply(&StoreWrite::ClearTmuxSession { session_id: sid }));
    assert_eq!(ok(db.list_sessions(p.id))[0].tmux_window, None);
    ok(db.apply(&StoreWrite::CreateField {
        project_id: p.id,
        name: "A".to_string(),
        description: String::new(),
    }));
    ok(db.apply(&StoreWrite::CreateField {
        project_id: p.id,
        name: "B".to_string(),
        description: String::new(),
    }));
    let f = ok(db.list_fields(p.id));
    let (a, b) = (f[0].id, f[1].id);
    ok(db.apply(&StoreWrite::MoveFieldDown { project_id: p.id, field_id: a }));
    assert_eq!(order(&db, p.id), vec![(b, 0), (a, 1)]);
    ok(db.apply(&StoreWrite::MoveFieldUp { project_id: p.id, field_id: a }));
    assert_eq!(order(&db, p.id), vec![(a, 0), (b, 1)]);
    ok(db.apply(&StoreWrite::UpdateField {
        field_id: a,
        name: "A2".to_string(),
        description: "d".to_string(),
    }));
    ok(db.apply(&StoreWrite::ToggleFieldVisibility { field_id: a }));
    let f = ok(db.list_fields(p.id));
    assert_eq!((f[0].name.as_str(), f[0].description.as_str(), f[0].visible), ("A2", "d", false));
    ok(db.apply(&StoreWrite::SetSessionFieldValue {
        session_id: sid,
        field_id: a,
        value: "v".to_string(),
    }));
    assert_eq!(ok(db.get_session_field_value(sid, a)), "v");
    ok(db.apply(&StoreWrite::DeleteField { field_id: a }));
    assert_eq!(ok(db.list_fields(p.id)).len(), 1);
    ok(db.apply(&StoreWrite::DeleteSession { session_id: sid }));
    assert!(ok(db.list_sessions(p.id)).is_empty());
}

#[test]
fn opening_a_database_that_cannot_be_made_fails() {
    assert!(matches!(
        Database::new("/nonexistent-directory-for-this-test/x/y.db"),
        Err(StoreError::Database(_))
    ));
}

#[test]
fn rows_are_read_by_shape() {
    let p = project_from_row(&vec![SqlValue::Integer(3), t("n"), t("/p")]).unwrap();
    assert_eq!((p.id, p.name.as_str(), p.path.as_str()), (3, "n", "/p"));
    assert!(project_from_row(&vec![SqlValue::Integer(3), t("n")]).is_none());
    assert!(project_from_row(&vec![t("3"), t("n"), t("/p")]).is_none());
    assert!(project_from_row(&vec![SqlValue::Integer(3), SqlValue::Null, t("/p")]).is_none());

    let row = vec![
        SqlValue::Integer(7),
        SqlValue::Integer(1),
        t("name"),
        t("review"),
        SqlValue::Null,
        t("wb/x"),
        SqlValue::Null,
        SqlValue::Null,
        t("workbench-1-7"),
        SqlValue::Null,
    ];
    let s = session_from_row(&row).unwrap();
    assert_eq!((s.id, s.project_id, s.name.as_str(), s.status), (7, 1, "name", Status::Review));
    assert_eq!(s.checkout_path, None);
    assert_eq!(s.branch_name, Some("wb/x".to_string()));
    assert_eq!(s.tmux_window, Some("workbench-1-7".to_string()));
    let mut unknown = row.clone();
    unknown[3] = t("archived");
    assert_eq!(session_from_row(&unknown).unwrap().status, Status::Planned);
    let mut bad = row.clone();
    bad[4] = SqlValue::Integer(1);
    assert!(session_from_row(&bad).is_none());
    let mut bad = row.clone();
    bad[2] = SqlValue::Null;
    assert!(session_from_row(&bad).is_none());
    let mut bad = row.clone();
    bad[0] = SqlValue::Other;
    assert!(session_from_row(&bad).is_none());
    assert!(session_from_row(&row[..9].to_vec()).is_none());

    let f = field_from_row(&vec![
        SqlValue::Integer(2),
        SqlValue::Integer(1),
        t("F"),
        t(""),
        SqlValue::Integer(5),
        SqlValue::Integer(0),
    ])
    .unwrap();
    assert_eq!((f.id, f.project_id, f.display_order, f.visible), (2, 1, 5, false));
    assert!(field_from_row(&vec![SqlValue::Integer(2)]).is_none());
}

#[test]
fn first_text_defaults_to_empty() {
    assert_eq!(first_text(Ok(vec![vec![t("v")], vec![t("w")]])), "v");
    assert_eq!(first_text(Ok(vec![])), "");
    assert_eq!(first_text(Ok(vec![vec![]])), "");
    assert_eq!(first_text(Ok(vec![vec![SqlValue::Integer(1)]])), "");
    assert_eq!(first_text(Ok(vec![vec![SqlValue::Null]])), "");
    assert_eq!(first_text(Err(StoreError::Malformed)), "");
    assert_eq!(first_text(Err(StoreError::Database("x".to_string()))), "");
}

#[test]
fn store_error_messages() {
    assert_eq!(StoreError::Database("disk full".to_string()).message(), "disk full");
    assert_eq!(StoreError::Malformed.message(), "The record store returned a malformed row");
    assert_eq!(
        StoreError::OrderExhausted.message(),
        "No display order is left for another field"
    );
}

fn shape(s: &Statement) -> (String, Vec<String>) {
    (s.sql.to_string(), s.params.iter().map(|p| format!("{:?}", p)).collect())
}

fn expect(write: StoreWrite, sql: &str, params: Vec<SqlValue>) {
    let statement = statement_for(&write).expect("a statement");
    assert_eq!(shape(&statement), (sql.to_string(), params.iter().map(|p| format!("{:?}", p)).collect()));
}

#[test]
fn each_simple_write_has_its_statement() {
    expect(
        StoreWrite::CreateSession { project_id: 4, name: "n".to_string() },
        "INSERT INTO sessions (project_id, name, status) VALUES (?1, ?2, 'planned')",
        vec![SqlValue::Integer(4), t("n")],
    );
    expect(
        StoreWrite::UpdateSessionName { session_id: 7, name: "n".to_string() },
        "UPDATE sessions SET name = ?1, updated_at = CURRENT_TIMESTAMP WHERE id = ?2",
        vec![t("n"), SqlValue::Integer(7)],
    );
    expect(
        StoreWrite::UpdateSessionStatus { session_id: 7, status: Status::InProgress },
        "UPDATE sessions SET status = ?1, updated_at = CURRENT_TIMESTAMP WHERE id = ?2",
        vec![t("in_progress"), SqlValue::Integer(7)],
    );
    expect(
        StoreWrite::DeleteSession { session_id: 7 },
        "DELETE FROM sessions WHERE id = ?1",
        vec![SqlValue::Integer(7)],
    );
    expect(
        StoreWrite::SetTmuxSession { session_id: 7, tmux_name: "w".to_string() },
        "UPDATE sessions SET tmux_window = ?1, updated_at = CURRENT_TIMESTAMP WHERE id = ?2",
        vec![t("w"), SqlValue::Integer(7)],
    );
    expect(
        StoreWrite::ClearTmuxSession { session_id: 7 },
        "UPDATE sessions SET tmux_window = NULL, updated_at = CURRENT_TIMESTAMP WHERE id = ?1",
        vec![SqlValue::Integer(7)],
    );
    expect(
        StoreWrite::SetSessionFieldValue { session_id: 7, field_id: 2, value: "v".to_string() },
        "INSERT INTO session_field_values (session_id, field_id, value) VALUES (?1, ?2, ?3) ON CONFLICT(session_id, field_id) DO UPDATE SET value = ?3",
        vec![SqlValue::Integer(7), SqlValue::Integer(2), t("v")],
    );
    expect(
        StoreWrite::UpdateField { field_id: 2, name: "n".to_string(), description: "d".to_string() },
        "UPDATE fields SET name = ?1, description = ?2 WHERE id = ?3",
        vec![t("n"), t("d"), SqlValue::Integer(2)],
    );
    expect(
        StoreWrite::DeleteField { field_id: 2 },
        "DELETE FROM fields WHERE id = ?1",
        vec![SqlValue::Integer(2)],
    );
    expect(
        StoreWrite::ToggleFieldVisibility { field_id: 2 },
        "UPDATE fields SET visible = NOT visible WHERE id = ?1",
        vec![SqlValue::Integer(2)],
    );
}

#[test]
fn writes_that_read_first_have_no_single_statement() {
    assert!(statement_for(&StoreWrite::MoveFieldUp { project_id: 1, field_id: 2 }).is_none());
    assert!(statement_for(&StoreWrite::MoveFieldDown { project_id: 1, field_id: 2 }).is_none());
    assert!(statement_for(&StoreWrite::CreateField {
        project_id: 1,
        name: "n".to_string(),
        description: String::new(),
    })
    .is_none());
}

#[test]
fn field_and_swap_statements() {
    assert_eq!(
        shape(&insert_field(1, "n", "d", 5)),
        (
            "INSERT INTO fields (project_id, name, description, display_order) VALUES (?1, ?2, ?3, ?4)"
                .to_string(),
            vec![SqlValue::Integer(1), t("n"), t("d"), SqlValue::Integer(5)]
                .iter()
                .map(|p| format!("{:?}", p))
                .collect()
        )
    );
    let swap = OrderSwap { first_id: 20, first_order: 0, second_id: 10, second_order: 1 };
    let (first, second) = swap_statements(swap);
    let sql = "UPDATE fields SET display_order = ?1 WHERE id = ?2".to_string();
    assert_eq!(shape(&first), (sql.clone(), vec!["Integer(0)".to_string(), "Integer(20)".to_string()]));
    assert_eq!(shape(&second), (sql, vec!["Integer(1)".to_string(), "Integer(10)".to_string()]));
}

#[test]
fn next_order_is_one_more_than_the_last() {
    assert!(matches!(next_order(&vec![vec![SqlValue::Integer(-1)]]), Ok(0)));
    assert!(matches!(next_order(&vec![vec![SqlValue::Integer(6)]]), Ok(7)));
    assert!(matches!(
        next_order(&vec![vec![SqlValue::Integer(i64::MAX)]]),
        Err(StoreError::OrderExhausted)
    ));
    assert!(matches!(next_order(&vec![]), Err(StoreError::Malformed)));
    assert!(matches!(next_order(&vec![vec![]]), Err(StoreError::Malformed)));
    assert!(matches!(next_order(&vec![vec![SqlValue::Null]]), Err(StoreError::Malformed)));
    assert!(matches!(
        next_order(&vec![vec![SqlValue::Integer(1), SqlValue::Integer(2)]]),
        Err(StoreError::Malformed)
    ));
}

fn session_row(id: i64, project_id: i64) -> Vec<SqlValue> {
    vec![
        SqlValue::Integer(id),
        SqlValue::Integer(project_id),
        t("s"),
        t("planned"),
        SqlValue::Null,
        SqlValue::Null,
        SqlValue::Null,
        SqlValue::Null,
        SqlValue::Null,
        SqlValue::Null,
    ]
}

#[test]
fn session_rows_must_be_of_the_project_and_in_order() {
    let good = vec![session_row(1, 5), session_row(2, 5), session_row(9, 5)];
    let ids: Vec<i64> = ok(sessions_from_rows(&good, 5)).iter().map(|s| s.id).collect();
    assert_eq!(ids, vec![1, 2, 9]);
    assert!(ok(sessions_from_rows(&Vec::new(), 5)).is_empty());
    assert!(matches!(sessions_from_rows(&good, 6), Err(StoreError::Malformed)));
    let unordered = vec![session_row(2, 5), session_row(1, 5)];
    assert!(matches!(sessions_from_rows(&unordered, 5), Err(StoreError::Malformed)));
    let twice = vec![session_row(2, 5), session_row(2, 5)];
    assert!(matches!(sessions_from_rows(&twice, 5), Err(StoreError::Malformed)));
    let short = vec![vec![SqlValue::Integer(1)]];
    assert!(matches!(sessions_from_rows(&short, 5), Err(StoreError::Malformed)));
}

fn field_row(id: i64, project_id: i64, order: i64) -> Vec<SqlValue> {
    vec![
        SqlValue::Integer(id),
        SqlValue::Integer(project_id),
        t("f"),
        t(""),
        SqlValue::Integer(order),
        SqlValue::Integer(1),
    ]
}

#[test]
fn field_rows_must_be_of_the_project_and_in_order() {
    let good = vec![field_row(3, 5, 0), field_row(1, 5, 1), field_row(2, 5, 1)];
    let ids: Vec<i64> = ok(fields_from_rows(&good, 5)).iter().map(|f| f.id).collect();
    assert_eq!(ids, vec![3, 1, 2]);
    assert!(matches!(fields_from_rows(&good, 4), Err(StoreError::Malformed)));
    let unordered = vec![field_row(1, 5, 2), field_row(2, 5, 1)];
    assert!(matches!(fields_from_rows(&unordered, 5), Err(StoreError::Malformed)));
    let tie = vec![field_row(2, 5, 1), field_row(1, 5, 1)];
    assert!(matches!(fields_from_rows(&tie, 5), Err(StoreError::Malformed)));
}

#[test]
fn value_rows_are_read_in_pairs() {
    let rows = vec![vec![SqlValue::Integer(2), t("a")], vec![SqlValue::Integer(3), t("")]];
    assert_eq!(ok(values_from_rows(&rows)), vec![(2, "a".to_string()), (3, String::new())]);
    assert!(matches!(
        values_from_rows(&vec![vec![SqlValue::Integer(2)]]),
        Err(StoreError::Malformed)
    ));
    assert!(matches!(values_from_rows(&vec![vec![t("2"), t("a")]]), Err(StoreError::Malformed)));
    assert!(matches!(
        values_from_rows(&vec![vec![SqlValue::Integer(2), SqlValue::Null]]),
        Err(StoreError::Malformed)
    ));
}

#[test]
fn project_rows_are_read_for_the_path_asked() {
    let row = vec![SqlValue::Integer(3), t("n"), t("/p")];
    let found = ok(project_from_rows(&vec![row.clone()], "/p")).unwrap();
    assert_eq!((found.id, found.name.as_str(), found.path.as_str()), (3, "n", "/p"));
    assert!(ok(project_from_rows(&Vec::new(), "/p")).is_none());
    // Only the first row counts.
    let second = vec![SqlValue::Integer(4), t("m"), t("/p")];
    assert_eq!(ok(project_from_rows(&vec![row.clone(), second], "/p")).unwrap().id, 3);
    assert!(matches!(project_from_rows(&vec![row], "/q"), Err(StoreError::Malformed)));
    assert!(matches!(
        project_from_rows(&vec![vec![SqlValue::Integer(3), t("n")]], "/p"),
        Err(StoreError::Malformed)
    ));
    assert!(matches!(
        project_from_rows(&vec![vec![t("3"), t("n"), t("/p")]], "/p"),
        Err(StoreError::Malformed)
    ));
}

#[test]
fn text_that_is_no_utf8_is_an_error_of_the_database() {
    let path = "file:workbench_text_that_is_no_utf8?mode=memory&cache=shared";
    let db = ok(Database::new(path));
    let p = ok(db.get_or_create_project("p", "/p"));
    ok(db.create_session(p.id, "fine"));
    assert_eq!(ok(db.list_sessions(p.id)).len(), 1);
    let side = rusqlite::Connection::open(path).unwrap();
    side.execute(
        "INSERT INTO sessions (project_id, name) VALUES (?1, CAST(x'ff' AS TEXT))",
        (p.id,),
    )
    .unwrap();
    assert!(matches!(db.list_sessions(p.id), Err(StoreError::Database(_))));
}

#[test]
fn columns_of_other_kinds_are_refused_by_the_readers() {
    let path = "file:workbench_columns_of_other_kinds?mode=memory&cache=shared";
    let db = ok(Database::new(path));
    let p = ok(db.get_or_create_project("p", "/p"));
    let side = rusqlite::Connection::open(path).unwrap();
    side.execute("INSERT INTO sessions (project_id, name) VALUES (?1, x'0102')", (p.id,)).unwrap();
    assert!(matches!(db.list_sessions(p.id), Err(StoreError::Malformed)));
}

fn expect_query(read: StoreRead, sql: &str, params: Vec<SqlValue>, columns: usize) {
    let query = query_for(&read);
    assert_eq!(
        shape(&query.statement),
        (sql.to_string(), params.iter().map(|p| format!("{:?}", p)).collect())
    );
    assert_eq!(query.columns, columns);
}

#[test]
fn each_read_has_its_query() {
    expect_query(
        StoreRead::Project { path: "/p".to_string() },
        "SELECT id, name, path FROM projects WHERE path = ?1",
        vec![t("/p")],
        3,
    );
    expect_query(
        StoreRead::Sessions { project_id: 4 },
        "SELECT id, project_id, name, status, checkout_path, branch_name, ticket_id, ticket_url, tmux_window, claude_session_id FROM sessions WHERE project_id = ?1 ORDER BY id",
        vec![SqlValue::Integer(4)],
        10,
    );
    expect_query(
        StoreRead::Fields { project_id: 4 },
        "SELECT id, project_id, name, description, display_order, visible FROM fields WHERE project_id = ?1 ORDER BY display_order, id",
        vec![SqlValue::Integer(4)],
        6,
    );
    expect_query(
        StoreRead::LastOrder { project_id: 4 },
        "SELECT COALESCE(MAX(display_order), -1) FROM fields WHERE project_id = ?1",
        vec![SqlValue::Integer(4)],
        1,
    );
    expect_query(
        StoreRead::FieldValue { session_id: 7, field_id: 2 },
        "SELECT value FROM session_field_values WHERE session_id = ?1 AND field_id = ?2",
        vec![SqlValue::Integer(7), SqlValue::Integer(2)],
        1,
    );
    expect_query(
        StoreRead::SessionValues { session_id: 7 },
        "SELECT field_id, value FROM session_field_values WHERE session_id = ?1",
        vec![SqlValue::Integer(7)],
        2,
    );
}

#[test]
fn a_project_is_added_with_name_and_path() {
    assert_eq!(
        shape(&insert_project("n", "/p")),
        (
            "INSERT INTO projects (name, path) VALUES (?1, ?2)".to_string(),
            vec![format!("{:?}", t("n")), format!("{:?}", t("/p"))]
        )
    );
}

#[test]
fn field_values_are_read_for_the_session_and_field_asked() {
    let db = open();
    let p = ok(db.get_or_create_project("p", "/p"));
    let s1 = ok(db.create_session(p.id, "one"));
    let s2 = ok(db.create_session(p.id, "two"));
    let f1 = ok(db.create_field(p.id, "A", ""));
    let f2 = ok(db.create_field(p.id, "B", ""));
    ok(db.set_session_field_value(s1.id, f1.id, "1a"));
    ok(db.set_session_field_value(s1.id, f2.id, "1b"));
    ok(db.set_session_field_value(s2.id, f1.id, "2a"));
    assert_eq!(ok(db.get_session_field_value(s1.id, f1.id)), "1a");
    assert_eq!(ok(db.get_session_field_value(s1.id, f2.id)), "1b");
    assert_eq!(ok(db.get_session_field_value(s2.id, f1.id)), "2a");
    assert_eq!(ok(db.get_session_field_value(s2.id, f2.id)), "");
}

#[test]
fn listings_are_those_of_the_project_asked() {
    let db = open();
    let p = ok(db.get_or_create_project("p", "/p"));
    let q = ok(db.get_or_create_project("q", "/q"));
    ok(db.create_session(p.id, "of p"));
    ok(db.create_field(q.id, "of q", ""));
    assert_eq!(ok(db.list_sessions(p.id)).len(), 1);
    assert!(ok(db.list_sessions(q.id)).is_empty());
    assert!(ok(db.list_fields(p.id)).is_empty());
    assert_eq!(ok(db.list_fields(q.id)).len(), 1);
}
