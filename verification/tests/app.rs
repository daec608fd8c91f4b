use workbench::action::{AppAction, Reload, StoreWrite};
use workbench::ai::fit_values;
use workbench::app::App;
use workbench::db::{Field, Project, Session, Status};
use workbench::key::{Event, KeyCode, KeyEvent, KeyModifiers};
use workbench::mode::{EditMode, InputMode, View};

fn project() -> Project {
    Project { id: 1, name: "demo".to_string(), path: "/work/demo".to_string() }
}

fn session(id: i64, name: &str, status: Status, tmux: Option<&str>) -> Session {
    Session {
        id,
        project_id: 1,
        name: name.to_string(),
        status,
        checkout_path: None,
        branch_name: None,
        ticket_id: None,
        ticket_url: None,
        tmux_window: tmux.map(|t| t.to_string()),
        claude_session_id: None,
    }
}

fn field(id: i64, name: &str, description: &str, order: i64) -> Field {
    Field {
        id,
        project_id: 1,
        name: name.to_string(),
        description: description.to_string(),
        display_order: order,
        visible: true,
    }
}

fn board() -> Vec<Session> {
    vec![
        session(1, "alpha", Status::Planned, None),
        session(2, "beta", Status::InProgress, Some("workbench-1-2")),
        session(3, "gamma", Status::Planned, Some("workbench-1-3")),
        session(4, "delta", Status::Planned, None),
        session(5, "epsilon", Status::Done, None),
    ]
}

fn three_fields() -> Vec<Field> {
    vec![field(10, "Ticket", "the ticket id", 0), field(11, "Notes", "", 1), field(12, "Owner", "who", 2)]
}

fn app_with(sessions: Vec<Session>, fields: Vec<Field>) -> App {
    App::new(project(), sessions, fields)
}

fn press(app: &mut App, code: KeyCode) -> AppAction {
    app.handle_events(None, Some(Event::Key(KeyEvent::plain(code))))
}

fn press_with(app: &mut App, code: KeyCode, shift: bool, control: bool) -> AppAction {
    let key = KeyEvent { code, modifiers: KeyModifiers { shift, control } };
    app.handle_events(None, Some(Event::Key(key)))
}

fn ch(app: &mut App, c: char) -> AppAction {
    press(app, KeyCode::Char(c))
}

fn type_text(app: &mut App, text: &str) {
    for c in text.chars() {
        assert!(matches!(ch(app, c), AppAction::Nothing));
    }
}

fn writes_of(action: &AppAction) -> Vec<String> {
    match action {
        AppAction::Commit { writes, .. } => writes.iter().map(|w| format!("{:?}", w)).collect(),
        other => panic!("no commit: {:?}", other),
    }
}

fn selected_id(app: &App) -> Option<i64> {
    app.selected_session().map(|s| s.id)
}

#[test]
fn starts_on_the_board() {
    let app = app_with(board(), three_fields());
    assert!(!app.should_quit);
    assert_eq!(app.view, View::Kanban);
    assert_eq!(app.input_mode, InputMode::Normal);
    assert_eq!(app.edit_mode, EditMode::Manual);
    assert_eq!((app.selected_column, app.selected_row, app.selected_field), (0, 0, 0));
    assert_eq!(app.input_buffer, "");
    assert!(!app.ai_running);
    assert_eq!(app.status_message, None);
    assert_eq!(selected_id(&app), Some(1));
    assert_eq!(View::default(), View::Kanban);
    assert_eq!(EditMode::default(), EditMode::Manual);
}

#[test]
fn sessions_by_status_keeps_order() {
    let app = app_with(board(), Vec::new());
    let planned: Vec<i64> = app.sessions_by_status(Status::Planned).iter().map(|s| s.id).collect();
    assert_eq!(planned, vec![1, 3, 4]);
    assert!(app.sessions_by_status(Status::Review).is_empty());
}

#[test]
fn quit_keys() {
    let mut app = app_with(board(), Vec::new());
    ch(&mut app, 'c');
    assert!(!app.should_quit);
    press_with(&mut app, KeyCode::Char('c'), false, true);
    assert!(app.should_quit);
    let mut app = app_with(board(), Vec::new());
    ch(&mut app, 'q');
    assert!(app.should_quit);
}

#[test]
fn selection_stays_inside_the_column() {
    let mut app = app_with(board(), Vec::new());
    ch(&mut app, 'j');
    ch(&mut app, 'j');
    assert_eq!(app.selected_row, 2);
    ch(&mut app, 'j');
    assert_eq!(app.selected_row, 2);
    assert_eq!(selected_id(&app), Some(4));
    // One session in the next column: the row is brought back to it.
    ch(&mut app, 'l');
    assert_eq!((app.selected_column, app.selected_row), (1, 0));
    assert_eq!(selected_id(&app), Some(2));
    // An empty column: row 0, nothing selected.
    press(&mut app, KeyCode::Right);
    assert_eq!((app.selected_column, app.selected_row), (2, 0));
    assert_eq!(selected_id(&app), None);
    ch(&mut app, 'j');
    assert_eq!(app.selected_row, 0);
    ch(&mut app, 'l');
    ch(&mut app, 'l');
    assert_eq!(app.selected_column, 3);
    ch(&mut app, 'k');
    assert_eq!(app.selected_row, 0);
    for _ in 0..5 {
        press(&mut app, KeyCode::Left);
    }
    assert_eq!(app.selected_column, 0);
    press(&mut app, KeyCode::Down);
    press(&mut app, KeyCode::Up);
    assert_eq!(app.selected_row, 0);
}

#[test]
fn refresh_brings_the_row_back_into_the_column() {
    let mut app = app_with(board(), Vec::new());
    ch(&mut app, 'j');
    ch(&mut app, 'j');
    assert_eq!(app.selected_row, 2);
    app.refresh_sessions(vec![session(1, "alpha", Status::Planned, None)]);
    assert_eq!(app.sessions.len(), 1);
    assert_eq!(app.selected_row, 0);
    app.refresh_sessions(Vec::new());
    assert_eq!(app.selected_row, 0);
    assert_eq!(selected_id(&app), None);
}

#[test]
fn new_session_is_committed_on_enter() {
    let mut app = app_with(board(), Vec::new());
    app.input_buffer = "stale".to_string();
    ch(&mut app, 'n');
    assert_eq!(app.input_mode, InputMode::NewSession);
    assert_eq!(app.input_buffer, "");
    type_text(&mut app, "fix loginn");
    press(&mut app, KeyCode::Backspace);
    assert_eq!(app.input_buffer, "fix login");
    let action = press(&mut app, KeyCode::Enter);
    assert_eq!(
        writes_of(&action),
        vec![format!(
            "{:?}",
            StoreWrite::CreateSession { project_id: 1, name: "fix login".to_string() }
        )]
    );
    assert!(matches!(action, AppAction::Commit { kill: None, reload: Reload::Sessions, .. }));
    assert_eq!(app.input_mode, InputMode::Normal);
    assert_eq!(app.input_buffer, "");
}

#[test]
fn empty_new_session_is_dropped() {
    let mut app = app_with(board(), Vec::new());
    ch(&mut app, 'n');
    press(&mut app, KeyCode::Backspace);
    assert!(matches!(press(&mut app, KeyCode::Enter), AppAction::Nothing));
    assert_eq!(app.input_mode, InputMode::Normal);
    ch(&mut app, 'n');
    type_text(&mut app, "x");
    assert!(matches!(press(&mut app, KeyCode::Esc), AppAction::Nothing));
    assert_eq!(app.input_mode, InputMode::Normal);
    assert_eq!(app.input_buffer, "");
}

#[test]
fn move_assigns_the_status_of_the_digit() {
    let mut app = app_with(board(), Vec::new());
    ch(&mut app, 'm');
    assert_eq!(app.input_mode, InputMode::MoveSession);
    assert_eq!(app.moving_session_id, Some(1));
    assert!(matches!(ch(&mut app, '5'), AppAction::Nothing));
    assert_eq!(app.input_mode, InputMode::MoveSession);
    let action = ch(&mut app, '3');
    assert_eq!(
        writes_of(&action),
        vec![format!(
            "{:?}",
            StoreWrite::UpdateSessionStatus { session_id: 1, status: Status::Review }
        )]
    );
    assert_eq!(app.input_mode, InputMode::Normal);
    assert_eq!(app.moving_session_id, None);
    ch(&mut app, 'm');
    press(&mut app, KeyCode::Esc);
    assert_eq!((app.input_mode, app.moving_session_id), (InputMode::Normal, None));
}

#[test]
fn move_and_delete_need_a_selected_session() {
    let mut app = app_with(Vec::new(), Vec::new());
    ch(&mut app, 'm');
    ch(&mut app, 'd');
    ch(&mut app, 'e');
    ch(&mut app, ' ');
    assert!(matches!(press(&mut app, KeyCode::Enter), AppAction::Nothing));
    assert_eq!(app.input_mode, InputMode::Normal);
    assert!(!app.peek_active);
}

#[test]
fn delete_kills_the_terminal_then_deletes() {
    let mut app = app_with(board(), Vec::new());
    ch(&mut app, 'j');
    ch(&mut app, 'd');
    assert_eq!(app.input_mode, InputMode::ConfirmDelete);
    assert_eq!(app.deleting_session_id, Some(3));
    let action = ch(&mut app, 'y');
    match &action {
        AppAction::Commit { kill, reload, .. } => {
            assert_eq!(kill.as_deref(), Some("workbench-1-3"));
            assert_eq!(*reload, Reload::Sessions);
        }
        other => panic!("no commit: {:?}", other),
    }
    assert_eq!(
        writes_of(&action),
        vec![format!("{:?}", StoreWrite::DeleteSession { session_id: 3 })]
    );
    assert_eq!((app.input_mode, app.deleting_session_id), (InputMode::Normal, None));
}

#[test]
fn delete_without_terminal_kills_nothing() {
    let mut app = app_with(board(), Vec::new());
    ch(&mut app, 'd');
    let action = ch(&mut app, 'Y');
    assert!(matches!(action, AppAction::Commit { kill: None, .. }));
}

#[test]
fn delete_is_cancelled_by_any_key_but_yes() {
    let other = [
        KeyCode::Char('x'),
        KeyCode::Char('1'),
        KeyCode::Enter,
        KeyCode::Tab,
        KeyCode::Backspace,
        KeyCode::Up,
        KeyCode::Other,
    ];
    for cancel in other {
        let mut app = app_with(board(), Vec::new());
        ch(&mut app, 'j');
        ch(&mut app, 'd');
        assert_eq!(app.deleting_session_id, Some(3));
        assert!(matches!(press(&mut app, cancel), AppAction::Nothing));
        assert_eq!((app.input_mode, app.deleting_session_id), (InputMode::Normal, None));
        assert_eq!(app.sessions.len(), 5);
    }
}

#[test]
fn field_delete_is_cancelled_by_any_key_but_yes() {
    let other = [
        KeyCode::Char('n'),
        KeyCode::Char('N'),
        KeyCode::Esc,
        KeyCode::Char('z'),
        KeyCode::Enter,
        KeyCode::Other,
    ];
    for cancel in other {
        let mut app = app_with(board(), three_fields());
        ch(&mut app, 's');
        ch(&mut app, 'd');
        assert_eq!(app.deleting_field_id, Some(10));
        assert!(matches!(press(&mut app, cancel), AppAction::Nothing));
        assert_eq!((app.input_mode, app.deleting_field_id), (InputMode::Normal, None));
        assert_eq!(app.fields.len(), 3);
    }
}

#[test]
fn delete_is_cancelled_by_no() {
    for cancel in [KeyCode::Char('n'), KeyCode::Char('N'), KeyCode::Esc] {
        let mut app = app_with(board(), Vec::new());
        ch(&mut app, 'd');
        assert!(matches!(press(&mut app, cancel), AppAction::Nothing));
        assert_eq!((app.input_mode, app.deleting_session_id), (InputMode::Normal, None));
    }
}

#[test]
fn refresh_key_reloads_sessions() {
    let mut app = app_with(board(), Vec::new());
    let action = ch(&mut app, 'r');
    assert!(matches!(action, AppAction::Commit { kill: None, reload: Reload::Sessions, .. }));
    assert!(writes_of(&action).is_empty());
}

#[test]
fn peek_needs_a_terminal_on_record() {
    let mut app = app_with(board(), Vec::new());
    ch(&mut app, ' ');
    assert!(!app.peek_active);
    ch(&mut app, 'j');
    ch(&mut app, ' ');
    assert!(app.peek_active);
    ch(&mut app, ' ');
    assert!(!app.peek_active);
}

#[test]
fn enter_asks_for_the_terminal_of_the_selected_session() {
    let mut app = app_with(board(), Vec::new());
    match press(&mut app, KeyCode::Enter) {
        AppAction::OpenTerminal { session_id, stored, base_name } => {
            assert_eq!(session_id, 1);
            assert_eq!(stored, None);
            assert_eq!(base_name, "workbench-1-1");
        }
        other => panic!("unexpected: {:?}", other),
    }
    ch(&mut app, 'j');
    match press(&mut app, KeyCode::Enter) {
        AppAction::OpenTerminal { session_id, stored, base_name } => {
            assert_eq!(session_id, 3);
            assert_eq!(stored.as_deref(), Some("workbench-1-3"));
            assert_eq!(base_name, "workbench-1-3");
        }
        other => panic!("unexpected: {:?}", other),
    }
}

#[test]
fn created_terminal_counts_as_live() {
    let mut app = app_with(board(), Vec::new());
    match app.terminal_created("workbench-1-1".to_string()) {
        AppAction::AttachTmux(name) => assert_eq!(name, "workbench-1-1"),
        other => panic!("unexpected: {:?}", other),
    }
    assert_eq!(app.active_tmux_sessions, vec!["workbench-1-1"]);
    app.terminal_created("workbench-1-1".to_string());
    assert_eq!(app.active_tmux_sessions, vec!["workbench-1-1"]);
    app.terminal_created("workbench-1-4".to_string());
    assert_eq!(app.active_tmux_sessions, vec!["workbench-1-1", "workbench-1-4"]);
}

fn open_editor(app: &mut App, values: &[&str]) {
    match ch(app, 'e') {
        AppAction::LoadFieldValues { session_id } => {
            app.load_field_values(session_id, values.iter().map(|v| v.to_string()).collect());
        }
        other => panic!("unexpected: {:?}", other),
    }
}

#[test]
fn edit_loads_name_and_one_value_per_field() {
    let mut app = app_with(board(), three_fields());
    let action = ch(&mut app, 'e');
    assert!(matches!(action, AppAction::LoadFieldValues { session_id: 1 }));
    assert_eq!(app.input_mode, InputMode::EditSession);
    assert_eq!(app.editing_session_id, Some(1));
    assert_eq!(app.edit_session_name, "alpha");
    assert_eq!(app.input_buffer, "alpha");
    assert_eq!(app.edit_row, 0);
    assert_eq!(app.edit_field_values, vec!["", "", ""]);
    app.load_field_values(1, vec!["ABC-1".to_string()]);
    assert_eq!(app.edit_field_values, vec!["ABC-1", "", ""]);
    assert_eq!(app.input_buffer, "alpha");
    // Values for another session are not taken.
    app.load_field_values(2, vec!["x".to_string(), "y".to_string(), "z".to_string()]);
    assert_eq!(app.edit_field_values, vec!["ABC-1", "", ""]);
}

#[test]
fn load_field_values_outside_the_editor_changes_nothing() {
    let mut app = app_with(board(), three_fields());
    app.load_field_values(1, vec!["x".to_string()]);
    assert!(app.edit_field_values.is_empty());
    assert_eq!(app.input_mode, InputMode::Normal);
}

#[test]
fn rows_wrap_around_and_keep_their_text() {
    let mut app = app_with(board(), three_fields());
    open_editor(&mut app, &["t", "n", "o"]);
    type_text(&mut app, "!");
    press(&mut app, KeyCode::Tab);
    assert_eq!(app.edit_session_name, "alpha!");
    assert_eq!((app.edit_row, app.input_buffer.as_str()), (1, "t"));
    type_text(&mut app, "1");
    press(&mut app, KeyCode::Down);
    assert_eq!(app.edit_field_values, vec!["t1", "n", "o"]);
    assert_eq!((app.edit_row, app.input_buffer.as_str()), (2, "n"));
    press(&mut app, KeyCode::Tab);
    assert_eq!((app.edit_row, app.input_buffer.as_str()), (3, "o"));
    press(&mut app, KeyCode::Tab);
    assert_eq!((app.edit_row, app.input_buffer.as_str()), (0, "alpha!"));
    press(&mut app, KeyCode::BackTab);
    assert_eq!((app.edit_row, app.input_buffer.as_str()), (3, "o"));
    press(&mut app, KeyCode::Up);
    assert_eq!((app.edit_row, app.input_buffer.as_str()), (2, "n"));
}

#[test]
fn enter_commits_every_row() {
    let mut app = app_with(board(), three_fields());
    open_editor(&mut app, &["t", "", "o"]);
    type_text(&mut app, "2");
    press(&mut app, KeyCode::Tab);
    press(&mut app, KeyCode::Backspace);
    let action = press(&mut app, KeyCode::Enter);
    assert!(matches!(action, AppAction::Commit { kill: None, reload: Reload::Sessions, .. }));
    let expected = vec![
        StoreWrite::UpdateSessionName { session_id: 1, name: "alpha2".to_string() },
        StoreWrite::SetSessionFieldValue { session_id: 1, field_id: 10, value: String::new() },
        StoreWrite::SetSessionFieldValue { session_id: 1, field_id: 11, value: String::new() },
        StoreWrite::SetSessionFieldValue { session_id: 1, field_id: 12, value: "o".to_string() },
    ];
    let expected: Vec<String> = expected.iter().map(|w| format!("{:?}", w)).collect();
    assert_eq!(writes_of(&action), expected);
    assert_eq!(app.input_mode, InputMode::Normal);
    assert_eq!(app.editing_session_id, None);
    assert_eq!(app.input_buffer, "");
    assert_eq!(app.edit_session_name, "");
    assert!(app.edit_field_values.is_empty());
}

#[test]
fn an_empty_name_is_not_written() {
    let mut app = app_with(board(), three_fields());
    open_editor(&mut app, &["t", "n", "o"]);
    for _ in 0..5 {
        press(&mut app, KeyCode::Backspace);
    }
    let action = press(&mut app, KeyCode::Enter);
    let writes = writes_of(&action);
    assert_eq!(writes.len(), 3);
    assert!(writes.iter().all(|w| w.starts_with("SetSessionFieldValue")));
}

#[test]
fn escape_discards_the_edits() {
    let mut app = app_with(board(), three_fields());
    open_editor(&mut app, &["t", "n", "o"]);
    type_text(&mut app, "changed");
    assert!(matches!(press(&mut app, KeyCode::Esc), AppAction::Nothing));
    assert_eq!(app.input_mode, InputMode::Normal);
    assert_eq!(app.editing_session_id, None);
    assert_eq!(app.input_buffer, "");
    assert!(app.edit_field_values.is_empty());
    assert_eq!(app.edit_mode, EditMode::Manual);
}

fn to_ai_mode(app: &mut App) {
    press_with(app, KeyCode::BackTab, true, false);
}

#[test]
fn shift_backtab_switches_between_manual_and_ai() {
    let mut app = app_with(board(), three_fields());
    open_editor(&mut app, &["t", "n", "o"]);
    press(&mut app, KeyCode::Tab);
    type_text(&mut app, "x");
    to_ai_mode(&mut app);
    assert_eq!(app.edit_mode, EditMode::AI);
    // Entering AI mode saved the active row.
    assert_eq!(app.edit_field_values, vec!["tx", "n", "o"]);
    type_text(&mut app, "fill it");
    assert_eq!(app.ai_input, "fill it");
    press(&mut app, KeyCode::Backspace);
    assert_eq!(app.ai_input, "fill i");
    // Moving over the rows in AI mode does not touch them.
    press(&mut app, KeyCode::Down);
    assert_eq!(app.edit_row, 2);
    assert_eq!(app.edit_field_values, vec!["tx", "n", "o"]);
    press(&mut app, KeyCode::Up);
    press(&mut app, KeyCode::Up);
    press(&mut app, KeyCode::Up);
    assert_eq!(app.edit_row, 3);
    press(&mut app, KeyCode::Tab);
    assert_eq!(app.edit_row, 0);
    to_ai_mode(&mut app);
    assert_eq!(app.edit_mode, EditMode::Manual);
    // Leaving AI mode loaded the row under the cursor.
    assert_eq!(app.input_buffer, "alpha");
}

fn start_ai(app: &mut App, prompt: &str) -> AppAction {
    to_ai_mode(app);
    type_text(app, prompt);
    press(app, KeyCode::Enter)
}

#[test]
fn enter_in_ai_mode_starts_a_run() {
    let mut app = app_with(board(), three_fields());
    ch(&mut app, 'j');
    open_editor(&mut app, &["t", "n", "o"]);
    to_ai_mode(&mut app);
    assert!(matches!(press(&mut app, KeyCode::Enter), AppAction::Nothing));
    assert!(!app.ai_running);
    type_text(&mut app, "ticket ABC-9");
    app.ai_error = Some("old".to_string());
    match press(&mut app, KeyCode::Enter) {
        AppAction::RunAiFill(request) => {
            assert_eq!(request.prompt, "ticket ABC-9\nSession name: gamma");
            assert_eq!(
                request.fields,
                vec![
                    ("Ticket".to_string(), "the ticket id".to_string()),
                    ("Notes".to_string(), String::new()),
                    ("Owner".to_string(), "who".to_string()),
                ]
            );
            assert_eq!(request.terminal.as_deref(), Some("workbench-1-3"));
            assert_eq!(request.num_fields, 3);
        }
        other => panic!("unexpected: {:?}", other),
    }
    assert!(app.ai_running);
    assert_eq!(app.ai_error, None);
}

#[test]
fn without_fields_no_run_starts() {
    let mut app = app_with(board(), Vec::new());
    open_editor(&mut app, &[]);
    assert!(matches!(start_ai(&mut app, "anything"), AppAction::Nothing));
    assert!(!app.ai_running);
}

fn snapshot(app: &App) -> String {
    format!(
        "{:?}",
        (
            (
                app.should_quit,
                app.selected_column,
                app.selected_row,
                app.input_mode,
                &app.input_buffer,
                &app.active_tmux_sessions,
                &app.sessions_waiting_input,
                app.editing_session_id,
                app.moving_session_id,
                app.deleting_session_id,
                app.peek_active,
                app.edit_row,
            ),
            (
                &app.edit_session_name,
                &app.edit_field_values,
                app.edit_mode,
                &app.ai_input,
                app.ai_running,
                &app.ai_error,
                app.view,
                app.selected_field,
                app.editing_field_id,
                app.deleting_field_id,
                &app.new_field_name,
                &app.new_field_desc,
            ),
            (&app.status_message, &app.sessions, &app.fields, &app.project),
        )
    )
}

#[test]
fn keys_and_pastes_change_nothing_while_the_assistant_runs() {
    let mut app = app_with(board(), three_fields());
    open_editor(&mut app, &["t", "n", "o"]);
    assert!(matches!(start_ai(&mut app, "go"), AppAction::RunAiFill(_)));
    app.status_message = Some("still here".to_string());
    let before = snapshot(&app);
    let keys = [
        KeyCode::Esc,
        KeyCode::Enter,
        KeyCode::Tab,
        KeyCode::BackTab,
        KeyCode::Backspace,
        KeyCode::Up,
        KeyCode::Down,
        KeyCode::Left,
        KeyCode::Right,
        KeyCode::Char('q'),
        KeyCode::Char('x'),
        KeyCode::Char('y'),
        KeyCode::Other,
    ];
    for code in keys {
        for (shift, control) in [(false, false), (true, false), (false, true)] {
            assert!(matches!(press_with(&mut app, code, shift, control), AppAction::Nothing));
            assert_eq!(snapshot(&app), before);
        }
    }
    let pasted = app.handle_events(None, Some(Event::Paste("pasted".to_string())));
    assert!(matches!(pasted, AppAction::Nothing));
    assert_eq!(snapshot(&app), before);
    assert!(matches!(app.handle_events(None, Some(Event::Other)), AppAction::Nothing));
    assert!(matches!(app.handle_events(None, None), AppAction::Nothing));
    assert_eq!(snapshot(&app), before);
}

#[test]
fn short_answer_fills_three_fields() {
    let mut app = app_with(board(), three_fields());
    open_editor(&mut app, &["t", "n", "o"]);
    let request = match start_ai(&mut app, "go") {
        AppAction::RunAiFill(r) => r,
        other => panic!("unexpected: {:?}", other),
    };
    let raw = vec!["a".to_string(), "b".to_string()];
    let sent = fit_values(raw, request.num_fields);
    assert!(matches!(app.handle_events(Some(Ok(sent)), None), AppAction::Nothing));
    assert_eq!(app.edit_field_values, vec!["a", "b", ""]);
    assert!(!app.ai_running);
    assert_eq!(app.ai_error, None);
    assert_eq!(app.edit_mode, EditMode::Manual);
    assert_eq!(app.edit_row, 0);
    assert_eq!(app.ai_input, "");
    assert_eq!(app.input_buffer, "alpha");
}

#[test]
fn long_answer_is_cut_to_three_fields() {
    let mut app = app_with(board(), three_fields());
    open_editor(&mut app, &["t", "n", "o"]);
    let request = match start_ai(&mut app, "go") {
        AppAction::RunAiFill(r) => r,
        other => panic!("unexpected: {:?}", other),
    };
    let raw = vec!["a".to_string(), "b".to_string(), "c".to_string(), "d".to_string()];
    app.handle_events(Some(Ok(fit_values(raw.clone(), request.num_fields))), None);
    assert_eq!(app.edit_field_values, vec!["a", "b", "c"]);
    // Even an answer that was not cut never grows the rows.
    let mut app = app_with(board(), three_fields());
    open_editor(&mut app, &["t", "n", "o"]);
    start_ai(&mut app, "go");
    app.handle_events(Some(Ok(raw)), None);
    assert_eq!(app.edit_field_values, vec!["a", "b", "c"]);
    // And one that is too short leaves the rest as it was.
    let mut app = app_with(board(), three_fields());
    open_editor(&mut app, &["t", "n", "o"]);
    start_ai(&mut app, "go");
    app.handle_events(Some(Ok(vec!["a".to_string()])), None);
    assert_eq!(app.edit_field_values, vec!["a", "n", "o"]);
}

#[test]
fn failed_run_keeps_the_rows_and_shows_the_error() {
    let mut app = app_with(board(), three_fields());
    open_editor(&mut app, &["t", "n", "o"]);
    start_ai(&mut app, "go");
    app.handle_events(Some(Err("helper command timed out".to_string())), None);
    assert_eq!(app.edit_field_values, vec!["t", "n", "o"]);
    assert_eq!(app.ai_error.as_deref(), Some("helper command timed out"));
    assert!(!app.ai_running);
    assert_eq!(app.edit_mode, EditMode::Manual);
    assert_eq!(app.edit_row, 0);
    assert_eq!(app.ai_input, "");
    // The user goes on by hand.
    type_text(&mut app, "!");
    assert_eq!(app.input_buffer, "alpha!");
}

#[test]
fn a_result_without_a_run_is_dropped() {
    let mut app = app_with(board(), three_fields());
    open_editor(&mut app, &["t", "n", "o"]);
    let before = snapshot(&app);
    app.handle_events(Some(Ok(vec!["x".to_string()])), None);
    app.handle_events(Some(Err("late".to_string())), None);
    assert_eq!(snapshot(&app), before);
}

#[test]
fn result_and_key_in_one_turn_are_handled_in_that_order() {
    let mut app = app_with(board(), three_fields());
    open_editor(&mut app, &["t", "n", "o"]);
    start_ai(&mut app, "go");
    let values = vec!["a".to_string(), "b".to_string(), "c".to_string()];
    app.handle_events(Some(Ok(values)), Some(Event::Key(KeyEvent::plain(KeyCode::Char('!')))));
    assert!(!app.ai_running);
    assert_eq!(app.input_buffer, "alpha!");
    assert_eq!(app.edit_field_values, vec!["a", "b", "c"]);
}

#[test]
fn paste_goes_to_the_buffer_of_the_mode() {
    let mut app = app_with(board(), three_fields());
    app.handle_paste("ignored");
    assert_eq!(app.input_buffer, "");
    ch(&mut app, 'n');
    app.handle_events(None, Some(Event::Paste("new name".to_string())));
    assert_eq!(app.input_buffer, "new name");
    press(&mut app, KeyCode::Esc);
    open_editor(&mut app, &["t", "n", "o"]);
    app.handle_paste(" pasted");
    assert_eq!(app.input_buffer, "alpha pasted");
    to_ai_mode(&mut app);
    app.handle_paste("prompt");
    assert_eq!(app.ai_input, "prompt");
    press(&mut app, KeyCode::Esc);
    ch(&mut app, 's');
    ch(&mut app, 'n');
    app.handle_paste("Field");
    assert_eq!(app.new_field_name, "Field");
    press(&mut app, KeyCode::Enter);
    app.handle_paste("described");
    assert_eq!(app.new_field_desc, "described");
    assert_eq!(app.new_field_name, "Field");
}

#[test]
fn status_message_is_cleared_by_the_next_key() {
    let mut app = app_with(board(), Vec::new());
    app.cleanup_orphaned_tmux_sessions(2);
    assert_eq!(app.status_message.as_deref(), Some("Cleaned up 2 orphaned sessions"));
    press(&mut app, KeyCode::Other);
    assert_eq!(app.status_message, None);
}

#[test]
fn cleanup_reports_how_many_were_ended() {
    let mut app = app_with(board(), Vec::new());
    assert!(matches!(ch(&mut app, 'x'), AppAction::CleanupOrphans));
    app.cleanup_orphaned_tmux_sessions(0);
    assert_eq!(app.status_message.as_deref(), Some("No orphaned sessions found"));
    app.cleanup_orphaned_tmux_sessions(1);
    assert_eq!(app.status_message.as_deref(), Some("Cleaned up 1 orphaned session"));
    app.cleanup_orphaned_tmux_sessions(12);
    assert_eq!(app.status_message.as_deref(), Some("Cleaned up 12 orphaned sessions"));
}

#[test]
fn cleanup_ends_exactly_the_untracked_session() {
    let mut app = app_with(vec![session(2, "beta", Status::Planned, Some("workbench-1-2"))], Vec::new());
    let live = vec!["workbench-1-2".to_string(), "workbench-1-7".to_string()];
    let orphaned = app.orphaned_tmux_sessions(&live);
    assert_eq!(orphaned, vec!["workbench-1-7"]);
    app.cleanup_orphaned_tmux_sessions(orphaned.len());
    assert_eq!(app.status_message.as_deref(), Some("Cleaned up 1 orphaned session"));
}

#[test]
fn orphans_keep_their_order() {
    let app = app_with(board(), Vec::new());
    let live: Vec<String> =
        ["workbench-1-9", "workbench-1-3", "workbench-1-8", "workbench-1-2"].iter().map(|s| s.to_string()).collect();
    assert_eq!(app.orphaned_tmux_sessions(&live), vec!["workbench-1-9", "workbench-1-8"]);
    assert!(app.orphaned_tmux_sessions(&Vec::new()).is_empty());
}

#[test]
fn terminal_refresh_finds_waiting_and_stale_sessions() {
    let mut app = app_with(board(), Vec::new());
    let live = vec!["workbench-1-3".to_string(), "workbench-1-9".to_string(), "workbench-1-8".to_string()];
    let panes = vec![
        Some("building...\nDo you want to proceed?\n".to_string()),
        None,
        Some("idle\n".to_string()),
    ];
    let writes = app.refresh_tmux_sessions(live.clone(), panes);
    assert_eq!(app.active_tmux_sessions, live);
    assert_eq!(app.sessions_waiting_input, vec!["workbench-1-3"]);
    // Session 2 has a terminal on record that is gone.
    let writes: Vec<String> = writes.iter().map(|w| format!("{:?}", w)).collect();
    assert_eq!(writes, vec![format!("{:?}", StoreWrite::ClearTmuxSession { session_id: 2 })]);
    let s = &app.sessions;
    assert!(app.has_active_terminal(&s[2]));
    assert!(app.is_waiting_for_input(&s[2]));
    assert!(!app.has_active_terminal(&s[1]));
    assert!(!app.is_waiting_for_input(&s[1]));
    assert!(!app.has_active_terminal(&s[0]));
    assert!(!app.is_waiting_for_input(&s[0]));
}

#[test]
fn terminal_refresh_with_missing_panes() {
    let mut app = app_with(board(), Vec::new());
    let live = vec!["workbench-1-2".to_string(), "workbench-1-3".to_string()];
    let writes = app.refresh_tmux_sessions(live, vec![Some("(y/n)".to_string())]);
    assert_eq!(app.sessions_waiting_input, vec!["workbench-1-2"]);
    assert!(writes.is_empty());
}

#[test]
fn settings_navigation_stays_among_the_fields() {
    let mut app = app_with(board(), three_fields());
    app.selected_field = 2;
    ch(&mut app, 's');
    assert_eq!((app.view, app.selected_field), (View::Settings, 0));
    ch(&mut app, 'k');
    assert_eq!(app.selected_field, 0);
    ch(&mut app, 'j');
    press(&mut app, KeyCode::Down);
    ch(&mut app, 'j');
    assert_eq!(app.selected_field, 2);
    press(&mut app, KeyCode::Up);
    assert_eq!(app.selected_field, 1);
    ch(&mut app, 'q');
    assert_eq!(app.view, View::Kanban);
    ch(&mut app, 's');
    press(&mut app, KeyCode::Esc);
    assert_eq!(app.view, View::Kanban);
    ch(&mut app, 's');
    press_with(&mut app, KeyCode::Char('c'), false, true);
    assert!(app.should_quit);
}

#[test]
fn settings_without_fields() {
    let mut app = app_with(board(), Vec::new());
    ch(&mut app, 's');
    for c in ['j', 'k', 'e', 'd', 'K', 'J', 'v'] {
        assert!(matches!(ch(&mut app, c), AppAction::Nothing));
    }
    assert_eq!(app.selected_field, 0);
    assert_eq!(app.input_mode, InputMode::Normal);
}

#[test]
fn new_field_is_made_in_two_steps() {
    let mut app = app_with(board(), three_fields());
    ch(&mut app, 's');
    ch(&mut app, 'n');
    assert_eq!(app.input_mode, InputMode::NewFieldName);
    assert!(matches!(press(&mut app, KeyCode::Enter), AppAction::Nothing));
    assert_eq!(app.input_mode, InputMode::NewFieldName);
    type_text(&mut app, "Prio");
    press(&mut app, KeyCode::Enter);
    assert_eq!(app.input_mode, InputMode::NewFieldDesc);
    type_text(&mut app, "hox");
    press(&mut app, KeyCode::Backspace);
    press(&mut app, KeyCode::Backspace);
    type_text(&mut app, "ow urgent");
    let action = press(&mut app, KeyCode::Enter);
    assert!(matches!(action, AppAction::Commit { kill: None, reload: Reload::Fields, .. }));
    assert_eq!(
        writes_of(&action),
        vec![format!(
            "{:?}",
            StoreWrite::CreateField {
                project_id: 1,
                name: "Prio".to_string(),
                description: "how urgent".to_string(),
            }
        )]
    );
    assert_eq!(app.input_mode, InputMode::Normal);
    assert_eq!((app.new_field_name.as_str(), app.new_field_desc.as_str()), ("", ""));
    assert_eq!(app.view, View::Settings);
}

#[test]
fn new_field_is_dropped_on_escape() {
    let mut app = app_with(board(), three_fields());
    ch(&mut app, 's');
    ch(&mut app, 'n');
    type_text(&mut app, "X");
    press(&mut app, KeyCode::Esc);
    assert_eq!(app.input_mode, InputMode::Normal);
    assert_eq!(app.new_field_name, "");
    ch(&mut app, 'n');
    type_text(&mut app, "X");
    press(&mut app, KeyCode::Enter);
    type_text(&mut app, "d");
    assert!(matches!(press(&mut app, KeyCode::Esc), AppAction::Nothing));
    assert_eq!(app.input_mode, InputMode::Normal);
    assert_eq!((app.new_field_name.as_str(), app.new_field_desc.as_str()), ("", ""));
}

#[test]
fn field_is_edited_in_two_steps() {
    let mut app = app_with(board(), three_fields());
    ch(&mut app, 's');
    ch(&mut app, 'j');
    ch(&mut app, 'j');
    ch(&mut app, 'e');
    assert_eq!(app.input_mode, InputMode::EditFieldName);
    assert_eq!(app.editing_field_id, Some(12));
    assert_eq!((app.new_field_name.as_str(), app.new_field_desc.as_str()), ("Owner", "who"));
    type_text(&mut app, "s");
    press(&mut app, KeyCode::Enter);
    assert_eq!(app.input_mode, InputMode::EditFieldDesc);
    press(&mut app, KeyCode::Backspace);
    press(&mut app, KeyCode::Backspace);
    press(&mut app, KeyCode::Backspace);
    let action = press(&mut app, KeyCode::Enter);
    assert_eq!(
        writes_of(&action),
        vec![format!(
            "{:?}",
            StoreWrite::UpdateField {
                field_id: 12,
                name: "Owners".to_string(),
                description: String::new(),
            }
        )]
    );
    assert_eq!((app.input_mode, app.editing_field_id), (InputMode::Normal, None));
    assert_eq!((app.new_field_name.as_str(), app.new_field_desc.as_str()), ("", ""));
}

#[test]
fn field_edit_needs_a_name_and_can_be_left() {
    let mut app = app_with(board(), three_fields());
    ch(&mut app, 's');
    ch(&mut app, 'e');
    for _ in 0..6 {
        press(&mut app, KeyCode::Backspace);
    }
    assert!(matches!(press(&mut app, KeyCode::Enter), AppAction::Nothing));
    assert_eq!(app.input_mode, InputMode::EditFieldName);
    press(&mut app, KeyCode::Esc);
    assert_eq!((app.input_mode, app.editing_field_id), (InputMode::Normal, None));
    ch(&mut app, 'e');
    press(&mut app, KeyCode::Enter);
    press(&mut app, KeyCode::Esc);
    assert_eq!((app.input_mode, app.editing_field_id), (InputMode::Normal, None));
    assert_eq!(app.new_field_desc, "");
}

#[test]
fn field_is_deleted_after_confirmation() {
    let mut app = app_with(board(), three_fields());
    ch(&mut app, 's');
    ch(&mut app, 'j');
    ch(&mut app, 'd');
    assert_eq!((app.input_mode, app.deleting_field_id), (InputMode::ConfirmDeleteField, Some(11)));
    let action = ch(&mut app, 'y');
    assert!(matches!(action, AppAction::Commit { kill: None, reload: Reload::Fields, .. }));
    assert_eq!(writes_of(&action), vec![format!("{:?}", StoreWrite::DeleteField { field_id: 11 })]);
    assert_eq!((app.input_mode, app.deleting_field_id), (InputMode::Normal, None));
    ch(&mut app, 'd');
    ch(&mut app, 'n');
    assert_eq!((app.input_mode, app.deleting_field_id), (InputMode::Normal, None));
}

#[test]
fn refreshing_fields_brings_the_selection_among_them() {
    let mut app = app_with(board(), three_fields());
    ch(&mut app, 's');
    ch(&mut app, 'j');
    ch(&mut app, 'j');
    assert_eq!(app.selected_field, 2);
    app.refresh_fields(vec![field(10, "Ticket", "", 0), field(11, "Notes", "", 1)]);
    assert_eq!(app.selected_field, 1);
    app.refresh_fields(Vec::new());
    assert_eq!(app.selected_field, 0);
    app.refresh_fields(three_fields());
    assert_eq!(app.selected_field, 0);
}

#[test]
fn reorder_keys_move_the_field_and_the_selection() {
    let mut app = app_with(board(), three_fields());
    ch(&mut app, 's');
    ch(&mut app, 'j');
    let up = ch(&mut app, 'K');
    assert_eq!(
        writes_of(&up),
        vec![format!("{:?}", StoreWrite::MoveFieldUp { project_id: 1, field_id: 11 })]
    );
    assert!(matches!(up, AppAction::Commit { reload: Reload::Fields, .. }));
    assert_eq!(app.selected_field, 0);
    let top = ch(&mut app, 'K');
    assert_eq!(
        writes_of(&top),
        vec![format!("{:?}", StoreWrite::MoveFieldUp { project_id: 1, field_id: 10 })]
    );
    assert_eq!(app.selected_field, 0);
    let down = ch(&mut app, 'J');
    assert_eq!(
        writes_of(&down),
        vec![format!("{:?}", StoreWrite::MoveFieldDown { project_id: 1, field_id: 10 })]
    );
    assert_eq!(app.selected_field, 1);
    ch(&mut app, 'J');
    assert_eq!(app.selected_field, 2);
    ch(&mut app, 'J');
    assert_eq!(app.selected_field, 2);
}

#[test]
fn visibility_key_toggles_the_selected_field() {
    let mut app = app_with(board(), three_fields());
    ch(&mut app, 's');
    ch(&mut app, 'j');
    let action = ch(&mut app, 'v');
    assert_eq!(
        writes_of(&action),
        vec![format!("{:?}", StoreWrite::ToggleFieldVisibility { field_id: 11 })]
    );
    assert!(matches!(action, AppAction::Commit { kill: None, reload: Reload::Fields, .. }));
}

#[test]
fn unknown_keys_do_nothing_on_the_board() {
    let mut app = app_with(board(), three_fields());
    let before = snapshot(&app);
    for code in [KeyCode::Char('z'), KeyCode::Tab, KeyCode::BackTab, KeyCode::Backspace, KeyCode::Esc, KeyCode::Other] {
        assert!(matches!(press(&mut app, code), AppAction::Nothing));
    }
    assert_eq!(snapshot(&app), before);
}

#[test]
fn selection_check_sees_a_row_outside_the_column() {
    let mut app = app_with(board(), three_fields());
    assert!(app.is_wf());
    app.selected_row = 3;
    assert!(!app.is_wf());
    app.selected_row = 2;
    assert!(app.is_wf());
    app.selected_column = 4;
    assert!(!app.is_wf());
    app.selected_column = 2;
    assert!(!app.is_wf());
    app.selected_row = 0;
    assert!(app.is_wf());
    app.selected_field = 3;
    assert!(!app.is_wf());
    app.selected_field = 2;
    assert!(app.is_wf());
    let mut empty = app_with(Vec::new(), Vec::new());
    assert!(empty.is_wf());
    empty.selected_field = 1;
    assert!(!empty.is_wf());
}

#[test]
fn keys_keep_the_selection_inside_what_is_shown() {
    let mut app = app_with(board(), three_fields());
    let keys = "jjjlljkhhhsjjjKJkkqjjljdnmq3e\tx";
    for c in keys.chars() {
        let code = if c == '\t' { KeyCode::Tab } else { KeyCode::Char(c) };
        press(&mut app, code);
        assert!(app.is_wf(), "after {:?}", c);
        press(&mut app, KeyCode::Esc);
        assert!(app.is_wf(), "after {:?} and Esc", c);
    }
}

#[test]
fn a_name_listed_twice_counts_once() {
    let mut app = app_with(board(), Vec::new());
    let live: Vec<String> =
        ["workbench-1-3", "workbench-1-2", "workbench-1-3"].iter().map(|s| s.to_string()).collect();
    let panes = vec![None, Some("(y/n)".to_string()), Some("[Y/n]".to_string())];
    let writes = app.refresh_tmux_sessions(live, panes);
    assert_eq!(app.active_tmux_sessions, vec!["workbench-1-3", "workbench-1-2"]);
    assert_eq!(app.sessions_waiting_input, vec!["workbench-1-2"]);
    assert!(writes.is_empty());
    assert!(app.is_wf());
    app.active_tmux_sessions.push("workbench-1-2".to_string());
    assert!(!app.is_wf());
}
