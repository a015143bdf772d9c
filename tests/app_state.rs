use cellbook::app_state::{handle_key, Action, App, CellOutput, CellStatus, KeyEvent, KeyEventKind};
use cellbook::settings::{AppConfig, KeyCode, KeyModifiers};

fn press(code: KeyCode, modifiers: KeyModifiers) -> KeyEvent {
    KeyEvent { code, modifiers, kind: KeyEventKind::Press }
}

#[test]
fn empty_output_is_not_marked_as_output() {
    let mut app = App::new(vec!["init".to_string()], false);
    app.store_output("init", CellOutput { stdout: String::new(), duration_ms: 1 });
    assert!(!app.has_output("init"));
}

#[test]
fn non_empty_output_is_marked_as_output() {
    let mut app = App::new(vec!["init".to_string()], false);
    app.store_output("init", CellOutput { stdout: "hello".to_string(), duration_ms: 1 });
    assert!(app.has_output("init"));
}

#[test]
fn selection_wraps_both_ways() {
    let mut app = App::new(vec!["init".into(), "a".into(), "b".into()], false);
    assert_eq!(app.selected_cell_index(), Some(0));
    app.select_previous();
    assert_eq!(app.selected_cell_index(), Some(2));
    app.select_next();
    assert_eq!(app.selected_cell_index(), Some(0));
    app.select_next();
    assert_eq!(app.selected_cell_name().map(|s| s.as_str()), Some("a"));
}

#[test]
fn counts_and_refresh() {
    let mut app = App::new(vec!["init".into(), "a".into(), "b".into()], false);
    app.increment_count("a");
    app.increment_count("a");
    assert_eq!(app.get_count("a"), 2);
    assert_eq!(app.get_count("zzz"), 0);
    app.selected = Some(2);
    app.refresh_cells(vec!["init".into(), "a".into()]);
    assert_eq!(app.get_count("a"), 0);
    assert_eq!(app.selected_cell_index(), Some(1));
    app.refresh_cells(vec![]);
    assert_eq!(app.selected_cell_index(), None);
}

#[test]
fn error_status_is_readable() {
    let mut app = App::new(vec!["init".into()], false);
    app.cell_statuses[0] = CellStatus::Error("boom".into());
    assert_eq!(app.get_error(0).map(|s| s.as_str()), Some("boom"));
    assert_eq!(app.get_error(5), None);
}

#[test]
fn keys_map_to_actions() {
    let config = AppConfig::default();
    let mut app = App::new(vec!["init".into(), "a".into()], false);
    assert_eq!(handle_key(press(KeyCode::Char('q'), KeyModifiers::none()), &mut app, &config), Action::Quit);
    assert_eq!(handle_key(press(KeyCode::Enter, KeyModifiers::none()), &mut app, &config), Action::Nothing);
    assert_eq!(handle_key(press(KeyCode::Char('j'), KeyModifiers::none()), &mut app, &config), Action::Nothing);
    assert_eq!(app.selected_cell_index(), Some(1));
    assert_eq!(handle_key(press(KeyCode::Enter, KeyModifiers::none()), &mut app, &config), Action::RunCell(1));
    let release = KeyEvent { code: KeyCode::Char('q'), modifiers: KeyModifiers::none(), kind: KeyEventKind::Release };
    assert_eq!(handle_key(release, &mut app, &config), Action::Nothing);
}

#[test]
fn a_run_is_marked_then_recorded() {
    let mut app = App::new(vec!["init".into(), "a".into()], false);
    assert!(!app.mark_running(7));
    assert!(!app.executing);
    assert!(app.mark_running(1));
    assert!(app.executing);
    assert!(matches!(app.cell_statuses[1], CellStatus::Running));
    app.record_completion(1, "a", Err("bad".into()), CellOutput { stdout: "out".into(), duration_ms: 3 });
    assert!(!app.executing);
    assert_eq!(app.get_error(1).map(|s| s.as_str()), Some("bad"));
    assert_eq!(app.get_count("a"), 1);
    assert_eq!(app.get_output("a").map(|o| o.stdout.as_str()), Some("out"));
    app.record_completion(1, "a", Ok(()), CellOutput { stdout: String::new(), duration_ms: 1 });
    assert!(matches!(app.cell_statuses[1], CellStatus::Success));
    assert!(!app.has_output("a"));
    assert_eq!(app.get_count("a"), 2);
}
