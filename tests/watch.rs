use cellbook::watch::{cargo_build_args, cargo_build_display_cmd, has_actual_changes, MtimeLog};

#[test]
fn first_observation_is_recorded_but_not_a_change() {
    let mut log = MtimeLog::new();
    assert!(!has_actual_changes(&vec![("a.rs".to_string(), 10)], &mut log));
    assert_eq!(log.get(&"a.rs".to_string()), Some(10));
    assert!(!has_actual_changes(&vec![("a.rs".to_string(), 10)], &mut log));
    assert!(has_actual_changes(&vec![("b.rs".to_string(), 1), ("a.rs".to_string(), 11)], &mut log));
    assert_eq!(log.get(&"a.rs".to_string()), Some(11));
    assert!(!has_actual_changes(&vec![], &mut log));
}

#[test]
fn build_arguments_follow_the_lock_file() {
    assert_eq!(cargo_build_args(false), vec!["build", "--lib"]);
    assert_eq!(cargo_build_args(true), vec!["build", "--lib", "--locked"]);
    assert_eq!(cargo_build_display_cmd(true), "cargo build --lib --locked");
    assert_eq!(cargo_build_display_cmd(false), "cargo build --lib");
}
