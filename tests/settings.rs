use cellbook::settings::{
    merge, parse_key, AppConfig, KeyBinding, KeyCode, KeyModifiers, PartialAppConfig, PartialGeneralConfig,
    PartialKeybindings,
};

#[test]
fn test_parse_key_single_char() {
    assert_eq!(parse_key("q"), Some((KeyCode::Char('q'), KeyModifiers::none())));
    assert_eq!(parse_key("j"), Some((KeyCode::Char('j'), KeyModifiers::none())));
    assert_eq!(parse_key("1"), Some((KeyCode::Char('1'), KeyModifiers::none())));
}

#[test]
fn test_parse_key_uppercase_implies_shift() {
    assert_eq!(parse_key("E"), Some((KeyCode::Char('E'), KeyModifiers::shift())));
    assert_eq!(parse_key("Q"), Some((KeyCode::Char('Q'), KeyModifiers::shift())));
}

#[test]
fn test_parse_key_explicit_modifiers() {
    assert_eq!(parse_key("Ctrl+q"), Some((KeyCode::Char('q'), KeyModifiers::control())));
    assert_eq!(parse_key("Alt+x"), Some((KeyCode::Char('x'), KeyModifiers::alt())));
    assert_eq!(parse_key("Shift+Enter"), Some((KeyCode::Enter, KeyModifiers::shift())));
}

#[test]
fn test_parse_key_special() {
    assert_eq!(parse_key("Enter"), Some((KeyCode::Enter, KeyModifiers::none())));
    assert_eq!(parse_key("Esc"), Some((KeyCode::Esc, KeyModifiers::none())));
    assert_eq!(parse_key("Space"), Some((KeyCode::Char(' '), KeyModifiers::none())));
    assert_eq!(parse_key("Up"), Some((KeyCode::Up, KeyModifiers::none())));
    assert_eq!(parse_key("Down"), Some((KeyCode::Down, KeyModifiers::none())));
}

#[test]
fn test_parse_key_function() {
    assert_eq!(parse_key("F1"), Some((KeyCode::F(1), KeyModifiers::none())));
    assert_eq!(parse_key("F12"), Some((KeyCode::F(12), KeyModifiers::none())));
}

#[test]
fn test_parse_key_invalid() {
    assert_eq!(parse_key("invalid"), None);
    assert_eq!(parse_key(""), None);
}

#[test]
fn parse_key_edge_cases() {
    assert_eq!(parse_key("Ctrl+E"), Some((KeyCode::Char('E'), KeyModifiers::control())));
    assert_eq!(parse_key("Escape"), Some((KeyCode::Esc, KeyModifiers::none())));
    assert_eq!(parse_key("é"), None);
    assert_eq!(parse_key("Ctrl+"), None);
}

#[test]
fn test_keybinding_matches_single() {
    let binding = KeyBinding::Single("q".into());
    assert!(binding.matches(KeyCode::Char('q'), KeyModifiers::none()));
    assert!(!binding.matches(KeyCode::Char('q'), KeyModifiers::control()));
    assert!(!binding.matches(KeyCode::Char('x'), KeyModifiers::none()));
}

#[test]
fn test_keybinding_matches_shift() {
    let binding = KeyBinding::Single("E".into());
    assert!(binding.matches(KeyCode::Char('E'), KeyModifiers::shift()));
    assert!(!binding.matches(KeyCode::Char('E'), KeyModifiers::none()));
    assert!(!binding.matches(KeyCode::Char('e'), KeyModifiers::none()));
}

#[test]
fn test_keybinding_matches_multiple() {
    let binding = KeyBinding::Multiple(vec!["Down".into(), "j".into()]);
    assert!(binding.matches(KeyCode::Down, KeyModifiers::none()));
    assert!(binding.matches(KeyCode::Char('j'), KeyModifiers::none()));
    assert!(!binding.matches(KeyCode::Up, KeyModifiers::none()));
}

#[test]
fn test_merge_partial_general_fields() {
    let mut config = AppConfig::default();
    merge(
        &mut config,
        PartialAppConfig {
            general: Some(PartialGeneralConfig { show_timings: Some(true), ..Default::default() }),
            ..Default::default()
        },
    );

    assert!(config.general.show_timings);
    assert!(config.general.auto_reload);
    assert_eq!(config.general.debounce_ms, 500);
}

#[test]
fn test_merge_local_overrides_global() {
    let mut config = AppConfig::default();
    merge(
        &mut config,
        PartialAppConfig {
            general: Some(PartialGeneralConfig {
                debounce_ms: Some(900),
                show_timings: Some(false),
                ..Default::default()
            }),
            ..Default::default()
        },
    );
    merge(
        &mut config,
        PartialAppConfig {
            general: Some(PartialGeneralConfig { show_timings: Some(true), ..Default::default() }),
            ..Default::default()
        },
    );

    assert_eq!(config.general.debounce_ms, 900);
    assert!(config.general.show_timings);
}

#[test]
fn test_merge_keybindings_is_field_level() {
    let mut config = AppConfig::default();
    merge(
        &mut config,
        PartialAppConfig {
            keybindings: Some(PartialKeybindings { quit: Some(KeyBinding::Single("Q".into())), ..Default::default() }),
            ..Default::default()
        },
    );

    assert!(config.keybindings.quit.matches(KeyCode::Char('Q'), KeyModifiers::shift()));
    assert!(config.keybindings.reload.matches(KeyCode::Char('r'), KeyModifiers::none()));
}

#[test]
fn default_bindings_match_their_keys() {
    let config = AppConfig::default();
    assert!(config.keybindings.view_build_error.matches(KeyCode::Char('f'), KeyModifiers::none()));
    assert!(config.keybindings.edit.matches(KeyCode::Char('E'), KeyModifiers::shift()));
    assert!(config.keybindings.navigate_up.matches(KeyCode::Char('k'), KeyModifiers::none()));
    assert!(config.keybindings.run_cell.matches(KeyCode::Enter, KeyModifiers::none()));
    assert_eq!(config.general.image_viewer, None);
}

#[test]
fn merge_sets_image_viewer_and_keeps_absent_fields() {
    let mut config = AppConfig::default();
    merge(
        &mut config,
        PartialAppConfig {
            general: Some(PartialGeneralConfig { image_viewer: Some("feh".into()), ..Default::default() }),
            ..Default::default()
        },
    );
    assert_eq!(config.general.image_viewer.as_deref(), Some("feh"));
    merge(&mut config, PartialAppConfig::default());
    assert_eq!(config.general.image_viewer.as_deref(), Some("feh"));
    assert!(!config.general.show_timings);
}
