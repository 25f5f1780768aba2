use godwit::errors::{PluginError, SettingsError, SettingsMode};
use godwit::plugins::{command_line, get_plugin, new, split_words, Plugin};
use godwit::settings::{
    locate, purge_settings, registry_path_from, PurgeAction, Settings, SettingsPaths,
};
use godwit::statehandler::StateGraph;

#[test]
fn init_fills_paths_from_home() {
    let s = Settings::init_with_home("/home/u", None, None, false, true, None);
    assert_eq!(s.working_dir.as_deref(), Some("/home/u/.godwit"));
    assert_eq!(s.states_dir.as_deref(), Some("/home/u/.godwit/states"));
    assert!(!s.headless);
    assert!(s.switch_on_add);
    assert!(s.plugins.is_empty());
}

#[test]
fn init_headless_uses_home_and_no_states_dir() {
    let s = Settings::init_with_home(
        "/home/u",
        Some("/tmp/elsewhere".to_string()),
        Some("/tmp/states".to_string()),
        true,
        false,
        Some(vec![new("Weaver", "weave --quiet")]),
    );
    assert_eq!(s.working_dir.as_deref(), Some("/home/u"));
    assert_eq!(s.states_dir, None);
    assert!(s.headless);
    assert_eq!(s.plugins.len(), 1);
}

#[test]
fn init_in_working_dir_puts_registry_under_states() {
    let s = Settings::init_with_home("/home/u", Some("/tmp/gw".to_string()), None, false, true, None);
    assert_eq!(s.states_dir.as_deref(), Some("/tmp/gw/states"));
    assert_eq!(s.get_save_state(), Ok("/tmp/gw/states/active.gwsg".to_string()));
    let g = StateGraph::default();
    assert!(g.states.is_empty());
    assert!(g.default.is_none());
    assert!(g.active.is_none());
}

#[test]
fn init_with_user_home() {
    if let Ok(s) = Settings::init(None, None, false, true, None) {
        assert!(s.working_dir.unwrap().ends_with("/.godwit"));
        assert!(s.states_dir.unwrap().ends_with("/.godwit/states"));
    }
}

#[test]
fn default_settings_switch_on_add() {
    let s = Settings::default_with_home("/h");
    assert_eq!(s.get_working_dir().as_deref(), Some("/h/.godwit"));
    assert_eq!(s.get_states_dir().as_deref(), Some("/h/.godwit/states"));
    assert!(s.get_switch_on_add());
    assert!(!s.get_headless());
}

#[test]
fn headless_has_no_registry() {
    let s = Settings::init_with_home("/home/u", None, None, true, true, None);
    assert_eq!(s.get_save_state(), Err(SettingsError::DisallowedHeadless));
}

#[test]
fn registry_path_prefers_found_file() {
    assert_eq!(
        registry_path_from("/s", Some(Some("/s/work.gwsg".to_string()))),
        "/s/work.gwsg"
    );
    assert_eq!(registry_path_from("/s", Some(None)), "/s/active.gwsg");
    assert_eq!(registry_path_from("/s", None), "/s/active.gwsg");
}

#[test]
fn settings_file_depends_on_mode() {
    let full = Settings::init_with_home("/h", None, None, false, true, None);
    assert_eq!(full.settings_file(), Ok("/h/.godwit/settings.gwcore".to_string()));
    let headless = Settings::init_with_home("/h", None, None, true, true, None);
    assert_eq!(headless.settings_file(), Ok("/h/.gwrc".to_string()));
}

#[test]
fn save_needs_upsert_for_new_file() {
    let s = Settings::init_with_home("/h", None, None, false, true, None);
    assert_eq!(s.save_settings(false, false).unwrap_err(), SettingsError::DisallowedUpsert);
    let plan = s.save_settings(false, true).unwrap();
    assert_eq!(plan.create_dirs, vec!["/h/.godwit".to_string(), "/h/.godwit/states".to_string()]);
    assert_eq!(plan.file, "/h/.godwit/settings.gwcore");
    let headless = Settings::init_with_home("/h", None, None, true, true, None);
    let plan = headless.save_settings(true, false).unwrap();
    assert_eq!(plan.create_dirs, vec!["/h".to_string()]);
    assert_eq!(plan.file, "/h/.gwrc");
}

#[test]
fn save_without_working_dir_fails() {
    let mut s = Settings::init_with_home("/h", None, None, false, true, None);
    s.working_dir = None;
    assert_eq!(s.save_settings(true, true).unwrap_err(), SettingsError::WorkingDirNotFound);
}

#[test]
fn locate_prefers_marker_then_settings_file() {
    let p = SettingsPaths::from_home("/h");
    assert_eq!(p.marker_file, "/h/.gwrc");
    assert_eq!(locate(&p, true, true, true), Ok("/h/.gwrc".to_string()));
    assert_eq!(locate(&p, false, true, true), Ok("/h/.godwit/settings.gwcore".to_string()));
    assert_eq!(
        locate(&p, false, false, true),
        Err(SettingsError::SettingsNotFound { file: "/h/.godwit/settings.gwcore".to_string() })
    );
    assert_eq!(
        locate(&p, false, false, false),
        Err(SettingsError::SettingsNotFound { file: "/h/.godwit".to_string() })
    );
}

#[test]
fn purge_chooses_what_to_remove() {
    let p = SettingsPaths::from_home("/h");
    assert_eq!(
        purge_settings(&p, true, true, true),
        Ok(PurgeAction::RemoveFile { path: "/h/.gwrc".to_string() })
    );
    assert_eq!(
        purge_settings(&p, true, false, true),
        Ok(PurgeAction::RemoveDirAll { path: "/h/.godwit".to_string() })
    );
    assert_eq!(
        purge_settings(&p, false, false, true),
        Ok(PurgeAction::RemoveFile { path: "/h/.godwit/settings.gwcore".to_string() })
    );
    assert_eq!(purge_settings(&p, false, false, false), Err(SettingsError::WorkingDirNotFound));
}

#[test]
fn get_plugin_finds_first_by_name() {
    let s = Settings::init_with_home(
        "/h",
        None,
        None,
        false,
        true,
        Some(vec![new("A", "a1"), new("Weaver", "w1"), new("Weaver", "w2")]),
    );
    let p: Plugin = get_plugin(&s, "Weaver").unwrap();
    assert_eq!(p.get_name(), "Weaver");
    assert_eq!(p.get_exec(), "w1");
    assert_eq!(
        get_plugin(&s, "weaver").unwrap_err(),
        PluginError::PluginNotFound { plugin: "weaver".to_string() }
    );
}

#[test]
fn settings_mode_names() {
    assert_eq!(SettingsMode::Headless.to_string(), "SettingsMode :: Headless");
    assert_eq!(SettingsMode::Full.to_string(), "SettingsMode :: Full");
}

#[test]
fn words_split_like_std() {
    for s in ["", "  ", "weave", " weave  --quiet\t-x\n", "a\u{3000}b", "ü ö"] {
        let expected: Vec<String> = s.split_whitespace().map(String::from).collect();
        assert_eq!(split_words(s), expected);
    }
}

#[test]
fn command_line_puts_extra_after_program() {
    assert_eq!(
        command_line("weave --quiet -v", vec!["new".to_string()]),
        Some(("weave".to_string(), vec!["new".to_string(), "--quiet".to_string(), "-v".to_string()]))
    );
    assert_eq!(command_line("   ", vec![]), None);
}

#[test]
fn init_with_both_paths_needs_no_home() {
    let s = Settings::init(Some("/w".to_string()), Some("/s".to_string()), false, false, None).unwrap();
    assert_eq!(s.working_dir.as_deref(), Some("/w"));
    assert_eq!(s.states_dir.as_deref(), Some("/s"));
}

#[test]
fn registry_pattern_looks_for_registry_files() {
    assert_eq!(godwit::settings::registry_pattern("/s"), "/s/*.gwsg");
}

