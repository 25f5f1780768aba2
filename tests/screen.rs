use godwit::logging::{get_log_level, LogLevel};
use godwit::env::{env_line, fix_tilde, get_cfg_paths, replace_env_lines, Shell, Var};
use godwit::scanner::parse_art;
use godwit::splash::{down_pressed, up_pressed, DrawState};
use godwit::widget::StatefulList;

#[test]
fn tilde_expands_only_alone_or_before_slash() {
    assert_eq!(fix_tilde("~", "/h"), "/h");
    assert_eq!(fix_tilde("~/.zshrc", "/h"), "/h/.zshrc");
    assert_eq!(fix_tilde("~bob/x", "/h"), "~bob/x");
    assert_eq!(fix_tilde("/etc/~", "/h"), "/etc/~");
}

#[test]
fn cfg_paths_are_expanded() {
    assert_eq!(
        get_cfg_paths(Shell::TCSH, "/h"),
        vec!["/h/.login".to_string(), "/h/.tcshrc".to_string(), "/h/.cshrc".to_string()]
    );
    assert_eq!(get_cfg_paths(Shell::FISH, "/h"), vec!["/h/.config/fish/config.fish".to_string()]);
}

#[test]
fn shells_and_vars_are_listed() {
    assert_eq!(Shell::iterator().len(), 6);
    let names: Vec<&str> = Var::iterator().iter().map(|v| v.to_string()).collect();
    assert_eq!(names, vec!["GWD", "GSD", "GDD", "GPD"]);
}

#[test]
fn env_lines_replace_or_append() {
    let line = env_line(Var::GWD, "/w");
    assert_eq!(line, "GWD=\"/w\"");
    let lines = vec!["export A=1".to_string(), "GWD=\"/old\"".to_string()];
    assert_eq!(
        replace_env_lines(&lines, Var::GWD, &line),
        vec!["export A=1".to_string(), "GWD=\"/w\"".to_string()]
    );
    let lines = vec!["export A=1".to_string()];
    assert_eq!(
        replace_env_lines(&lines, Var::GSD, "GSD=\"/s\""),
        vec![
            "export A=1".to_string(),
            "\n".to_string(),
            "# Added by Godwit.".to_string(),
            "GSD=\"/s\"".to_string()
        ]
    );
}

#[test]
fn art_skips_directives_and_cuts_lines() {
    let lines = vec!["?>=meta".to_string(), "abcdef".to_string(), "xy".to_string()];
    assert_eq!(parse_art(&lines, 3), vec!["abc\n".to_string(), "xy\n".to_string()]);
    assert!(parse_art(&vec![], 10).is_empty());
}

#[test]
fn draw_state_selection_stays_in_range() {
    let mut s = DrawState { list_items: vec!["a".into(), "b".into()], selected_item: 0 };
    up_pressed(&mut s);
    assert_eq!(s.selected_item, 0);
    down_pressed(&mut s);
    assert_eq!(s.selected_item, 1);
    down_pressed(&mut s);
    assert_eq!(s.selected_item, 1);
    up_pressed(&mut s);
    assert_eq!(s.selected_item, 0);
}

#[test]
fn stateful_list_wraps_around() {
    let mut l = StatefulList::with_items(vec!["Init", "Add", "Remove"]);
    l.next();
    assert_eq!(l.selected, Some(0));
    l.previous();
    assert_eq!(l.selected, Some(2));
    l.next();
    assert_eq!(l.selected, Some(0));
    l.next();
    l.next();
    l.next();
    assert_eq!(l.selected, Some(0));
    l.unselect();
    assert_eq!(l.selected, None);
    let mut e: StatefulList<u8> = StatefulList::new();
    e.previous();
    assert_eq!(e.selected, Some(0));
}

#[test]
fn log_level_follows_flags() {
    assert_eq!(get_log_level(true, 4), LogLevel::Off);
    assert_eq!(get_log_level(false, 0), LogLevel::Warn);
    assert_eq!(get_log_level(false, 1), LogLevel::Warn);
    assert_eq!(get_log_level(false, 2), LogLevel::Info);
    assert_eq!(get_log_level(false, 3), LogLevel::Debug);
    assert_eq!(get_log_level(false, 9), LogLevel::Trace);
}

#[test]
fn default_state_is_empty() {
    let s = godwit::statehandler::State::default();
    assert_eq!(s.glyph, godwit::glyph::Glyph::default());
    assert_eq!(s.directory, None);
    assert_eq!(s.status, None);
}
