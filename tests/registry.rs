use godwit::commands;
use godwit::errors::{CoreError, PluginError, StateError};
use godwit::glyph::Glyph;
use godwit::settings::Settings;
use godwit::statehandler::{
    add_state, matches_folded, purge_state, set_active, set_default, same_state, State, StateGraph,
    Status,
};

fn settings(switch_on_add: bool) -> Settings {
    Settings::init_with_home("/home/u", None, None, false, switch_on_add, None)
}

fn glyph(s: &str) -> Glyph {
    Glyph::parse(s).unwrap()
}

fn entry(g: &str, dir: &str) -> State {
    State::new(glyph(g), Some(dir.to_string()), None)
}

#[test]
fn add_to_empty_graph_sets_default_and_active() {
    let mut g = StateGraph::default();
    add_state(&mut g, &settings(true), glyph("@acme/api"), "/code/api".to_string(), None, false, true)
        .unwrap();
    let e = entry("@acme/api", "/code/api");
    assert_eq!(g.states, vec![e.clone()]);
    assert_eq!(g.default, Some(e.clone()));
    assert_eq!(g.active, Some(e));
}

#[test]
fn remove_default_moves_default_to_next_entry() {
    let mut g = StateGraph::default();
    let s = settings(true);
    add_state(&mut g, &s, glyph("@acme/api"), "/code/api".to_string(), None, false, true).unwrap();
    add_state(&mut g, &s, glyph("@acme/web"), "/code/web".to_string(), None, false, false).unwrap();
    purge_state(&mut g, glyph("@acme/api")).unwrap();
    let web = entry("@acme/web", "/code/web");
    assert_eq!(g.states, vec![web.clone()]);
    assert_eq!(g.default, Some(web.clone()));
    assert_eq!(g.active, Some(web));
}

#[test]
fn remove_active_entry_moves_active_to_new_default() {
    let mut g = StateGraph::default();
    let s = settings(false);
    add_state(&mut g, &s, glyph("@acme/api"), "/code/api".to_string(), None, true, true).unwrap();
    add_state(&mut g, &s, glyph("@acme/web"), "/code/web".to_string(), None, false, false).unwrap();
    assert_eq!(g.active, Some(entry("@acme/api", "/code/api")));
    purge_state(&mut g, glyph("@acme/api")).unwrap();
    let web = entry("@acme/web", "/code/web");
    assert_eq!(g.default, Some(web.clone()));
    assert_eq!(g.active, Some(web));
}

#[test]
fn add_same_glyph_twice_is_refused() {
    let mut g = StateGraph::default();
    let s = settings(true);
    add_state(&mut g, &s, glyph("@acme/api"), "/code/api".to_string(), None, false, false).unwrap();
    let r = add_state(&mut g, &s, glyph("@acme/api"), "/elsewhere".to_string(), None, true, true);
    assert_eq!(r, Err(StateError::StateAlreadyExists { state: "@acme/api".to_string() }));
    assert_eq!(g.states, vec![entry("@acme/api", "/code/api")]);
    let r = add_state(&mut g, &s, glyph("@ACME/Api"), "/other".to_string(), None, false, false);
    assert_eq!(r, Err(StateError::StateAlreadyExists { state: "@ACME/Api".to_string() }));
    assert_eq!(g.states.len(), 1);
}

#[test]
fn add_same_directory_twice_is_refused() {
    let mut g = StateGraph::default();
    let s = settings(true);
    add_state(&mut g, &s, glyph("@acme/api"), "/code/api".to_string(), None, false, false).unwrap();
    let r = add_state(&mut g, &s, glyph("@acme/web"), "/code/api".to_string(), None, true, true);
    assert_eq!(r, Err(StateError::StateAlreadyExists { state: "@acme/web".to_string() }));
    assert_eq!(g.states, vec![entry("@acme/api", "/code/api")]);
    assert_eq!(g.default, Some(entry("@acme/api", "/code/api")));
}

#[test]
fn remove_sole_entry_clears_everything() {
    let mut g = StateGraph::default();
    add_state(&mut g, &settings(true), glyph("@acme/api"), "/code/api".to_string(), None, false, false)
        .unwrap();
    purge_state(&mut g, glyph("@acme/api")).unwrap();
    assert!(g.states.is_empty());
    assert_eq!(g.default, None);
    assert_eq!(g.active, None);
}

#[test]
fn remove_unknown_glyph_fails() {
    let mut g = StateGraph::default();
    add_state(&mut g, &settings(true), glyph("@acme/api"), "/code/api".to_string(), None, false, false)
        .unwrap();
    let r = purge_state(&mut g, glyph("@other/thing"));
    assert_eq!(r, Err(StateError::StateNotFound { state: "@other/thing".to_string() }));
    assert_eq!(g.states.len(), 1);
}

#[test]
fn set_active_or_default_on_unknown_glyph_changes_nothing() {
    let mut g = StateGraph::default();
    add_state(&mut g, &settings(false), glyph("@acme/api"), "/code/api".to_string(), None, false, false)
        .unwrap();
    let r = set_active(&mut g, glyph("@acme/nope"));
    assert_eq!(r, Err(StateError::StateNotFound { state: "@acme/nope".to_string() }));
    assert_eq!(g.active, None);
    let r = set_default(&mut g, glyph("@acme/nope"));
    assert_eq!(r, Err(StateError::StateNotFound { state: "@acme/nope".to_string() }));
    assert_eq!(g.default, Some(entry("@acme/api", "/code/api")));
}

#[test]
fn set_active_and_default_point_at_found_entry() {
    let mut g = StateGraph::default();
    let s = settings(false);
    add_state(&mut g, &s, glyph("@acme/api"), "/code/api".to_string(), None, false, false).unwrap();
    add_state(&mut g, &s, glyph("@acme/web"), "/code/web".to_string(), None, false, false).unwrap();
    set_active(&mut g, glyph("@acme/web")).unwrap();
    set_default(&mut g, glyph("@acme/web")).unwrap();
    assert_eq!(g.active, Some(entry("@acme/web", "/code/web")));
    assert_eq!(g.default, Some(entry("@acme/web", "/code/web")));
}

#[test]
fn switch_on_add_makes_new_entry_active() {
    let mut g = StateGraph::default();
    add_state(&mut g, &settings(true), glyph("@acme/api"), "/code/api".to_string(), None, false, false)
        .unwrap();
    add_state(&mut g, &settings(true), glyph("@acme/web"), "/code/web".to_string(), None, false, false)
        .unwrap();
    assert_eq!(g.active, Some(entry("@acme/web", "/code/web")));
    assert_eq!(g.default, Some(entry("@acme/api", "/code/api")));
}

#[test]
fn without_switch_on_add_active_stays_unset() {
    let mut g = StateGraph::default();
    add_state(&mut g, &settings(false), glyph("@acme/api"), "/code/api".to_string(), None, false, false)
        .unwrap();
    assert_eq!(g.active, None);
}

#[test]
fn search_exact_ignores_case_only() {
    let mut g = StateGraph::default();
    add_state(&mut g, &settings(true), glyph("@Acme/API"), "/code/api".to_string(), None, false, false)
        .unwrap();
    assert!(g.search_states("@acme/api".to_string(), false).is_some());
    assert!(g.search_states("acme".to_string(), false).is_none());
    assert!(g.search_states("acme".to_string(), true).is_some());
    let mut h = StateGraph::default();
    add_state(&mut h, &settings(true), glyph("@ÄÖ/x"), "/d".to_string(), None, false, false).unwrap();
    assert!(h.search_states("@äö/X".to_string(), false).is_some());
}

#[test]
fn fuzzy_search_matches_directory_and_takes_first() {
    let mut g = StateGraph::default();
    let s = settings(true);
    add_state(&mut g, &s, glyph("@a/one"), "/work/Shared/x".to_string(), None, false, false).unwrap();
    add_state(&mut g, &s, glyph("@b/two"), "/work/shared/y".to_string(), None, false, false).unwrap();
    let found = g.search_states("SHARED".to_string(), true).unwrap();
    assert_eq!(found.glyph, glyph("@a/one"));
    assert!(g.search_states("nowhere".to_string(), true).is_none());
}

#[test]
fn status_tags_are_kept() {
    let mut g = StateGraph::default();
    let tags = vec![Status::Local, Status::Tracking];
    add_state(&mut g, &settings(true), glyph("@a/b"), "/d".to_string(), Some(tags.clone()), false, false)
        .unwrap();
    assert_eq!(g.states[0].status, Some(tags.clone()));
    assert_eq!(g.states[0].get_status(), &Some(tags));
    assert_eq!(g.states[0].get_directory(), &Some("/d".to_string()));
    assert_eq!(g.states[0].get_glyph(), &glyph("@a/b"));
}

#[test]
fn drop_state_removes_equal_entries() {
    let mut g = StateGraph::init(
        None,
        None,
        Some(vec![entry("@a/b", "/x"), entry("@c/d", "/y"), entry("@a/b", "/x")]),
        None,
    );
    g.drop_state(&entry("@a/b", "/x"));
    assert_eq!(g.states, vec![entry("@c/d", "/y")]);
    assert!(same_state(&g.states[0], &entry("@c/d", "/y")));
}

#[test]
fn builders_set_pointers_and_lists() {
    let mut g = StateGraph::init(None, None, None, Some(vec!["/tmp".to_string()]));
    assert!(g.states.is_empty());
    assert_eq!(g.ignore, vec!["/tmp".to_string()]);
    g.append_state(entry("@a/b", "/x"));
    g.active(entry("@a/b", "/x"));
    g.fallback(entry("@a/b", "/x"));
    assert_eq!(g.get_active(), Some(entry("@a/b", "/x")));
    assert_eq!(g.get_default(), Some(entry("@a/b", "/x")));
    g.states(vec![]);
    assert!(g.get_states().is_empty());
}

#[test]
fn commands_add_aborts_on_failed_bootstrap() {
    let mut g = StateGraph::default();
    let failure = PluginError::NonZeroExit { message: "boom".to_string() };
    let r = commands::add(&mut g, &settings(true), glyph("@a/b"), "/x".to_string(), false, Err(failure.clone()), false, false);
    assert_eq!(r, Err(CoreError::Plugin { source: failure.clone() }));
    assert!(g.states.is_empty());
    let r = commands::add(&mut g, &settings(true), glyph("@a/b"), "/x".to_string(), true, Err(failure), false, false);
    assert_eq!(r, Ok(()));
    assert_eq!(g.states.len(), 1);
}

#[test]
fn commands_remove_list_and_switch() {
    let mut g = StateGraph::default();
    let s = settings(false);
    commands::add(&mut g, &s, glyph("@a/b"), "/x".to_string(), false, Ok(()), false, false).unwrap();
    commands::add(&mut g, &s, glyph("@c/d"), "/y".to_string(), false, Ok(()), false, false).unwrap();
    assert_eq!(commands::list(&g), vec![entry("@a/b", "/x"), entry("@c/d", "/y")]);
    commands::switch(&mut g, glyph("@c/d"), true).unwrap();
    assert_eq!(g.active, Some(entry("@c/d", "/y")));
    assert_eq!(g.default, Some(entry("@c/d", "/y")));
    let r = commands::switch(&mut g, glyph("@z/z"), false);
    assert_eq!(r, Err(CoreError::State { source: StateError::StateNotFound { state: "@z/z".to_string() } }));
    commands::remove(&mut g, glyph("@c/d")).unwrap();
    assert_eq!(commands::list(&g), vec![entry("@a/b", "/x")]);
    assert_eq!(g.default, Some(entry("@a/b", "/x")));
    assert_eq!(g.active, Some(entry("@a/b", "/x")));
}

fn chars(s: &str) -> Vec<char> {
    s.chars().collect()
}

#[test]
fn folded_matching_on_given_texts() {
    let text = chars("@acme/api");
    let dir = chars("/code/shared/api");
    assert!(matches_folded(&text, &dir, &chars("@acme/api"), false));
    assert!(!matches_folded(&text, &dir, &chars("acme"), false));
    assert!(matches_folded(&text, &dir, &chars("acme"), true));
    assert!(matches_folded(&text, &dir, &chars("shared"), true));
    assert!(!matches_folded(&text, &dir, &chars("SHARED"), true));
    assert!(matches_folded(&text, &dir, &chars(""), true));
}
