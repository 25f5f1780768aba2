//! The state registry: the tracked projects, with the active and the
//! default one, and the operations that search and change it.
use crate::errors::StateError;
use crate::glyph::{glyph_text, Glyph, GlyphModel};
use crate::settings::{opt_text, Settings};
use crate::text::{chars_equal, chars_of, contains, is_substring, lower_of, lowercase};
use vstd::prelude::*;
use vstd::string::*;

verus! {

/// A descriptive tag of a tracked project.
#[derive(Debug, Clone, Copy, PartialEq, Eq, Structural)]
pub enum Status {
    Active,
    Remote,
    Local,
    Tracking,
    Stale,
}

/// What a tracked project stands for.
pub struct StateModel {
    pub glyph: GlyphModel,
    pub directory: Option<Seq<char>>,
    pub status: Option<Seq<Status>>,
}

/// One tracked project: its glyph, its directory and its status tags.
#[derive(Debug)]
pub struct State {
    pub glyph: Glyph,
    pub directory: Option<String>,
    pub status: Option<Vec<Status>>,
}

/// The view of an optional list of status tags.
pub open spec fn opt_status(o: Option<Vec<Status>>) -> Option<Seq<Status>> {
    match o {
        Some(v) => Some(v@),
        None => None,
    }
}

impl View for State {
    type V = StateModel;

    open spec fn view(&self) -> StateModel {
        StateModel {
            glyph: self.glyph@,
            directory: opt_text(self.directory),
            status: opt_status(self.status),
        }
    }
}

/// The view of an optional project.
pub open spec fn opt_state(o: Option<State>) -> Option<StateModel> {
    match o {
        Some(s) => Some(s@),
        None => None,
    }
}

/// The views of a list of projects.
pub open spec fn states_view(v: Seq<State>) -> Seq<StateModel> {
    v.map_values(|s: State| s@)
}

/// What the registry stands for.
pub struct GraphModel {
    pub default: Option<StateModel>,
    pub active: Option<StateModel>,
    pub states: Seq<StateModel>,
    pub ignore: Seq<Seq<char>>,
}

/// The tracked projects, with copies of the default and the active one.
/// The copies are taken when a pointer is set: a listed project that is
/// later replaced does not change them.
#[derive(Debug)]
pub struct StateGraph {
    pub default: Option<State>,
    pub active: Option<State>,
    pub states: Vec<State>,
    pub ignore: Vec<String>,
}

impl View for StateGraph {
    type V = GraphModel;

    open spec fn view(&self) -> GraphModel {
        GraphModel {
            default: opt_state(self.default),
            active: opt_state(self.active),
            states: states_view(self.states@),
            ignore: self.ignore@.map_values(|p: String| p@),
        }
    }
}

/// The directory of a project as text, empty when it has none.
pub open spec fn dir_text(d: Option<Seq<char>>) -> Seq<char> {
    match d {
        Some(p) => p,
        None => Seq::empty(),
    }
}

/// Lower-cased texts match: exactly, the glyph text equals the term;
/// fuzzily, the term occurs in the glyph text or in the directory.
pub open spec fn folded_match(text: Seq<char>, dir: Seq<char>, term: Seq<char>, fuzzy: bool) -> bool {
    if fuzzy {
        is_substring(term, text) || is_substring(term, dir)
    } else {
        text == term
    }
}

/// A project matches a search term. Exactly: its glyph's text equals the
/// term, ignoring case. Fuzzily: the term occurs, ignoring case, in its
/// glyph's text or in its directory.
pub open spec fn state_matches(s: StateModel, term: Seq<char>, fuzzy: bool) -> bool {
    folded_match(lower_of(glyph_text(s.glyph)), lower_of(dir_text(s.directory)), lower_of(term), fuzzy)
}

/// The first position at or after `i` of a project that matches.
pub open spec fn first_match_from(states: Seq<StateModel>, term: Seq<char>, fuzzy: bool, i: int) -> Option<
    int,
>
    decreases states.len() - i,
{
    if i < 0 || i >= states.len() {
        None
    } else if state_matches(states[i], term, fuzzy) {
        Some(i)
    } else {
        first_match_from(states, term, fuzzy, i + 1)
    }
}

/// The first project, in list order, that matches.
pub open spec fn search_spec(states: Seq<StateModel>, term: Seq<char>, fuzzy: bool) -> Option<
    StateModel,
> {
    match first_match_from(states, term, fuzzy, 0) {
        Some(i) => Some(states[i]),
        None => None,
    }
}

/// Some project has this glyph, ignoring case.
pub open spec fn glyph_taken(states: Seq<StateModel>, g: GlyphModel) -> bool {
    exists|i: int| 0 <= i < states.len() && #[trigger] state_matches(states[i], glyph_text(g), false)
}

/// Some project has this directory.
pub open spec fn directory_taken(states: Seq<StateModel>, d: Seq<char>) -> bool {
    exists|i: int| 0 <= i < states.len() && #[trigger] states[i].directory == Some(d)
}

/// The project that adding `g` in `dir` creates.
pub open spec fn new_entry(g: GlyphModel, dir: Seq<char>, status: Option<Seq<Status>>) -> StateModel {
    StateModel { glyph: g, directory: Some(dir), status }
}

/// The registry once `e` is appended; it becomes the default when there is
/// none or when asked, and the active one when asked.
pub open spec fn added(graph: GraphModel, e: StateModel, make_active: bool, make_default: bool) -> GraphModel {
    GraphModel {
        default: if graph.default is None || make_default {
            Some(e)
        } else {
            graph.default
        },
        active: if make_active {
            Some(e)
        } else {
            graph.active
        },
        states: graph.states.push(e),
        ignore: graph.ignore,
    }
}

/// Adding a project: refused (`None`) when its glyph or its directory is
/// already tracked, else the registry with the new project.
pub open spec fn add_spec(
    graph: GraphModel,
    g: GlyphModel,
    dir: Seq<char>,
    status: Option<Seq<Status>>,
    make_active: bool,
    make_default: bool,
) -> Option<GraphModel> {
    if glyph_taken(graph.states, g) || directory_taken(graph.states, dir) {
        None
    } else {
        Some(added(graph, new_entry(g, dir, status), make_active, make_default))
    }
}

/// The list without every copy of `e`, order kept.
pub open spec fn without(states: Seq<StateModel>, e: StateModel) -> Seq<StateModel>
    decreases states.len(),
{
    if states.len() == 0 {
        states
    } else {
        let rest = without(states.drop_last(), e);
        if states.last() == e {
            rest
        } else {
            rest.push(states.last())
        }
    }
}

/// The registry once `e` is dropped. A default equal to `e` moves to the
/// first remaining project, or to none; an active one equal to `e` moves
/// to the new default.
pub open spec fn removed(graph: GraphModel, e: StateModel) -> GraphModel {
    let states = without(graph.states, e);
    let default = if graph.default == Some(e) {
        if states.len() > 0 {
            Some(states[0])
        } else {
            None
        }
    } else {
        graph.default
    };
    GraphModel {
        default,
        active: if graph.active == Some(e) {
            default
        } else {
            graph.active
        },
        states,
        ignore: graph.ignore,
    }
}

/// Removing the project that a fuzzy search for `term` finds: `None` when
/// it finds none.
pub open spec fn remove_spec(graph: GraphModel, term: Seq<char>) -> Option<GraphModel> {
    match search_spec(graph.states, term, true) {
        Some(e) => Some(removed(graph, e)),
        None => None,
    }
}

/// Pointing the active (or, with `default`, the default) project at the
/// one that a fuzzy search for `term` finds: `None` when it finds none.
pub open spec fn point_spec(graph: GraphModel, term: Seq<char>, default: bool) -> Option<GraphModel> {
    match search_spec(graph.states, term, true) {
        Some(e) => Some(
            if default {
                GraphModel { default: Some(e), ..graph }
            } else {
                GraphModel { active: Some(e), ..graph }
            },
        ),
        None => None,
    }
}

/// The search finds a matching position at or after `k`, and no match
/// lies between `k` and it; it finds none only when none matches.
pub proof fn lemma_first_match(states: Seq<StateModel>, term: Seq<char>, fuzzy: bool, k: int)
    requires
        0 <= k <= states.len(),
    ensures
        match first_match_from(states, term, fuzzy, k) {
            Some(i) => k <= i < states.len() && state_matches(states[i], term, fuzzy) && forall|
                j: int,
            |
                k <= j < i ==> !#[trigger] state_matches(states[j], term, fuzzy),
            None => forall|j: int|
                k <= j < states.len() ==> !#[trigger] state_matches(states[j], term, fuzzy),
        },
    decreases states.len() - k,
{
    if k < states.len() {
        lemma_first_match(states, term, fuzzy, k + 1);
    }
}

/// Whether two optional texts are equal.
fn same_opt_text(a: &Option<String>, b: &Option<String>) -> (r: bool)
    ensures
        r == (opt_text(*a) == opt_text(*b)),
{
    match (a, b) {
        (Some(x), Some(y)) => *x == *y,
        (None, None) => true,
        _ => false,
    }
}

/// Whether two optional lists of status tags are equal.
fn same_opt_status(a: &Option<Vec<Status>>, b: &Option<Vec<Status>>) -> (r: bool)
    ensures
        r == (opt_status(*a) == opt_status(*b)),
{
    match (a, b) {
        (Some(x), Some(y)) => {
            if x.len() != y.len() {
                assert(x@.len() != y@.len());
                return false;
            }
            let mut i: usize = 0;
            while i < x.len()
                invariant
                    opt_status(*a) == Some(x@),
                    opt_status(*b) == Some(y@),
                    x.len() == y.len(),
                    i <= x.len(),
                    forall|k: int| 0 <= k < i ==> x@[k] == y@[k],
                decreases x.len() - i,
            {
                if x[i] == y[i] {
                    i = i + 1;
                } else {
                    assert(x@[i as int] != y@[i as int]);
                    return false;
                }
            }
            assert(x@ =~= y@);
            true
        },
        (None, None) => true,
        _ => false,
    }
}

/// Whether two projects are equal.
pub fn same_state(a: &State, b: &State) -> (r: bool)
    ensures
        r == (a@ == b@),
{
    a.glyph.tag == b.glyph.tag && a.glyph.id == b.glyph.id && same_opt_text(
        &a.directory,
        &b.directory,
    ) && same_opt_status(&a.status, &b.status)
}

fn copy_status(v: &Vec<Status>) -> (r: Vec<Status>)
    ensures
        r@ == v@,
{
    let mut r: Vec<Status> = Vec::new();
    let mut i: usize = 0;
    while i < v.len()
        invariant
            i <= v.len(),
            r@ == v@.subrange(0, i as int),
        decreases v.len() - i,
    {
        r.push(v[i]);
        i = i + 1;
    }
    assert(r@ =~= v@);
    r
}

fn copy_opt_state(o: &Option<State>) -> (r: Option<State>)
    ensures
        opt_state(r) == opt_state(*o),
{
    match o {
        Some(s) => Some(s.clone()),
        None => None,
    }
}

impl Clone for State {
    fn clone(&self) -> (r: Self)
        ensures
            r@ == self@,
    {
        State {
            glyph: self.glyph.clone(),
            directory: match &self.directory {
                Some(d) => Some(d.clone()),
                None => None,
            },
            status: match &self.status {
                Some(v) => Some(copy_status(v)),
                None => None,
            },
        }
    }
}

impl PartialEq for State {
    fn eq(&self, other: &State) -> (r: bool) {
        same_state(self, other)
    }
}

impl vstd::std_specs::cmp::PartialEqSpecImpl for State {
    open spec fn obeys_eq_spec() -> bool {
        true
    }

    open spec fn eq_spec(&self, other: &State) -> bool {
        self@ == other@
    }
}

impl Default for State {
    fn default() -> (r: State)
        ensures
            r@ == (StateModel {
                glyph: GlyphModel { tag: Seq::empty(), id: Seq::empty() },
                directory: None,
                status: None,
            }),
    {
        State { glyph: Glyph::default(), directory: None, status: None }
    }
}

impl State {
    /// A project with the given glyph, directory and status tags.
    pub fn new(glyph: Glyph, directory: Option<String>, status: Option<Vec<Status>>) -> (r: State)
        ensures
            r@ == (StateModel {
                glyph: glyph@,
                directory: opt_text(directory),
                status: opt_status(status),
            }),
    {
        State { glyph, directory, status }
    }

    pub fn get_glyph(&self) -> (r: &Glyph)
        ensures
            r@ == self.glyph@,
    {
        &self.glyph
    }

    pub fn get_directory(&self) -> (r: &Option<String>)
        ensures
            opt_text(*r) == self@.directory,
    {
        &self.directory
    }

    pub fn get_status(&self) -> (r: &Option<Vec<Status>>)
        ensures
            opt_status(*r) == self@.status,
    {
        &self.status
    }
}

/// Whether a project matches, given its glyph's text `text`, its
/// directory `dir` and the search term `term`, all three lower-cased.
pub fn matches_folded(text: &Vec<char>, dir: &Vec<char>, term: &Vec<char>, fuzzy: bool) -> (r: bool)
    ensures
        r == folded_match(text@, dir@, term@, fuzzy),
{
    if fuzzy {
        contains(text, term) || contains(dir, term)
    } else {
        chars_equal(text, term)
    }
}

/// Whether project `s` matches `term`, given the term lower-cased.
fn state_matches_exec(s: &State, term: &str, lower_term: &Vec<char>, fuzzy: bool) -> (r: bool)
    requires
        lower_term@ == lower_of(term@),
    ensures
        r == state_matches(s@, term@, fuzzy),
{
    let text = s.glyph.to_string();
    let lower_text = chars_of(lowercase(text.as_str()).as_str());
    let dir = match &s.directory {
        Some(d) => d.clone(),
        None => String::new(),
    };
    let lower_dir = chars_of(lowercase(dir.as_str()).as_str());
    matches_folded(&lower_text, &lower_dir, lower_term, fuzzy)
}

/// The position of the first project that matches `term`.
fn find_match(states: &Vec<State>, term: &str, fuzzy: bool) -> (r: Option<usize>)
    ensures
        match r {
            Some(i) => first_match_from(states_view(states@), term@, fuzzy, 0) == Some(i as int),
            None => first_match_from(states_view(states@), term@, fuzzy, 0) is None,
        },
{
    let ghost sv = states_view(states@);
    let lower_term = lowercase(term);
    let lt = chars_of(lower_term.as_str());
    let mut i: usize = 0;
    while i < states.len()
        invariant
            sv == states_view(states@),
            lt@ == lower_of(term@),
            i <= states.len(),
            first_match_from(sv, term@, fuzzy, 0) == first_match_from(sv, term@, fuzzy, i as int),
        decreases states.len() - i,
    {
        if state_matches_exec(&states[i], term, &lt, fuzzy) {
            return Some(i);
        }
        i = i + 1;
    }
    None
}

/// Whether some project has directory `dir`.
fn find_directory(states: &Vec<State>, dir: &String) -> (r: bool)
    ensures
        r == directory_taken(states_view(states@), dir@),
{
    let ghost sv = states_view(states@);
    let mut i: usize = 0;
    while i < states.len()
        invariant
            sv == states_view(states@),
            i <= states.len(),
            forall|j: int| 0 <= j < i ==> sv[j].directory != Some(dir@),
        decreases states.len() - i,
    {
        match &states[i].directory {
            Some(d) => {
                if *d == *dir {
                    assert(sv[i as int].directory == Some(dir@));
                    return true;
                }
            },
            None => {},
        }
        i = i + 1;
    }
    false
}

impl StateGraph {
    /// A registry with the given parts; lists left out are empty.
    pub fn init(
        default: Option<State>,
        active: Option<State>,
        states: Option<Vec<State>>,
        ignore: Option<Vec<String>>,
    ) -> (r: StateGraph)
        ensures
            r.default == default,
            r.active == active,
            r.states@ == match states {
                Some(v) => v@,
                None => Seq::empty(),
            },
            r.ignore@ == match ignore {
                Some(v) => v@,
                None => Seq::empty(),
            },
    {
        StateGraph {
            default,
            active,
            states: match states {
                Some(v) => v,
                None => Vec::new(),
            },
            ignore: match ignore {
                Some(v) => v,
                None => Vec::new(),
            },
        }
    }

    /// Makes `state` the active project.
    pub fn active(&mut self, state: State)
        ensures
            final(self)@ == (GraphModel { active: Some(state@), ..old(self)@ }),
    {
        self.active = Some(state);
    }

    /// Makes `state` the default project.
    pub fn fallback(&mut self, state: State)
        ensures
            final(self)@ == (GraphModel { default: Some(state@), ..old(self)@ }),
    {
        self.default = Some(state);
    }

    /// Replaces the list of projects.
    pub fn states(&mut self, states: Vec<State>)
        ensures
            final(self)@ == (GraphModel { states: states_view(states@), ..old(self)@ }),
    {
        self.states = states;
    }

    /// Appends a project to the list.
    pub fn append_state(&mut self, state: State)
        ensures
            final(self)@ == (GraphModel { states: old(self)@.states.push(state@), ..old(self)@ }),
    {
        self.states.push(state);
        assert(states_view(self.states@) =~= old(self)@.states.push(state@));
    }

    /// Drops every project equal to `state` from the list.
    pub fn drop_state(&mut self, state: &State)
        ensures
            final(self)@ == (GraphModel { states: without(old(self)@.states, state@), ..old(self)@ }),
    {
        let ghost sv = states_view(self.states@);
        let mut kept: Vec<State> = Vec::new();
        let mut i: usize = 0;
        while i < self.states.len()
            invariant
                sv == states_view(self.states@),
                i <= self.states.len(),
                states_view(kept@) == without(sv.subrange(0, i as int), state@),
            decreases self.states.len() - i,
        {
            assert(sv.subrange(0, i + 1).drop_last() =~= sv.subrange(0, i as int));
            if !same_state(&self.states[i], state) {
                kept.push(self.states[i].clone());
                assert(states_view(kept@) =~= without(sv.subrange(0, i as int), state@).push(
                    sv[i as int],
                ));
            }
            i = i + 1;
        }
        assert(sv.subrange(0, sv.len() as int) =~= sv);
        self.states = kept;
    }

    /// The first project, in list order, that matches `q_term`: exactly
    /// (its glyph's text, ignoring case) or fuzzily (a part of its glyph's
    /// text or of its directory, ignoring case).
    pub fn search_states(&self, q_term: String, fuzzy: bool) -> (r: Option<State>)
        ensures
            opt_state(r) == search_spec(self@.states, q_term@, fuzzy),
    {
        proof {
            lemma_first_match(self@.states, q_term@, fuzzy, 0);
        }
        match find_match(&self.states, q_term.as_str(), fuzzy) {
            Some(i) => Some(self.states[i].clone()),
            None => None,
        }
    }

    pub fn get_default(&self) -> (r: Option<State>)
        ensures
            opt_state(r) == self@.default,
    {
        copy_opt_state(&self.default)
    }

    pub fn get_active(&self) -> (r: Option<State>)
        ensures
            opt_state(r) == self@.active,
    {
        copy_opt_state(&self.active)
    }

    pub fn get_states(&self) -> (r: &Vec<State>)
        ensures
            states_view(r@) == self@.states,
    {
        &self.states
    }
}

impl Default for StateGraph {
    fn default() -> (r: StateGraph)
        ensures
            r@ == (GraphModel {
                default: None,
                active: None,
                states: Seq::empty(),
                ignore: Seq::empty(),
            }),
    {
        let r = StateGraph { default: None, active: None, states: Vec::new(), ignore: Vec::new() };
        assert(r@.states =~= Seq::<StateModel>::empty());
        assert(r@.ignore =~= Seq::<Seq<char>>::empty());
        r
    }
}


/// Adds a project with glyph `glyph` in `location`, unless a project with
/// that glyph (ignoring case) or that directory is already tracked, in
/// which case nothing changes. The new project becomes the default when
/// there is none or when `as_default`, and the active one when the settings
/// switch on add or when `as_active`.
pub fn add_state(
    graph: &mut StateGraph,
    settings: &Settings,
    glyph: Glyph,
    location: String,
    status: Option<Vec<Status>>,
    as_active: bool,
    as_default: bool,
) -> (r: Result<(), StateError>)
    ensures
        match add_spec(
            old(graph)@,
            glyph@,
            location@,
            opt_status(status),
            settings.switch_on_add || as_active,
            as_default,
        ) {
            None => (r matches Err(StateError::StateAlreadyExists { state: s }) && s@ == glyph_text(
                glyph@,
            )) && final(graph)@ == old(graph)@,
            Some(g) => r is Ok && final(graph)@ == g,
        },
{
    proof {
        lemma_first_match(graph@.states, glyph_text(glyph@), false, 0);
    }
    let text = glyph.to_string();
    let glyph_hit = graph.search_states(text.clone(), false);
    let dir_hit = find_directory(&graph.states, &location);
    if glyph_hit.is_some() || dir_hit {
        return Err(StateError::StateAlreadyExists { state: text });
    }
    let new_state = State { glyph, directory: Some(location), status };
    let for_default = new_state.clone();
    let for_active = new_state.clone();
    graph.append_state(new_state);
    if graph.default.is_none() || as_default {
        graph.fallback(for_default);
    }
    if settings.switch_on_add || as_active {
        graph.active(for_active);
    }
    Ok(())
}

/// Removes the project that a fuzzy search for the glyph's text finds. A
/// default equal to it moves to the first remaining project (or to none);
/// an active one equal to it moves to the new default. Nothing changes when
/// no project is found.
pub fn purge_state(graph: &mut StateGraph, q_glyph: Glyph) -> (r: Result<(), StateError>)
    ensures
        match remove_spec(old(graph)@, glyph_text(q_glyph@)) {
            None => (r matches Err(StateError::StateNotFound { state: s }) && s@ == glyph_text(
                q_glyph@,
            )) && final(graph)@ == old(graph)@,
            Some(g) => r is Ok && final(graph)@ == g,
        },
{
    let text = q_glyph.to_string();
    match graph.search_states(text.clone(), true) {
        None => Err(StateError::StateNotFound { state: text }),
        Some(q_state) => {
            graph.drop_state(&q_state);
            let default_hit = match &graph.default {
                Some(d) => same_state(d, &q_state),
                None => false,
            };
            if default_hit {
                if graph.states.len() > 0 {
                    let first = graph.states[0].clone();
                    graph.fallback(first);
                } else {
                    graph.default = None;
                }
            }
            let active_hit = match &graph.active {
                Some(a) => same_state(a, &q_state),
                None => false,
            };
            if active_hit {
                graph.active = copy_opt_state(&graph.default);
            }
            Ok(())
        },
    }
}

/// Makes the project that a fuzzy search for the glyph's text finds the
/// active one; nothing changes when none is found.
pub fn set_active(graph: &mut StateGraph, q_glyph: Glyph) -> (r: Result<(), StateError>)
    ensures
        match point_spec(old(graph)@, glyph_text(q_glyph@), false) {
            None => (r matches Err(StateError::StateNotFound { state: s }) && s@ == glyph_text(
                q_glyph@,
            )) && final(graph)@ == old(graph)@,
            Some(g) => r is Ok && final(graph)@ == g,
        },
{
    let text = q_glyph.to_string();
    match graph.search_states(text.clone(), true) {
        None => Err(StateError::StateNotFound { state: text }),
        Some(q_state) => {
            graph.active(q_state);
            Ok(())
        },
    }
}

/// Makes the project that a fuzzy search for the glyph's text finds the
/// default one; nothing changes when none is found.
pub fn set_default(graph: &mut StateGraph, q_glyph: Glyph) -> (r: Result<(), StateError>)
    ensures
        match point_spec(old(graph)@, glyph_text(q_glyph@), true) {
            None => (r matches Err(StateError::StateNotFound { state: s }) && s@ == glyph_text(
                q_glyph@,
            )) && final(graph)@ == old(graph)@,
            Some(g) => r is Ok && final(graph)@ == g,
        },
{
    let text = q_glyph.to_string();
    match graph.search_states(text.clone(), true) {
        None => Err(StateError::StateNotFound { state: text }),
        Some(q_state) => {
            graph.fallback(q_state);
            Ok(())
        },
    }
}

/// The default and the active project, when set, are among the tracked ones.
pub open spec fn graph_wf(g: GraphModel) -> bool {
    &&& (g.default matches Some(d) ==> g.states.contains(d))
    &&& (g.active matches Some(a) ==> g.states.contains(a))
}

/// Once a project is added, adding one with the same glyph, or with the
/// same directory, is refused.
pub proof fn lemma_add_twice_refused(
    graph: GraphModel,
    g: GlyphModel,
    dir: Seq<char>,
    status: Option<Seq<Status>>,
    make_active: bool,
    make_default: bool,
    g2: GlyphModel,
    dir2: Seq<char>,
    status2: Option<Seq<Status>>,
    make_active2: bool,
    make_default2: bool,
)
    requires
        add_spec(graph, g, dir, status, make_active, make_default) is Some,
        g2 == g || dir2 == dir,
    ensures
        add_spec(
            add_spec(graph, g, dir, status, make_active, make_default)->Some_0,
            g2,
            dir2,
            status2,
            make_active2,
            make_default2,
        ) is None,
{
    let after = add_spec(graph, g, dir, status, make_active, make_default)->Some_0;
    let n = graph.states.len() as int;
    assert(after.states[n] == new_entry(g, dir, status));
    if g2 == g {
        assert(state_matches(after.states[n], glyph_text(g2), false));
    } else {
        assert(after.states[n].directory == Some(dir2));
    }
}

/// With switching on add, adding a project whose glyph (ignoring case)
/// and directory are not yet tracked succeeds, and the new project is the
/// active one, whether or not that was asked.
pub proof fn lemma_switch_on_add(
    graph: GraphModel,
    g: GlyphModel,
    dir: Seq<char>,
    status: Option<Seq<Status>>,
    switch_on_add: bool,
    as_active: bool,
    as_default: bool,
)
    requires
        switch_on_add,
        !glyph_taken(graph.states, g),
        !directory_taken(graph.states, dir),
    ensures
        add_spec(graph, g, dir, status, switch_on_add || as_active, as_default) matches Some(after)
            && after.active == Some(new_entry(g, dir, status)),
{
}

/// Removing the only tracked project, by its glyph, leaves no project and
/// neither a default nor an active one.
pub proof fn lemma_remove_sole_entry(graph: GraphModel)
    requires
        graph.states.len() == 1,
        graph_wf(graph),
    ensures
        remove_spec(graph, glyph_text(graph.states[0].glyph)) == Some(
            GraphModel { default: None, active: None, states: Seq::empty(), ignore: graph.ignore },
        ),
{
    let e = graph.states[0];
    let t = glyph_text(e.glyph);
    crate::text::lemma_substring_of_self(lower_of(t));
    assert(state_matches(e, t, true));
    assert(first_match_from(graph.states, t, true, 0) == Some(0int));
    assert(graph.states.drop_last() =~= Seq::<StateModel>::empty());
    assert(without(graph.states.drop_last(), e) == graph.states.drop_last());
    assert(without(graph.states, e) =~= Seq::<StateModel>::empty());
    if graph.default is Some {
        assert(graph.states.contains(graph.default->Some_0));
    }
    if graph.active is Some {
        assert(graph.states.contains(graph.active->Some_0));
    }
}

proof fn lemma_without_keeps(states: Seq<StateModel>, e: StateModel, x: StateModel)
    requires
        states.contains(x),
        x != e,
    ensures
        without(states, e).contains(x),
    decreases states.len(),
{
    let i = choose|i: int| 0 <= i < states.len() && states[i] == x;
    if i == states.len() - 1 {
        assert(without(states, e).last() == x);
    } else {
        assert(states.drop_last()[i] == x);
        lemma_without_keeps(states.drop_last(), e, x);
        let w = without(states.drop_last(), e);
        let k = choose|k: int| 0 <= k < w.len() && w[k] == x;
        if states.last() != e {
            assert(w.push(states.last())[k] == x);
        }
    }
}

/// Adding a project keeps the default and the active one among the
/// tracked projects.
pub proof fn lemma_add_keeps_wf(
    graph: GraphModel,
    g: GlyphModel,
    dir: Seq<char>,
    status: Option<Seq<Status>>,
    make_active: bool,
    make_default: bool,
)
    requires
        graph_wf(graph),
        add_spec(graph, g, dir, status, make_active, make_default) is Some,
    ensures
        graph_wf(add_spec(graph, g, dir, status, make_active, make_default)->Some_0),
{
    let after = add_spec(graph, g, dir, status, make_active, make_default)->Some_0;
    let n = graph.states.len() as int;
    assert(after.states[n] == new_entry(g, dir, status));
    if graph.default is Some {
        let i = choose|i: int| 0 <= i < graph.states.len() && graph.states[i] == graph.default->Some_0;
        assert(after.states[i] == graph.states[i]);
    }
    if graph.active is Some {
        let i = choose|i: int| 0 <= i < graph.states.len() && graph.states[i] == graph.active->Some_0;
        assert(after.states[i] == graph.states[i]);
    }
}

/// Removing a project keeps the default and the active one among the
/// tracked projects.
pub proof fn lemma_remove_keeps_wf(graph: GraphModel, term: Seq<char>)
    requires
        graph_wf(graph),
        remove_spec(graph, term) is Some,
    ensures
        graph_wf(remove_spec(graph, term)->Some_0),
{
    let e = search_spec(graph.states, term, true)->Some_0;
    let after = removed(graph, e);
    if after.default is Some {
        if graph.default == Some(e) {
            assert(after.states.contains(after.states[0]));
        } else {
            lemma_without_keeps(graph.states, e, graph.default->Some_0);
        }
    }
    if after.active is Some {
        if graph.active == Some(e) {
            if graph.default == Some(e) {
                assert(after.states.contains(after.states[0]));
            } else {
                lemma_without_keeps(graph.states, e, graph.default->Some_0);
            }
        } else {
            lemma_without_keeps(graph.states, e, graph.active->Some_0);
        }
    }
}

/// Pointing the active or the default project at a found one keeps both
/// among the tracked projects.
pub proof fn lemma_point_keeps_wf(graph: GraphModel, term: Seq<char>, default: bool)
    requires
        graph_wf(graph),
        point_spec(graph, term, default) is Some,
    ensures
        graph_wf(point_spec(graph, term, default)->Some_0),
{
    lemma_first_match(graph.states, term, true, 0);
    let i = first_match_from(graph.states, term, true, 0)->Some_0;
    assert(graph.states[i] == search_spec(graph.states, term, true)->Some_0);
}


/// Two projects differ in glyph (ignoring case) and, when the first has a
/// directory, in directory.
pub open spec fn distinct_entries(a: StateModel, b: StateModel) -> bool {
    !state_matches(a, glyph_text(b.glyph), false) && (a.directory is Some ==> a.directory
        != b.directory)
}

/// No two tracked projects share a glyph (ignoring case) or a directory.
pub open spec fn entries_unique(states: Seq<StateModel>) -> bool {
    forall|i: int, j: int|
        0 <= i < states.len() && 0 <= j < states.len() && i != j ==> #[trigger] distinct_entries(
            states[i],
            states[j],
        )
}

proof fn lemma_without_within(states: Seq<StateModel>, e: StateModel, k: int)
    requires
        0 <= k < without(states, e).len(),
    ensures
        exists|p: int| 0 <= p < states.len() && states[p] == without(states, e)[k],
    decreases states.len(),
{
    let s2 = states.drop_last();
    let rest = without(s2, e);
    if states.last() == e || k < rest.len() {
        lemma_without_within(s2, e, k);
        let p = choose|p: int| 0 <= p < s2.len() && s2[p] == rest[k];
        assert(states[p] == s2[p]);
    } else {
        assert(states[states.len() - 1] == without(states, e)[k]);
    }
}

proof fn lemma_without_keeps_unique(states: Seq<StateModel>, e: StateModel)
    requires
        entries_unique(states),
    ensures
        entries_unique(without(states, e)),
    decreases states.len(),
{
    if states.len() > 0 {
        let n = states.len() - 1;
        let s2 = states.drop_last();
        assert forall|i: int, j: int|
            0 <= i < s2.len() && 0 <= j < s2.len() && i != j implies #[trigger] distinct_entries(
            s2[i],
            s2[j],
        ) by {
            assert(distinct_entries(states[i], states[j]));
        }
        lemma_without_keeps_unique(s2, e);
        let w = without(s2, e);
        if states.last() != e {
            let w2 = w.push(states.last());
            assert forall|i: int, j: int|
                0 <= i < w2.len() && 0 <= j < w2.len() && i != j implies #[trigger] distinct_entries(
                w2[i],
                w2[j],
            ) by {
                if i < w.len() && j < w.len() {
                    assert(distinct_entries(w[i], w[j]));
                } else if i < w.len() {
                    lemma_without_within(s2, e, i);
                    let p = choose|p: int| 0 <= p < s2.len() && s2[p] == w[i];
                    assert(distinct_entries(states[p], states[n]));
                } else {
                    lemma_without_within(s2, e, j);
                    let p = choose|p: int| 0 <= p < s2.len() && s2[p] == w[j];
                    assert(distinct_entries(states[n], states[p]));
                }
            }
        }
    }
}

/// Adding a project keeps every glyph and every directory tracked at most
/// once.
pub proof fn lemma_add_keeps_unique(
    graph: GraphModel,
    g: GlyphModel,
    dir: Seq<char>,
    status: Option<Seq<Status>>,
    make_active: bool,
    make_default: bool,
)
    requires
        entries_unique(graph.states),
        add_spec(graph, g, dir, status, make_active, make_default) is Some,
    ensures
        entries_unique(add_spec(graph, g, dir, status, make_active, make_default)->Some_0.states),
{
    let s = graph.states;
    let n = s.len() as int;
    let e = new_entry(g, dir, status);
    let s2 = s.push(e);
    assert forall|i: int, j: int|
        0 <= i < s2.len() && 0 <= j < s2.len() && i != j implies #[trigger] distinct_entries(
        s2[i],
        s2[j],
    ) by {
        if i < n && j < n {
            assert(distinct_entries(s[i], s[j]));
        } else if i < n {
            assert(!state_matches(s[i], glyph_text(g), false));
            assert(s[i].directory != Some(dir));
        } else {
            assert(!state_matches(s[j], glyph_text(g), false));
            assert(s[j].directory != Some(dir));
        }
    }
}

/// Removing a project keeps every glyph and every directory tracked at
/// most once.
pub proof fn lemma_remove_keeps_unique(graph: GraphModel, term: Seq<char>)
    requires
        entries_unique(graph.states),
        remove_spec(graph, term) is Some,
    ensures
        entries_unique(remove_spec(graph, term)->Some_0.states),
{
    lemma_without_keeps_unique(graph.states, search_spec(graph.states, term, true)->Some_0);
}

} // verus!
