//! The tool's operations on a loaded registry: add, remove, list and
//! switch projects. Reading and writing the registry file, and running
//! plugins, happen around these calls.
use crate::errors::{CoreError, PluginError, StateError};
use crate::glyph::{glyph_text, Glyph};
use crate::settings::Settings;
use crate::statehandler::{
    add_spec, point_spec, purge_state, remove_spec, set_active, set_default, states_view,
    add_state, State, StateGraph,
};
use vstd::prelude::*;

verus! {

/// The plugin that sets up a project that does not exist yet.
pub const BOOTSTRAP_PLUGIN: &'static str = "Weaver";

/// Adds a project. Unless the project already `existing`, `bootstrap` is
/// the outcome of running the bootstrap plugin for it, and a failure there
/// leaves the registry as it was.
pub fn add(
    graph: &mut StateGraph,
    settings: &Settings,
    glyph: Glyph,
    location: String,
    existing: bool,
    bootstrap: Result<(), PluginError>,
    active: bool,
    default: bool,
) -> (r: Result<(), CoreError>)
    ensures
        !existing && bootstrap is Err ==> r == Err::<(), CoreError>(
            CoreError::Plugin { source: bootstrap->Err_0 },
        ) && final(graph)@ == old(graph)@,
        existing || bootstrap is Ok ==> match add_spec(
            old(graph)@,
            glyph@,
            location@,
            None,
            settings.switch_on_add || active,
            default,
        ) {
            None => (r matches Err(
                CoreError::State { source: StateError::StateAlreadyExists { state: s } },
            ) && s@ == glyph_text(glyph@)) && final(graph)@ == old(graph)@,
            Some(g) => r is Ok && final(graph)@ == g,
        },
{
    if !existing {
        match bootstrap {
            Err(e) => {
                return Err(CoreError::Plugin { source: e });
            },
            Ok(()) => {},
        }
    }
    match add_state(graph, settings, glyph, location, None, active, default) {
        Ok(()) => Ok(()),
        Err(e) => Err(CoreError::State { source: e }),
    }
}

/// Removes the project that the glyph finds.
pub fn remove(graph: &mut StateGraph, glyph: Glyph) -> (r: Result<(), CoreError>)
    ensures
        match remove_spec(old(graph)@, glyph_text(glyph@)) {
            None => (r matches Err(CoreError::State { source: StateError::StateNotFound { state: s } })
                && s@ == glyph_text(glyph@)) && final(graph)@ == old(graph)@,
            Some(g) => r is Ok && final(graph)@ == g,
        },
{
    match purge_state(graph, glyph) {
        Ok(()) => Ok(()),
        Err(e) => Err(CoreError::State { source: e }),
    }
}

/// The tracked projects, in order.
pub fn list(graph: &StateGraph) -> (r: Vec<State>)
    ensures
        states_view(r@) == graph@.states,
{
    let mut r: Vec<State> = Vec::new();
    let mut i: usize = 0;
    while i < graph.states.len()
        invariant
            i <= graph.states.len(),
            states_view(r@) == states_view(graph.states@).subrange(0, i as int),
        decreases graph.states.len() - i,
    {
        let c = graph.states[i].clone();
        let ghost before = r@;
        r.push(c);
        assert(c@ == states_view(graph.states@)[i as int]);
        assert(states_view(r@) =~= states_view(before).push(c@));
        assert(states_view(graph.states@).subrange(0, i + 1) =~= states_view(graph.states@).subrange(
            0,
            i as int,
        ).push(c@));
        i = i + 1;
    }
    assert(states_view(graph.states@).subrange(0, graph.states.len() as int) =~= states_view(
        graph.states@,
    ));
    r
}

/// Makes the project that the glyph finds the active one and, with
/// `default`, the default one too.
pub fn switch(graph: &mut StateGraph, glyph: Glyph, default: bool) -> (r: Result<(), CoreError>)
    ensures
        match point_spec(old(graph)@, glyph_text(glyph@), false) {
            None => (r matches Err(CoreError::State { source: StateError::StateNotFound { state: s } })
                && s@ == glyph_text(glyph@)) && final(graph)@ == old(graph)@,
            Some(g) => r is Ok && final(graph)@ == if default {
                point_spec(g, glyph_text(glyph@), true)->Some_0
            } else {
                g
            },
        },
{
    let again = glyph.clone();
    match set_active(graph, glyph) {
        Ok(()) => {},
        Err(e) => {
            return Err(CoreError::State { source: e });
        },
    }
    if default {
        match set_default(graph, again) {
            Ok(()) => {},
            Err(e) => {
                return Err(CoreError::State { source: e });
            },
        }
    }
    Ok(())
}

} // verus!
