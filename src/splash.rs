//! The selection state of the splash screen's list.
use vstd::prelude::*;

verus! {

/// The items of the splash screen's list and the one selected.
#[derive(Debug)]
pub struct DrawState {
    pub list_items: Vec<String>,
    pub selected_item: usize,
}

/// Moves the selection one item up, staying on the first item.
pub fn up_pressed(state: &mut DrawState)
    ensures
        final(state).list_items@ == old(state).list_items@,
        final(state).selected_item == if old(state).selected_item != 0 {
            old(state).selected_item - 1
        } else {
            0
        },
{
    if state.selected_item != 0 {
        state.selected_item = state.selected_item - 1;
    }
}

/// Moves the selection one item down, staying on the last item.
pub fn down_pressed(state: &mut DrawState)
    ensures
        final(state).list_items@ == old(state).list_items@,
        final(state).selected_item == if old(state).selected_item + 1 < old(
            state,
        ).list_items@.len() {
            old(state).selected_item + 1
        } else {
            old(state).selected_item as int
        },
{
    let n = state.list_items.len();
    if n > 0 && state.selected_item < n - 1 {
        state.selected_item = state.selected_item + 1;
    }
}

} // verus!
