//! A list with an optional selected item, that wraps around when the
//! selection moves past either end.
use vstd::prelude::*;

verus! {

/// Items and the position of the selected one, if any.
#[derive(Debug)]
pub struct StatefulList<T> {
    pub selected: Option<usize>,
    pub items: Vec<T>,
}

/// The position selected after moving down from `sel` in a list of `len`
/// items: the next one, or the first after the last.
pub open spec fn next_position(sel: Option<usize>, len: nat) -> int {
    match sel {
        Some(i) => if i + 1 < len {
            i + 1
        } else {
            0
        },
        None => 0,
    }
}

/// The position selected after moving up from `sel` in a list of `len`
/// items: the previous one, or the last after the first.
pub open spec fn previous_position(sel: Option<usize>, len: nat) -> int {
    match sel {
        Some(i) => if i == 0 {
            if len > 0 {
                len - 1
            } else {
                0
            }
        } else {
            i - 1
        },
        None => 0,
    }
}

impl<T> StatefulList<T> {
    /// An empty list with nothing selected.
    pub fn new() -> (r: StatefulList<T>)
        ensures
            r.selected is None,
            r.items@.len() == 0,
    {
        StatefulList { selected: None, items: Vec::new() }
    }

    /// A list of `items` with nothing selected.
    pub fn with_items(items: Vec<T>) -> (r: StatefulList<T>)
        ensures
            r.selected is None,
            r.items@ == items@,
    {
        StatefulList { selected: None, items }
    }

    /// Selects the next item, wrapping to the first.
    pub fn next(&mut self)
        ensures
            final(self).items@ == old(self).items@,
            final(self).selected matches Some(i) && i == next_position(
                old(self).selected,
                old(self).items@.len(),
            ),
    {
        let n = self.items.len();
        let i: usize = match self.selected {
            Some(i) => if n > 0 && i < n - 1 {
                i + 1
            } else {
                0
            },
            None => 0,
        };
        self.selected = Some(i);
    }

    /// Selects the previous item, wrapping to the last.
    pub fn previous(&mut self)
        ensures
            final(self).items@ == old(self).items@,
            final(self).selected matches Some(i) && i == previous_position(
                old(self).selected,
                old(self).items@.len(),
            ),
    {
        let n = self.items.len();
        let i: usize = match self.selected {
            Some(i) => if i == 0 {
                if n > 0 {
                    n - 1
                } else {
                    0
                }
            } else {
                i - 1
            },
            None => 0,
        };
        self.selected = Some(i);
    }

    /// Clears the selection.
    pub fn unselect(&mut self)
        ensures
            final(self).items@ == old(self).items@,
            final(self).selected is None,
    {
        self.selected = None;
    }
}

} // verus!
