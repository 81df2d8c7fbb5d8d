use vstd::prelude::*;

verus! {

/// Index of the highlighted row of a list, if any.
#[derive(Debug, Clone, Copy, PartialEq, Eq, Default, Structural)]
pub struct SelectionState {
    pub selected: Option<usize>,
}

impl SelectionState {
    pub fn new() -> (s: Self)
        ensures
            s.selected is None,
    {
        SelectionState { selected: None }
    }

    pub fn get(&self) -> (r: Option<usize>)
        ensures
            r == self.selected,
    {
        self.selected
    }

    pub fn set(&mut self, index: Option<usize>)
        ensures
            final(self).selected == index,
    {
        self.selected = index;
    }

    pub fn clear(&mut self)
        ensures
            final(self).selected is None,
    {
        self.selected = None;
    }

    /// Moves one row down, stopping at the last of `len` rows; an empty
    /// selection starts at the first row. Nothing changes when `len` is zero.
    pub fn next(&mut self, len: usize)
        ensures
            final(self).selected == spec_next(old(self).selected, len),
    {
        if len == 0 {
            return ;
        }
        self.selected = match self.selected {
            Some(i) => if i < len - 1 { Some(i + 1) } else { Some(len - 1) },
            None => Some(0),
        };
    }

    /// Moves one row up, stopping at the first row; an empty selection starts
    /// at the first row.
    pub fn prev(&mut self)
        ensures
            final(self).selected == spec_prev(old(self).selected),
    {
        self.selected = match self.selected {
            Some(i) => if i > 0 { Some(i - 1) } else { Some(0) },
            None => Some(0),
        };
    }

    /// Selects the first row when nothing is selected and there are rows.
    pub fn auto_select_first_if_empty(&mut self, has_items: bool)
        ensures
            final(self).selected == (if old(self).selected is None && has_items {
                Some(0usize)
            } else {
                old(self).selected
            }),
    {
        if self.selected.is_none() && has_items {
            self.selected = Some(0);
        }
    }
}

pub open spec fn spec_next(sel: Option<usize>, len: usize) -> Option<usize> {
    if len == 0 {
        sel
    } else {
        match sel {
            Some(i) => Some(if i + 1 < len { (i + 1) as usize } else { (len - 1) as usize }),
            None => Some(0usize),
        }
    }
}

pub open spec fn spec_prev(sel: Option<usize>) -> Option<usize> {
    match sel {
        Some(i) => Some(if i > 0 { (i - 1) as usize } else { 0usize }),
        None => Some(0usize),
    }
}

} // verus!
