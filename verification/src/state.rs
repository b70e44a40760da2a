use vstd::prelude::*;

verus! {

/// What one cell knows about the frame it is rendered in: its own column
/// index, and the column indices the frame resolved as hovered and as
/// selected (`-1` where there is none). The two predicates below derive
/// whether this cell itself is the hovered or the selected one.
#[derive(Clone, Copy, Debug, PartialEq, Eq, PartialOrd, Ord, Structural)]
pub struct TabState {
    pub ind: i32,
    pub hovered_tab: i32,
    pub selected_tab: i32,
}

impl TabState {
    /// Whether this cell is the one the frame resolved as hovered.
    pub open spec fn hovered_here(self) -> bool {
        self.hovered_tab == self.ind
    }

    /// Whether this cell is the one the frame resolved as selected.
    pub open spec fn selected_here(self) -> bool {
        self.selected_tab == self.ind
    }

    pub fn is_hovered(&self) -> (r: bool)
        ensures
            r == self.hovered_here(),
    {
        self.hovered_tab == self.ind
    }

    pub fn is_selected(&self) -> (r: bool)
        ensures
            r == self.selected_here(),
    {
        self.selected_tab == self.ind
    }

    /// The frame's hovered column, or `None` where the sentinel `-1`
    /// (no hovered column) is stored.
    pub fn hovered_tab(&self) -> (r: Option<i32>)
        ensures
            r == if self.hovered_tab < 0 {
                Option::<i32>::None
            } else {
                Option::Some(self.hovered_tab)
            },
    {
        if self.hovered_tab < 0 {
            None
        } else {
            Some(self.hovered_tab)
        }
    }

    /// The frame's selected column, or `None` where the sentinel `-1`
    /// (no selected column) is stored.
    pub fn selected_tab(&self) -> (r: Option<i32>)
        ensures
            r == if self.selected_tab < 0 {
                Option::<i32>::None
            } else {
                Option::Some(self.selected_tab)
            },
    {
        if self.selected_tab < 0 {
            None
        } else {
            Some(self.selected_tab)
        }
    }

    /// This cell's own column index.
    pub fn index(&self) -> (r: i32)
        ensures
            r == self.ind,
    {
        self.ind
    }
}

} // verus!
