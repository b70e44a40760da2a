use vstd::prelude::*;

use crate::color::{TabColor, VisualsVariant};

verus! {

/// Which pointer gestures a cell's interactive region reports.
#[derive(Clone, Copy, Debug, PartialEq, Eq, Structural)]
pub struct Sense {
    pub click: bool,
    pub drag: bool,
    pub focusable: bool,
}

impl Sense {
    /// Report hovering only.
    pub fn hover() -> (s: Sense)
        ensures
            s == (Sense { click: false, drag: false, focusable: false }),
    {
        Sense { click: false, drag: false, focusable: false }
    }

    /// Report clicks and hovering.
    pub fn click() -> (s: Sense)
        ensures
            s == (Sense { click: true, drag: false, focusable: true }),
    {
        Sense { click: true, drag: false, focusable: true }
    }

    /// Report drags and hovering, but not clicks.
    pub fn drag() -> (s: Sense)
        ensures
            s == (Sense { click: false, drag: true, focusable: true }),
    {
        Sense { click: false, drag: true, focusable: true }
    }

    /// Report clicks, drags and hovering.
    pub fn click_and_drag() -> (s: Sense)
        ensures
            s == (Sense { click: true, drag: true, focusable: true }),
    {
        Sense { click: true, drag: true, focusable: true }
    }
}

/// The axis and direction cell content flows along.
#[derive(Clone, Copy, Debug, PartialEq, Eq, Structural)]
pub enum Direction {
    LeftToRight,
    RightToLeft,
    TopDown,
    BottomUp,
}

/// How content is aligned across or along an axis.
#[derive(Clone, Copy, Debug, PartialEq, Eq, Structural)]
pub enum Align {
    Min,
    Center,
    Max,
}

/// The content layout policy handed to each cell's child context: a main
/// direction with its alignment and justification, and the alignment and
/// justification across it.
#[derive(Clone, Copy, Debug, PartialEq, Eq, Structural)]
pub struct Layout {
    pub main_dir: Direction,
    pub main_wrap: bool,
    pub main_align: Align,
    pub main_justify: bool,
    pub cross_align: Align,
    pub cross_justify: bool,
}

impl Layout {
    /// The layout a fresh configuration starts from: top-down flow,
    /// content left-aligned across the main axis.
    pub open spec fn initial() -> Layout {
        Layout {
            main_dir: Direction::TopDown,
            main_wrap: false,
            main_align: Align::Center,
            main_justify: false,
            cross_align: Align::Min,
            cross_justify: false,
        }
    }

    /// Top-down flow with the given horizontal alignment.
    pub fn top_down(halign: Align) -> (l: Layout)
        ensures
            l == (Layout {
                main_dir: Direction::TopDown,
                main_wrap: false,
                main_align: Align::Center,
                main_justify: false,
                cross_align: halign,
                cross_justify: false,
            }),
    {
        Layout {
            main_dir: Direction::TopDown,
            main_wrap: false,
            main_align: Align::Center,
            main_justify: false,
            cross_align: halign,
            cross_justify: false,
        }
    }

    /// Left-to-right flow with the given vertical alignment.
    pub fn left_to_right(valign: Align) -> (l: Layout)
        ensures
            l == (Layout {
                main_dir: Direction::LeftToRight,
                main_wrap: false,
                main_align: Align::Center,
                main_justify: false,
                cross_align: valign,
                cross_justify: false,
            }),
    {
        Layout {
            main_dir: Direction::LeftToRight,
            main_wrap: false,
            main_align: Align::Center,
            main_justify: false,
            cross_align: valign,
            cross_justify: false,
        }
    }
}

impl Default for Layout {
    fn default() -> (l: Layout)
        ensures
            l == Layout::initial(),
    {
        Layout {
            main_dir: Direction::TopDown,
            main_wrap: false,
            main_align: Align::Center,
            main_justify: false,
            cross_align: Align::Min,
            cross_justify: false,
        }
    }
}

/// The tab strip's configuration: immutable once a frame is shown. Built
/// by [`Tabs::new`] and the chainable setters, each of which replaces one
/// field and keeps the rest.
#[derive(Debug)]
pub struct Tabs {
    /// How many columns the strip has. Zero or negative means no cells.
    pub cols: i32,
    /// Each cell's height in whole logical pixels.
    pub height: u32,
    /// The gestures each cell's region reports.
    pub sense: Sense,
    /// The layout handed to each cell's child context.
    pub layout: Layout,
    /// Whether cell content is clipped to the cell's rectangle.
    pub clip: bool,
    pub selected_bg: TabColor,
    pub selected_fg: TabColor,
    pub hover_bg: TabColor,
    pub hover_fg: TabColor,
    /// The default selection a frame falls back to while no click was
    /// ever recorded. It is never written back to the host store.
    pub selected: Option<i32>,
}

impl Tabs {
    /// How many cells a frame actually shows: a non-positive column count
    /// is treated as zero.
    pub open spec fn col_count(self) -> int {
        if self.cols > 0 {
            self.cols as int
        } else {
            0
        }
    }

    /// The configuration `new` starts from: 20 pixels high, click
    /// sensing, no clipping, and every highlight color drawn from the
    /// matching theme slot.
    pub open spec fn initial(cols: i32) -> Tabs {
        Tabs {
            cols,
            height: 20,
            sense: Sense { click: true, drag: false, focusable: true },
            layout: Layout::initial(),
            clip: false,
            selected_bg: TabColor::VisualsDefault(VisualsVariant::SelectedBackground),
            selected_fg: TabColor::VisualsDefault(VisualsVariant::SelectedForeground),
            hover_bg: TabColor::VisualsDefault(VisualsVariant::HoverBackground),
            hover_fg: TabColor::VisualsDefault(VisualsVariant::HoverForeground),
            selected: None,
        }
    }

    pub fn new(cols: i32) -> (t: Tabs)
        ensures
            t == Tabs::initial(cols),
    {
        Tabs {
            cols,
            height: 20,
            sense: Sense::click(),
            layout: Layout::default(),
            clip: false,
            selected_bg: TabColor::visuals(VisualsVariant::SelectedBackground),
            selected_fg: TabColor::visuals(VisualsVariant::SelectedForeground),
            hover_bg: TabColor::visuals(VisualsVariant::HoverBackground),
            hover_fg: TabColor::visuals(VisualsVariant::HoverForeground),
            selected: None,
        }
    }

    pub fn hover_bg(self, bg_fill: TabColor) -> (t: Tabs)
        ensures
            t == (Tabs { hover_bg: bg_fill, ..self }),
    {
        Tabs { hover_bg: bg_fill, ..self }
    }

    pub fn hover_fg(self, hover_fg: TabColor) -> (t: Tabs)
        ensures
            t == (Tabs { hover_fg, ..self }),
    {
        Tabs { hover_fg, ..self }
    }

    pub fn selected_fg(self, selected_fg: TabColor) -> (t: Tabs)
        ensures
            t == (Tabs { selected_fg, ..self }),
    {
        Tabs { selected_fg, ..self }
    }

    pub fn selected_bg(self, bg_fill: TabColor) -> (t: Tabs)
        ensures
            t == (Tabs { selected_bg: bg_fill, ..self }),
    {
        Tabs { selected_bg: bg_fill, ..self }
    }

    /// The initial selection value.
    pub fn selected(self, selected: i32) -> (t: Tabs)
        ensures
            t == (Tabs { selected: Some(selected), ..self }),
    {
        Tabs { selected: Some(selected), ..self }
    }

    pub fn sense(self, sense: Sense) -> (t: Tabs)
        ensures
            t == (Tabs { sense, ..self }),
    {
        Tabs { sense, ..self }
    }

    pub fn clip(self, clip: bool) -> (t: Tabs)
        ensures
            t == (Tabs { clip, ..self }),
    {
        Tabs { clip, ..self }
    }

    /// The layout of the content in the cells.
    pub fn layout(self, layout: Layout) -> (t: Tabs)
        ensures
            t == (Tabs { layout, ..self }),
    {
        Tabs { layout, ..self }
    }

    pub fn height(self, height: u32) -> (t: Tabs)
        ensures
            t == (Tabs { height, ..self }),
    {
        Tabs { height, ..self }
    }
}

} // verus!
