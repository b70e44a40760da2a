//! An equal-width tab strip for an immediate-mode GUI host.
//!
//! The strip lays `cols` cells out in a row, tracks which cell is hovered
//! and which is selected from frame to frame, and resolves the highlight
//! colors to paint. The host side is kept behind plain values: the theme
//! palette is read into [`Visuals`] once per frame, the pointer gestures a
//! cell's region reported arrive as [`CellEvent`]s, and the two integer
//! slots the host persists between frames travel in a [`TabStore`]. Given
//! those, [`Tabs::show`] resolves the whole frame; the caller then paints
//! and lays out cell content as the returned [`CellRender`]s direct.

mod color;
mod config;
mod frame;
mod layout;
mod state;

pub use color::{Color32, TabColor, Visuals, VisualsVariant};
pub use config::{Align, Direction, Layout, Sense, Tabs};
pub use frame::{
    any_hover, cell_state_at, first_some, frame_selected, hovered_tab_at, last_click_before,
    last_hover_before, lemma_default_fallback, lemma_hover_evicted, lemma_last_click_in_range,
    lemma_last_hover_in_range, lemma_selection_persists, selected_tab_at, CellEvent, CellRender,
    TabResponse, TabStore,
};
pub use layout::{cell_origin, cell_rects, cell_width, CellRect};
pub use state::TabState;
