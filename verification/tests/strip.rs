use egui_tabs::{CellEvent, TabStore, Tabs, Visuals};

fn quiet(n: usize) -> Vec<CellEvent> {
    vec![CellEvent { clicked: false, hovered: false }; n]
}

fn clicked_at(n: usize, k: usize) -> Vec<CellEvent> {
    let mut evs = quiet(n);
    evs[k].clicked = true;
    evs
}

fn hovered_at(n: usize, k: usize) -> Vec<CellEvent> {
    let mut evs = quiet(n);
    evs[k].hovered = true;
    evs
}

fn theme() -> Visuals {
    Visuals {
        hover_bg: egui_tabs::Color32::new(40, 40, 40, 255),
        hover_fg: egui_tabs::Color32::new(230, 230, 230, 255),
        selected_bg: egui_tabs::Color32::new(0, 92, 128, 255),
        selected_fg: egui_tabs::Color32::new(255, 255, 255, 255),
    }
}

#[test]
fn empty_strip_returns_nothing() {
    let tabs = Tabs::new(0);
    let mut store = TabStore::new();
    let resp = tabs.show(&mut store, &theme(), &vec![]);
    assert_eq!(resp.selected(), None);
    assert_eq!(resp.hovered(), None);
    assert_eq!(resp.inner().len(), 0);
}

#[test]
fn empty_strip_ignores_default_and_leaves_store_alone() {
    let tabs = Tabs::new(0).selected(2);
    let mut store = TabStore { selection: Some(5), hover: Some(1) };
    let resp = tabs.show(&mut store, &theme(), &vec![]);
    assert_eq!(resp.selected(), None);
    assert_eq!(resp.hovered(), None);
    assert_eq!(store.selection, Some(5));
    assert_eq!(store.hover, Some(1));
}

#[test]
fn negative_columns_treated_as_zero() {
    let tabs = Tabs::new(-3);
    let mut store = TabStore::new();
    let resp = tabs.show(&mut store, &theme(), &vec![]);
    assert_eq!(resp.selected(), None);
    assert_eq!(resp.hovered(), None);
    assert_eq!(resp.inner().len(), 0);
}

#[test]
fn one_cell_per_column_in_order() {
    let tabs = Tabs::new(4);
    let mut store = TabStore::new();
    let resp = tabs.show(&mut store, &theme(), &quiet(4));
    let cells = resp.inner();
    assert_eq!(cells.len(), 4);
    for (i, cell) in cells.iter().enumerate() {
        assert_eq!(cell.state.index(), i as i32);
    }
}

#[test]
fn click_persists_across_frames() {
    let tabs = Tabs::new(3);
    let mut store = TabStore::new();

    let first = tabs.show(&mut store, &theme(), &clicked_at(3, 1));
    assert_eq!(first.selected(), Some(1));
    assert_eq!(store.selection, Some(1));

    let second = tabs.show(&mut store, &theme(), &quiet(3));
    assert_eq!(second.selected(), Some(1));
    for cell in second.inner() {
        assert_eq!(cell.state.selected_tab(), Some(1));
        assert_eq!(cell.state.is_selected(), cell.state.index() == 1);
    }
    assert_eq!(store.selection, Some(1));
}

#[test]
fn hover_evicted_next_frame() {
    let tabs = Tabs::new(3);
    let mut store = TabStore::new();

    let first = tabs.show(&mut store, &theme(), &hovered_at(3, 2));
    assert_eq!(first.hovered(), Some(2));
    assert_eq!(store.hover, Some(2));

    let second = tabs.show(&mut store, &theme(), &quiet(3));
    assert_eq!(second.hovered(), None);
    assert_eq!(store.hover, None);
}

#[test]
fn default_fallback_until_first_click() {
    let tabs = Tabs::new(3).selected(2);
    let mut store = TabStore::new();

    let first = tabs.show(&mut store, &theme(), &quiet(3));
    assert_eq!(first.selected(), Some(2));
    for cell in first.inner() {
        assert_eq!(cell.state.selected_tab(), Some(2));
    }
    assert_eq!(store.selection, None);

    let second = tabs.show(&mut store, &theme(), &clicked_at(3, 0));
    assert_eq!(second.selected(), Some(0));
    assert_eq!(store.selection, Some(0));

    let third = tabs.show(&mut store, &theme(), &quiet(3));
    assert_eq!(third.selected(), Some(0));
    for cell in third.inner() {
        assert_eq!(cell.state.selected_tab(), Some(0));
    }
}

#[test]
fn click_then_hover_then_leave() {
    let tabs = Tabs::new(3);
    let mut store = TabStore::new();

    let mut evs = quiet(3);
    evs[1].clicked = true;
    evs[2].hovered = true;
    let first = tabs.show(&mut store, &theme(), &evs);
    assert_eq!(first.selected(), Some(1));
    assert_eq!(first.hovered(), Some(2));

    let second = tabs.show(&mut store, &theme(), &quiet(3));
    assert_eq!(second.hovered(), None);
    assert_eq!(second.selected(), Some(1));
}

#[test]
fn last_click_wins_within_a_frame() {
    let tabs = Tabs::new(4);
    let mut store = TabStore::new();
    let mut evs = quiet(4);
    evs[0].clicked = true;
    evs[2].clicked = true;
    let resp = tabs.show(&mut store, &theme(), &evs);
    assert_eq!(resp.selected(), Some(2));
    assert_eq!(store.selection, Some(2));
}

#[test]
fn click_updates_later_cells_same_frame() {
    let tabs = Tabs::new(3);
    let mut store = TabStore::new();
    let resp = tabs.show(&mut store, &theme(), &clicked_at(3, 1));
    let cells = resp.inner();
    // the cell before the click still sees nothing selected
    assert_eq!(cells[0].state.selected_tab(), None);
    // the clicked cell and every later cell see the new selection
    assert_eq!(cells[1].state.selected_tab(), Some(1));
    assert_eq!(cells[2].state.selected_tab(), Some(1));
}

#[test]
fn stale_hover_is_dropped_from_the_result() {
    let tabs = Tabs::new(3);
    let mut store = TabStore { selection: None, hover: Some(1) };
    let resp = tabs.show(&mut store, &theme(), &quiet(3));
    // ...the frame's own answer and the store are wiped clean...
    assert_eq!(resp.hovered(), None);
    assert_eq!(store.hover, None);
    // ...though the stale hover still reached the middle cell's state mid-frame
    let cells = resp.inner();
    assert!(cells[1].state.is_hovered());
}

#[test]
fn pointer_cursor_follows_event_hover() {
    let tabs = Tabs::new(3);
    let mut store = TabStore::new();
    let resp = tabs.show(&mut store, &theme(), &hovered_at(3, 0));
    let cells = resp.inner();
    assert!(cells[0].pointer_cursor);
    assert!(!cells[1].pointer_cursor);
    assert!(!cells[2].pointer_cursor);
}

#[test]
fn out_of_range_persisted_selection_falls_back() {
    let tabs = Tabs::new(2).selected(1);
    let mut store = TabStore { selection: Some(7), hover: None };
    let resp = tabs.show(&mut store, &theme(), &quiet(2));
    // no cell claims the stored index, so the frame reports the fallback
    assert_eq!(resp.selected(), Some(1));
    // though the cells still carry the stored index, even off the strip
    let cells = resp.inner();
    assert_eq!(cells[0].state.selected_tab(), Some(7));
}
