use vstd::prelude::*;

use crate::color::{Color32, Visuals};
use crate::config::Tabs;
use crate::state::TabState;

verus! {

/// The pointer gestures one cell's interactive region reported this
/// frame.
#[derive(Clone, Copy, Debug, PartialEq, Eq, Structural)]
pub struct CellEvent {
    pub clicked: bool,
    pub hovered: bool,
}

/// The two integer slots the host persists for the strip between frames:
/// the last column clicked (never cleared by the strip) and the column
/// hovered in the previous frame (evicted by any frame without a hover).
#[derive(Clone, Copy, Debug, PartialEq, Eq)]
pub struct TabStore {
    pub selection: Option<i32>,
    pub hover: Option<i32>,
}

impl TabStore {
    /// The store before anything was ever clicked or hovered.
    pub fn new() -> (s: TabStore)
        ensures
            s == (TabStore { selection: None, hover: None }),
    {
        TabStore { selection: None, hover: None }
    }
}

/// What one cell asks the host to do this frame: the state handed to the
/// cell's builder, the background fill and text color override to apply
/// (where a policy yielded one), whether to show a pointer cursor, and
/// the raw gesture flags passed back through.
#[derive(Clone, Copy, Debug, PartialEq, Eq)]
pub struct CellRender {
    pub state: TabState,
    pub fill: Option<Color32>,
    pub text_color: Option<Color32>,
    pub pointer_cursor: bool,
    pub clicked: bool,
    pub hovered: bool,
}

/// The frame's aggregate outcome: one [`CellRender`] per column in
/// column order, and the hovered and selected column the frame resolved.
#[derive(Debug)]
pub struct TabResponse {
    pub cells: Vec<CellRender>,
    pub hovered: Option<i32>,
    pub selected: Option<i32>,
}

impl Default for TabResponse {
    /// An empty outcome: no cells, no hover, no selection.
    fn default() -> (r: TabResponse)
        ensures
            r.cells@.len() == 0,
            r.hovered is None,
            r.selected is None,
    {
        TabResponse { cells: Vec::new(), hovered: None, selected: None }
    }
}

impl TabResponse {
    /// The column the frame resolved as hovered, if any.
    pub fn hovered(&self) -> (r: Option<i32>)
        ensures
            r == self.hovered,
    {
        self.hovered
    }

    /// The column the frame resolved as selected, if any.
    pub fn selected(&self) -> (r: Option<i32>)
        ensures
            r == self.selected,
    {
        self.selected
    }

    /// The per-cell outcomes, in column order.
    pub fn inner(self) -> (r: Vec<CellRender>)
        ensures
            r == self.cells,
    {
        self.cells
    }
}

/// The first of two optional values that holds anything.
pub open spec fn first_some(a: Option<i32>, b: Option<i32>) -> Option<i32> {
    if a is Some {
        a
    } else {
        b
    }
}

/// The last column before `i` that was clicked this frame, if any.
pub open spec fn last_click_before(events: Seq<CellEvent>, i: int) -> Option<i32>
    decreases (if 0 <= i { i } else { 0 }),
{
    if i <= 0 {
        None
    } else if events[i - 1].clicked {
        Some((i - 1) as i32)
    } else {
        last_click_before(events, i - 1)
    }
}

/// The last column before `i` that was hovered this frame, if any.
pub open spec fn last_hover_before(events: Seq<CellEvent>, i: int) -> Option<i32>
    decreases (if 0 <= i { i } else { 0 }),
{
    if i <= 0 {
        None
    } else if events[i - 1].hovered {
        Some((i - 1) as i32)
    } else {
        last_hover_before(events, i - 1)
    }
}

/// Whether any cell reported a hover this frame.
pub open spec fn any_hover(events: Seq<CellEvent>) -> bool {
    exists|j: int| 0 <= j < events.len() && (#[trigger] events[j]).hovered
}

/// The selected tab recorded in cell `i`'s state: its own index where it
/// was clicked this frame, else the latest click of the frame, else the
/// persisted selection, else the configured fallback, else the sentinel
/// `-1`.
pub open spec fn selected_tab_at(
    events: Seq<CellEvent>,
    i: int,
    persisted: Option<i32>,
    fallback: Option<i32>,
) -> i32 {
    if events[i].clicked {
        i as i32
    } else {
        match first_some(first_some(last_click_before(events, i), persisted), fallback) {
            Some(k) => k,
            None => -1i32,
        }
    }
}

/// The hovered tab recorded in cell `i`'s state: its own index where it
/// was hovered this frame, else the latest hover of the frame, else the
/// transient hover left by the previous frame, else the sentinel `-1`.
pub open spec fn hovered_tab_at(events: Seq<CellEvent>, i: int, transient: Option<i32>) -> i32 {
    if events[i].hovered {
        i as i32
    } else {
        match first_some(last_hover_before(events, i), transient) {
            Some(k) => k,
            None => -1i32,
        }
    }
}

/// The full state cell `i` is rendered with.
pub open spec fn cell_state_at(
    events: Seq<CellEvent>,
    i: int,
    persisted: Option<i32>,
    fallback: Option<i32>,
    transient: Option<i32>,
) -> TabState {
    TabState {
        ind: i as i32,
        hovered_tab: hovered_tab_at(events, i, transient),
        selected_tab: selected_tab_at(events, i, persisted, fallback),
    }
}

/// The background fill a cell gets: the selected-background policy where
/// the cell is the selected one, else the hovered-background policy where
/// it is the hovered one, else nothing.
pub open spec fn cell_fill(cfg: Tabs, visuals: Visuals, state: TabState) -> Option<Color32> {
    if state.selected_here() {
        cfg.selected_bg.resolved(visuals)
    } else if state.hovered_here() {
        cfg.hover_bg.resolved(visuals)
    } else {
        None
    }
}

/// The text-color override a cell's child context gets, resolved like
/// [`cell_fill`] but from the foreground policies.
pub open spec fn cell_text_color(cfg: Tabs, visuals: Visuals, state: TabState) -> Option<Color32> {
    if state.selected_here() {
        cfg.selected_fg.resolved(visuals)
    } else if state.hovered_here() {
        cfg.hover_fg.resolved(visuals)
    } else {
        None
    }
}

/// The selection the frame reports: the latest click, else the persisted
/// selection where it names one of the frame's columns, else the
/// configured fallback; and nothing at all for an empty strip.
pub open spec fn frame_selected(
    events: Seq<CellEvent>,
    persisted: Option<i32>,
    fallback: Option<i32>,
) -> Option<i32> {
    if events.len() == 0 {
        None
    } else if last_click_before(events, events.len() as int) is Some {
        last_click_before(events, events.len() as int)
    } else if persisted matches Some(k) && 0 <= k && (k as int) < events.len() {
        persisted
    } else {
        fallback
    }
}

/// What the strip's running selection holds after the first `i` cells of
/// the frame were resolved.
spec fn running_selected(
    events: Seq<CellEvent>,
    i: int,
    persisted: Option<i32>,
    fallback: Option<i32>,
) -> Option<i32> {
    if last_click_before(events, i) is Some {
        last_click_before(events, i)
    } else if persisted matches Some(k) && 0 <= k && (k as int) < i {
        persisted
    } else {
        fallback
    }
}

/// Where `last_click_before` points: at a clicked column below `i`, with
/// no later click before `i`; and nowhere exactly when no column below
/// `i` was clicked.
pub proof fn lemma_last_click_in_range(events: Seq<CellEvent>, i: int)
    requires
        i <= 0x7fff_ffff,
    ensures
        last_click_before(events, i) matches Some(j) ==> {
            &&& 0 <= j as int
            &&& (j as int) < i
            &&& events[j as int].clicked
            &&& forall|l: int| (j as int) < l < i ==> !(#[trigger] events[l]).clicked
        },
        last_click_before(events, i) is None ==> forall|l: int|
            0 <= l < i ==> !(#[trigger] events[l]).clicked,
    decreases (if 0 <= i { i } else { 0 }),
{
    if i <= 0 {
    } else {
        lemma_last_click_in_range(events, i - 1);
    }
}

/// Where `last_hover_before` points: at a hovered column below `i`, with
/// no later hover before `i`; and nowhere exactly when no column below
/// `i` was hovered.
pub proof fn lemma_last_hover_in_range(events: Seq<CellEvent>, i: int)
    requires
        i <= 0x7fff_ffff,
    ensures
        last_hover_before(events, i) matches Some(j) ==> {
            &&& 0 <= j as int
            &&& (j as int) < i
            &&& events[j as int].hovered
            &&& forall|l: int| (j as int) < l < i ==> !(#[trigger] events[l]).hovered
        },
        last_hover_before(events, i) is None ==> forall|l: int|
            0 <= l < i ==> !(#[trigger] events[l]).hovered,
    decreases (if 0 <= i { i } else { 0 }),
{
    if i <= 0 {
    } else {
        lemma_last_hover_in_range(events, i - 1);
    }
}

/// A frame in which no cell reports a hover leaves no hover behind:
/// whatever an earlier frame stored, the latest hover of such a frame is
/// nothing, so the frame reports no hovered column and evicts the
/// transient hover slot.
pub proof fn lemma_hover_evicted(events: Seq<CellEvent>)
    requires
        events.len() <= 0x7fff_ffff,
        !any_hover(events),
    ensures
        last_hover_before(events, events.len() as int) is None,
{
    lemma_last_hover_in_range(events, events.len() as int);
    match last_hover_before(events, events.len() as int) {
        Some(j) => {
            assert(0 <= j as int && (j as int) < events.len() && events[j as int].hovered);
            assert(any_hover(events));
        },
        None => {},
    }
}

/// A click sticks: when column `k` takes the frame's last click, the
/// frame stores `k` as the persisted selection, and any later frame
/// without a click resolves every cell's selected tab to `k` — never to
/// the configured fallback — and reports `k` while the strip still has a
/// column `k`.
pub proof fn lemma_selection_persists(
    events_click: Seq<CellEvent>,
    events_later: Seq<CellEvent>,
    persisted: Option<i32>,
    fallback: Option<i32>,
    k: int,
)
    requires
        events_click.len() <= 0x7fff_ffff,
        events_later.len() <= 0x7fff_ffff,
        0 <= k < events_click.len(),
        events_click[k].clicked,
        forall|j: int| k < j < events_click.len() ==> !(#[trigger] events_click[j]).clicked,
        forall|j: int| 0 <= j < events_later.len() ==> !(#[trigger] events_later[j]).clicked,
    ensures
        first_some(last_click_before(events_click, events_click.len() as int), persisted) == Some(
            k as i32,
        ),
        forall|i: int|
            0 <= i < events_later.len() ==> #[trigger] selected_tab_at(
                events_later,
                i,
                Some(k as i32),
                fallback,
            ) == k as i32,
        first_some(last_click_before(events_later, events_later.len() as int), Some(k as i32))
            == Some(k as i32),
        k < events_later.len() ==> frame_selected(events_later, Some(k as i32), fallback) == Some(
            k as i32,
        ),
{
    lemma_last_click_in_range(events_click, events_click.len() as int);
    match last_click_before(events_click, events_click.len() as int) {
        Some(j) => {
            assert(j as int == k);
        },
        None => {
            assert(!events_click[k].clicked);
        },
    }
    lemma_last_click_in_range(events_later, events_later.len() as int);
    assert forall|i: int| 0 <= i < events_later.len() implies #[trigger] selected_tab_at(
        events_later,
        i,
        Some(k as i32),
        fallback,
    ) == k as i32 by {
        lemma_last_click_in_range(events_later, i);
    }
}

/// While nothing was ever clicked, the configured default selection
/// applies: a frame with an empty selection slot and no click resolves
/// every cell's selected tab to the default, reports the default, and
/// still writes nothing to the selection slot.
pub proof fn lemma_default_fallback(events: Seq<CellEvent>, d: i32)
    requires
        events.len() <= 0x7fff_ffff,
        forall|j: int| 0 <= j < events.len() ==> !(#[trigger] events[j]).clicked,
    ensures
        forall|i: int|
            0 <= i < events.len() ==> #[trigger] selected_tab_at(events, i, None, Some(d)) == d,
        events.len() > 0 ==> frame_selected(events, None, Some(d)) == Some(d),
        first_some(last_click_before(events, events.len() as int), None) == Option::<i32>::None,
{
    lemma_last_click_in_range(events, events.len() as int);
    assert forall|i: int| 0 <= i < events.len() implies #[trigger] selected_tab_at(
        events,
        i,
        None,
        Some(d),
    ) == d by {
        lemma_last_click_in_range(events, i);
    }
}

impl Tabs {
    /// Resolve one frame of the strip. `events` holds, in column order,
    /// the gestures the host reported for each cell's region; `store`
    /// holds the two slots the host persisted from earlier frames and is
    /// updated to what the host must persist after this one; `visuals` is
    /// the theme palette as read at call time.
    ///
    /// The result carries exactly one [`CellRender`] per column, in
    /// column order; the caller invokes its cell builder once per entry,
    /// in that order, and an empty strip renders nothing at all.
    pub fn show(&self, store: &mut TabStore, visuals: &Visuals, events: &Vec<CellEvent>) -> (resp:
        TabResponse)
        requires
            events@.len() == self.col_count(),
        ensures
            resp.cells@.len() == events@.len(),
            forall|i: int|
                0 <= i < events@.len() ==> (#[trigger] resp.cells@[i]).state == cell_state_at(
                    events@,
                    i,
                    old(store).selection,
                    self.selected,
                    old(store).hover,
                ),
            forall|i: int|
                0 <= i < events@.len() ==> (#[trigger] resp.cells@[i]).fill == cell_fill(
                    *self,
                    *visuals,
                    resp.cells@[i].state,
                ),
            forall|i: int|
                0 <= i < events@.len() ==> (#[trigger] resp.cells@[i]).text_color == cell_text_color(
                    *self,
                    *visuals,
                    resp.cells@[i].state,
                ),
            forall|i: int|
                0 <= i < events@.len() ==> {
                    &&& (#[trigger] resp.cells@[i]).clicked == events@[i].clicked
                    &&& resp.cells@[i].hovered == events@[i].hovered
                    &&& resp.cells@[i].pointer_cursor == events@[i].hovered
                },
            resp.selected == frame_selected(events@, old(store).selection, self.selected),
            resp.hovered == last_hover_before(events@, events@.len() as int),
            final(store).selection == first_some(
                last_click_before(events@, events@.len() as int),
                old(store).selection,
            ),
            final(store).hover == if events@.len() == 0 {
                old(store).hover
            } else {
                last_hover_before(events@, events@.len() as int)
            },
            !any_hover(events@) ==> resp.hovered is None,
            events@.len() > 0 && !any_hover(events@) ==> final(store).hover is None,
    {
        let n: usize = events.len();
        let ghost p0 = store.selection;
        let ghost h0 = store.hover;

        let mut cells: Vec<CellRender> = Vec::new();
        if n == 0 {
            return TabResponse { cells, hovered: None, selected: None };
        }

        let mut persisted: Option<i32> = store.selection;
        let mut transient: Option<i32> = store.hover;
        let mut seen_hover: bool = false;
        let mut selected: Option<i32> = self.selected;
        let mut hovered: Option<i32> = None;

        let mut idx: usize = 0;
        while idx < n
            invariant
                0 <= idx <= n,
                n == events@.len(),
                n <= 0x7fff_ffff,
                p0 == old(store).selection,
                h0 == old(store).hover,
                persisted == first_some(last_click_before(events@, idx as int), p0),
                transient == first_some(last_hover_before(events@, idx as int), h0),
                seen_hover == (last_hover_before(events@, idx as int) is Some),
                selected == running_selected(events@, idx as int, p0, self.selected),
                last_hover_before(events@, idx as int) is Some ==> hovered == last_hover_before(
                    events@,
                    idx as int,
                ),
                cells@.len() == idx,
                forall|i: int|
                    0 <= i < idx as int ==> (#[trigger] cells@[i]).state == cell_state_at(
                        events@,
                        i,
                        p0,
                        self.selected,
                        h0,
                    ),
                forall|i: int|
                    0 <= i < idx as int ==> (#[trigger] cells@[i]).fill == cell_fill(
                        *self,
                        *visuals,
                        cells@[i].state,
                    ),
                forall|i: int|
                    0 <= i < idx as int ==> (#[trigger] cells@[i]).text_color == cell_text_color(
                        *self,
                        *visuals,
                        cells@[i].state,
                    ),
                forall|i: int|
                    0 <= i < idx as int ==> {
                        &&& (#[trigger] cells@[i]).clicked == events@[i].clicked
                        &&& cells@[i].hovered == events@[i].hovered
                        &&& cells@[i].pointer_cursor == events@[i].hovered
                    },
                *store == *old(store),
            decreases n - idx,
        {
            proof {
                lemma_last_click_in_range(events@, idx as int);
                lemma_last_hover_in_range(events@, idx as int);
            }
            let ev = events[idx];
            let ind: i32 = idx as i32;

            let selected_tab: i32 = if ev.clicked {
                selected = Some(ind);
                persisted = Some(ind);
                ind
            } else {
                match persisted {
                    Some(k) => k,
                    None => match self.selected {
                        Some(m) => m,
                        None => -1,
                    },
                }
            };

            let hovered_tab: i32 = if ev.hovered {
                seen_hover = true;
                hovered = Some(ind);
                transient = Some(ind);
                ind
            } else {
                match transient {
                    Some(k) => k,
                    None => -1,
                }
            };

            let state = TabState { ind, hovered_tab, selected_tab };

            let mut fill: Option<Color32> = None;
            let mut text_color: Option<Color32> = None;
            if selected_tab == ind {
                selected = Some(ind);
                fill = self.selected_bg.color(visuals);
                text_color = self.selected_fg.color(visuals);
            } else if hovered_tab == ind {
                hovered = Some(ind);
                fill = self.hover_bg.color(visuals);
                text_color = self.hover_fg.color(visuals);
            }

            cells.push(
                CellRender {
                    state,
                    fill,
                    text_color,
                    pointer_cursor: ev.hovered,
                    clicked: ev.clicked,
                    hovered: ev.hovered,
                },
            );

            idx = idx + 1;
        }

        if !seen_hover {
            transient = None;
            hovered = None;
        }

        proof {
            if !any_hover(events@) {
                lemma_hover_evicted(events@);
            }
        }

        store.selection = persisted;
        store.hover = transient;

        TabResponse { cells, hovered, selected }
    }
}

} // verus!
