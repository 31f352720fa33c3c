//! The overlay menu's state machine: open/closed, a cursor over a read-only
//! projection of the window list, and the update protocol that keeps both
//! consistent with the registry.

use vstd::prelude::*;
use vstd::string::StringExecFns;

use crate::config::{
    spec_empty_hint_label, Config, QuickMenuAction, QuickMenuConfig,
};
use crate::harpoon::HarpoonEvent;
use crate::keyboard::STATE_NUM_LOCK;
use crate::registry::{contains_handle, is_first_handle_index};
use crate::text::{spec_decimal, usize_to_string};
use crate::window::ApplicationWindow;

verus! {

/// A key pressed while the overlay is open.
#[derive(Clone, Copy, PartialEq, Eq, Structural, Debug)]
pub enum QuickMenuEvent {
    /// Move the cursor down
    MoveCursorDown,
    /// Move the cursor up
    MoveCursorUp,
    /// Navigate to the selected window and close the quick menu
    Select,
    /// Close the quick menu
    Quit,
    /// Cut the selected window and put it in the clipboard
    Cut,
    /// Paste the clipboard window after the selected window
    PasteDown,
    /// Paste the clipboard window before the selected window
    PasteUp,
    /// Swap the selected window with the window above it
    SwapUp,
    /// Swap the selected window with the window below it
    SwapDown,
}

/// A single cursor instruction carried by a state update.
#[derive(Clone, Copy, PartialEq, Eq, Structural, Debug)]
pub enum MoveCursor {
    /// Put the cursor on the first slot holding this handle; leave it (up to
    /// clamping) when the handle is not in the list.
    ToWindow(isize),
    /// Move the cursor by a signed offset, clamped to the list bounds.  The
    /// offset is wide enough to hold the difference of any two slot indices.
    By(i128),
}

/// The overlay's state: whether it is open, the cursor, and a snapshot of
/// the tracked windows.
pub struct QuickMenuState {
    pub open: bool,
    pub cursor: usize,
    pub windows: Vec<ApplicationWindow>,
    pub active_window: Option<isize>,
    pub disable_inhibit: bool,
}

/// An immutable delta applied atomically to the overlay state: an optional
/// new window snapshot, at most one cursor instruction, and an optional new
/// inhibit flag.
#[derive(Debug)]
pub struct QuickMenuStateUpdate {
    pub windows: Option<Vec<ApplicationWindow>>,
    pub move_cursor: Option<MoveCursor>,
    pub disable_inhibit: Option<bool>,
}

impl QuickMenuStateUpdate {
    /// An empty delta.
    pub fn new() -> (r: QuickMenuStateUpdate)
        ensures
            r.windows is None,
            r.move_cursor is None,
            r.disable_inhibit is None,
    {
        QuickMenuStateUpdate { windows: None, move_cursor: None, disable_inhibit: None }
    }

    /// Ask for the cursor to move by `cursor_delta`, clamped to the bounds.
    pub fn with_cursor_delta(self, cursor_delta: i128) -> (r: QuickMenuStateUpdate)
        ensures
            r.move_cursor == Some(MoveCursor::By(cursor_delta)),
            r.windows == self.windows,
            r.disable_inhibit == self.disable_inhibit,
    {
        QuickMenuStateUpdate { move_cursor: Some(MoveCursor::By(cursor_delta)), ..self }
    }

    /// Replace the window snapshot.
    pub fn with_windows(self, windows: Vec<ApplicationWindow>) -> (r: QuickMenuStateUpdate)
        ensures
            r.windows == Some(windows),
            r.move_cursor == self.move_cursor,
            r.disable_inhibit == self.disable_inhibit,
    {
        QuickMenuStateUpdate { windows: Some(windows), ..self }
    }

    /// Ask for the cursor to follow the window with this handle; the cursor
    /// is left alone when the handle is not in the list.
    pub fn with_active_window(self, active_window: isize) -> (r: QuickMenuStateUpdate)
        ensures
            r.move_cursor == Some(MoveCursor::ToWindow(active_window)),
            r.windows == self.windows,
            r.disable_inhibit == self.disable_inhibit,
    {
        QuickMenuStateUpdate { move_cursor: Some(MoveCursor::ToWindow(active_window)), ..self }
    }

    /// Set whether matched hotkeys stop being swallowed from other
    /// applications.
    pub fn with_disable_inhibit(self, disable_inhibit: bool) -> (r: QuickMenuStateUpdate)
        ensures
            r.disable_inhibit == Some(disable_inhibit),
            r.windows == self.windows,
            r.move_cursor == self.move_cursor,
    {
        QuickMenuStateUpdate { disable_inhibit: Some(disable_inhibit), ..self }
    }
}

/// `c` clamped to the valid cursor range of a list of `len` slots: `0` for
/// an empty list, else into `[0, len - 1]`.
pub open spec fn spec_clamp_cursor(c: int, len: int) -> int {
    if len <= 0 {
        0
    } else if c < 0 {
        0
    } else if c > len - 1 {
        len - 1
    } else {
        c
    }
}

/// The cursor after applying a cursor instruction against the (already
/// replaced) window snapshot `ws`.  Whatever the instruction, the result
/// satisfies `0 <= cursor < max(len, 1)`.
pub open spec fn spec_cursor_after(
    mc: Option<MoveCursor>,
    cursor: int,
    ws: Seq<ApplicationWindow>,
) -> int {
    match mc {
        Some(MoveCursor::ToWindow(id)) => {
            if contains_handle(ws, id) {
                choose|i: int| is_first_handle_index(ws, id, i)
            } else {
                spec_clamp_cursor(cursor, ws.len() as int)
            }
        },
        Some(MoveCursor::By(d)) => spec_clamp_cursor(cursor + d, ws.len() as int),
        None => spec_clamp_cursor(cursor, ws.len() as int),
    }
}

/// The first slot holding a handle is unique.
pub proof fn lemma_first_index_unique(
    s: Seq<ApplicationWindow>,
    id: isize,
    i: int,
    j: int,
)
    requires
        is_first_handle_index(s, id, i),
        is_first_handle_index(s, id, j),
    ensures
        i == j,
{
}

/// The cursor always stays inside the list bounds: after any instruction the
/// cursor satisfies `0 <= cursor < max(len, 1)`.
pub proof fn lemma_cursor_clamp(mc: Option<MoveCursor>, cursor: int, ws: Seq<ApplicationWindow>)
    ensures
        0 <= spec_cursor_after(mc, cursor, ws),
        spec_cursor_after(mc, cursor, ws) < vstd::math::max(ws.len() as int, 1),
{
    match mc {
        Some(MoveCursor::ToWindow(id)) => {
            if contains_handle(ws, id) {
                let w = choose|j: int| 0 <= j < ws.len() && ws[j].window_id == id;
                assert(exists|i: int| is_first_handle_index(ws, id, i)) by {
                    lemma_first_index_exists(ws, id);
                }
                let i = choose|i: int| is_first_handle_index(ws, id, i);
                assert(0 <= i < ws.len());
            }
        },
        _ => {},
    }
}

/// A list that contains a handle somewhere has a first slot holding it.
pub proof fn lemma_first_index_exists(s: Seq<ApplicationWindow>, id: isize)
    requires
        contains_handle(s, id),
    ensures
        exists|i: int| is_first_handle_index(s, id, i),
    decreases s.len(),
{
    if s[0].window_id == id {
        assert(is_first_handle_index(s, id, 0));
    } else {
        let t = s.drop_first();
        assert(contains_handle(t, id)) by {
            let j = choose|j: int| 0 <= j < s.len() && s[j].window_id == id;
            assert(t[j - 1].window_id == id);
        }
        lemma_first_index_exists(t, id);
        let i = choose|i: int| is_first_handle_index(t, id, i);
        assert(forall|j: int| 0 <= j < i + 1 ==> s[j].window_id != id) by {
            assert(forall|j: int| 1 <= j < i + 1 ==> s[j] == t[j - 1]);
        }
        assert(is_first_handle_index(s, id, i + 1));
    }
}

/// Moving up from the first row is a no-op, however often it is repeated.
pub proof fn lemma_move_up_at_top_idempotent(ws: Seq<ApplicationWindow>)
    ensures
        spec_cursor_after(Some(MoveCursor::By(-1i128)), 0, ws) == 0,
{
}

fn clamp_add(cursor: usize, delta: i128, len: usize) -> (r: usize)
    ensures
        r as int == spec_clamp_cursor(cursor + delta, len as int),
{
    if len == 0 {
        return 0;
    }
    if delta >= len as i128 {
        return len - 1;
    }
    let s = cursor as i128 + delta;
    if s <= 0 {
        0
    } else if s >= len as i128 {
        len - 1
    } else {
        s as usize
    }
}

/// The first slot of `windows` holding `window_id`, if any.
fn find_handle(windows: &Vec<ApplicationWindow>, window_id: isize) -> (r: Option<usize>)
    ensures
        match r {
            Some(i) => is_first_handle_index(windows@, window_id, i as int),
            None => !contains_handle(windows@, window_id),
        },
{
    let mut i: usize = 0;
    let len = windows.len();
    while i < len
        invariant
            i <= len,
            len == windows@.len(),
            forall|j: int| 0 <= j < i ==> windows@[j].window_id != window_id,
        decreases len - i,
    {
        if windows[i].window_id == window_id {
            return Some(i);
        }
        i = i + 1;
    }
    None
}

impl QuickMenuState {
    /// The overlay invariant: the cursor is inside the list whenever the
    /// list is non-empty, and `0` otherwise.
    pub open spec fn wf(&self) -> bool {
        &&& self.windows@.len() == 0 ==> self.cursor == 0
        &&& self.windows@.len() > 0 ==> (self.cursor as int) < self.windows@.len()
    }

    /// Applies a delta atomically: the window snapshot first, element by
    /// element, then the cursor instruction against the new snapshot, then
    /// the inhibit flag.  Returns whether the visible state changed.
    pub fn apply_update(&mut self, update: &QuickMenuStateUpdate) -> (updated: bool)
        ensures
            updated == (update.windows is Some || update.move_cursor is Some),
            final(self).windows@ == (if update.windows is Some {
                update.windows->0@
            } else {
                old(self).windows@
            }),
            updated ==> final(self).cursor as int == spec_cursor_after(
                update.move_cursor,
                old(self).cursor as int,
                final(self).windows@,
            ),
            !updated ==> final(self).cursor == old(self).cursor,
            final(self).open == old(self).open,
            final(self).active_window == old(self).active_window,
            final(self).disable_inhibit == (if update.disable_inhibit is Some {
                update.disable_inhibit->0
            } else {
                old(self).disable_inhibit
            }),
            updated ==> final(self).wf(),
            old(self).wf() ==> final(self).wf(),
    {
        let mut updated = false;

        match &update.windows {
            Some(ws) => {
                let size = ws.len();
                let have = self.windows.len();
                // keep the allocation: grow only by what is missing
                if have < size {
                    self.windows.reserve(size - have);
                }
                let mut i: usize = 0;
                while i < size
                    invariant
                        i <= size,
                        size == ws@.len(),
                        self.windows@.len() >= i,
                        self.windows@.len() == vstd::math::max(old(self).windows@.len() as int, i as int),
                        forall|j: int| 0 <= j < i ==> self.windows@[j] == ws@[j],
                        forall|j: int| i <= j < self.windows@.len()
                            ==> self.windows@[j] == old(self).windows@[j],
                        self.cursor == old(self).cursor,
                        self.open == old(self).open,
                        self.active_window == old(self).active_window,
                        self.disable_inhibit == old(self).disable_inhibit,
                    decreases size - i,
                {
                    if i < self.windows.len() {
                        self.windows[i] = ws[i].duplicate();
                    } else {
                        self.windows.push(ws[i].duplicate());
                    }
                    i = i + 1;
                }
                if self.windows.len() > size {
                    self.windows.truncate(size);
                }
                proof {
                    assert(self.windows@ =~= ws@);
                }
                updated = true;
            },
            None => {},
        }

        match &update.move_cursor {
            Some(MoveCursor::ToWindow(id)) => {
                match find_handle(&self.windows, *id) {
                    Some(i) => {
                        self.cursor = i;
                        proof {
                            assert(contains_handle(self.windows@, *id)) by {
                                assert(self.windows@[i as int].window_id == *id);
                            }
                            let c = choose|k: int| is_first_handle_index(self.windows@, *id, k);
                            lemma_first_index_unique(self.windows@, *id, c, i as int);
                        }
                    },
                    None => {
                        self.cursor = clamp_add(self.cursor, 0, self.windows.len());
                    },
                }
                updated = true;
            },
            Some(MoveCursor::By(d)) => {
                self.cursor = clamp_add(self.cursor, *d, self.windows.len());
                updated = true;
            },
            None => {
                if updated {
                    self.cursor = clamp_add(self.cursor, 0, self.windows.len());
                }
            },
        }

        match &update.disable_inhibit {
            Some(v) => {
                self.disable_inhibit = *v;
            },
            None => {},
        }

        updated
    }
}

/// The pure translation of a menu key, pressed while the overlay is open,
/// into a registry or navigation intent.  Cursor moves are handled by the
/// overlay itself and translate to nothing; swaps at the edges of the list
/// translate to nothing either.
pub open spec fn spec_menu_translation(
    event: QuickMenuEvent,
    cursor: usize,
    len: nat,
) -> Option<HarpoonEvent> {
    match event {
        QuickMenuEvent::MoveCursorUp => None,
        QuickMenuEvent::MoveCursorDown => None,
        QuickMenuEvent::Quit => None,
        QuickMenuEvent::Select => Some(HarpoonEvent::NavigateToWindowByIndex(cursor)),
        QuickMenuEvent::SwapUp => if cursor == 0 {
            None
        } else {
            Some(HarpoonEvent::SwapWindows { from: cursor, to: (cursor - 1) as usize })
        },
        QuickMenuEvent::SwapDown => if cursor + 1 >= len {
            None
        } else {
            Some(HarpoonEvent::SwapWindows { from: cursor, to: (cursor + 1) as usize })
        },
        QuickMenuEvent::Cut => Some(HarpoonEvent::CutWindow(cursor)),
        QuickMenuEvent::PasteUp => Some(HarpoonEvent::PasteWindow(cursor)),
        QuickMenuEvent::PasteDown => Some(HarpoonEvent::PasteWindow((cursor + 1) as usize)),
    }
}

/// Swapping up from the first row translates to nothing: the list and the
/// cursor stay as they are.
pub proof fn lemma_swap_up_at_top_is_noop(len: nat)
    ensures
        spec_menu_translation(QuickMenuEvent::SwapUp, 0, len) is None,
{
}

/// Swapping down from the last row translates to nothing: the list and the
/// cursor stay as they are.
pub proof fn lemma_swap_down_at_bottom_is_noop(cursor: usize, len: nat)
    requires
        cursor + 1 == len || len == 0,
    ensures
        spec_menu_translation(QuickMenuEvent::SwapDown, cursor, len) is None,
{
}

/// The menu events raised by one keydown: one per configured binding the
/// keydown triggers, in table order.
pub open spec fn spec_keydown_events(
    actions: Seq<QuickMenuAction>,
    event_state: i32,
    event_text: Seq<char>,
) -> Seq<HarpoonEvent>
    decreases actions.len(),
{
    if actions.len() == 0 {
        Seq::empty()
    } else {
        let rest = spec_keydown_events(actions.drop_last(), event_state, event_text);
        let a = actions.last();
        if a.trigger.spec_is_triggered(event_state & !STATE_NUM_LOCK, event_text) {
            rest.push(HarpoonEvent::QuickMenuEvent(a.action))
        } else {
            rest
        }
    }
}

/// One row of the overlay's window list, ready to draw.
pub struct RenderRow {
    pub label: String,
    pub selected: bool,
}

/// What the overlay should draw: the list's vertical placement and height,
/// one labelled row per tracked window, and a hint row instead when the
/// registry is empty.
pub struct RenderModel {
    pub y: i128,
    pub height: i128,
    pub rows: Vec<RenderRow>,
    pub hint: Option<String>,
}

/// The label of the row for window `w` in slot `slot` (displayed 1-based).
pub open spec fn spec_row_label(slot: nat, w: ApplicationWindow) -> Seq<char> {
    spec_decimal(slot) + ": "@ + w.process_name@ + ": \""@ + w.title@ + "\""@
}

/// The height of one row, in pixels.
pub const ITEM_HEIGHT: i128 = 30;

/// Total content height beyond which the list scrolls to keep the cursor
/// row near the top.
pub const VISIBLE_HEIGHT: i128 = 200;

/// The resting vertical offset of the list.
pub const LIST_BASE_Y: i128 = 50;

/// The overlay menu: a small state machine (closed or open, cursor, scroll)
/// over a read-only projection of the window registry, plus the translated
/// key table and the hint row shown over an empty registry.
pub struct QuickMenu {
    pub state: QuickMenuState,
    pub qm_config: QuickMenuConfig,
    pub empty_hint: String,
}

impl QuickMenu {
    /// A closed menu over an empty projection, with the key table and the
    /// empty-registry hint derived from `config`.
    pub fn new(config: &Config) -> (r: QuickMenu)
        ensures
            !r.state.open,
            r.state.cursor == 0,
            r.state.windows@ == Seq::<ApplicationWindow>::empty(),
            r.state.active_window is None,
            !r.state.disable_inhibit,
            r.state.wf(),
            r.qm_config.actions@.len() == config.quick_menu_config.actions@.len(),
            forall|i: int| 0 <= i < config.quick_menu_config.actions@.len() ==> {
                &&& (#[trigger] r.qm_config.actions@[i]).action
                    == config.quick_menu_config.actions@[i].action
                &&& r.qm_config.actions@[i].trigger.modifiers
                    == crate::keyboard::spec_chord_modifiers(
                        config.quick_menu_config.actions@[i].keys@)
                &&& r.qm_config.actions@[i].trigger.text@
                    == crate::keyboard::spec_chord_text(
                        config.quick_menu_config.actions@[i].keys@)
            },
            r.empty_hint@ == spec_empty_hint_label(config.leader@, config.actions@),
    {
        QuickMenu {
            state: QuickMenuState {
                open: false,
                cursor: 0,
                windows: Vec::new(),
                active_window: None,
                disable_inhibit: false,
            },
            qm_config: config.quick_menu_config.to_quick_menu_config(),
            empty_hint: config.empty_hint_label(),
        }
    }

    /// Closes (hides) the quick menu.
    pub fn close(&mut self)
        ensures
            !final(self).state.open,
            final(self).state.cursor == old(self).state.cursor,
            final(self).state.windows@ == old(self).state.windows@,
            final(self).state.active_window == old(self).state.active_window,
            final(self).state.disable_inhibit == old(self).state.disable_inhibit,
            final(self).qm_config == old(self).qm_config,
            final(self).empty_hint == old(self).empty_hint,
    {
        self.state.open = false;
    }

    /// Opens the quick menu.  The caller renders first (see
    /// [`Self::render_window_list`]), so the menu never flashes empty.
    pub fn show(&mut self)
        ensures
            final(self).state.open,
            final(self).state.cursor == old(self).state.cursor,
            final(self).state.windows@ == old(self).state.windows@,
            final(self).state.active_window == old(self).state.active_window,
            final(self).state.disable_inhibit == old(self).state.disable_inhibit,
            final(self).qm_config == old(self).qm_config,
            final(self).empty_hint == old(self).empty_hint,
    {
        self.state.open = true;
    }

    /// Flips between open and closed; returns whether the menu is now open.
    pub fn toggle(&mut self) -> (opened: bool)
        ensures
            final(self).state.open == !old(self).state.open,
            opened == final(self).state.open,
            final(self).state.cursor == old(self).state.cursor,
            final(self).state.windows@ == old(self).state.windows@,
            final(self).state.active_window == old(self).state.active_window,
            final(self).state.disable_inhibit == old(self).state.disable_inhibit,
            final(self).qm_config == old(self).qm_config,
            final(self).empty_hint == old(self).empty_hint,
    {
        if self.state.open {
            self.close();
            false
        } else {
            self.show();
            true
        }
    }

    /// Applies a state delta; returns whether the menu must be re-rendered
    /// (something visible changed and the menu is open).
    pub fn update_state(&mut self, update: &QuickMenuStateUpdate) -> (needs_render: bool)
        ensures
            needs_render == ((update.windows is Some || update.move_cursor is Some)
                && final(self).state.open),
            final(self).state.windows@ == (if update.windows is Some {
                update.windows->0@
            } else {
                old(self).state.windows@
            }),
            (update.windows is Some || update.move_cursor is Some)
                ==> final(self).state.cursor as int == spec_cursor_after(
                    update.move_cursor,
                    old(self).state.cursor as int,
                    final(self).state.windows@,
                ) && final(self).state.wf(),
            !(update.windows is Some || update.move_cursor is Some)
                ==> final(self).state.cursor == old(self).state.cursor,
            final(self).state.open == old(self).state.open,
            final(self).state.active_window == old(self).state.active_window,
            final(self).state.disable_inhibit == (if update.disable_inhibit is Some {
                update.disable_inhibit->0
            } else {
                old(self).state.disable_inhibit
            }),
            old(self).state.wf() ==> final(self).state.wf(),
            final(self).qm_config == old(self).qm_config,
            final(self).empty_hint == old(self).empty_hint,
    {
        let updated = self.state.apply_update(update);
        updated && self.state.open
    }

    /// Handles a key pressed while the menu is open.  Cursor moves update
    /// the overlay state directly; everything else is translated to the
    /// switcher intent to dispatch next.  Returns that intent and whether
    /// the menu must be re-rendered.
    pub fn handle_event(&mut self, event: QuickMenuEvent) -> (r: (Option<HarpoonEvent>, bool))
        requires
            old(self).state.wf(),
        ensures
            r.0 == spec_menu_translation(
                event,
                old(self).state.cursor,
                old(self).state.windows@.len(),
            ),
            r.1 == ((event == QuickMenuEvent::MoveCursorUp
                || event == QuickMenuEvent::MoveCursorDown) && final(self).state.open),
            (event == QuickMenuEvent::MoveCursorUp || event == QuickMenuEvent::MoveCursorDown)
                ==> {
                    &&& final(self).state.cursor as int == spec_cursor_after(
                        Some(MoveCursor::By(if event == QuickMenuEvent::MoveCursorUp {
                            -1i128
                        } else {
                            1i128
                        })),
                        old(self).state.cursor as int,
                        old(self).state.windows@,
                    )
                    &&& final(self).state.windows@ == old(self).state.windows@
                    &&& final(self).state.open == old(self).state.open
                    &&& final(self).state.active_window == old(self).state.active_window
                    &&& final(self).state.disable_inhibit == old(self).state.disable_inhibit
                    &&& final(self).qm_config == old(self).qm_config
                    &&& final(self).empty_hint == old(self).empty_hint
                },
            !(event == QuickMenuEvent::MoveCursorUp || event == QuickMenuEvent::MoveCursorDown)
                ==> *final(self) == *old(self),
            final(self).state.wf(),
    {
        match event {
            QuickMenuEvent::MoveCursorUp => {
                let needs_render = self.update_state(
                    &QuickMenuStateUpdate::new().with_cursor_delta(-1),
                );
                (None, needs_render)
            },
            QuickMenuEvent::MoveCursorDown => {
                let needs_render = self.update_state(
                    &QuickMenuStateUpdate::new().with_cursor_delta(1),
                );
                (None, needs_render)
            },
            QuickMenuEvent::Select => {
                (Some(HarpoonEvent::NavigateToWindowByIndex(self.state.cursor)), false)
            },
            QuickMenuEvent::SwapUp => {
                let cursor = self.state.cursor;
                if cursor == 0 {
                    (None, false)
                } else {
                    (Some(HarpoonEvent::SwapWindows { from: cursor, to: cursor - 1 }), false)
                }
            },
            QuickMenuEvent::SwapDown => {
                let cursor = self.state.cursor;
                let len = self.state.windows.len();
                if cursor >= len || len - cursor <= 1 {
                    (None, false)
                } else {
                    (Some(HarpoonEvent::SwapWindows { from: cursor, to: cursor + 1 }), false)
                }
            },
            QuickMenuEvent::Cut => {
                (Some(HarpoonEvent::CutWindow(self.state.cursor)), false)
            },
            QuickMenuEvent::PasteUp => {
                (Some(HarpoonEvent::PasteWindow(self.state.cursor)), false)
            },
            QuickMenuEvent::PasteDown => {
                let len = self.state.windows.len();
                proof {
                    if len > 0 {
                        assert(self.state.cursor < len);
                    } else {
                        assert(self.state.cursor == 0);
                    }
                }
                (Some(HarpoonEvent::PasteWindow(self.state.cursor + 1)), false)
            },
            QuickMenuEvent::Quit => {
                (None, false)
            },
        }
    }

    /// The menu events raised by one keydown while the menu is open: one
    /// per configured binding the keydown triggers, in table order.
    pub fn handle_keydown_event(
        &self,
        event_key: i32,
        event_state: i32,
        event_text: &str,
    ) -> (r: Vec<HarpoonEvent>)
        ensures
            r@ == spec_keydown_events(self.qm_config.actions@, event_state, event_text@),
    {
        let mut out: Vec<HarpoonEvent> = Vec::new();
        let len = self.qm_config.actions.len();
        let mut i: usize = 0;
        while i < len
            invariant
                i <= len,
                len == self.qm_config.actions@.len(),
                out@ == spec_keydown_events(
                    self.qm_config.actions@.subrange(0, i as int), event_state, event_text@),
            decreases len - i,
        {
            proof {
                let pre = self.qm_config.actions@.subrange(0, i as int);
                let cur = self.qm_config.actions@.subrange(0, i + 1 as int);
                assert(cur.drop_last() =~= pre);
                assert(cur.last() == self.qm_config.actions@[i as int]);
            }
            let a = &self.qm_config.actions[i];
            if a.is_triggered(event_key, event_state, event_text) {
                out.push(HarpoonEvent::QuickMenuEvent(a.action));
            }
            i = i + 1;
        }
        proof {
            assert(self.qm_config.actions@.subrange(0, len as int) =~= self.qm_config.actions@);
        }
        out
    }

    /// What the overlay should draw, as a pure function of its state: row
    /// height is fixed; past the visibility threshold the list scrolls so
    /// the cursor row stays within the first few visible rows; an empty
    /// registry renders a single hint row instead of an empty list.
    pub fn render_window_list(&self) -> (r: RenderModel)
        ensures
            self.state.windows@.len() == 0 ==> {
                &&& r.rows@.len() == 0
                &&& r.hint matches Some(h) && h@ == self.empty_hint@
                &&& r.height == LIST_BASE_Y
                &&& r.y == LIST_BASE_Y
            },
            self.state.windows@.len() > 0 ==> {
                &&& r.hint is None
                &&& r.rows@.len() == self.state.windows@.len()
                &&& forall|i: int| 0 <= i < r.rows@.len() ==> {
                    &&& (#[trigger] r.rows@[i]).label@ == spec_row_label(
                        (i + 1) as nat, self.state.windows@[i])
                    &&& r.rows@[i].selected == (i == self.state.cursor as int)
                }
                &&& r.height as int == ITEM_HEIGHT * self.state.windows@.len()
                &&& r.y as int == (if ITEM_HEIGHT * self.state.windows@.len() > VISIBLE_HEIGHT {
                    LIST_BASE_Y - ITEM_HEIGHT * (if self.state.cursor >= 2 {
                        self.state.cursor - 2
                    } else {
                        0int
                    })
                } else {
                    LIST_BASE_Y as int
                })
            },
    {
        let len = self.state.windows.len();
        if len == 0 {
            return RenderModel {
                y: LIST_BASE_Y,
                height: LIST_BASE_Y,
                rows: Vec::new(),
                hint: Some(self.empty_hint.clone()),
            };
        }
        let content_height: i128 = ITEM_HEIGHT * (len as i128);
        let over: i128 = if self.state.cursor >= 2 {
            (self.state.cursor - 2) as i128
        } else {
            0
        };
        let y: i128 = if content_height > VISIBLE_HEIGHT {
            LIST_BASE_Y - ITEM_HEIGHT * over
        } else {
            LIST_BASE_Y
        };
        let mut rows: Vec<RenderRow> = Vec::new();
        let mut i: usize = 0;
        while i < len
            invariant
                i <= len,
                len == self.state.windows@.len(),
                rows@.len() == i,
                forall|j: int| 0 <= j < i ==> {
                    &&& (#[trigger] rows@[j]).label@ == spec_row_label(
                        (j + 1) as nat, self.state.windows@[j])
                    &&& rows@[j].selected == (j == self.state.cursor as int)
                },
            decreases len - i,
        {
            let w = &self.state.windows[i];
            let mut label = usize_to_string(i + 1);
            label.append(": ");
            label.append(w.process_name.as_str());
            label.append(": \"");
            label.append(w.title.as_str());
            label.append("\"");
            rows.push(RenderRow { label, selected: i == self.state.cursor });
            i = i + 1;
        }
        RenderModel { y, height: content_height, rows, hint: None }
    }
}

} // verus!
