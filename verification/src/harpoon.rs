//! The top-level switcher: the window registry, the navigation memory, the
//! overlay menu controller, and the dispatcher that routes semantic events
//! between them.
//!
//! All OS work is kept outside: the dispatcher takes the OS-reported facts
//! it needs (the resolved current window, the foreground handle) as plain
//! values and hands back an [`Effects`] value naming the outside actions to
//! perform.  Window activation runs in two steps: [`Harpoon::handle_event`]
//! picks the target window, the caller asks the OS whether its handle is
//! still live and for its fresh title, and [`Harpoon::finish_navigation`]
//! decides whether to activate or to mark the window stale.

use vstd::prelude::*;
use vstd::arithmetic::div_mod::{lemma_fundamental_div_mod, lemma_mod_bound, lemma_mod_multiples_vanish};

use crate::config::Config;
use crate::quick_menu::{
    spec_cursor_after, spec_menu_translation, MoveCursor, QuickMenu, QuickMenuEvent,
    QuickMenuStateUpdate,
};
use crate::registry::{
    contains_handle, is_first_handle_index, is_marked_copy, is_retitled_copy, WindowRegistry,
};
use crate::text::{closed_prefix_str, is_marked_name, str_has_prefix};
use crate::window::{duplicate_windows, ApplicationWindow};

verus! {

/// A semantic event for the switcher, produced by a global hotkey or by the
/// overlay menu's own key handler and delivered over the event channel.
#[derive(Clone, Copy, PartialEq, Eq, Structural, Debug)]
pub enum HarpoonEvent {
    AddCurrentApplicationWindow,
    ToggleQuickMenu,
    CloseQuickMenu,
    NavigateToNextWindow,
    NavigateToPreviousWindow,
    NavigateToWindowByIndex(usize),
    ToggleInhibit,
    Quit,
    SwapWindows { from: usize, to: usize },
    CutWindow(usize),
    PasteWindow(usize),
    QuickMenuEvent(QuickMenuEvent),
}

/// The outside actions that one dispatched event asks for.  The library
/// never performs them itself; the caller does, in this order: render, show
/// or hide the overlay window, re-register hotkeys, enqueue the follow-up
/// event, then run the navigation probe for `navigate`.
pub struct Effects {
    /// Ask the OS about this window (is its handle live? what is its title
    /// now?) and call [`Harpoon::finish_navigation`] with the answers.
    pub navigate: Option<ApplicationWindow>,
    /// An event the overlay raised; deliver it through the event channel so
    /// it is handled in order.
    pub follow_up: Option<HarpoonEvent>,
    /// Show the overlay window and steal foreground focus.
    pub show_menu: bool,
    /// Hide the overlay window.
    pub hide_menu: bool,
    /// Redraw the overlay's window list (see `QuickMenu::render_window_list`).
    pub render: bool,
    /// The inhibit flag flipped: re-register the global hotkeys.
    pub hotkeys_changed: bool,
    /// No current window could be resolved; the operation was skipped.
    pub no_current_window: bool,
}

/// No outside action at all.
pub open spec fn spec_no_effects(e: Effects) -> bool {
    &&& e.navigate is None
    &&& e.follow_up is None
    &&& !e.show_menu
    &&& !e.hide_menu
    &&& !e.render
    &&& !e.hotkeys_changed
    &&& !e.no_current_window
}

impl Effects {
    fn none() -> (e: Effects)
        ensures
            spec_no_effects(e),
    {
        Effects {
            navigate: None,
            follow_up: None,
            show_menu: false,
            hide_menu: false,
            render: false,
            hotkeys_changed: false,
            no_current_window: false,
        }
    }
}

/// The slot that relative navigation activates, for a non-empty registry:
/// from the foreground window's slot `i`, the slot `(i + len + delta) mod
/// len`, wrapping around in both directions; when the foreground window is
/// not tracked, the slot of the most recently activated window; when there
/// is no such memory either, slot `0`.  (Slots are zero-based throughout.)
pub open spec fn spec_relative_target(
    ws: Seq<ApplicationWindow>,
    last: Option<isize>,
    delta: int,
    fg: Option<isize>,
) -> int
    recommends
        ws.len() > 0,
{
    if fg is Some && contains_handle(ws, fg->0) {
        let i = choose|i: int| is_first_handle_index(ws, fg->0, i);
        (i + ws.len() + delta) % (ws.len() as int)
    } else if last is Some && contains_handle(ws, last->0) {
        choose|j: int| is_first_handle_index(ws, last->0, j)
    } else {
        0
    }
}

/// Relative navigation wraps around in both directions: one step down from
/// the last slot lands on the first, one step up from the first slot lands
/// on the last, and every other step moves to the adjacent slot.
pub proof fn lemma_relative_navigation_wraps(i: int, len: int)
    requires
        0 <= i < len,
    ensures
        (i + len + 1) % len == if i == len - 1 {
            0int
        } else {
            i + 1
        },
        (i + len - 1) % len == if i == 0 {
            len - 1
        } else {
            i - 1
        },
{
    if i == len - 1 {
        lemma_mod_multiples_vanish(2, 0, len);
    } else {
        lemma_mod_multiples_vanish(1, i + 1, len);
        vstd::arithmetic::div_mod::lemma_small_mod((i + 1) as nat, len as nat);
    }
    if i == 0 {
        vstd::arithmetic::div_mod::lemma_small_mod((len - 1) as nat, len as nat);
    } else {
        lemma_mod_multiples_vanish(1, i - 1, len);
        vstd::arithmetic::div_mod::lemma_small_mod((i - 1) as nat, len as nat);
    }
}

/// What a finished navigation did.
#[derive(Clone, Copy, PartialEq, Eq, Structural, Debug)]
pub enum NavigationOutcome {
    /// The target is live: activate it (restore position, size and state,
    /// then steal foreground focus).
    Activate,
    /// The target's handle is dead and was sentinel-marked just now.
    MarkedStale,
    /// The target's handle is dead and was already sentinel-marked.
    Ignored,
}

/// The switcher: the registry of tracked windows, the navigation memory,
/// the overlay menu controller and the active configuration.
pub struct Harpoon {
    pub registry: WindowRegistry,
    /// The handle of the window most recently activated through the
    /// switcher: the relative-navigation anchor when the OS foreground
    /// window is not itself tracked.
    pub last_window_id: Option<isize>,
    pub quick_menu: QuickMenu,
    pub config: Config,
    /// Whether matched hotkeys stop being swallowed from other
    /// applications.
    pub disable_inhibit: bool,
}

impl Harpoon {
    /// Whether the switcher state is well formed: unique handles in the
    /// registry and an in-bounds overlay cursor.
    pub open spec fn wf(&self) -> bool {
        &&& self.registry.wf()
        &&& self.quick_menu.state.wf()
    }

    /// A fresh switcher over `config`: empty registry, empty clipboard, no
    /// navigation memory, overlay closed.
    pub fn new(config: Config) -> (r: Harpoon)
        ensures
            r.registry.windows@ == Seq::<ApplicationWindow>::empty(),
            r.registry.clipboard is None,
            r.last_window_id is None,
            !r.disable_inhibit,
            !r.quick_menu.state.open,
            r.quick_menu.state.cursor == 0,
            r.quick_menu.state.windows@ == Seq::<ApplicationWindow>::empty(),
            r.config == config,
            r.wf(),
    {
        let quick_menu = QuickMenu::new(&config);
        Harpoon {
            registry: WindowRegistry::new(),
            last_window_id: None,
            quick_menu,
            config,
            disable_inhibit: false,
        }
    }

    /// A copy of the window in slot `index`, if there is one.
    pub fn window_at(&self, index: usize) -> (r: Option<ApplicationWindow>)
        ensures
            index < self.registry.windows@.len()
                ==> r == Some(self.registry.windows@[index as int]),
            index >= self.registry.windows@.len() ==> r is None,
    {
        if index < self.registry.windows.len() {
            Some(self.registry.windows[index].duplicate())
        } else {
            None
        }
    }

    /// Resolves a relative navigation request against the OS-reported
    /// foreground handle: `None` exactly when the registry is empty, else
    /// the slot given by [`spec_relative_target`].
    pub fn relative_target(&self, delta: isize, foreground_window: Option<isize>) -> (r: Option<
        usize,
    >)
        ensures
            self.registry.windows@.len() == 0 <==> r is None,
            self.registry.windows@.len() > 0 ==> (r matches Some(t)
                && t as int == spec_relative_target(
                    self.registry.windows@,
                    self.last_window_id,
                    delta as int,
                    foreground_window,
                )
                && t < self.registry.windows@.len()),
    {
        let ghost ws = self.registry.windows@;
        let len = self.registry.windows.len();
        if len == 0 {
            return None;
        }
        let fg_index: Option<usize> = match foreground_window {
            Some(h) => self.registry.position_of(h),
            None => None,
        };
        match fg_index {
            Some(i) => {
                let len_i = len as i128;
                let delta_i = delta as i128;
                // reduce the offset to [0, len) first, so every remaining
                // operand is non-negative
                let off: i128 = if delta_i >= 0 {
                    delta_i % len_i
                } else {
                    let m = (-delta_i) % len_i;
                    if m == 0 {
                        0
                    } else {
                        len_i - m
                    }
                };
                let t = (i as i128 + off) % len_i;
                proof {
                    let iw = choose|k: int| is_first_handle_index(ws, foreground_window->0, k);
                    crate::quick_menu::lemma_first_index_unique(
                        ws, foreground_window->0, iw, i as int);
                    lemma_mod_bound(i as int + off as int, len as int);
                    // off differs from delta by a whole number of lengths,
                    // and so does the extra len term
                    if delta_i >= 0 {
                        lemma_fundamental_div_mod(delta as int, len as int);
                        lemma_mod_bound(delta as int, len as int);
                        let q = delta as int / len as int;
                        assert(delta as int == (len as int) * q + off as int);
                        assert(i + len + delta == (len as int) * (q + 1) + (i + off))
                            by (nonlinear_arith)
                            requires
                                delta as int == (len as int) * q + off as int,
                        ;
                        lemma_mod_multiples_vanish(q + 1, i + off, len as int);
                    } else {
                        lemma_fundamental_div_mod(-(delta as int), len as int);
                        lemma_mod_bound(-(delta as int), len as int);
                        let q = -(delta as int) / (len as int);
                        let m = (-(delta as int)) % (len as int);
                        assert(-(delta as int) == (len as int) * q + m);
                        if m == 0 {
                            assert(delta as int == -((len as int) * q));
                            assert(i + len + delta == (len as int) * (1 - q) + (i + off))
                                by (nonlinear_arith)
                                requires
                                    delta as int == -((len as int) * q),
                                    off as int == 0,
                            ;
                            lemma_mod_multiples_vanish(1 - q, i + off, len as int);
                        } else {
                            assert(off as int == len - m);
                            assert(delta as int == -((len as int) * q) - m);
                            assert(i + len + delta == (len as int) * (-q) + (i + off))
                                by (nonlinear_arith)
                                requires
                                    delta as int == -((len as int) * q) - m,
                                    off as int == len - m,
                            ;
                            lemma_mod_multiples_vanish(-q, i + off, len as int);
                        }
                    }
                }
                Some(t as usize)
            },
            None => {
                match self.last_window_id {
                    Some(l) => {
                        match self.registry.position_of(l) {
                            Some(j) => {
                                proof {
                                    let jw = choose|k: int| is_first_handle_index(ws, l, k);
                                    crate::quick_menu::lemma_first_index_unique(
                                        ws, l, jw, j as int);
                                }
                                Some(j)
                            },
                            None => Some(0),
                        }
                    },
                    None => Some(0),
                }
            },
        }
    }

    /// Finishes a navigation begun by a dispatched event, given the
    /// OS-reported facts about the target: whether its handle is still live
    /// and, if so, its current title.
    ///
    /// A dead target is sentinel-marked (idempotently) and never activated.
    /// A live target becomes the navigation memory, its title is refreshed,
    /// and the overlay cursor follows it; the caller then performs the
    /// actual activation.
    pub fn finish_navigation(
        &mut self,
        window: &ApplicationWindow,
        alive: bool,
        fresh_title: Option<String>,
    ) -> (r: (NavigationOutcome, bool))
        requires
            old(self).quick_menu.state.wf(),
        ensures
            ({
                let outcome = r.0;
                let render = r.1;
                &&& (!alive && is_marked_name(window.process_name@)) ==> {
                    &&& outcome == NavigationOutcome::Ignored
                    &&& !render
                    &&& *final(self) == *old(self)
                }
                &&& (!alive && !is_marked_name(window.process_name@)) ==> {
                    &&& outcome == NavigationOutcome::MarkedStale
                    &&& !render
                    &&& final(self).last_window_id == old(self).last_window_id
                    &&& final(self).disable_inhibit == old(self).disable_inhibit
                    &&& final(self).quick_menu == old(self).quick_menu
                    &&& final(self).registry.clipboard == old(self).registry.clipboard
                    &&& final(self).registry.windows@.len()
                        == old(self).registry.windows@.len()
                    &&& (!contains_handle(old(self).registry.windows@, window.window_id)
                        ==> final(self).registry == old(self).registry)
                    &&& (contains_handle(old(self).registry.windows@, window.window_id)
                        ==> exists|i: int|
                            #[trigger] is_first_handle_index(
                                old(self).registry.windows@, window.window_id, i)
                            && if is_marked_name(
                                old(self).registry.windows@[i].process_name@)
                            {
                                final(self).registry.windows@ == old(self).registry.windows@
                            } else {
                                &&& (forall|j: int|
                                    0 <= j < old(self).registry.windows@.len() && j != i
                                        ==> final(self).registry.windows@[j]
                                            == old(self).registry.windows@[j])
                                &&& is_marked_copy(
                                    final(self).registry.windows@[i],
                                    old(self).registry.windows@[i])
                            })
                }
                &&& alive ==> {
                    &&& outcome == NavigationOutcome::Activate
                    &&& final(self).last_window_id == Some(window.window_id)
                    &&& final(self).disable_inhibit == old(self).disable_inhibit
                    &&& final(self).registry.clipboard == old(self).registry.clipboard
                    &&& (fresh_title is None
                        ==> final(self).registry == old(self).registry)
                    &&& (fresh_title matches Some(t) ==> {
                        &&& final(self).registry.windows@.len()
                            == old(self).registry.windows@.len()
                        &&& (!contains_handle(old(self).registry.windows@, window.window_id)
                            ==> final(self).registry == old(self).registry)
                        &&& (contains_handle(old(self).registry.windows@, window.window_id)
                            ==> exists|i: int|
                                #[trigger] is_first_handle_index(
                                    old(self).registry.windows@, window.window_id, i)
                                && (forall|j: int|
                                    0 <= j < old(self).registry.windows@.len() && j != i
                                        ==> final(self).registry.windows@[j]
                                            == old(self).registry.windows@[j])
                                && is_retitled_copy(
                                    final(self).registry.windows@[i],
                                    old(self).registry.windows@[i],
                                    t@))
                    })
                    &&& final(self).quick_menu.state.windows@ == final(self).registry.windows@
                    &&& final(self).quick_menu.state.cursor as int == spec_cursor_after(
                        Some(MoveCursor::ToWindow(window.window_id)),
                        old(self).quick_menu.state.cursor as int,
                        final(self).registry.windows@,
                    )
                    &&& final(self).quick_menu.state.open == old(self).quick_menu.state.open
                    &&& render == final(self).quick_menu.state.open
                }
                &&& old(self).wf() ==> final(self).wf()
                &&& final(self).quick_menu.state.wf()
            }),
    {
        if !alive {
            if str_has_prefix(window.process_name.as_str(), closed_prefix_str()) {
                return (NavigationOutcome::Ignored, false);
            }
            self.registry.mark_stale(window.window_id);
            return (NavigationOutcome::MarkedStale, false);
        }
        self.last_window_id = Some(window.window_id);
        match fresh_title {
            Some(title) => {
                self.registry.update_title(window.window_id, title);
            },
            None => {},
        }
        let snapshot = duplicate_windows(&self.registry.windows);
        let render = self.quick_menu.update_state(
            &QuickMenuStateUpdate::new().with_windows(snapshot).with_active_window(
                window.window_id,
            ),
        );
        (NavigationOutcome::Activate, render)
    }

    /// Routes one dispatched event: mutates the registry, the navigation
    /// memory and the overlay state as the event demands, and names the
    /// outside actions for the caller.
    ///
    /// `current_window` is the OS-resolved foreground window (consumed by
    /// `AddCurrentApplicationWindow`); `foreground_window` is the raw
    /// foreground handle (consumed by relative navigation).
    pub fn handle_event(
        &mut self,
        event: HarpoonEvent,
        current_window: Option<ApplicationWindow>,
        foreground_window: Option<isize>,
    ) -> (e: Effects)
        requires
            old(self).quick_menu.state.wf(),
        ensures
            final(self).config == old(self).config,
            final(self).quick_menu.qm_config == old(self).quick_menu.qm_config,
            final(self).quick_menu.empty_hint == old(self).quick_menu.empty_hint,
            final(self).quick_menu.state.wf(),
            old(self).wf() && (event matches HarpoonEvent::PasteWindow(i)
                ==> (old(self).registry.clipboard matches Some(w)
                    ==> !contains_handle(old(self).registry.windows@, w.window_id)))
                ==> final(self).wf(),
            // --- overlay open/close ---
            event == HarpoonEvent::ToggleQuickMenu ==> {
                &&& final(self).quick_menu.state.open == !old(self).quick_menu.state.open
                &&& final(self).quick_menu.state.cursor == old(self).quick_menu.state.cursor
                &&& final(self).quick_menu.state.windows@ == old(self).quick_menu.state.windows@
                &&& final(self).registry == old(self).registry
                &&& final(self).last_window_id == old(self).last_window_id
                &&& final(self).disable_inhibit == old(self).disable_inhibit
                &&& e.show_menu == final(self).quick_menu.state.open
                &&& e.render == final(self).quick_menu.state.open
                &&& e.hide_menu == !final(self).quick_menu.state.open
                &&& e.navigate is None && e.follow_up is None && !e.hotkeys_changed
                    && !e.no_current_window
            },
            (event == HarpoonEvent::CloseQuickMenu
                || event == HarpoonEvent::QuickMenuEvent(QuickMenuEvent::Quit)) ==> {
                &&& !final(self).quick_menu.state.open
                &&& final(self).quick_menu.state.cursor == old(self).quick_menu.state.cursor
                &&& final(self).quick_menu.state.windows@ == old(self).quick_menu.state.windows@
                &&& final(self).registry == old(self).registry
                &&& final(self).last_window_id == old(self).last_window_id
                &&& final(self).disable_inhibit == old(self).disable_inhibit
                &&& e.hide_menu
                &&& e.navigate is None && e.follow_up is None && !e.show_menu && !e.render
                    && !e.hotkeys_changed && !e.no_current_window
            },
            // --- menu key, translated to a follow-up intent ---
            event matches HarpoonEvent::QuickMenuEvent(me)
                ==> me != QuickMenuEvent::Quit ==> {
                &&& e.follow_up == spec_menu_translation(
                    me,
                    old(self).quick_menu.state.cursor,
                    old(self).quick_menu.state.windows@.len(),
                )
                &&& final(self).registry == old(self).registry
                &&& final(self).last_window_id == old(self).last_window_id
                &&& final(self).disable_inhibit == old(self).disable_inhibit
                &&& final(self).quick_menu.state.windows@ == old(self).quick_menu.state.windows@
                &&& final(self).quick_menu.state.open == old(self).quick_menu.state.open
                &&& ((me == QuickMenuEvent::MoveCursorUp || me == QuickMenuEvent::MoveCursorDown)
                    ==> final(self).quick_menu.state.cursor as int == spec_cursor_after(
                        Some(MoveCursor::By(
                            if me == QuickMenuEvent::MoveCursorUp { -1i128 } else { 1i128 },
                        )),
                        old(self).quick_menu.state.cursor as int,
                        old(self).quick_menu.state.windows@,
                    ))
                &&& (!(me == QuickMenuEvent::MoveCursorUp || me == QuickMenuEvent::MoveCursorDown)
                    ==> final(self).quick_menu.state.cursor == old(self).quick_menu.state.cursor)
                &&& e.render == ((me == QuickMenuEvent::MoveCursorUp
                    || me == QuickMenuEvent::MoveCursorDown) && final(self).quick_menu.state.open)
                &&& e.navigate is None && !e.show_menu && !e.hide_menu && !e.hotkeys_changed
                    && !e.no_current_window
            },
            // --- registering the current window ---
            event == HarpoonEvent::AddCurrentApplicationWindow ==> {
                &&& (current_window is None ==> {
                    &&& e.no_current_window
                    &&& final(self).registry == old(self).registry
                })
                &&& (current_window matches Some(w) ==> {
                    &&& !e.no_current_window
                    &&& final(self).registry.clipboard == old(self).registry.clipboard
                    &&& (contains_handle(old(self).registry.windows@, w.window_id)
                        ==> exists|i: int|
                            #[trigger] is_first_handle_index(
                                old(self).registry.windows@, w.window_id, i)
                            && final(self).registry.windows@
                                == old(self).registry.windows@.update(i, w))
                    &&& (!contains_handle(old(self).registry.windows@, w.window_id)
                        ==> final(self).registry.windows@
                            == old(self).registry.windows@.push(w))
                })
                &&& final(self).quick_menu.state.windows@ == final(self).registry.windows@
                &&& final(self).quick_menu.state.cursor as int == spec_cursor_after(
                    None,
                    old(self).quick_menu.state.cursor as int,
                    final(self).quick_menu.state.windows@,
                )
                &&& final(self).quick_menu.state.open == old(self).quick_menu.state.open
                &&& final(self).last_window_id == old(self).last_window_id
                &&& final(self).disable_inhibit == old(self).disable_inhibit
                &&& e.render == final(self).quick_menu.state.open
                &&& e.navigate is None && e.follow_up is None && !e.show_menu && !e.hide_menu
                    && !e.hotkeys_changed
            },
            // --- navigation probes ---
            event == HarpoonEvent::NavigateToNextWindow ==> {
                &&& *final(self) == *old(self)
                &&& (old(self).registry.windows@.len() == 0 <==> e.navigate is None)
                &&& (old(self).registry.windows@.len() > 0 ==> e.navigate == Some(
                    old(self).registry.windows@[spec_relative_target(
                        old(self).registry.windows@,
                        old(self).last_window_id,
                        1,
                        foreground_window,
                    )],
                ))
                &&& e.follow_up is None && !e.show_menu && !e.hide_menu && !e.render
                    && !e.hotkeys_changed && !e.no_current_window
            },
            event == HarpoonEvent::NavigateToPreviousWindow ==> {
                &&& *final(self) == *old(self)
                &&& (old(self).registry.windows@.len() == 0 <==> e.navigate is None)
                &&& (old(self).registry.windows@.len() > 0 ==> e.navigate == Some(
                    old(self).registry.windows@[spec_relative_target(
                        old(self).registry.windows@,
                        old(self).last_window_id,
                        -1,
                        foreground_window,
                    )],
                ))
                &&& e.follow_up is None && !e.show_menu && !e.hide_menu && !e.render
                    && !e.hotkeys_changed && !e.no_current_window
            },
            event matches HarpoonEvent::NavigateToWindowByIndex(i) ==> {
                &&& *final(self) == *old(self)
                &&& (i < old(self).registry.windows@.len()
                    ==> e.navigate == Some(old(self).registry.windows@[i as int]))
                &&& (i >= old(self).registry.windows@.len() ==> e.navigate is None)
                &&& e.follow_up is None && !e.show_menu && !e.hide_menu && !e.render
                    && !e.hotkeys_changed && !e.no_current_window
            },
            // --- registry mutations from the overlay ---
            event matches HarpoonEvent::SwapWindows { from, to } ==> {
                &&& (from < old(self).registry.windows@.len()
                    && to < old(self).registry.windows@.len() ==> {
                    &&& final(self).registry.clipboard == old(self).registry.clipboard
                    &&& final(self).registry.windows@ == old(self).registry.windows@
                        .update(from as int, old(self).registry.windows@[to as int])
                        .update(to as int, old(self).registry.windows@[from as int])
                    &&& final(self).quick_menu.state.windows@ == final(self).registry.windows@
                    &&& final(self).quick_menu.state.cursor as int == spec_cursor_after(
                        Some(MoveCursor::By((to - from) as i128)),
                        old(self).quick_menu.state.cursor as int,
                        final(self).registry.windows@,
                    )
                    &&& final(self).quick_menu.state.open == old(self).quick_menu.state.open
                    &&& final(self).last_window_id == old(self).last_window_id
                    &&& final(self).disable_inhibit == old(self).disable_inhibit
                    &&& e.render == final(self).quick_menu.state.open
                    &&& e.navigate is None && e.follow_up is None && !e.show_menu
                        && !e.hide_menu && !e.hotkeys_changed && !e.no_current_window
                })
                &&& (!(from < old(self).registry.windows@.len()
                    && to < old(self).registry.windows@.len()) ==> {
                    &&& *final(self) == *old(self)
                    &&& spec_no_effects(e)
                })
            },
            event matches HarpoonEvent::CutWindow(i) ==> {
                &&& (i < old(self).registry.windows@.len() ==> {
                    &&& final(self).registry.windows@
                        == old(self).registry.windows@.remove(i as int)
                    &&& final(self).registry.clipboard
                        == Some(old(self).registry.windows@[i as int])
                    &&& final(self).quick_menu.state.windows@ == final(self).registry.windows@
                    &&& final(self).quick_menu.state.cursor as int == spec_cursor_after(
                        None,
                        old(self).quick_menu.state.cursor as int,
                        final(self).registry.windows@,
                    )
                    &&& final(self).quick_menu.state.open == old(self).quick_menu.state.open
                    &&& final(self).last_window_id == old(self).last_window_id
                    &&& final(self).disable_inhibit == old(self).disable_inhibit
                    &&& e.render == final(self).quick_menu.state.open
                    &&& e.navigate is None && e.follow_up is None && !e.show_menu
                        && !e.hide_menu && !e.hotkeys_changed && !e.no_current_window
                })
                &&& (i >= old(self).registry.windows@.len() ==> {
                    &&& *final(self) == *old(self)
                    &&& spec_no_effects(e)
                })
            },
            event matches HarpoonEvent::PasteWindow(i) ==> {
                &&& (old(self).registry.clipboard matches Some(w) ==> {
                    &&& final(self).registry.windows@ == old(self).registry.windows@.insert(
                        vstd::math::min(i as int, old(self).registry.windows@.len() as int),
                        w,
                    )
                    &&& final(self).registry.clipboard is None
                    &&& final(self).quick_menu.state.windows@ == final(self).registry.windows@
                    &&& final(self).quick_menu.state.cursor as int == spec_cursor_after(
                        Some(MoveCursor::By(1i128)),
                        old(self).quick_menu.state.cursor as int,
                        final(self).registry.windows@,
                    )
                    &&& e.render == final(self).quick_menu.state.open
                })
                &&& (old(self).registry.clipboard is None ==> {
                    &&& final(self).registry == old(self).registry
                    &&& final(self).quick_menu == old(self).quick_menu
                    &&& !e.render
                })
                &&& final(self).quick_menu.state.open == old(self).quick_menu.state.open
                &&& final(self).last_window_id == old(self).last_window_id
                &&& final(self).disable_inhibit == old(self).disable_inhibit
                &&& e.navigate is None && e.follow_up is None && !e.show_menu && !e.hide_menu
                    && !e.hotkeys_changed && !e.no_current_window
            },
            // --- inhibit toggle ---
            event == HarpoonEvent::ToggleInhibit ==> {
                &&& final(self).disable_inhibit == !old(self).disable_inhibit
                &&& final(self).registry == old(self).registry
                &&& final(self).last_window_id == old(self).last_window_id
                &&& final(self).quick_menu.state.windows@ == old(self).quick_menu.state.windows@
                &&& final(self).quick_menu.state.cursor == old(self).quick_menu.state.cursor
                &&& final(self).quick_menu.state.open == old(self).quick_menu.state.open
                &&& final(self).quick_menu.state.disable_inhibit
                    == final(self).disable_inhibit
                &&& e.hotkeys_changed
                &&& e.navigate is None && e.follow_up is None && !e.show_menu && !e.hide_menu
                    && !e.render && !e.no_current_window
            },
            // --- reserved ---
            event == HarpoonEvent::Quit ==> {
                &&& *final(self) == *old(self)
                &&& spec_no_effects(e)
            },
    {
        let mut effects = Effects::none();
        match event {
            HarpoonEvent::ToggleQuickMenu => {
                let opened = self.quick_menu.toggle();
                if opened {
                    effects.show_menu = true;
                    effects.render = true;
                } else {
                    effects.hide_menu = true;
                }
            },
            HarpoonEvent::CloseQuickMenu | HarpoonEvent::QuickMenuEvent(QuickMenuEvent::Quit) => {
                self.quick_menu.close();
                effects.hide_menu = true;
            },
            HarpoonEvent::QuickMenuEvent(me) => {
                let (follow_up, render) = self.quick_menu.handle_event(me);
                effects.follow_up = follow_up;
                effects.render = render;
            },
            HarpoonEvent::AddCurrentApplicationWindow => {
                match current_window {
                    Some(w) => {
                        self.registry.add_current(w);
                    },
                    None => {
                        effects.no_current_window = true;
                    },
                }
                let snapshot = duplicate_windows(&self.registry.windows);
                effects.render = self.quick_menu.update_state(
                    &QuickMenuStateUpdate::new().with_windows(snapshot),
                );
            },
            HarpoonEvent::NavigateToNextWindow => {
                match self.relative_target(1, foreground_window) {
                    Some(t) => {
                        effects.navigate = self.window_at(t);
                    },
                    None => {},
                }
            },
            HarpoonEvent::NavigateToPreviousWindow => {
                match self.relative_target(-1, foreground_window) {
                    Some(t) => {
                        effects.navigate = self.window_at(t);
                    },
                    None => {},
                }
            },
            HarpoonEvent::NavigateToWindowByIndex(i) => {
                effects.navigate = self.window_at(i);
            },
            HarpoonEvent::SwapWindows { from, to } => {
                let len = self.registry.windows.len();
                if from < len && to < len {
                    self.registry.swap(from, to);
                    let snapshot = duplicate_windows(&self.registry.windows);
                    let delta: i128 = to as i128 - from as i128;
                    effects.render = self.quick_menu.update_state(
                        &QuickMenuStateUpdate::new().with_windows(snapshot).with_cursor_delta(
                            delta,
                        ),
                    );
                }
            },
            HarpoonEvent::CutWindow(i) => {
                let did = self.registry.cut(i);
                if did {
                    let snapshot = duplicate_windows(&self.registry.windows);
                    effects.render = self.quick_menu.update_state(
                        &QuickMenuStateUpdate::new().with_windows(snapshot),
                    );
                }
            },
            HarpoonEvent::PasteWindow(i) => {
                let had = match &self.registry.clipboard {
                    Some(_) => true,
                    None => false,
                };
                if had {
                    self.registry.paste(i);
                    let snapshot = duplicate_windows(&self.registry.windows);
                    effects.render = self.quick_menu.update_state(
                        &QuickMenuStateUpdate::new().with_windows(snapshot).with_cursor_delta(1),
                    );
                }
            },
            HarpoonEvent::ToggleInhibit => {
                self.disable_inhibit = !self.disable_inhibit;
                let flag = self.disable_inhibit;
                let _ = self.quick_menu.update_state(
                    &QuickMenuStateUpdate::new().with_disable_inhibit(flag),
                );
                effects.hotkeys_changed = true;
            },
            HarpoonEvent::Quit => {},
        }
        effects
    }
}

} // verus!
