use harpoon::config::Config;
use harpoon::harpoon::{Harpoon, HarpoonEvent, NavigationOutcome};
use harpoon::quick_menu::QuickMenuEvent;
use harpoon::window::{ApplicationWindow, WindowPosition, WindowState};

fn win(id: isize, title: &str, process_name: &str) -> ApplicationWindow {
    ApplicationWindow {
        window_id: id,
        title: title.to_string(),
        process_path: format!("/bin/{}", process_name),
        position: WindowPosition { x: 0, y: 0, width: 800, height: 600 },
        state: WindowState::Normal,
        process_name: process_name.to_string(),
    }
}

fn switcher_with(windows: Vec<ApplicationWindow>) -> Harpoon {
    let mut h = Harpoon::new(Config::default());
    for w in windows {
        h.handle_event(HarpoonEvent::AddCurrentApplicationWindow, Some(w), None);
    }
    h
}

fn ids(h: &Harpoon) -> Vec<isize> {
    h.registry.windows.iter().map(|w| w.window_id).collect()
}

#[test]
fn add_registers_then_replaces_on_same_handle() {
    // empty registry, add handle 100 titled Editor, then the same handle
    // with a newer title: one slot, refreshed metadata
    let mut h = Harpoon::new(Config::default());
    h.handle_event(
        HarpoonEvent::AddCurrentApplicationWindow,
        Some(win(100, "Editor", "editor")),
        None,
    );
    assert_eq!(ids(&h), vec![100]);
    assert_eq!(h.quick_menu.state.cursor, 0);
    h.handle_event(
        HarpoonEvent::AddCurrentApplicationWindow,
        Some(win(100, "Editor*", "editor")),
        None,
    );
    assert_eq!(h.registry.windows.len(), 1);
    assert_eq!(h.registry.windows[0].title, "Editor*");
}

#[test]
fn add_without_a_resolved_window_is_skipped() {
    let mut h = Harpoon::new(Config::default());
    let e = h.handle_event(HarpoonEvent::AddCurrentApplicationWindow, None, None);
    assert!(e.no_current_window);
    assert!(h.registry.windows.is_empty());
}

#[test]
fn add_mirrors_the_registry_into_the_overlay() {
    let h = switcher_with(vec![win(1, "a", "p"), win(2, "b", "p")]);
    let got: Vec<isize> = h.quick_menu.state.windows.iter().map(|w| w.window_id).collect();
    assert_eq!(got, vec![1, 2]);
}

#[test]
fn relative_navigation_wraps_in_both_directions() {
    // windows [A, B, C] with handles 1, 2, 3
    let mut h = switcher_with(vec![win(1, "A", "p"), win(2, "B", "p"), win(3, "C", "p")]);
    // foreground B: next is C
    let e = h.handle_event(HarpoonEvent::NavigateToNextWindow, None, Some(2));
    assert_eq!(e.navigate.unwrap().window_id, 3);
    // foreground C: next wraps to A
    let e = h.handle_event(HarpoonEvent::NavigateToNextWindow, None, Some(3));
    assert_eq!(e.navigate.unwrap().window_id, 1);
    // foreground A: previous wraps to C
    let e = h.handle_event(HarpoonEvent::NavigateToPreviousWindow, None, Some(1));
    assert_eq!(e.navigate.unwrap().window_id, 3);
}

#[test]
fn relative_navigation_falls_back_to_last_window() {
    let mut h = switcher_with(vec![win(1, "A", "p"), win(2, "B", "p"), win(3, "C", "p")]);
    // the foreground window is not tracked; the memory anchors navigation
    h.last_window_id = Some(2);
    let e = h.handle_event(HarpoonEvent::NavigateToNextWindow, None, Some(77));
    assert_eq!(e.navigate.unwrap().window_id, 2);
}

#[test]
fn relative_navigation_falls_back_to_first_slot() {
    let mut h = switcher_with(vec![win(1, "A", "p"), win(2, "B", "p")]);
    // no tracked foreground window and no memory: slot 0
    let e = h.handle_event(HarpoonEvent::NavigateToNextWindow, None, Some(77));
    assert_eq!(e.navigate.unwrap().window_id, 1);
    // a memory handle that is no longer tracked falls back to slot 0 too
    h.last_window_id = Some(99);
    let e = h.handle_event(HarpoonEvent::NavigateToPreviousWindow, None, None);
    assert_eq!(e.navigate.unwrap().window_id, 1);
}

#[test]
fn relative_navigation_on_empty_registry_is_noop() {
    let mut h = Harpoon::new(Config::default());
    let e = h.handle_event(HarpoonEvent::NavigateToNextWindow, None, Some(1));
    assert!(e.navigate.is_none());
}

#[test]
fn navigate_by_index_picks_the_slot() {
    let mut h = switcher_with(vec![win(1, "A", "p"), win(2, "B", "p")]);
    let e = h.handle_event(HarpoonEvent::NavigateToWindowByIndex(1), None, None);
    assert_eq!(e.navigate.unwrap().window_id, 2);
    let e = h.handle_event(HarpoonEvent::NavigateToWindowByIndex(5), None, None);
    assert!(e.navigate.is_none());
}

#[test]
fn finish_navigation_activates_a_live_window() {
    let mut h = switcher_with(vec![win(1, "A", "p"), win(2, "B", "p")]);
    let target = h.registry.windows[1].clone();
    let (outcome, _render) =
        h.finish_navigation(&target, true, Some("B fresh".to_string()));
    assert_eq!(outcome, NavigationOutcome::Activate);
    assert_eq!(h.last_window_id, Some(2));
    assert_eq!(h.registry.windows[1].title, "B fresh");
    // the overlay cursor follows the activated window
    assert_eq!(h.quick_menu.state.cursor, 1);
}

#[test]
fn finish_navigation_marks_a_dead_window_stale() {
    let mut h = switcher_with(vec![win(1, "A", "p")]);
    let target = h.registry.windows[0].clone();
    let (outcome, _) = h.finish_navigation(&target, false, None);
    assert_eq!(outcome, NavigationOutcome::MarkedStale);
    assert_eq!(h.registry.windows[0].process_name, "[CLOSED] p");
    assert_eq!(h.last_window_id, None);
    // a second dead navigation is ignored: no double sentinel
    let target = h.registry.windows[0].clone();
    let (outcome, _) = h.finish_navigation(&target, false, None);
    assert_eq!(outcome, NavigationOutcome::Ignored);
    assert_eq!(h.registry.windows[0].process_name, "[CLOSED] p");
}

#[test]
fn cut_then_paste_down_moves_the_window() {
    // registry [A, B, C], cursor on B
    let mut h = switcher_with(vec![win(1, "A", "p"), win(2, "B", "p"), win(3, "C", "p")]);
    let e = h.handle_event(
        HarpoonEvent::QuickMenuEvent(QuickMenuEvent::MoveCursorDown), None, None);
    assert!(e.follow_up.is_none());
    assert_eq!(h.quick_menu.state.cursor, 1);

    // cut: the overlay raises the intent, the dispatcher applies it
    let e = h.handle_event(HarpoonEvent::QuickMenuEvent(QuickMenuEvent::Cut), None, None);
    assert_eq!(e.follow_up, Some(HarpoonEvent::CutWindow(1)));
    let _ = h.handle_event(e.follow_up.unwrap(), None, None);
    assert_eq!(ids(&h), vec![1, 3]);
    assert_eq!(h.registry.clipboard.as_ref().unwrap().window_id, 2);
    // the cursor is clamped, now pointing at C
    assert_eq!(h.quick_menu.state.cursor, 1);

    // paste below the cursor: inserted at cursor + 1, clipboard emptied
    let e = h.handle_event(
        HarpoonEvent::QuickMenuEvent(QuickMenuEvent::PasteDown), None, None);
    assert_eq!(e.follow_up, Some(HarpoonEvent::PasteWindow(2)));
    let _ = h.handle_event(e.follow_up.unwrap(), None, None);
    assert_eq!(ids(&h), vec![1, 3, 2]);
    assert!(h.registry.clipboard.is_none());
}

#[test]
fn swap_up_at_top_and_swap_down_at_bottom_are_noops() {
    let mut h = switcher_with(vec![win(1, "A", "p"), win(2, "B", "p"), win(3, "C", "p")]);
    // cursor 0: swapping up raises nothing, nothing changes
    let e = h.handle_event(HarpoonEvent::QuickMenuEvent(QuickMenuEvent::SwapUp), None, None);
    assert!(e.follow_up.is_none());
    assert_eq!(ids(&h), vec![1, 2, 3]);
    assert_eq!(h.quick_menu.state.cursor, 0);
    // cursor at the last row: swapping down raises nothing either
    h.handle_event(HarpoonEvent::QuickMenuEvent(QuickMenuEvent::MoveCursorDown), None, None);
    h.handle_event(HarpoonEvent::QuickMenuEvent(QuickMenuEvent::MoveCursorDown), None, None);
    assert_eq!(h.quick_menu.state.cursor, 2);
    let e = h.handle_event(HarpoonEvent::QuickMenuEvent(QuickMenuEvent::SwapDown), None, None);
    assert!(e.follow_up.is_none());
    assert_eq!(ids(&h), vec![1, 2, 3]);
    assert_eq!(h.quick_menu.state.cursor, 2);
}

#[test]
fn swap_moves_the_window_and_the_cursor_follows() {
    let mut h = switcher_with(vec![win(1, "A", "p"), win(2, "B", "p"), win(3, "C", "p")]);
    h.handle_event(HarpoonEvent::QuickMenuEvent(QuickMenuEvent::MoveCursorDown), None, None);
    let e = h.handle_event(HarpoonEvent::QuickMenuEvent(QuickMenuEvent::SwapDown), None, None);
    assert_eq!(e.follow_up, Some(HarpoonEvent::SwapWindows { from: 1, to: 2 }));
    let _ = h.handle_event(e.follow_up.unwrap(), None, None);
    assert_eq!(ids(&h), vec![1, 3, 2]);
    assert_eq!(h.quick_menu.state.cursor, 2);
}

#[test]
fn select_raises_navigation_by_cursor_index() {
    let mut h = switcher_with(vec![win(1, "A", "p"), win(2, "B", "p")]);
    h.handle_event(HarpoonEvent::QuickMenuEvent(QuickMenuEvent::MoveCursorDown), None, None);
    let e = h.handle_event(HarpoonEvent::QuickMenuEvent(QuickMenuEvent::Select), None, None);
    assert_eq!(e.follow_up, Some(HarpoonEvent::NavigateToWindowByIndex(1)));
}

#[test]
fn paste_up_pastes_at_the_cursor() {
    let mut h = switcher_with(vec![win(1, "A", "p"), win(2, "B", "p")]);
    h.handle_event(HarpoonEvent::CutWindow(0), None, None);
    let e = h.handle_event(HarpoonEvent::QuickMenuEvent(QuickMenuEvent::PasteUp), None, None);
    assert_eq!(e.follow_up, Some(HarpoonEvent::PasteWindow(0)));
    let _ = h.handle_event(e.follow_up.unwrap(), None, None);
    assert_eq!(ids(&h), vec![1, 2]);
}

#[test]
fn cut_out_of_range_is_a_silent_noop() {
    let mut h = switcher_with(vec![win(1, "A", "p"), win(2, "B", "p")]);
    // open the menu so a spurious redraw request would be visible
    h.handle_event(HarpoonEvent::ToggleQuickMenu, None, None);
    let cursor_before = h.quick_menu.state.cursor;
    let e = h.handle_event(HarpoonEvent::CutWindow(5), None, None);
    assert!(!e.render);
    assert_eq!(ids(&h), vec![1, 2]);
    assert!(h.registry.clipboard.is_none());
    assert_eq!(h.quick_menu.state.cursor, cursor_before);
    assert_eq!(h.quick_menu.state.windows.len(), 2);
}

#[test]
fn swap_out_of_range_is_a_silent_noop() {
    let mut h = switcher_with(vec![win(1, "A", "p"), win(2, "B", "p")]);
    h.handle_event(HarpoonEvent::ToggleQuickMenu, None, None);
    let cursor_before = h.quick_menu.state.cursor;
    let e = h.handle_event(HarpoonEvent::SwapWindows { from: 10, to: 11 }, None, None);
    assert!(!e.render);
    assert_eq!(ids(&h), vec![1, 2]);
    assert_eq!(h.quick_menu.state.cursor, cursor_before);
    let e = h.handle_event(HarpoonEvent::SwapWindows { from: 0, to: 9 }, None, None);
    assert!(!e.render);
    assert_eq!(ids(&h), vec![1, 2]);
    assert_eq!(h.quick_menu.state.cursor, cursor_before);
}

#[test]
fn paste_with_empty_clipboard_changes_nothing() {
    let mut h = switcher_with(vec![win(1, "A", "p")]);
    let e = h.handle_event(HarpoonEvent::PasteWindow(0), None, None);
    assert!(!e.render);
    assert_eq!(ids(&h), vec![1]);
}

#[test]
fn toggle_opens_and_closes_the_overlay() {
    let mut h = Harpoon::new(Config::default());
    let e = h.handle_event(HarpoonEvent::ToggleQuickMenu, None, None);
    assert!(e.show_menu && e.render && !e.hide_menu);
    assert!(h.quick_menu.state.open);
    let e = h.handle_event(HarpoonEvent::ToggleQuickMenu, None, None);
    assert!(e.hide_menu && !e.show_menu);
    assert!(!h.quick_menu.state.open);
}

#[test]
fn quit_menu_event_closes_the_overlay() {
    let mut h = Harpoon::new(Config::default());
    h.handle_event(HarpoonEvent::ToggleQuickMenu, None, None);
    let e = h.handle_event(HarpoonEvent::QuickMenuEvent(QuickMenuEvent::Quit), None, None);
    assert!(e.hide_menu);
    assert!(!h.quick_menu.state.open);
    h.handle_event(HarpoonEvent::ToggleQuickMenu, None, None);
    let e = h.handle_event(HarpoonEvent::CloseQuickMenu, None, None);
    assert!(e.hide_menu);
    assert!(!h.quick_menu.state.open);
}

#[test]
fn toggle_inhibit_flips_the_flag_and_reregisters() {
    let mut h = Harpoon::new(Config::default());
    assert!(!h.disable_inhibit);
    let e = h.handle_event(HarpoonEvent::ToggleInhibit, None, None);
    assert!(e.hotkeys_changed);
    assert!(h.disable_inhibit);
    assert!(h.quick_menu.state.disable_inhibit);
    let e = h.handle_event(HarpoonEvent::ToggleInhibit, None, None);
    assert!(e.hotkeys_changed);
    assert!(!h.disable_inhibit);
}
