use harpoon::registry::WindowRegistry;
use harpoon::window::{ApplicationWindow, WindowPosition, WindowState};

fn win(id: isize, title: &str, process_name: &str) -> ApplicationWindow {
    ApplicationWindow {
        window_id: id,
        title: title.to_string(),
        process_path: format!("C:\\bin\\{}.exe", process_name),
        position: WindowPosition { x: 10, y: 20, width: 640, height: 480 },
        state: WindowState::Normal,
        process_name: process_name.to_string(),
    }
}

fn ids(r: &WindowRegistry) -> Vec<isize> {
    r.windows.iter().map(|w| w.window_id).collect()
}

#[test]
fn add_appends_new_windows_in_order() {
    let mut r = WindowRegistry::new();
    r.add_current(win(1, "a", "pa"));
    r.add_current(win(2, "b", "pb"));
    r.add_current(win(3, "c", "pc"));
    assert_eq!(ids(&r), vec![1, 2, 3]);
    assert!(r.clipboard.is_none());
}

#[test]
fn add_same_handle_replaces_in_place() {
    let mut r = WindowRegistry::new();
    r.add_current(win(100, "Editor", "editor"));
    assert_eq!(r.windows.len(), 1);
    r.add_current(win(100, "Editor*", "editor"));
    assert_eq!(r.windows.len(), 1);
    assert_eq!(r.windows[0].title, "Editor*");
    assert_eq!(r.windows[0].window_id, 100);
}

#[test]
fn add_replaces_at_original_slot() {
    let mut r = WindowRegistry::new();
    r.add_current(win(1, "a", "pa"));
    r.add_current(win(2, "b", "pb"));
    r.add_current(win(3, "c", "pc"));
    r.add_current(win(2, "b2", "pb"));
    assert_eq!(ids(&r), vec![1, 2, 3]);
    assert_eq!(r.windows[1].title, "b2");
}

#[test]
fn swap_exchanges_slots() {
    let mut r = WindowRegistry::new();
    r.add_current(win(1, "a", "pa"));
    r.add_current(win(2, "b", "pb"));
    r.add_current(win(3, "c", "pc"));
    r.swap(0, 2);
    assert_eq!(ids(&r), vec![3, 2, 1]);
}

#[test]
fn swap_out_of_range_is_noop() {
    let mut r = WindowRegistry::new();
    r.add_current(win(1, "a", "pa"));
    r.add_current(win(2, "b", "pb"));
    r.swap(0, 5);
    assert_eq!(ids(&r), vec![1, 2]);
}

#[test]
fn cut_removes_and_fills_clipboard() {
    let mut r = WindowRegistry::new();
    r.add_current(win(1, "a", "pa"));
    r.add_current(win(2, "b", "pb"));
    r.add_current(win(3, "c", "pc"));
    let did = r.cut(1);
    assert!(did);
    assert_eq!(ids(&r), vec![1, 3]);
    assert_eq!(r.clipboard.as_ref().unwrap().window_id, 2);
}

#[test]
fn cut_out_of_range_is_noop() {
    let mut r = WindowRegistry::new();
    r.add_current(win(1, "a", "pa"));
    let did = r.cut(7);
    assert!(!did);
    assert_eq!(ids(&r), vec![1]);
    assert!(r.clipboard.is_none());
}

#[test]
fn paste_at_same_index_restores_the_sequence() {
    // cut/paste inverse: paste(i) after cut(i) reconstructs the original
    // list, content and order alike
    for i in 0..3 {
        let mut r = WindowRegistry::new();
        r.add_current(win(1, "a", "pa"));
        r.add_current(win(2, "b", "pb"));
        r.add_current(win(3, "c", "pc"));
        let before = ids(&r);
        r.cut(i);
        r.paste(i);
        assert_eq!(ids(&r), before);
        assert!(r.clipboard.is_none());
    }
}

#[test]
fn paste_clamps_index_past_the_end() {
    let mut r = WindowRegistry::new();
    r.add_current(win(1, "a", "pa"));
    r.add_current(win(2, "b", "pb"));
    r.cut(0);
    r.paste(99);
    assert_eq!(ids(&r), vec![2, 1]);
}

#[test]
fn paste_with_empty_clipboard_is_noop() {
    let mut r = WindowRegistry::new();
    r.add_current(win(1, "a", "pa"));
    r.paste(0);
    assert_eq!(ids(&r), vec![1]);
}

#[test]
fn mark_stale_prefixes_the_process_name() {
    let mut r = WindowRegistry::new();
    r.add_current(win(1, "a", "editor"));
    r.mark_stale(1);
    assert_eq!(r.windows[0].process_name, "[CLOSED] editor");
    assert_eq!(r.windows[0].title, "a");
}

#[test]
fn mark_stale_is_idempotent() {
    // marking an already-marked window again does not double the sentinel
    let mut r = WindowRegistry::new();
    r.add_current(win(1, "a", "editor"));
    r.mark_stale(1);
    r.mark_stale(1);
    assert_eq!(r.windows[0].process_name, "[CLOSED] editor");
}

#[test]
fn mark_stale_unknown_handle_is_noop() {
    let mut r = WindowRegistry::new();
    r.add_current(win(1, "a", "editor"));
    r.mark_stale(42);
    assert_eq!(r.windows[0].process_name, "editor");
}

#[test]
fn update_title_touches_only_the_matching_window() {
    let mut r = WindowRegistry::new();
    r.add_current(win(1, "a", "pa"));
    r.add_current(win(2, "b", "pb"));
    r.update_title(2, "fresh".to_string());
    assert_eq!(r.windows[0].title, "a");
    assert_eq!(r.windows[1].title, "fresh");
}

#[test]
fn position_of_finds_first_slot() {
    let mut r = WindowRegistry::new();
    r.add_current(win(5, "a", "pa"));
    r.add_current(win(6, "b", "pb"));
    assert_eq!(r.position_of(6), Some(1));
    assert_eq!(r.position_of(7), None);
}
