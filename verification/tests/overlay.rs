use harpoon::config::Config;
use harpoon::quick_menu::{QuickMenu, QuickMenuStateUpdate};
use harpoon::window::{ApplicationWindow, WindowPosition, WindowState};

fn win(id: isize, title: &str, process_name: &str) -> ApplicationWindow {
    ApplicationWindow {
        window_id: id,
        title: title.to_string(),
        process_path: format!("/bin/{}", process_name),
        position: WindowPosition { x: 0, y: 0, width: 800, height: 600 },
        state: WindowState::Normal,
        process_name: process_name.to_string(),
    }
}

fn menu_with(windows: Vec<ApplicationWindow>) -> QuickMenu {
    let mut m = QuickMenu::new(&Config::default());
    m.update_state(&QuickMenuStateUpdate::new().with_windows(windows));
    m
}

#[test]
fn cursor_stays_in_bounds_for_any_delta_sequence() {
    let mut m = menu_with(vec![win(1, "a", "p"), win(2, "b", "p"), win(3, "c", "p")]);
    let deltas: [i128; 9] = [-5, 100, -1, -1, -1, -1, 2, 7, -1000];
    for d in deltas {
        m.update_state(&QuickMenuStateUpdate::new().with_cursor_delta(d));
        assert!(m.state.cursor < 3);
    }
}

#[test]
fn cursor_on_empty_list_is_zero() {
    let mut m = menu_with(vec![]);
    for d in [-3i128, 5, 0] {
        m.update_state(&QuickMenuStateUpdate::new().with_cursor_delta(d));
        assert_eq!(m.state.cursor, 0);
    }
}

#[test]
fn move_up_at_top_is_idempotent() {
    let mut m = menu_with(vec![win(1, "a", "p"), win(2, "b", "p")]);
    assert_eq!(m.state.cursor, 0);
    for _ in 0..4 {
        m.update_state(&QuickMenuStateUpdate::new().with_cursor_delta(-1));
        assert_eq!(m.state.cursor, 0);
    }
}

#[test]
fn cursor_clamps_when_the_list_shrinks() {
    let mut m = menu_with(vec![win(1, "a", "p"), win(2, "b", "p"), win(3, "c", "p")]);
    m.update_state(&QuickMenuStateUpdate::new().with_cursor_delta(2));
    assert_eq!(m.state.cursor, 2);
    m.update_state(&QuickMenuStateUpdate::new().with_windows(vec![win(1, "a", "p")]));
    assert_eq!(m.state.cursor, 0);
}

#[test]
fn cursor_follows_a_window_by_handle() {
    let mut m = menu_with(vec![win(1, "a", "p"), win(2, "b", "p"), win(3, "c", "p")]);
    m.update_state(&QuickMenuStateUpdate::new().with_active_window(3));
    assert_eq!(m.state.cursor, 2);
    // an unknown handle leaves the cursor where it is
    m.update_state(&QuickMenuStateUpdate::new().with_active_window(9));
    assert_eq!(m.state.cursor, 2);
}

#[test]
fn update_replaces_windows_element_by_element() {
    let mut m = menu_with(vec![win(1, "a", "p"), win(2, "b", "p")]);
    m.update_state(&QuickMenuStateUpdate::new().with_windows(vec![
        win(4, "d", "p"),
        win(5, "e", "p"),
        win(6, "f", "p"),
    ]));
    let got: Vec<isize> = m.state.windows.iter().map(|w| w.window_id).collect();
    assert_eq!(got, vec![4, 5, 6]);
    m.update_state(&QuickMenuStateUpdate::new().with_windows(vec![win(7, "g", "p")]));
    let got: Vec<isize> = m.state.windows.iter().map(|w| w.window_id).collect();
    assert_eq!(got, vec![7]);
}

#[test]
fn update_with_nothing_reports_no_render() {
    let mut m = menu_with(vec![win(1, "a", "p")]);
    m.show();
    assert!(!m.update_state(&QuickMenuStateUpdate::new()));
    assert!(!m.update_state(&QuickMenuStateUpdate::new().with_disable_inhibit(true)));
    assert!(m.state.disable_inhibit);
    assert!(m.update_state(&QuickMenuStateUpdate::new().with_cursor_delta(0)));
}

#[test]
fn render_needed_only_while_open() {
    let mut m = menu_with(vec![win(1, "a", "p")]);
    assert!(!m.state.open);
    assert!(!m.update_state(&QuickMenuStateUpdate::new().with_cursor_delta(1)));
    m.show();
    assert!(m.update_state(&QuickMenuStateUpdate::new().with_cursor_delta(1)));
}

#[test]
fn toggle_flips_between_open_and_closed() {
    let mut m = menu_with(vec![]);
    assert!(!m.state.open);
    assert!(m.toggle());
    assert!(m.state.open);
    assert!(!m.toggle());
    assert!(!m.state.open);
    m.show();
    assert!(m.state.open);
    m.close();
    assert!(!m.state.open);
}

#[test]
fn render_lists_one_labelled_row_per_window() {
    let m = menu_with(vec![win(1, "alpha", "proc1"), win(2, "beta", "proc2")]);
    let r = m.render_window_list();
    assert!(r.hint.is_none());
    assert_eq!(r.rows.len(), 2);
    assert_eq!(r.rows[0].label, "1: proc1: \"alpha\"");
    assert_eq!(r.rows[1].label, "2: proc2: \"beta\"");
    assert!(r.rows[0].selected);
    assert!(!r.rows[1].selected);
    assert_eq!(r.height, 60);
    assert_eq!(r.y, 50);
}

#[test]
fn render_scrolls_past_the_visibility_threshold() {
    let windows: Vec<ApplicationWindow> =
        (1..=8).map(|i| win(i as isize, "t", "p")).collect();
    let mut m = menu_with(windows);
    m.update_state(&QuickMenuStateUpdate::new().with_cursor_delta(5));
    let r = m.render_window_list();
    // 8 rows of 30 = 240 > 200, cursor 5: list shifts up by 3 rows
    assert_eq!(r.height, 240);
    assert_eq!(r.y, 50 - 30 * 3);
}

#[test]
fn render_of_empty_registry_is_a_hint_row() {
    let m = menu_with(vec![]);
    let r = m.render_window_list();
    assert_eq!(r.rows.len(), 0);
    assert_eq!(
        r.hint.as_deref(),
        Some("No windows added, press LeftControl + LeftAlt + A to add a window")
    );
    assert_eq!(r.height, 50);
}
