use harpoon::mouse::{click, click_at, mouse_to_xlib_code, press, release, Mouse, PointerAction};
use harpoon::notification::ToUtf8;
use harpoon::text::{mark_name, str_has_prefix, usize_to_string};

#[test]
fn decimal_rendering_matches_the_usual_notation() {
    assert_eq!(usize_to_string(0), "0");
    assert_eq!(usize_to_string(7), "7");
    assert_eq!(usize_to_string(10), "10");
    assert_eq!(usize_to_string(42), "42");
    assert_eq!(usize_to_string(1234567890), "1234567890");
}

#[test]
fn prefix_check_compares_characters() {
    assert!(str_has_prefix("[CLOSED] editor", "[CLOSED] "));
    assert!(!str_has_prefix("editor", "[CLOSED] "));
    assert!(!str_has_prefix("[CLOSE", "[CLOSED] "));
    assert!(str_has_prefix("anything", ""));
}

#[test]
fn marking_prepends_the_sentinel() {
    assert_eq!(mark_name(&"editor".to_string()), "[CLOSED] editor");
    assert_eq!(mark_name(&"".to_string()), "[CLOSED] ");
}

#[test]
fn buttons_map_to_the_display_server_codes() {
    assert_eq!(mouse_to_xlib_code(Mouse::Left), Some(1));
    assert_eq!(mouse_to_xlib_code(Mouse::Middle), Some(2));
    assert_eq!(mouse_to_xlib_code(Mouse::Right), Some(3));
    assert_eq!(mouse_to_xlib_code(Mouse::Side), Some(4));
    assert_eq!(mouse_to_xlib_code(Mouse::Extra), Some(5));
    assert_eq!(mouse_to_xlib_code(Mouse::Forward), None);
    assert_eq!(mouse_to_xlib_code(Mouse::Back), None);
    assert_eq!(mouse_to_xlib_code(Mouse::Task), None);
}

#[test]
fn click_is_a_press_then_a_release() {
    assert_eq!(
        press(Mouse::Left),
        vec![PointerAction::Button { code: 1, press: true }]
    );
    assert_eq!(
        release(Mouse::Left),
        vec![PointerAction::Button { code: 1, press: false }]
    );
    assert_eq!(
        click(Mouse::Right),
        vec![
            PointerAction::Button { code: 3, press: true },
            PointerAction::Button { code: 3, press: false },
        ]
    );
    assert!(click(Mouse::Task).is_empty());
}

#[test]
fn click_at_warps_the_pointer_first() {
    assert_eq!(
        click_at(12, 34, Mouse::Middle),
        vec![
            PointerAction::MoveTo { x: 12, y: 34 },
            PointerAction::Button { code: 2, press: true },
            PointerAction::Button { code: 2, press: false },
        ]
    );
    // the warp happens even for a button without a code
    assert_eq!(
        click_at(5, 6, Mouse::Forward),
        vec![PointerAction::MoveTo { x: 5, y: 6 }]
    );
}

#[test]
fn utf8_buffers_are_zero_padded() {
    let arr = "hi".to_utf8_arr64();
    assert_eq!(arr[0], b'h');
    assert_eq!(arr[1], b'i');
    assert!(arr[2..].iter().all(|&b| b == 0));

    let arr = "hi".to_string().to_utf8_arr128();
    assert_eq!(&arr[..2], b"hi");
    assert!(arr[2..].iter().all(|&b| b == 0));
}

#[test]
fn utf8_buffers_truncate_long_text_by_bytes() {
    let long = "x".repeat(300);
    let arr = long.to_utf8_arr256();
    assert!(arr.iter().all(|&b| b == b'x'));
    let arr64 = long.as_str().to_utf8_arr64();
    assert!(arr64.iter().all(|&b| b == b'x'));
}
