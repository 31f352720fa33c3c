//! Pointer actions, modelled as data: the display-server button codes and
//! the exact event sequences that presses, releases and clicks produce.
//! The caller feeds each [`PointerAction`] to the display server in order.

use vstd::prelude::*;

verus! {

/// A pointer button, as the global hook layer names them.
#[derive(Clone, Copy, PartialEq, Eq, Structural, Debug)]
pub enum Mouse {
    Left,
    Middle,
    Right,
    Side,
    Extra,
    Forward,
    Back,
    Task,
}

/// One pointer event for the display server.
#[derive(Clone, Copy, PartialEq, Eq, Structural, Debug)]
pub enum PointerAction {
    /// Warp the pointer to absolute screen coordinates.
    MoveTo { x: i32, y: i32 },
    /// Press (`press == true`) or release a button, by its display-server
    /// code.
    Button { code: u32, press: bool },
}

/// The display server's code for a button; the buttons it has no code for
/// map to `None` and produce no events.
pub open spec fn spec_mouse_to_xlib_code(mouse: Mouse) -> Option<u32> {
    match mouse {
        Mouse::Left => Some(1u32),
        Mouse::Right => Some(3u32),
        Mouse::Middle => Some(2u32),
        Mouse::Side => Some(4u32),
        Mouse::Extra => Some(5u32),
        Mouse::Forward | Mouse::Back | Mouse::Task => None,
    }
}

/// The display server's code for a button.
pub fn mouse_to_xlib_code(mouse: Mouse) -> (r: Option<u32>)
    ensures
        r == spec_mouse_to_xlib_code(mouse),
{
    match mouse {
        Mouse::Left => Some(1),
        Mouse::Right => Some(3),
        Mouse::Middle => Some(2),
        Mouse::Side => Some(4),
        Mouse::Extra => Some(5),
        Mouse::Forward | Mouse::Back | Mouse::Task => None,
    }
}

/// The events of pressing `button` and holding it: one press event, or none
/// for a button without a code.
pub fn press(button: Mouse) -> (r: Vec<PointerAction>)
    ensures
        spec_mouse_to_xlib_code(button) matches Some(code)
            ==> r@ =~= seq![PointerAction::Button { code, press: true }],
        spec_mouse_to_xlib_code(button) is None ==> r@ =~= Seq::<PointerAction>::empty(),
{
    let mut r: Vec<PointerAction> = Vec::new();
    match mouse_to_xlib_code(button) {
        Some(code) => {
            r.push(PointerAction::Button { code, press: true });
        },
        None => {},
    }
    r
}

/// The events of releasing `button`: one release event, or none for a
/// button without a code.
pub fn release(button: Mouse) -> (r: Vec<PointerAction>)
    ensures
        spec_mouse_to_xlib_code(button) matches Some(code)
            ==> r@ =~= seq![PointerAction::Button { code, press: false }],
        spec_mouse_to_xlib_code(button) is None ==> r@ =~= Seq::<PointerAction>::empty(),
{
    let mut r: Vec<PointerAction> = Vec::new();
    match mouse_to_xlib_code(button) {
        Some(code) => {
            r.push(PointerAction::Button { code, press: false });
        },
        None => {},
    }
    r
}

/// The events of a click: a press followed by a release, or nothing for a
/// button without a code.
pub fn click(button: Mouse) -> (r: Vec<PointerAction>)
    ensures
        spec_mouse_to_xlib_code(button) matches Some(code) ==> r@ =~= seq![
            PointerAction::Button { code, press: true },
            PointerAction::Button { code, press: false },
        ],
        spec_mouse_to_xlib_code(button) is None ==> r@ =~= Seq::<PointerAction>::empty(),
{
    let mut r = press(button);
    let mut rel = release(button);
    r.append(&mut rel);
    r
}

/// The events of a click at a position: warp the pointer there, then click.
/// The warp happens even for a button without a code, as the pointer has
/// already moved by the time the button is looked up.
pub fn click_at(x: i32, y: i32, button: Mouse) -> (r: Vec<PointerAction>)
    ensures
        spec_mouse_to_xlib_code(button) matches Some(code) ==> r@ =~= seq![
            PointerAction::MoveTo { x, y },
            PointerAction::Button { code, press: true },
            PointerAction::Button { code, press: false },
        ],
        spec_mouse_to_xlib_code(button) is None
            ==> r@ =~= seq![PointerAction::MoveTo { x, y }],
{
    let mut r: Vec<PointerAction> = Vec::new();
    r.push(PointerAction::MoveTo { x, y });
    let mut rest = click(button);
    r.append(&mut rest);
    r
}

} // verus!
