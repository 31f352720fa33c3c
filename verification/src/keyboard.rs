//! Keys, key chords, and the chord-match predicate used to route the
//! overlay's own keydown events.
//!
//! A configured chord is translated once into a [`FltkKeyCombination`]: the
//! GUI toolkit's numeric key and modifier codes plus the text the chord
//! produces.  A live keydown matches a combination when the modifier set is
//! identical and the produced text characters are an exact set-equality with
//! the event's text, order-independent and case-insensitive.

use vstd::prelude::*;
use vstd::string::StrSliceExecFns;
use vstd::string::StringExecFns;

verus! {

/// A physical key, as the global hook layer names them.
#[derive(Clone, Copy, PartialEq, Eq, Structural, Debug)]
pub enum Keyboard {
    BackSpace,
    Tab,
    Enter,
    Escape,
    Space,
    Home,
    Left,
    Up,
    Right,
    Down,
    Insert,
    Delete,
    Number0,
    Number1,
    Number2,
    Number3,
    Number4,
    Number5,
    Number6,
    Number7,
    Number8,
    Number9,
    A,
    B,
    C,
    D,
    E,
    F,
    G,
    H,
    I,
    J,
    K,
    L,
    M,
    N,
    O,
    P,
    Q,
    R,
    S,
    T,
    U,
    V,
    W,
    X,
    Y,
    Z,
    Numpad0,
    Numpad1,
    Numpad2,
    Numpad3,
    Numpad4,
    Numpad5,
    Numpad6,
    Numpad7,
    Numpad8,
    Numpad9,
    F1,
    F2,
    F3,
    F4,
    F5,
    F6,
    F7,
    F8,
    F9,
    F10,
    F11,
    F12,
    F13,
    F14,
    F15,
    F16,
    F17,
    F18,
    F19,
    F20,
    F21,
    F22,
    F23,
    F24,
    NumLock,
    ScrollLock,
    CapsLock,
    LeftShift,
    RightShift,
    LeftControl,
    RightControl,
    LeftAlt,
    RightAlt,
    LeftWindows,
    RightWindows,
    PageUp,
    PageDown,
    Print,
    PrintScreen,
    Multiply,
    Add,
    Separator,
    Subtract,
    Decimal,
    Divide,
    Comma,
    Period,
    Slash,
    SemiColon,
    Apostrophe,
    LeftBrace,
    BackwardSlash,
    RightBrace,
    Grave,
    Other(i32),
}

// The GUI toolkit's key codes (X keysym values) for the special keys that
// chords may name, and its modifier bits for the event state word.
pub const FLTK_BACKSPACE: i32 = 0xff08;
pub const FLTK_TAB: i32 = 0xff09;
pub const FLTK_ENTER: i32 = 0xff0d;
pub const FLTK_ESCAPE: i32 = 0xff1b;
pub const FLTK_HOME: i32 = 0xff50;
pub const FLTK_LEFT: i32 = 0xff51;
pub const FLTK_UP: i32 = 0xff52;
pub const FLTK_RIGHT: i32 = 0xff53;
pub const FLTK_DOWN: i32 = 0xff54;
pub const FLTK_PAGE_UP: i32 = 0xff55;
pub const FLTK_PAGE_DOWN: i32 = 0xff56;
pub const FLTK_INSERT: i32 = 0xff63;
pub const FLTK_DELETE: i32 = 0xffff;
pub const FLTK_F1: i32 = 0xffbe;
pub const FLTK_F2: i32 = 0xffbf;
pub const FLTK_F3: i32 = 0xffc0;
pub const FLTK_F4: i32 = 0xffc1;
pub const FLTK_F5: i32 = 0xffc2;
pub const FLTK_F6: i32 = 0xffc3;
pub const FLTK_F7: i32 = 0xffc4;
pub const FLTK_F8: i32 = 0xffc5;
pub const FLTK_F9: i32 = 0xffc6;
pub const FLTK_F10: i32 = 0xffc7;
pub const FLTK_F11: i32 = 0xffc8;
pub const FLTK_F12: i32 = 0xffc9;

pub const MOD_SHIFT: i32 = 0x0001_0000;
pub const MOD_CTRL: i32 = 0x0004_0000;
pub const MOD_ALT: i32 = 0x0008_0000;
pub const MOD_META: i32 = 0x0040_0000;

/// The event-state bit the toolkit sets for num lock; it is stripped before
/// chords are compared.
pub const STATE_NUM_LOCK: i32 = 0x0010_0000;

/// The text a key contributes to a chord's produced text.
pub open spec fn spec_key_text(k: Keyboard) -> Seq<char> {
    match k {
        Keyboard::A => "a"@,
        Keyboard::B => "b"@,
        Keyboard::C => "c"@,
        Keyboard::D => "d"@,
        Keyboard::E => "e"@,
        Keyboard::F => "f"@,
        Keyboard::G => "g"@,
        Keyboard::H => "h"@,
        Keyboard::I => "i"@,
        Keyboard::J => "j"@,
        Keyboard::K => "k"@,
        Keyboard::L => "l"@,
        Keyboard::M => "m"@,
        Keyboard::N => "n"@,
        Keyboard::O => "o"@,
        Keyboard::P => "p"@,
        Keyboard::Q => "q"@,
        Keyboard::R => "r"@,
        Keyboard::S => "s"@,
        Keyboard::T => "t"@,
        Keyboard::U => "u"@,
        Keyboard::V => "v"@,
        Keyboard::W => "w"@,
        Keyboard::X => "x"@,
        Keyboard::Y => "y"@,
        Keyboard::Z => "z"@,
        Keyboard::Number0 => "0"@,
        Keyboard::Number1 => "1"@,
        Keyboard::Number2 => "2"@,
        Keyboard::Number3 => "3"@,
        Keyboard::Number4 => "4"@,
        Keyboard::Number5 => "5"@,
        Keyboard::Number6 => "6"@,
        Keyboard::Number7 => "7"@,
        Keyboard::Number8 => "8"@,
        Keyboard::Number9 => "9"@,
        Keyboard::Space => " "@,
        Keyboard::Enter => "\r"@,
        _ => ""@,
    }
}

/// The toolkit key code a key contributes to a chord, or 0 when it
/// contributes none.
pub open spec fn spec_key_code(k: Keyboard) -> i32 {
    match k {
        Keyboard::A => 0x61,
        Keyboard::B => 0x62,
        Keyboard::C => 0x63,
        Keyboard::D => 0x64,
        Keyboard::E => 0x65,
        Keyboard::F => 0x66,
        Keyboard::G => 0x67,
        Keyboard::H => 0x68,
        Keyboard::I => 0x69,
        Keyboard::J => 0x6a,
        Keyboard::K => 0x6b,
        Keyboard::L => 0x6c,
        Keyboard::M => 0x6d,
        Keyboard::N => 0x6e,
        Keyboard::O => 0x6f,
        Keyboard::P => 0x70,
        Keyboard::Q => 0x71,
        Keyboard::R => 0x72,
        Keyboard::S => 0x73,
        Keyboard::T => 0x74,
        Keyboard::U => 0x75,
        Keyboard::V => 0x76,
        Keyboard::W => 0x77,
        Keyboard::X => 0x78,
        Keyboard::Y => 0x79,
        Keyboard::Z => 0x7a,
        Keyboard::Number0 => 0x30,
        Keyboard::Number1 => 0x31,
        Keyboard::Number2 => 0x32,
        Keyboard::Number3 => 0x33,
        Keyboard::Number4 => 0x34,
        Keyboard::Number5 => 0x35,
        Keyboard::Number6 => 0x36,
        Keyboard::Number7 => 0x37,
        Keyboard::Number8 => 0x38,
        Keyboard::Number9 => 0x39,
        Keyboard::BackSpace => FLTK_BACKSPACE,
        Keyboard::Enter => FLTK_ENTER,
        Keyboard::Tab => FLTK_TAB,
        Keyboard::Escape => FLTK_ESCAPE,
        Keyboard::Delete => FLTK_DELETE,
        Keyboard::Insert => FLTK_INSERT,
        Keyboard::Home => FLTK_HOME,
        Keyboard::PageUp => FLTK_PAGE_UP,
        Keyboard::PageDown => FLTK_PAGE_DOWN,
        Keyboard::Up => FLTK_UP,
        Keyboard::Down => FLTK_DOWN,
        Keyboard::Left => FLTK_LEFT,
        Keyboard::Right => FLTK_RIGHT,
        Keyboard::F1 => FLTK_F1,
        Keyboard::F2 => FLTK_F2,
        Keyboard::F3 => FLTK_F3,
        Keyboard::F4 => FLTK_F4,
        Keyboard::F5 => FLTK_F5,
        Keyboard::F6 => FLTK_F6,
        Keyboard::F7 => FLTK_F7,
        Keyboard::F8 => FLTK_F8,
        Keyboard::F9 => FLTK_F9,
        Keyboard::F10 => FLTK_F10,
        Keyboard::F11 => FLTK_F11,
        Keyboard::F12 => FLTK_F12,
        _ => 0,
    }
}

/// The modifier bit a key contributes to a chord, or 0 when it contributes
/// none.
pub open spec fn spec_key_modifier(k: Keyboard) -> i32 {
    match k {
        Keyboard::LeftAlt | Keyboard::RightAlt => MOD_ALT,
        Keyboard::LeftShift | Keyboard::RightShift => MOD_SHIFT,
        Keyboard::LeftControl | Keyboard::RightControl => MOD_CTRL,
        Keyboard::LeftWindows | Keyboard::RightWindows => MOD_META,
        _ => 0,
    }
}

fn key_text(k: Keyboard) -> (r: &'static str)
    ensures
        r@ == spec_key_text(k),
{
    match k {
        Keyboard::A => "a",
        Keyboard::B => "b",
        Keyboard::C => "c",
        Keyboard::D => "d",
        Keyboard::E => "e",
        Keyboard::F => "f",
        Keyboard::G => "g",
        Keyboard::H => "h",
        Keyboard::I => "i",
        Keyboard::J => "j",
        Keyboard::K => "k",
        Keyboard::L => "l",
        Keyboard::M => "m",
        Keyboard::N => "n",
        Keyboard::O => "o",
        Keyboard::P => "p",
        Keyboard::Q => "q",
        Keyboard::R => "r",
        Keyboard::S => "s",
        Keyboard::T => "t",
        Keyboard::U => "u",
        Keyboard::V => "v",
        Keyboard::W => "w",
        Keyboard::X => "x",
        Keyboard::Y => "y",
        Keyboard::Z => "z",
        Keyboard::Number0 => "0",
        Keyboard::Number1 => "1",
        Keyboard::Number2 => "2",
        Keyboard::Number3 => "3",
        Keyboard::Number4 => "4",
        Keyboard::Number5 => "5",
        Keyboard::Number6 => "6",
        Keyboard::Number7 => "7",
        Keyboard::Number8 => "8",
        Keyboard::Number9 => "9",
        Keyboard::Space => " ",
        Keyboard::Enter => "\r",
        _ => "",
    }
}

fn key_code(k: Keyboard) -> (r: i32)
    ensures
        r == spec_key_code(k),
{
    match k {
        Keyboard::A => 0x61,
        Keyboard::B => 0x62,
        Keyboard::C => 0x63,
        Keyboard::D => 0x64,
        Keyboard::E => 0x65,
        Keyboard::F => 0x66,
        Keyboard::G => 0x67,
        Keyboard::H => 0x68,
        Keyboard::I => 0x69,
        Keyboard::J => 0x6a,
        Keyboard::K => 0x6b,
        Keyboard::L => 0x6c,
        Keyboard::M => 0x6d,
        Keyboard::N => 0x6e,
        Keyboard::O => 0x6f,
        Keyboard::P => 0x70,
        Keyboard::Q => 0x71,
        Keyboard::R => 0x72,
        Keyboard::S => 0x73,
        Keyboard::T => 0x74,
        Keyboard::U => 0x75,
        Keyboard::V => 0x76,
        Keyboard::W => 0x77,
        Keyboard::X => 0x78,
        Keyboard::Y => 0x79,
        Keyboard::Z => 0x7a,
        Keyboard::Number0 => 0x30,
        Keyboard::Number1 => 0x31,
        Keyboard::Number2 => 0x32,
        Keyboard::Number3 => 0x33,
        Keyboard::Number4 => 0x34,
        Keyboard::Number5 => 0x35,
        Keyboard::Number6 => 0x36,
        Keyboard::Number7 => 0x37,
        Keyboard::Number8 => 0x38,
        Keyboard::Number9 => 0x39,
        Keyboard::BackSpace => FLTK_BACKSPACE,
        Keyboard::Enter => FLTK_ENTER,
        Keyboard::Tab => FLTK_TAB,
        Keyboard::Escape => FLTK_ESCAPE,
        Keyboard::Delete => FLTK_DELETE,
        Keyboard::Insert => FLTK_INSERT,
        Keyboard::Home => FLTK_HOME,
        Keyboard::PageUp => FLTK_PAGE_UP,
        Keyboard::PageDown => FLTK_PAGE_DOWN,
        Keyboard::Up => FLTK_UP,
        Keyboard::Down => FLTK_DOWN,
        Keyboard::Left => FLTK_LEFT,
        Keyboard::Right => FLTK_RIGHT,
        Keyboard::F1 => FLTK_F1,
        Keyboard::F2 => FLTK_F2,
        Keyboard::F3 => FLTK_F3,
        Keyboard::F4 => FLTK_F4,
        Keyboard::F5 => FLTK_F5,
        Keyboard::F6 => FLTK_F6,
        Keyboard::F7 => FLTK_F7,
        Keyboard::F8 => FLTK_F8,
        Keyboard::F9 => FLTK_F9,
        Keyboard::F10 => FLTK_F10,
        Keyboard::F11 => FLTK_F11,
        Keyboard::F12 => FLTK_F12,
        _ => 0,
    }
}

fn key_modifier(k: Keyboard) -> (r: i32)
    ensures
        r == spec_key_modifier(k),
{
    match k {
        Keyboard::LeftAlt | Keyboard::RightAlt => MOD_ALT,
        Keyboard::LeftShift | Keyboard::RightShift => MOD_SHIFT,
        Keyboard::LeftControl | Keyboard::RightControl => MOD_CTRL,
        Keyboard::LeftWindows | Keyboard::RightWindows => MOD_META,
        _ => 0,
    }
}

/// The produced text of a whole chord: each key's text, in chord order.
pub open spec fn spec_chord_text(s: Seq<Keyboard>) -> Seq<char>
    decreases s.len(),
{
    if s.len() == 0 {
        Seq::empty()
    } else {
        spec_chord_text(s.drop_last()) + spec_key_text(s.last())
    }
}

/// The toolkit key word of a whole chord: the key codes folded together.
pub open spec fn spec_chord_keys(s: Seq<Keyboard>) -> i32
    decreases s.len(),
{
    if s.len() == 0 {
        0
    } else {
        spec_chord_keys(s.drop_last()) | spec_key_code(s.last())
    }
}

/// The modifier word of a whole chord: the modifier bits folded together.
pub open spec fn spec_chord_modifiers(s: Seq<Keyboard>) -> i32
    decreases s.len(),
{
    if s.len() == 0 {
        0
    } else {
        spec_chord_modifiers(s.drop_last()) | spec_key_modifier(s.last())
    }
}

/// The display name of a key, as it appears in shortcut hints.
pub open spec fn spec_key_name(k: Keyboard) -> Seq<char> {
    match k {
        Keyboard::BackSpace => "BackSpace"@,
        Keyboard::Tab => "Tab"@,
        Keyboard::Enter => "Enter"@,
        Keyboard::Escape => "Escape"@,
        Keyboard::Space => "Space"@,
        Keyboard::Home => "Home"@,
        Keyboard::Left => "Left"@,
        Keyboard::Up => "Up"@,
        Keyboard::Right => "Right"@,
        Keyboard::Down => "Down"@,
        Keyboard::Insert => "Insert"@,
        Keyboard::Delete => "Delete"@,
        Keyboard::Number0 => "Number0"@,
        Keyboard::Number1 => "Number1"@,
        Keyboard::Number2 => "Number2"@,
        Keyboard::Number3 => "Number3"@,
        Keyboard::Number4 => "Number4"@,
        Keyboard::Number5 => "Number5"@,
        Keyboard::Number6 => "Number6"@,
        Keyboard::Number7 => "Number7"@,
        Keyboard::Number8 => "Number8"@,
        Keyboard::Number9 => "Number9"@,
        Keyboard::A => "A"@,
        Keyboard::B => "B"@,
        Keyboard::C => "C"@,
        Keyboard::D => "D"@,
        Keyboard::E => "E"@,
        Keyboard::F => "F"@,
        Keyboard::G => "G"@,
        Keyboard::H => "H"@,
        Keyboard::I => "I"@,
        Keyboard::J => "J"@,
        Keyboard::K => "K"@,
        Keyboard::L => "L"@,
        Keyboard::M => "M"@,
        Keyboard::N => "N"@,
        Keyboard::O => "O"@,
        Keyboard::P => "P"@,
        Keyboard::Q => "Q"@,
        Keyboard::R => "R"@,
        Keyboard::S => "S"@,
        Keyboard::T => "T"@,
        Keyboard::U => "U"@,
        Keyboard::V => "V"@,
        Keyboard::W => "W"@,
        Keyboard::X => "X"@,
        Keyboard::Y => "Y"@,
        Keyboard::Z => "Z"@,
        Keyboard::Numpad0 => "Numpad0"@,
        Keyboard::Numpad1 => "Numpad1"@,
        Keyboard::Numpad2 => "Numpad2"@,
        Keyboard::Numpad3 => "Numpad3"@,
        Keyboard::Numpad4 => "Numpad4"@,
        Keyboard::Numpad5 => "Numpad5"@,
        Keyboard::Numpad6 => "Numpad6"@,
        Keyboard::Numpad7 => "Numpad7"@,
        Keyboard::Numpad8 => "Numpad8"@,
        Keyboard::Numpad9 => "Numpad9"@,
        Keyboard::F1 => "F1"@,
        Keyboard::F2 => "F2"@,
        Keyboard::F3 => "F3"@,
        Keyboard::F4 => "F4"@,
        Keyboard::F5 => "F5"@,
        Keyboard::F6 => "F6"@,
        Keyboard::F7 => "F7"@,
        Keyboard::F8 => "F8"@,
        Keyboard::F9 => "F9"@,
        Keyboard::F10 => "F10"@,
        Keyboard::F11 => "F11"@,
        Keyboard::F12 => "F12"@,
        Keyboard::F13 => "F13"@,
        Keyboard::F14 => "F14"@,
        Keyboard::F15 => "F15"@,
        Keyboard::F16 => "F16"@,
        Keyboard::F17 => "F17"@,
        Keyboard::F18 => "F18"@,
        Keyboard::F19 => "F19"@,
        Keyboard::F20 => "F20"@,
        Keyboard::F21 => "F21"@,
        Keyboard::F22 => "F22"@,
        Keyboard::F23 => "F23"@,
        Keyboard::F24 => "F24"@,
        Keyboard::NumLock => "NumLock"@,
        Keyboard::ScrollLock => "ScrollLock"@,
        Keyboard::CapsLock => "CapsLock"@,
        Keyboard::LeftShift => "LeftShift"@,
        Keyboard::RightShift => "RightShift"@,
        Keyboard::LeftControl => "LeftControl"@,
        Keyboard::RightControl => "RightControl"@,
        Keyboard::LeftAlt => "LeftAlt"@,
        Keyboard::RightAlt => "RightAlt"@,
        Keyboard::LeftWindows => "LeftWindows"@,
        Keyboard::RightWindows => "RightWindows"@,
        Keyboard::PageUp => "PageUp"@,
        Keyboard::PageDown => "PageDown"@,
        Keyboard::Print => "Print"@,
        Keyboard::PrintScreen => "PrintScreen"@,
        Keyboard::Multiply => "Multiply"@,
        Keyboard::Add => "Add"@,
        Keyboard::Separator => "Separator"@,
        Keyboard::Subtract => "Subtract"@,
        Keyboard::Decimal => "Decimal"@,
        Keyboard::Divide => "Divide"@,
        Keyboard::Comma => "Comma"@,
        Keyboard::Period => "Period"@,
        Keyboard::Slash => "Slash"@,
        Keyboard::SemiColon => "SemiColon"@,
        Keyboard::Apostrophe => "Apostrophe"@,
        Keyboard::LeftBrace => "LeftBrace"@,
        Keyboard::BackwardSlash => "BackwardSlash"@,
        Keyboard::RightBrace => "RightBrace"@,
        Keyboard::Grave => "Grave"@,
        Keyboard::Other(_) => "Other"@,
    }
}

/// The display name of a key.
pub fn key_name(k: Keyboard) -> (r: &'static str)
    ensures
        r@ == spec_key_name(k),
{
    match k {
        Keyboard::BackSpace => "BackSpace",
        Keyboard::Tab => "Tab",
        Keyboard::Enter => "Enter",
        Keyboard::Escape => "Escape",
        Keyboard::Space => "Space",
        Keyboard::Home => "Home",
        Keyboard::Left => "Left",
        Keyboard::Up => "Up",
        Keyboard::Right => "Right",
        Keyboard::Down => "Down",
        Keyboard::Insert => "Insert",
        Keyboard::Delete => "Delete",
        Keyboard::Number0 => "Number0",
        Keyboard::Number1 => "Number1",
        Keyboard::Number2 => "Number2",
        Keyboard::Number3 => "Number3",
        Keyboard::Number4 => "Number4",
        Keyboard::Number5 => "Number5",
        Keyboard::Number6 => "Number6",
        Keyboard::Number7 => "Number7",
        Keyboard::Number8 => "Number8",
        Keyboard::Number9 => "Number9",
        Keyboard::A => "A",
        Keyboard::B => "B",
        Keyboard::C => "C",
        Keyboard::D => "D",
        Keyboard::E => "E",
        Keyboard::F => "F",
        Keyboard::G => "G",
        Keyboard::H => "H",
        Keyboard::I => "I",
        Keyboard::J => "J",
        Keyboard::K => "K",
        Keyboard::L => "L",
        Keyboard::M => "M",
        Keyboard::N => "N",
        Keyboard::O => "O",
        Keyboard::P => "P",
        Keyboard::Q => "Q",
        Keyboard::R => "R",
        Keyboard::S => "S",
        Keyboard::T => "T",
        Keyboard::U => "U",
        Keyboard::V => "V",
        Keyboard::W => "W",
        Keyboard::X => "X",
        Keyboard::Y => "Y",
        Keyboard::Z => "Z",
        Keyboard::Numpad0 => "Numpad0",
        Keyboard::Numpad1 => "Numpad1",
        Keyboard::Numpad2 => "Numpad2",
        Keyboard::Numpad3 => "Numpad3",
        Keyboard::Numpad4 => "Numpad4",
        Keyboard::Numpad5 => "Numpad5",
        Keyboard::Numpad6 => "Numpad6",
        Keyboard::Numpad7 => "Numpad7",
        Keyboard::Numpad8 => "Numpad8",
        Keyboard::Numpad9 => "Numpad9",
        Keyboard::F1 => "F1",
        Keyboard::F2 => "F2",
        Keyboard::F3 => "F3",
        Keyboard::F4 => "F4",
        Keyboard::F5 => "F5",
        Keyboard::F6 => "F6",
        Keyboard::F7 => "F7",
        Keyboard::F8 => "F8",
        Keyboard::F9 => "F9",
        Keyboard::F10 => "F10",
        Keyboard::F11 => "F11",
        Keyboard::F12 => "F12",
        Keyboard::F13 => "F13",
        Keyboard::F14 => "F14",
        Keyboard::F15 => "F15",
        Keyboard::F16 => "F16",
        Keyboard::F17 => "F17",
        Keyboard::F18 => "F18",
        Keyboard::F19 => "F19",
        Keyboard::F20 => "F20",
        Keyboard::F21 => "F21",
        Keyboard::F22 => "F22",
        Keyboard::F23 => "F23",
        Keyboard::F24 => "F24",
        Keyboard::NumLock => "NumLock",
        Keyboard::ScrollLock => "ScrollLock",
        Keyboard::CapsLock => "CapsLock",
        Keyboard::LeftShift => "LeftShift",
        Keyboard::RightShift => "RightShift",
        Keyboard::LeftControl => "LeftControl",
        Keyboard::RightControl => "RightControl",
        Keyboard::LeftAlt => "LeftAlt",
        Keyboard::RightAlt => "RightAlt",
        Keyboard::LeftWindows => "LeftWindows",
        Keyboard::RightWindows => "RightWindows",
        Keyboard::PageUp => "PageUp",
        Keyboard::PageDown => "PageDown",
        Keyboard::Print => "Print",
        Keyboard::PrintScreen => "PrintScreen",
        Keyboard::Multiply => "Multiply",
        Keyboard::Add => "Add",
        Keyboard::Separator => "Separator",
        Keyboard::Subtract => "Subtract",
        Keyboard::Decimal => "Decimal",
        Keyboard::Divide => "Divide",
        Keyboard::Comma => "Comma",
        Keyboard::Period => "Period",
        Keyboard::Slash => "Slash",
        Keyboard::SemiColon => "SemiColon",
        Keyboard::Apostrophe => "Apostrophe",
        Keyboard::LeftBrace => "LeftBrace",
        Keyboard::BackwardSlash => "BackwardSlash",
        Keyboard::RightBrace => "RightBrace",
        Keyboard::Grave => "Grave",
        Keyboard::Other(_) => "Other",
    }
}

/// A chord translated to what the GUI toolkit reports on keydown: a key
/// word, a modifier word and the produced text.
///
/// This keeps the configuration file format independent from the toolkit:
/// chords are stored as key lists and translated here once.
#[derive(Clone, PartialEq, Debug)]
pub struct FltkKeyCombination {
    pub keys: i32,
    pub modifiers: i32,
    pub text: String,
}

/// A character lowered to its ASCII lowercase counterpart.
pub open spec fn spec_lower_char(c: char) -> char {
    if c == 'A' {
        'a'
    } else if c == 'B' {
        'b'
    } else if c == 'C' {
        'c'
    } else if c == 'D' {
        'd'
    } else if c == 'E' {
        'e'
    } else if c == 'F' {
        'f'
    } else if c == 'G' {
        'g'
    } else if c == 'H' {
        'h'
    } else if c == 'I' {
        'i'
    } else if c == 'J' {
        'j'
    } else if c == 'K' {
        'k'
    } else if c == 'L' {
        'l'
    } else if c == 'M' {
        'm'
    } else if c == 'N' {
        'n'
    } else if c == 'O' {
        'o'
    } else if c == 'P' {
        'p'
    } else if c == 'Q' {
        'q'
    } else if c == 'R' {
        'r'
    } else if c == 'S' {
        's'
    } else if c == 'T' {
        't'
    } else if c == 'U' {
        'u'
    } else if c == 'V' {
        'v'
    } else if c == 'W' {
        'w'
    } else if c == 'X' {
        'x'
    } else if c == 'Y' {
        'y'
    } else if c == 'Z' {
        'z'
    } else {
        c
    }
}

/// A character sequence lowered character by character.
pub open spec fn spec_lower_seq(s: Seq<char>) -> Seq<char> {
    s.map_values(|c: char| spec_lower_char(c))
}

/// Set-equality of the characters of two sequences: each character of one
/// occurs somewhere in the other.
pub open spec fn spec_char_set_eq(a: Seq<char>, b: Seq<char>) -> bool {
    &&& forall|i: int| 0 <= i < a.len() ==> b.contains(#[trigger] a[i])
    &&& forall|i: int| 0 <= i < b.len() ==> a.contains(#[trigger] b[i])
}

fn lower_char(c: char) -> (r: char)
    ensures
        r == spec_lower_char(c),
{
    if c == 'A' {
        'a'
    } else if c == 'B' {
        'b'
    } else if c == 'C' {
        'c'
    } else if c == 'D' {
        'd'
    } else if c == 'E' {
        'e'
    } else if c == 'F' {
        'f'
    } else if c == 'G' {
        'g'
    } else if c == 'H' {
        'h'
    } else if c == 'I' {
        'i'
    } else if c == 'J' {
        'j'
    } else if c == 'K' {
        'k'
    } else if c == 'L' {
        'l'
    } else if c == 'M' {
        'm'
    } else if c == 'N' {
        'n'
    } else if c == 'O' {
        'o'
    } else if c == 'P' {
        'p'
    } else if c == 'Q' {
        'q'
    } else if c == 'R' {
        'r'
    } else if c == 'S' {
        's'
    } else if c == 'T' {
        't'
    } else if c == 'U' {
        'u'
    } else if c == 'V' {
        'v'
    } else if c == 'W' {
        'w'
    } else if c == 'X' {
        'x'
    } else if c == 'Y' {
        'y'
    } else if c == 'Z' {
        'z'
    } else {
        c
    }
}

/// Whether the lowered characters of `hay` contain `c` (`c` already
/// lowered).
fn lowered_contains(hay: &str, c: char) -> (r: bool)
    ensures
        r == spec_lower_seq(hay@).contains(c),
{
    let len = hay.unicode_len();
    let mut i: usize = 0;
    while i < len
        invariant
            i <= len,
            len == hay@.len(),
            forall|j: int| 0 <= j < i ==> spec_lower_seq(hay@)[j] != c,
        decreases len - i,
    {
        if lower_char(hay.get_char(i)) == c {
            assert(spec_lower_seq(hay@)[i as int] == c);
            return true;
        }
        i = i + 1;
    }
    assert(forall|j: int| 0 <= j < hay@.len() ==> spec_lower_seq(hay@)[j] != c);
    false
}

/// Whether every lowered character of `a` occurs among the lowered
/// characters of `b`.
fn lowered_subset(a: &str, b: &str) -> (r: bool)
    ensures
        r == forall|i: int| 0 <= i < a@.len()
            ==> spec_lower_seq(b@).contains(#[trigger] spec_lower_seq(a@)[i]),
{
    let len = a.unicode_len();
    let mut i: usize = 0;
    while i < len
        invariant
            i <= len,
            len == a@.len(),
            forall|j: int| 0 <= j < i
                ==> spec_lower_seq(b@).contains(#[trigger] spec_lower_seq(a@)[j]),
        decreases len - i,
    {
        let c = lower_char(a.get_char(i));
        assert(c == spec_lower_seq(a@)[i as int]);
        if !lowered_contains(b, c) {
            return false;
        }
        i = i + 1;
    }
    true
}

impl FltkKeyCombination {
    /// The chord-match predicate: the modifier set is identical, and the
    /// produced text characters are an exact set-equality with the event's
    /// text, order-independent and case-insensitive.
    pub open spec fn spec_is_triggered(&self, event_state: i32, event_text: Seq<char>) -> bool {
        &&& self.modifiers == event_state
        &&& spec_char_set_eq(spec_lower_seq(self.text@), spec_lower_seq(event_text))
    }

    /// Create a combination from a configured chord.
    pub fn from_mki_vec(shortcut: &Vec<Keyboard>) -> (r: FltkKeyCombination)
        ensures
            r.keys == spec_chord_keys(shortcut@),
            r.modifiers == spec_chord_modifiers(shortcut@),
            r.text@ == spec_chord_text(shortcut@),
    {
        let mut keys: i32 = 0;
        let mut modifiers: i32 = 0;
        let mut text = String::new();
        let len = shortcut.len();
        let mut i: usize = 0;
        while i < len
            invariant
                i <= len,
                len == shortcut@.len(),
                keys == spec_chord_keys(shortcut@.subrange(0, i as int)),
                modifiers == spec_chord_modifiers(shortcut@.subrange(0, i as int)),
                text@ == spec_chord_text(shortcut@.subrange(0, i as int)),
            decreases len - i,
        {
            let k = shortcut[i];
            keys = keys | key_code(k);
            modifiers = modifiers | key_modifier(k);
            text.append(key_text(k));
            proof {
                let pre = shortcut@.subrange(0, i as int);
                let cur = shortcut@.subrange(0, i + 1 as int);
                assert(cur.drop_last() =~= pre);
                assert(cur.last() == shortcut@[i as int]);
            }
            i = i + 1;
        }
        proof {
            assert(shortcut@.subrange(0, len as int) =~= shortcut@);
        }
        FltkKeyCombination { keys, modifiers, text }
    }

    /// Whether a live keydown triggers this combination.
    ///
    /// The toolkit's key code itself is deliberately not compared: matching
    /// on the identical modifier set plus the produced text lets a single
    /// physical key match correctly regardless of shift-state quirks.
    pub fn is_triggered(&self, _event_key: i32, event_state: i32, event_text: &str) -> (r: bool)
        ensures
            r == self.spec_is_triggered(event_state, event_text@),
    {
        if self.modifiers != event_state {
            return false;
        }
        lowered_subset(self.text.as_str(), event_text)
            && lowered_subset(event_text, self.text.as_str())
    }
}

} // verus!
