//! Core of a keyboard-driven window switcher.
//!
//! The library holds the event-driven window registry, the navigation state
//! machine and the overlay menu's state-synchronization protocol: everything
//! that decides, given a stream of hotkey and menu events, how the ordered
//! window list changes, how the current window is resolved, and how the
//! overlay's cursor stays consistent with the list.  All OS work (global key
//! hooks, window activation, drawing) lives outside the library and talks to
//! it through plain values.

pub mod config;
pub mod harpoon;
pub mod keyboard;
pub mod mouse;
pub mod notification;
pub mod quick_menu;
pub mod registry;
pub mod text;
pub mod window;
