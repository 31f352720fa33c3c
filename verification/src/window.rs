//! The data model of a tracked application window.

use vstd::prelude::*;

verus! {

/// Position of a window on the screen, in whole pixels.
#[derive(Clone, Copy, PartialEq, Eq, Structural, Debug)]
pub struct WindowPosition {
    pub x: i32,
    pub y: i32,
    pub width: i32,
    pub height: i32,
}

/// The show state of a window as the OS reports it.
#[derive(Clone, Copy, PartialEq, Eq, Structural, Debug)]
pub enum WindowState {
    Normal,
    Minimized,
    Maximized,
}

/// A window that is running on the system.
///
/// `window_id` is the opaque, OS-assigned handle: stable for the window's
/// lifetime and unique among live windows.
#[derive(Clone, PartialEq, Debug)]
pub struct ApplicationWindow {
    pub window_id: isize,
    pub title: String,
    pub process_path: String,
    pub position: WindowPosition,
    pub state: WindowState,
    pub process_name: String,
}

impl ApplicationWindow {
    /// An explicit copy whose equality to the original is visible to the
    /// verifier (a derived `Clone` promises nothing about its result).
    pub fn duplicate(&self) -> (r: ApplicationWindow)
        ensures
            r == *self,
    {
        ApplicationWindow {
            window_id: self.window_id,
            title: self.title.clone(),
            process_path: self.process_path.clone(),
            position: self.position,
            state: self.state,
            process_name: self.process_name.clone(),
        }
    }
}

/// An element-wise copy of a window list.
pub fn duplicate_windows(windows: &Vec<ApplicationWindow>) -> (r: Vec<ApplicationWindow>)
    ensures
        r@ == windows@,
{
    let mut r: Vec<ApplicationWindow> = Vec::new();
    let len = windows.len();
    let mut i: usize = 0;
    while i < len
        invariant
            i <= len,
            len == windows@.len(),
            r@ == windows@.subrange(0, i as int),
        decreases len - i,
    {
        r.push(windows[i].duplicate());
        proof {
            assert(r@ =~= windows@.subrange(0, i + 1 as int));
        }
        i = i + 1;
    }
    proof {
        assert(windows@.subrange(0, len as int) =~= windows@);
    }
    r
}

} // verus!
