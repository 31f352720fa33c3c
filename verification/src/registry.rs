//! The ordered collection of tracked windows and the single-slot cut
//! clipboard.
//!
//! Slot order is insertion order and is the index used for absolute
//! navigation, so a window whose OS handle dies is never removed: its process
//! name is rewritten with the closed-window sentinel instead, which preserves
//! the slot indices of the windows after it.

use vstd::prelude::*;

use crate::text::{closed_prefix, closed_prefix_str, is_marked_name, mark_name, str_has_prefix};
use crate::window::ApplicationWindow;

verus! {

/// Whether some slot of `s` holds the handle `id`.
pub open spec fn contains_handle(s: Seq<ApplicationWindow>, id: isize) -> bool {
    exists|j: int| 0 <= j < s.len() && s[j].window_id == id
}

/// Whether `i` is the first slot of `s` holding the handle `id`.
pub open spec fn is_first_handle_index(s: Seq<ApplicationWindow>, id: isize, i: int) -> bool {
    &&& 0 <= i < s.len()
    &&& s[i].window_id == id
    &&& forall|j: int| 0 <= j < i ==> s[j].window_id != id
}

/// Whether no two slots of `s` hold the same handle.
pub open spec fn unique_handles(s: Seq<ApplicationWindow>) -> bool {
    forall|i: int, j: int| 0 <= i < j < s.len() ==> s[i].window_id != s[j].window_id
}

/// Two windows that agree on everything but the process name, whose new value
/// is the old one behind the closed-window sentinel.
pub open spec fn is_marked_copy(post: ApplicationWindow, pre: ApplicationWindow) -> bool {
    &&& post.window_id == pre.window_id
    &&& post.title == pre.title
    &&& post.process_path == pre.process_path
    &&& post.position == pre.position
    &&& post.state == pre.state
    &&& post.process_name@ == closed_prefix() + pre.process_name@
}

/// Two windows that agree on everything but the title.
pub open spec fn is_retitled_copy(post: ApplicationWindow, pre: ApplicationWindow, title: Seq<char>) -> bool {
    &&& post.window_id == pre.window_id
    &&& post.title@ == title
    &&& post.process_path == pre.process_path
    &&& post.position == pre.position
    &&& post.state == pre.state
    &&& post.process_name == pre.process_name
}

/// The ordered sequence of tracked windows plus the single-slot cut
/// clipboard.
pub struct WindowRegistry {
    pub windows: Vec<ApplicationWindow>,
    pub clipboard: Option<ApplicationWindow>,
}

impl WindowRegistry {
    /// The registry's invariant: handles are unique within the sequence.
    pub open spec fn wf(&self) -> bool {
        unique_handles(self.windows@)
    }

    /// An empty registry with an empty clipboard.
    pub fn new() -> (r: WindowRegistry)
        ensures
            r.windows@ == Seq::<ApplicationWindow>::empty(),
            r.clipboard is None,
            r.wf(),
    {
        WindowRegistry { windows: Vec::new(), clipboard: None }
    }

    /// The first slot holding `window_id`, if any.
    pub fn position_of(&self, window_id: isize) -> (r: Option<usize>)
        ensures
            match r {
                Some(i) => is_first_handle_index(self.windows@, window_id, i as int),
                None => !contains_handle(self.windows@, window_id),
            },
    {
        let mut i: usize = 0;
        let len = self.windows.len();
        while i < len
            invariant
                i <= len,
                len == self.windows@.len(),
                forall|j: int| 0 <= j < i ==> self.windows@[j].window_id != window_id,
            decreases len - i,
        {
            if self.windows[i].window_id == window_id {
                return Some(i);
            }
            i = i + 1;
        }
        None
    }

    /// Registers the window that currently holds the foreground.
    ///
    /// If a window with the same handle is already tracked, it is replaced in
    /// place (this refreshes stale metadata without disturbing slot order);
    /// otherwise the window is appended.
    pub fn add_current(&mut self, window: ApplicationWindow)
        ensures
            final(self).clipboard == old(self).clipboard,
            contains_handle(old(self).windows@, window.window_id) ==> exists|i: int|
                #[trigger] is_first_handle_index(old(self).windows@, window.window_id, i)
                && final(self).windows@ == old(self).windows@.update(i, window),
            !contains_handle(old(self).windows@, window.window_id)
                ==> final(self).windows@ == old(self).windows@.push(window),
            old(self).wf() ==> final(self).wf(),
    {
        match self.position_of(window.window_id) {
            Some(i) => {
                let ghost pre = self.windows@;
                let id = window.window_id;
                self.windows[i] = window;
                proof {
                    assert(is_first_handle_index(pre, id, i as int));
                    if unique_handles(pre) {
                        assert forall|p: int, q: int|
                            0 <= p < q < self.windows@.len() implies
                            self.windows@[p].window_id != self.windows@[q].window_id by {
                            assert(pre[p].window_id != pre[q].window_id);
                        }
                    }
                }
            },
            None => {
                self.windows.push(window);
            },
        }
    }

    /// Exchanges two slots; a silent no-op when either index is out of range.
    pub fn swap(&mut self, from: usize, to: usize)
        ensures
            final(self).clipboard == old(self).clipboard,
            from < old(self).windows@.len() && to < old(self).windows@.len()
                ==> final(self).windows@ == old(self).windows@
                    .update(from as int, old(self).windows@[to as int])
                    .update(to as int, old(self).windows@[from as int]),
            !(from < old(self).windows@.len() && to < old(self).windows@.len())
                ==> *final(self) == *old(self),
            old(self).wf() ==> final(self).wf(),
    {
        let len = self.windows.len();
        if from < len && to < len {
            let ghost pre = self.windows@;
            let wa = self.windows[from].duplicate();
            let wb = self.windows[to].duplicate();
            self.windows[from] = wb;
            self.windows[to] = wa;
            proof {
                if unique_handles(pre) {
                    assert forall|p: int, q: int|
                        0 <= p < q < self.windows@.len() implies
                        self.windows@[p].window_id != self.windows@[q].window_id by {
                        let p0: int = if p == from { to as int } else if p == to { from as int } else { p };
                        let q0: int = if q == from { to as int } else if q == to { from as int } else { q };
                        assert(self.windows@[p] == pre[p0]);
                        assert(self.windows@[q] == pre[q0]);
                        if p0 < q0 {
                            assert(pre[p0].window_id != pre[q0].window_id);
                        } else if q0 < p0 {
                            assert(pre[q0].window_id != pre[p0].window_id);
                        }
                    }
                }
            }
        }
    }

    /// Removes the window at `index`, shifting later slots left, and stores
    /// it in the clipboard.  A silent no-op when `index` is out of range.
    pub fn cut(&mut self, index: usize) -> (did: bool)
        ensures
            index < old(self).windows@.len() ==> {
                &&& did
                &&& final(self).windows@ == old(self).windows@.remove(index as int)
                &&& final(self).clipboard == Some(old(self).windows@[index as int])
            },
            index >= old(self).windows@.len() ==> !did && *final(self) == *old(self),
            old(self).wf() ==> final(self).wf(),
    {
        if index < self.windows.len() {
            let ghost pre = self.windows@;
            let w = self.windows.remove(index);
            self.clipboard = Some(w);
            proof {
                pre.remove_ensures(index as int);
                if unique_handles(pre) {
                    assert forall|p: int, q: int|
                        0 <= p < q < self.windows@.len() implies
                        self.windows@[p].window_id != self.windows@[q].window_id by {
                        let p0: int = if p < index { p } else { p + 1 };
                        let q0: int = if q < index { q } else { q + 1 };
                        assert(self.windows@[p] == pre[p0]);
                        assert(self.windows@[q] == pre[q0]);
                        assert(pre[p0].window_id != pre[q0].window_id);
                    }
                }
            }
            true
        } else {
            false
        }
    }

    /// Inserts the clipboard contents at `index`, clamped to the end of the
    /// list, consuming the clipboard.  A silent no-op when the clipboard is
    /// empty.
    pub fn paste(&mut self, index: usize)
        ensures
            old(self).clipboard matches Some(w) ==> {
                &&& final(self).windows@ == old(self).windows@.insert(
                    vstd::math::min(index as int, old(self).windows@.len() as int), w)
                &&& final(self).clipboard is None
            },
            old(self).clipboard is None ==> *final(self) == *old(self),
            old(self).wf()
                && (old(self).clipboard matches Some(w)
                    ==> !contains_handle(old(self).windows@, w.window_id))
                ==> final(self).wf(),
    {
        match self.clipboard.take() {
            Some(w) => {
                let ghost pre = self.windows@;
                let ghost wg = w;
                let len = self.windows.len();
                let at = if index > len { len } else { index };
                self.windows.insert(at, w);
                proof {
                    pre.insert_ensures(at as int, wg);
                    if unique_handles(pre) && !contains_handle(pre, wg.window_id) {
                        assert forall|p: int, q: int|
                            0 <= p < q < self.windows@.len() implies
                            self.windows@[p].window_id != self.windows@[q].window_id by {
                            if p == at {
                                let q0 = q - 1;
                                assert(self.windows@[q] == pre[q0]);
                                assert(!(pre[q0].window_id == wg.window_id));
                            } else if q == at {
                                let p0 = p;
                                assert(self.windows@[p] == pre[p0]);
                                assert(!(pre[p0].window_id == wg.window_id));
                            } else {
                                let p0: int = if p < at { p } else { p - 1 };
                                let q0: int = if q < at { q } else { q - 1 };
                                assert(self.windows@[p] == pre[p0]);
                                assert(self.windows@[q] == pre[q0]);
                                assert(pre[p0].window_id != pre[q0].window_id);
                            }
                        }
                    }
                }
            },
            None => {},
        }
    }

    /// Rewrites the process name of the first window holding `window_id`
    /// with the closed-window sentinel.  Idempotent: a window already marked
    /// is left untouched, so the sentinel is never doubled.
    pub fn mark_stale(&mut self, window_id: isize)
        ensures
            final(self).clipboard == old(self).clipboard,
            final(self).windows@.len() == old(self).windows@.len(),
            !contains_handle(old(self).windows@, window_id) ==> *final(self) == *old(self),
            contains_handle(old(self).windows@, window_id) ==> exists|i: int|
                #[trigger] is_first_handle_index(old(self).windows@, window_id, i)
                && if is_marked_name(old(self).windows@[i].process_name@) {
                    final(self).windows@ == old(self).windows@
                } else {
                    &&& forall|j: int| 0 <= j < old(self).windows@.len() && j != i
                        ==> final(self).windows@[j] == old(self).windows@[j]
                    &&& is_marked_copy(final(self).windows@[i], old(self).windows@[i])
                },
            old(self).wf() ==> final(self).wf(),
    {
        match self.position_of(window_id) {
            Some(i) => {
                let ghost pre = self.windows@;
                let already = str_has_prefix(self.windows[i].process_name.as_str(), closed_prefix_str());
                if !already {
                    let w = self.windows[i].duplicate();
                    let renamed = ApplicationWindow {
                        window_id: w.window_id,
                        title: w.title,
                        process_path: w.process_path,
                        position: w.position,
                        state: w.state,
                        process_name: mark_name(&self.windows[i].process_name),
                    };
                    self.windows[i] = renamed;
                    proof {
                        assert(is_first_handle_index(pre, window_id, i as int));
                        assert(is_marked_copy(self.windows@[i as int], pre[i as int]));
                        if unique_handles(pre) {
                            assert forall|p: int, q: int|
                                0 <= p < q < self.windows@.len() implies
                                self.windows@[p].window_id != self.windows@[q].window_id by {
                                assert(pre[p].window_id != pre[q].window_id);
                                assert(self.windows@[p].window_id == pre[p].window_id);
                                assert(self.windows@[q].window_id == pre[q].window_id);
                            }
                        }
                    }
                }
            },
            None => {},
        }
    }

    /// Refreshes the title of the first window holding `window_id`.
    pub fn update_title(&mut self, window_id: isize, title: String)
        ensures
            final(self).clipboard == old(self).clipboard,
            final(self).windows@.len() == old(self).windows@.len(),
            !contains_handle(old(self).windows@, window_id) ==> *final(self) == *old(self),
            contains_handle(old(self).windows@, window_id) ==> exists|i: int|
                #[trigger] is_first_handle_index(old(self).windows@, window_id, i)
                && (forall|j: int| 0 <= j < old(self).windows@.len() && j != i
                        ==> final(self).windows@[j] == old(self).windows@[j])
                && is_retitled_copy(final(self).windows@[i], old(self).windows@[i], title@),
            old(self).wf() ==> final(self).wf(),
    {
        match self.position_of(window_id) {
            Some(i) => {
                let ghost pre = self.windows@;
                let w = self.windows[i].duplicate();
                let renamed = ApplicationWindow {
                    window_id: w.window_id,
                    title,
                    process_path: w.process_path,
                    position: w.position,
                    state: w.state,
                    process_name: w.process_name,
                };
                self.windows[i] = renamed;
                proof {
                    assert(is_first_handle_index(pre, window_id, i as int));
                    if unique_handles(pre) {
                        assert forall|p: int, q: int|
                            0 <= p < q < self.windows@.len() implies
                            self.windows@[p].window_id != self.windows@[q].window_id by {
                            assert(pre[p].window_id != pre[q].window_id);
                            assert(self.windows@[p].window_id == pre[p].window_id);
                            assert(self.windows@[q].window_id == pre[q].window_id);
                        }
                    }
                }
            },
            None => {},
        }
    }
}

/// Cutting a slot and pasting the clipboard back at the same index
/// reconstructs the original sequence, content and order alike, when no other
/// mutation intervenes.
///
/// The two premises are exactly what `cut(i)` and a following `paste(i)`
/// ensure: after the cut, `i <= r1.windows@.len()`, so paste's index clamp
/// leaves `i` unchanged.
pub proof fn lemma_cut_paste_inverse(
    r0: WindowRegistry,
    r1: WindowRegistry,
    r2: WindowRegistry,
    i: usize,
)
    requires
        i < r0.windows@.len(),
        r1.windows@ == r0.windows@.remove(i as int),
        r1.clipboard == Some(r0.windows@[i as int]),
        r2.windows@ == r1.windows@.insert(
            vstd::math::min(i as int, r1.windows@.len() as int),
            r0.windows@[i as int],
        ),
        r2.clipboard is None,
    ensures
        r2.windows@ == r0.windows@,
{
    r0.windows@.remove_ensures(i as int);
    assert(vstd::math::min(i as int, r1.windows@.len() as int) == i as int);
    r1.windows@.insert_ensures(i as int, r0.windows@[i as int]);
    assert(r2.windows@ =~= r0.windows@);
}

} // verus!
