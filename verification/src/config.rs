//! The switcher's configuration: a leader chord, the table of hotkey
//! actions, and the overlay menu's own key table, together with the built-in
//! default table and the shortcut hint strings derived from it.

use vstd::prelude::*;
use vstd::string::StrSliceExecFns;
use vstd::string::StringExecFns;

use crate::harpoon::HarpoonEvent;
use crate::keyboard::{
    key_name, spec_chord_keys, spec_chord_modifiers, spec_chord_text, spec_key_name,
    FltkKeyCombination, Keyboard, STATE_NUM_LOCK,
};
use crate::quick_menu::QuickMenuEvent;

verus! {

/// One binding: the keys to press (on top of the leader, for global
/// hotkeys) and the event they raise.
#[derive(Clone, Debug)]
pub struct Action<T> {
    pub keys: Vec<Keyboard>,
    pub action: T,
}

impl<T> Action<T> {
    /// The chord of this binding translated to the GUI toolkit's codes.
    pub fn to_fltk_shortcut(&self) -> (r: FltkKeyCombination)
        ensures
            r.keys == spec_chord_keys(self.keys@),
            r.modifiers == spec_chord_modifiers(self.keys@),
            r.text@ == spec_chord_text(self.keys@),
    {
        FltkKeyCombination::from_mki_vec(&self.keys)
    }
}

/// The whole configuration, as stored on disk.
#[derive(Clone, Debug)]
pub struct Config {
    pub leader: Vec<Keyboard>,
    pub actions: Vec<Action<HarpoonEvent>>,
    pub quick_menu_config: StoredQuickMenuConfig,
}

/// The overlay menu's key table, as stored on disk: chords as key lists.
#[derive(Clone, Debug)]
pub struct StoredQuickMenuConfig {
    pub actions: Vec<Action<QuickMenuEvent>>,
}

/// The overlay menu's key table with each chord translated once for the
/// toolkit's keydown routing.
#[derive(Clone, Debug)]
pub struct QuickMenuConfig {
    pub actions: Vec<QuickMenuAction>,
}

/// One overlay binding: a translated trigger and the menu event it raises.
#[derive(Clone, Debug)]
pub struct QuickMenuAction {
    pub trigger: FltkKeyCombination,
    pub action: QuickMenuEvent,
}

impl QuickMenuAction {
    /// Whether a live keydown triggers this binding.  The toolkit sets a
    /// spurious num-lock bit in the event state; it is stripped before the
    /// modifier sets are compared.
    pub fn is_triggered(&self, event_key: i32, event_state: i32, event_text: &str) -> (r: bool)
        ensures
            r == self.trigger.spec_is_triggered(event_state & !STATE_NUM_LOCK, event_text@),
    {
        let cleaned = event_state & !STATE_NUM_LOCK;
        self.trigger.is_triggered(event_key, cleaned, event_text)
    }
}

impl StoredQuickMenuConfig {
    /// Translate every stored chord for the toolkit's keydown routing.
    pub fn to_quick_menu_config(&self) -> (r: QuickMenuConfig)
        ensures
            r.actions@.len() == self.actions@.len(),
            forall|i: int| 0 <= i < self.actions@.len() ==> {
                &&& (#[trigger] r.actions@[i]).action == self.actions@[i].action
                &&& r.actions@[i].trigger.keys == spec_chord_keys(self.actions@[i].keys@)
                &&& r.actions@[i].trigger.modifiers == spec_chord_modifiers(self.actions@[i].keys@)
                &&& r.actions@[i].trigger.text@ == spec_chord_text(self.actions@[i].keys@)
            },
    {
        let mut out: Vec<QuickMenuAction> = Vec::new();
        let len = self.actions.len();
        let mut i: usize = 0;
        while i < len
            invariant
                i <= len,
                len == self.actions@.len(),
                out@.len() == i,
                forall|j: int| 0 <= j < i ==> {
                    &&& (#[trigger] out@[j]).action == self.actions@[j].action
                    &&& out@[j].trigger.keys == spec_chord_keys(self.actions@[j].keys@)
                    &&& out@[j].trigger.modifiers == spec_chord_modifiers(self.actions@[j].keys@)
                    &&& out@[j].trigger.text@ == spec_chord_text(self.actions@[j].keys@)
                },
            decreases len - i,
        {
            let a = &self.actions[i];
            out.push(QuickMenuAction { trigger: a.to_fltk_shortcut(), action: a.action });
            i = i + 1;
        }
        QuickMenuConfig { actions: out }
    }
}

/// The display label of a chord: the key names joined with `" + "`.
pub open spec fn spec_keys_label(s: Seq<Keyboard>) -> Seq<char>
    decreases s.len(),
{
    if s.len() == 0 {
        Seq::empty()
    } else if s.len() == 1 {
        spec_key_name(s[0])
    } else {
        spec_keys_label(s.drop_last()) + " + "@ + spec_key_name(s.last())
    }
}

/// The display label of a chord.
pub fn keys_label(keys: &Vec<Keyboard>) -> (r: String)
    ensures
        r@ == spec_keys_label(keys@),
{
    let mut r = String::new();
    let len = keys.len();
    let mut i: usize = 0;
    while i < len
        invariant
            i <= len,
            len == keys@.len(),
            r@ == spec_keys_label(keys@.subrange(0, i as int)),
        decreases len - i,
    {
        if i > 0 {
            r.append(" + ");
        }
        r.append(key_name(keys[i]));
        proof {
            let pre = keys@.subrange(0, i as int);
            let cur = keys@.subrange(0, i + 1 as int);
            assert(cur.drop_last() =~= pre);
            assert(cur.last() == keys@[i as int]);
            if i == 0 {
                assert(r@ =~= spec_keys_label(cur));
            }
        }
        i = i + 1;
    }
    proof {
        assert(keys@.subrange(0, len as int) =~= keys@);
    }
    r
}

/// The hint string for a hotkey event: the labels of every binding raising
/// `event`, each with the leader prepended, joined with `" or "`.
pub open spec fn spec_harpoon_shortcuts(
    leader: Seq<Keyboard>,
    actions: Seq<Action<HarpoonEvent>>,
    event: HarpoonEvent,
) -> Seq<char>
    decreases actions.len(),
{
    if actions.len() == 0 {
        Seq::empty()
    } else {
        let rest = spec_harpoon_shortcuts(leader, actions.drop_last(), event);
        let a = actions.last();
        if a.action == event {
            let label = spec_keys_label(leader + a.keys@);
            if rest.len() > 0 {
                rest + " or "@ + label
            } else {
                label
            }
        } else {
            rest
        }
    }
}

/// The hint string for an overlay menu event: the labels of every binding
/// raising `event`, joined with `" or "`.
pub open spec fn spec_menu_shortcuts(
    actions: Seq<Action<QuickMenuEvent>>,
    event: QuickMenuEvent,
) -> Seq<char>
    decreases actions.len(),
{
    if actions.len() == 0 {
        Seq::empty()
    } else {
        let rest = spec_menu_shortcuts(actions.drop_last(), event);
        let a = actions.last();
        if a.action == event {
            let label = spec_keys_label(a.keys@);
            if rest.len() > 0 {
                rest + " or "@ + label
            } else {
                label
            }
        } else {
            rest
        }
    }
}

/// The overlay's hint row for an empty registry: it names the chord that
/// adds the current window, or falls back to the built-in wording when no
/// chord is bound to that action.
pub open spec fn spec_empty_hint_label(
    leader: Seq<Keyboard>,
    actions: Seq<Action<HarpoonEvent>>,
) -> Seq<char> {
    let s = spec_harpoon_shortcuts(leader, actions, HarpoonEvent::AddCurrentApplicationWindow);
    if s.len() > 0 {
        "No windows added, press "@ + s + " to add a window"@
    } else {
        "No windows added, press <ctrl> + <alt> + a to add a window"@
    }
}

/// Two key lists concatenated.
fn concat_keys(a: &Vec<Keyboard>, b: &Vec<Keyboard>) -> (r: Vec<Keyboard>)
    ensures
        r@ == a@ + b@,
{
    let mut r: Vec<Keyboard> = Vec::new();
    let alen = a.len();
    let mut i: usize = 0;
    while i < alen
        invariant
            i <= alen,
            alen == a@.len(),
            r@ == a@.subrange(0, i as int),
        decreases alen - i,
    {
        r.push(a[i]);
        proof {
            assert(r@ =~= a@.subrange(0, i + 1 as int));
        }
        i = i + 1;
    }
    let blen = b.len();
    let mut j: usize = 0;
    while j < blen
        invariant
            j <= blen,
            alen == a@.len(),
            blen == b@.len(),
            r@ == a@.subrange(0, alen as int) + b@.subrange(0, j as int),
        decreases blen - j,
    {
        r.push(b[j]);
        proof {
            assert(a@.subrange(0, alen as int) + b@.subrange(0, j + 1 as int)
                =~= (a@.subrange(0, alen as int) + b@.subrange(0, j as int)).push(b@[j as int]));
        }
        j = j + 1;
    }
    proof {
        assert(a@.subrange(0, alen as int) =~= a@);
        assert(b@.subrange(0, blen as int) =~= b@);
    }
    r
}

fn one_key(k: Keyboard) -> (r: Vec<Keyboard>)
    ensures
        r@ =~= seq![k],
{
    let mut r: Vec<Keyboard> = Vec::new();
    r.push(k);
    r
}

fn action1<T>(k: Keyboard, e: T) -> (a: Action<T>)
    ensures
        a.keys@ =~= seq![k],
        a.action == e,
{
    Action { keys: one_key(k), action: e }
}

fn action2<T>(k1: Keyboard, k2: Keyboard, e: T) -> (a: Action<T>)
    ensures
        a.keys@ =~= seq![k1, k2],
        a.action == e,
{
    let mut keys: Vec<Keyboard> = Vec::new();
    keys.push(k1);
    keys.push(k2);
    Action { keys, action: e }
}

impl Config {
    /// The built-in default configuration: leader Ctrl+Alt, the full hotkey
    /// action table, and the overlay menu's key table.
    pub fn default() -> (r: Config)
        ensures
            r.leader@ =~= seq![Keyboard::LeftControl, Keyboard::LeftAlt],
            r.actions@.len() == 13,
            r.actions@[0].keys@ =~= seq![Keyboard::H]
                && r.actions@[0].action == HarpoonEvent::ToggleQuickMenu,
            r.actions@[1].keys@ =~= seq![Keyboard::J]
                && r.actions@[1].action == HarpoonEvent::NavigateToWindowByIndex(0usize),
            r.actions@[2].keys@ =~= seq![Keyboard::K]
                && r.actions@[2].action == HarpoonEvent::NavigateToWindowByIndex(1usize),
            r.actions@[3].keys@ =~= seq![Keyboard::L]
                && r.actions@[3].action == HarpoonEvent::NavigateToWindowByIndex(2usize),
            r.actions@[4].keys@ =~= seq![Keyboard::SemiColon]
                && r.actions@[4].action == HarpoonEvent::NavigateToWindowByIndex(3usize),
            r.actions@[5].keys@ =~= seq![Keyboard::U]
                && r.actions@[5].action == HarpoonEvent::NavigateToWindowByIndex(4usize),
            r.actions@[6].keys@ =~= seq![Keyboard::I]
                && r.actions@[6].action == HarpoonEvent::NavigateToWindowByIndex(5usize),
            r.actions@[7].keys@ =~= seq![Keyboard::O]
                && r.actions@[7].action == HarpoonEvent::NavigateToWindowByIndex(6usize),
            r.actions@[8].keys@ =~= seq![Keyboard::P]
                && r.actions@[8].action == HarpoonEvent::NavigateToWindowByIndex(7usize),
            r.actions@[9].keys@ =~= seq![Keyboard::M]
                && r.actions@[9].action == HarpoonEvent::NavigateToNextWindow,
            r.actions@[10].keys@ =~= seq![Keyboard::N]
                && r.actions@[10].action == HarpoonEvent::NavigateToPreviousWindow,
            r.actions@[11].keys@ =~= seq![Keyboard::A]
                && r.actions@[11].action == HarpoonEvent::AddCurrentApplicationWindow,
            r.actions@[12].keys@ =~= seq![Keyboard::S]
                && r.actions@[12].action == HarpoonEvent::ToggleInhibit,
            r.quick_menu_config.actions@.len() == 16,
            r.quick_menu_config.actions@[0].keys@ =~= seq![Keyboard::Q]
                && r.quick_menu_config.actions@[0].action == QuickMenuEvent::Quit,
            r.quick_menu_config.actions@[1].keys@ =~= seq![Keyboard::Escape]
                && r.quick_menu_config.actions@[1].action == QuickMenuEvent::Quit,
            r.quick_menu_config.actions@[2].keys@ =~= seq![Keyboard::J]
                && r.quick_menu_config.actions@[2].action == QuickMenuEvent::MoveCursorDown,
            r.quick_menu_config.actions@[3].keys@ =~= seq![Keyboard::K]
                && r.quick_menu_config.actions@[3].action == QuickMenuEvent::MoveCursorUp,
            r.quick_menu_config.actions@[4].keys@ =~= seq![Keyboard::Down]
                && r.quick_menu_config.actions@[4].action == QuickMenuEvent::MoveCursorDown,
            r.quick_menu_config.actions@[5].keys@ =~= seq![Keyboard::Up]
                && r.quick_menu_config.actions@[5].action == QuickMenuEvent::MoveCursorUp,
            r.quick_menu_config.actions@[6].keys@ =~= seq![Keyboard::LeftAlt, Keyboard::J]
                && r.quick_menu_config.actions@[6].action == QuickMenuEvent::SwapDown,
            r.quick_menu_config.actions@[7].keys@ =~= seq![Keyboard::LeftAlt, Keyboard::K]
                && r.quick_menu_config.actions@[7].action == QuickMenuEvent::SwapUp,
            r.quick_menu_config.actions@[8].keys@ =~= seq![Keyboard::LeftAlt, Keyboard::Down]
                && r.quick_menu_config.actions@[8].action == QuickMenuEvent::SwapDown,
            r.quick_menu_config.actions@[9].keys@ =~= seq![Keyboard::LeftAlt, Keyboard::Up]
                && r.quick_menu_config.actions@[9].action == QuickMenuEvent::SwapUp,
            r.quick_menu_config.actions@[10].keys@ =~= seq![Keyboard::Enter]
                && r.quick_menu_config.actions@[10].action == QuickMenuEvent::Select,
            r.quick_menu_config.actions@[11].keys@ =~= seq![Keyboard::Space]
                && r.quick_menu_config.actions@[11].action == QuickMenuEvent::Select,
            r.quick_menu_config.actions@[12].keys@ =~= seq![Keyboard::BackSpace]
                && r.quick_menu_config.actions@[12].action == QuickMenuEvent::Cut,
            r.quick_menu_config.actions@[13].keys@ =~= seq![Keyboard::LeftShift, Keyboard::D]
                && r.quick_menu_config.actions@[13].action == QuickMenuEvent::Cut,
            r.quick_menu_config.actions@[14].keys@ =~= seq![Keyboard::P]
                && r.quick_menu_config.actions@[14].action == QuickMenuEvent::PasteDown,
            r.quick_menu_config.actions@[15].keys@ =~= seq![Keyboard::LeftShift, Keyboard::P]
                && r.quick_menu_config.actions@[15].action == QuickMenuEvent::PasteUp,
    {
        let mut leader: Vec<Keyboard> = Vec::new();
        leader.push(Keyboard::LeftControl);
        leader.push(Keyboard::LeftAlt);

        let mut actions: Vec<Action<HarpoonEvent>> = Vec::new();
        actions.push(action1(Keyboard::H, HarpoonEvent::ToggleQuickMenu));
        actions.push(action1(Keyboard::J, HarpoonEvent::NavigateToWindowByIndex(0)));
        actions.push(action1(Keyboard::K, HarpoonEvent::NavigateToWindowByIndex(1)));
        actions.push(action1(Keyboard::L, HarpoonEvent::NavigateToWindowByIndex(2)));
        actions.push(action1(Keyboard::SemiColon, HarpoonEvent::NavigateToWindowByIndex(3)));
        actions.push(action1(Keyboard::U, HarpoonEvent::NavigateToWindowByIndex(4)));
        actions.push(action1(Keyboard::I, HarpoonEvent::NavigateToWindowByIndex(5)));
        actions.push(action1(Keyboard::O, HarpoonEvent::NavigateToWindowByIndex(6)));
        actions.push(action1(Keyboard::P, HarpoonEvent::NavigateToWindowByIndex(7)));
        actions.push(action1(Keyboard::M, HarpoonEvent::NavigateToNextWindow));
        actions.push(action1(Keyboard::N, HarpoonEvent::NavigateToPreviousWindow));
        actions.push(action1(Keyboard::A, HarpoonEvent::AddCurrentApplicationWindow));
        actions.push(action1(Keyboard::S, HarpoonEvent::ToggleInhibit));

        let mut menu_actions: Vec<Action<QuickMenuEvent>> = Vec::new();
        menu_actions.push(action1(Keyboard::Q, QuickMenuEvent::Quit));
        menu_actions.push(action1(Keyboard::Escape, QuickMenuEvent::Quit));
        menu_actions.push(action1(Keyboard::J, QuickMenuEvent::MoveCursorDown));
        menu_actions.push(action1(Keyboard::K, QuickMenuEvent::MoveCursorUp));
        menu_actions.push(action1(Keyboard::Down, QuickMenuEvent::MoveCursorDown));
        menu_actions.push(action1(Keyboard::Up, QuickMenuEvent::MoveCursorUp));
        menu_actions.push(action2(Keyboard::LeftAlt, Keyboard::J, QuickMenuEvent::SwapDown));
        menu_actions.push(action2(Keyboard::LeftAlt, Keyboard::K, QuickMenuEvent::SwapUp));
        menu_actions.push(action2(Keyboard::LeftAlt, Keyboard::Down, QuickMenuEvent::SwapDown));
        menu_actions.push(action2(Keyboard::LeftAlt, Keyboard::Up, QuickMenuEvent::SwapUp));
        menu_actions.push(action1(Keyboard::Enter, QuickMenuEvent::Select));
        menu_actions.push(action1(Keyboard::Space, QuickMenuEvent::Select));
        menu_actions.push(action1(Keyboard::BackSpace, QuickMenuEvent::Cut));
        menu_actions.push(action2(Keyboard::LeftShift, Keyboard::D, QuickMenuEvent::Cut));
        menu_actions.push(action1(Keyboard::P, QuickMenuEvent::PasteDown));
        menu_actions.push(action2(Keyboard::LeftShift, Keyboard::P, QuickMenuEvent::PasteUp));

        Config {
            leader,
            actions,
            quick_menu_config: StoredQuickMenuConfig { actions: menu_actions },
        }
    }

    /// The hint string naming every chord bound to `event`, or `None` when
    /// the string would be empty.
    pub fn get_action_shortcut_string(&self, event: &HarpoonEvent) -> (r: Option<String>)
        ensures
            match *event {
                HarpoonEvent::QuickMenuEvent(e) => {
                    let s = spec_menu_shortcuts(self.quick_menu_config.actions@, e);
                    &&& (r is None <==> s.len() == 0)
                    &&& (r matches Some(t) ==> t@ == s)
                },
                _ => {
                    let s = spec_harpoon_shortcuts(self.leader@, self.actions@, *event);
                    &&& (r is None <==> s.len() == 0)
                    &&& (r matches Some(t) ==> t@ == s)
                },
            },
    {
        let mut out = String::new();
        match event {
            HarpoonEvent::QuickMenuEvent(e) => {
                let len = self.quick_menu_config.actions.len();
                let mut i: usize = 0;
                while i < len
                    invariant
                        i <= len,
                        len == self.quick_menu_config.actions@.len(),
                        out@ == spec_menu_shortcuts(
                            self.quick_menu_config.actions@.subrange(0, i as int), *e),
                    decreases len - i,
                {
                    proof {
                        let pre = self.quick_menu_config.actions@.subrange(0, i as int);
                        let cur = self.quick_menu_config.actions@.subrange(0, i + 1 as int);
                        assert(cur.drop_last() =~= pre);
                        assert(cur.last() == self.quick_menu_config.actions@[i as int]);
                    }
                    let a = &self.quick_menu_config.actions[i];
                    if a.action == *e {
                        let label = keys_label(&a.keys);
                        if out.as_str().unicode_len() > 0 {
                            out.append(" or ");
                        }
                        out.append(label.as_str());
                    }
                    i = i + 1;
                }
                proof {
                    assert(self.quick_menu_config.actions@.subrange(0, len as int)
                        =~= self.quick_menu_config.actions@);
                }
            },
            _ => {
                let len = self.actions.len();
                let mut i: usize = 0;
                while i < len
                    invariant
                        i <= len,
                        len == self.actions@.len(),
                        out@ == spec_harpoon_shortcuts(
                            self.leader@, self.actions@.subrange(0, i as int), *event),
                    decreases len - i,
                {
                    proof {
                        let pre = self.actions@.subrange(0, i as int);
                        let cur = self.actions@.subrange(0, i + 1 as int);
                        assert(cur.drop_last() =~= pre);
                        assert(cur.last() == self.actions@[i as int]);
                    }
                    let a = &self.actions[i];
                    if a.action == *event {
                        let combined = concat_keys(&self.leader, &a.keys);
                        let label = keys_label(&combined);
                        if out.as_str().unicode_len() > 0 {
                            out.append(" or ");
                        }
                        out.append(label.as_str());
                    }
                    i = i + 1;
                }
                proof {
                    assert(self.actions@.subrange(0, len as int) =~= self.actions@);
                }
            },
        }
        if out.as_str().unicode_len() == 0 {
            None
        } else {
            Some(out)
        }
    }

    /// The overlay's hint row for an empty registry.
    pub fn empty_hint_label(&self) -> (r: String)
        ensures
            r@ == spec_empty_hint_label(self.leader@, self.actions@),
    {
        match self.get_action_shortcut_string(&HarpoonEvent::AddCurrentApplicationWindow) {
            Some(s) => {
                let mut r = "No windows added, press ".to_owned();
                r.append(s.as_str());
                r.append(" to add a window");
                r
            },
            None => "No windows added, press <ctrl> + <alt> + a to add a window".to_owned(),
        }
    }
}

} // verus!
