use harpoon::config::{Config, StoredQuickMenuConfig};
use harpoon::harpoon::HarpoonEvent;
use harpoon::keyboard::{
    FltkKeyCombination, Keyboard, MOD_ALT, MOD_CTRL, MOD_SHIFT, STATE_NUM_LOCK,
};
use harpoon::quick_menu::{QuickMenu, QuickMenuEvent};

#[test]
fn chord_of_leader_and_letter_translates_to_mods_and_text() {
    let combo = FltkKeyCombination::from_mki_vec(&vec![
        Keyboard::LeftControl,
        Keyboard::LeftAlt,
        Keyboard::H,
    ]);
    assert_eq!(combo.modifiers, MOD_CTRL | MOD_ALT);
    assert_eq!(combo.text, "h");
    assert_eq!(combo.keys, 0x68);
}

#[test]
fn chord_of_shift_and_letter() {
    let combo = FltkKeyCombination::from_mki_vec(&vec![Keyboard::LeftShift, Keyboard::P]);
    assert_eq!(combo.modifiers, MOD_SHIFT);
    assert_eq!(combo.text, "p");
}

#[test]
fn special_keys_contribute_codes_not_text() {
    let combo = FltkKeyCombination::from_mki_vec(&vec![Keyboard::Escape]);
    assert_eq!(combo.modifiers, 0);
    assert_eq!(combo.text, "");
    assert_eq!(combo.keys, 0xff1b);
    let combo = FltkKeyCombination::from_mki_vec(&vec![Keyboard::Enter]);
    assert_eq!(combo.text, "\r");
    assert_eq!(combo.keys, 0xff0d);
}

#[test]
fn trigger_matches_same_modifiers_and_text() {
    let combo = FltkKeyCombination::from_mki_vec(&vec![Keyboard::LeftShift, Keyboard::D]);
    assert!(combo.is_triggered(0, MOD_SHIFT, "d"));
    // case-insensitive: shift usually produces an uppercase character
    assert!(combo.is_triggered(0, MOD_SHIFT, "D"));
    // a different modifier set never matches
    assert!(!combo.is_triggered(0, MOD_ALT, "d"));
    assert!(!combo.is_triggered(0, 0, "d"));
    // different text never matches
    assert!(!combo.is_triggered(0, MOD_SHIFT, "e"));
}

#[test]
fn trigger_text_matches_as_a_character_set() {
    let combo = FltkKeyCombination::from_mki_vec(&vec![Keyboard::A, Keyboard::B]);
    // order-independent set equality of the produced characters
    assert!(combo.is_triggered(0, 0, "ab"));
    assert!(combo.is_triggered(0, 0, "ba"));
    assert!(!combo.is_triggered(0, 0, "a"));
}

#[test]
fn menu_binding_ignores_the_num_lock_bit() {
    let config = Config::default();
    let qm = config.quick_menu_config.to_quick_menu_config();
    // the first binding is Q -> Quit
    let quit = &qm.actions[0];
    assert_eq!(quit.action, QuickMenuEvent::Quit);
    assert!(quit.is_triggered(0, STATE_NUM_LOCK, "q"));
    assert!(quit.is_triggered(0, 0, "q"));
    assert!(!quit.is_triggered(0, MOD_SHIFT, "q"));
}

#[test]
fn default_config_has_the_documented_leader_and_tables() {
    let config = Config::default();
    assert_eq!(config.leader, vec![Keyboard::LeftControl, Keyboard::LeftAlt]);
    assert_eq!(config.actions.len(), 13);
    assert_eq!(config.actions[0].keys, vec![Keyboard::H]);
    assert!(matches!(config.actions[0].action, HarpoonEvent::ToggleQuickMenu));
    assert!(matches!(
        config.actions[1].action,
        HarpoonEvent::NavigateToWindowByIndex(0)
    ));
    assert!(matches!(
        config.actions[8].action,
        HarpoonEvent::NavigateToWindowByIndex(7)
    ));
    assert!(matches!(config.actions[9].action, HarpoonEvent::NavigateToNextWindow));
    assert!(matches!(config.actions[12].action, HarpoonEvent::ToggleInhibit));
    assert_eq!(config.quick_menu_config.actions.len(), 16);
    assert_eq!(config.quick_menu_config.actions[1].keys, vec![Keyboard::Escape]);
    assert!(matches!(
        config.quick_menu_config.actions[1].action,
        QuickMenuEvent::Quit
    ));
    assert_eq!(
        config.quick_menu_config.actions[6].keys,
        vec![Keyboard::LeftAlt, Keyboard::J]
    );
    assert!(matches!(
        config.quick_menu_config.actions[6].action,
        QuickMenuEvent::SwapDown
    ));
}

#[test]
fn shortcut_string_names_the_full_chord() {
    let config = Config::default();
    let s = config.get_action_shortcut_string(&HarpoonEvent::ToggleQuickMenu);
    assert_eq!(s.as_deref(), Some("LeftControl + LeftAlt + H"));
}

#[test]
fn shortcut_string_joins_alternatives_with_or() {
    let config = Config::default();
    let s = config
        .get_action_shortcut_string(&HarpoonEvent::QuickMenuEvent(QuickMenuEvent::Quit));
    assert_eq!(s.as_deref(), Some("Q or Escape"));
}

#[test]
fn shortcut_string_of_an_unbound_event_is_none() {
    let config = Config::default();
    assert!(config.get_action_shortcut_string(&HarpoonEvent::Quit).is_none());
    let empty = Config {
        leader: vec![],
        actions: vec![],
        quick_menu_config: StoredQuickMenuConfig { actions: vec![] },
    };
    assert!(empty
        .get_action_shortcut_string(&HarpoonEvent::ToggleQuickMenu)
        .is_none());
}

#[test]
fn keydown_raises_every_matching_binding() {
    let config = Config::default();
    let menu = QuickMenu::new(&config);
    // a bare 'j' raises exactly the cursor-down binding
    let events = menu.handle_keydown_event(0x6a, 0, "j");
    assert_eq!(events, vec![HarpoonEvent::QuickMenuEvent(QuickMenuEvent::MoveCursorDown)]);
    // alt+j raises exactly the swap-down binding
    let events = menu.handle_keydown_event(0x6a, MOD_ALT, "j");
    assert_eq!(events, vec![HarpoonEvent::QuickMenuEvent(QuickMenuEvent::SwapDown)]);
    // an unbound key raises nothing
    let events = menu.handle_keydown_event(0x7a, 0, "z");
    assert!(events.is_empty());
}
