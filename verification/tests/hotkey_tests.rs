use frostbyte_term::hotkey::{platform_binding, resolve, software_filter, HotkeyMode, Key, Modifiers};

const NONE_HELD: Modifiers = Modifiers {
    control: false,
    shift: false,
    alt: false,
    logo: false,
};

const ALT_ONLY: Modifiers = Modifiers {
    control: false,
    shift: false,
    alt: true,
    logo: false,
};

const CTRL_SHIFT: Modifiers = Modifiers {
    control: true,
    shift: true,
    alt: false,
    logo: false,
};

#[test]
fn debug_marker_selects_dedicated_key() {
    assert_eq!(resolve(true, true), HotkeyMode::Pause);
    assert_eq!(resolve(true, false), HotkeyMode::Pause);
}

#[test]
fn platform_defaults_without_debug_marker() {
    assert_eq!(resolve(false, true), HotkeyMode::F12);
    assert_eq!(resolve(false, false), HotkeyMode::AltF12);
}

#[test]
fn resolution_is_repeatable() {
    for &debug in &[false, true] {
        for &unix in &[false, true] {
            assert_eq!(resolve(debug, unix), resolve(debug, unix));
        }
    }
}

#[test]
fn bindings_name_their_key_and_modifiers() {
    assert_eq!(platform_binding(HotkeyMode::F12), (Key::F12, NONE_HELD));
    assert_eq!(platform_binding(HotkeyMode::AltF12), (Key::F12, ALT_ONLY));
    assert_eq!(platform_binding(HotkeyMode::Pause), (Key::Pause, NONE_HELD));
}

#[test]
fn filter_accepts_the_new_tab_chord_under_every_mode() {
    for &mode in &[HotkeyMode::F12, HotkeyMode::AltF12, HotkeyMode::Pause] {
        assert!(software_filter(mode, Key::Character('T'), CTRL_SHIFT));
    }
}

#[test]
fn filter_accepts_the_resolved_binding_exactly() {
    assert!(software_filter(HotkeyMode::F12, Key::F12, NONE_HELD));
    assert!(software_filter(HotkeyMode::AltF12, Key::F12, ALT_ONLY));
    assert!(software_filter(HotkeyMode::Pause, Key::Pause, NONE_HELD));
}

#[test]
fn filter_rejects_wrong_key_or_modifier_set() {
    assert!(!software_filter(HotkeyMode::F12, Key::F12, ALT_ONLY));
    assert!(!software_filter(HotkeyMode::AltF12, Key::F12, NONE_HELD));
    assert!(!software_filter(HotkeyMode::F12, Key::Pause, NONE_HELD));
    assert!(!software_filter(HotkeyMode::Pause, Key::Character('x'), NONE_HELD));
    let alt_logo = Modifiers {
        control: false,
        shift: false,
        alt: true,
        logo: true,
    };
    assert!(!software_filter(HotkeyMode::AltF12, Key::F12, alt_logo));
}

#[test]
fn filter_new_tab_chord_wants_the_upper_case_letter() {
    assert!(!software_filter(HotkeyMode::F12, Key::Character('t'), CTRL_SHIFT));
    assert!(software_filter(HotkeyMode::F12, Key::Character('T'), CTRL_SHIFT));
}
