use voice_input::hotkeys::{
    handle_keyboard_event, init_hotkeys_from_config, is_modifier_key, mods_match, parse_key_name,
    parse_shortcut, Hotkey, HotkeyState, InputEvent, Key, KeyboardEvent,
};

#[test]
fn parse_key_names() {
    assert_eq!(parse_key_name("CapsLock"), Some(Key::CapsLock));
    assert_eq!(parse_key_name("Esc"), Some(Key::Escape));
    assert_eq!(parse_key_name("Escape"), Some(Key::Escape));
    assert_eq!(parse_key_name("Enter"), Some(Key::Return));
    assert_eq!(parse_key_name("Return"), Some(Key::Return));
    assert_eq!(parse_key_name("a"), Some(Key::KeyA));
    assert_eq!(parse_key_name("Z"), Some(Key::KeyZ));
    assert_eq!(parse_key_name("v"), Some(Key::KeyV));
    assert_eq!(parse_key_name("F"), Some(Key::KeyF));
    assert_eq!(parse_key_name("F1"), Some(Key::F1));
    assert_eq!(parse_key_name("F9"), Some(Key::F9));
    assert_eq!(parse_key_name("F10"), Some(Key::F10));
    assert_eq!(parse_key_name("F12"), Some(Key::F12));
    assert_eq!(parse_key_name("F13"), None);
    assert_eq!(parse_key_name("5"), None);
    assert_eq!(parse_key_name("caps"), None);
    assert_eq!(parse_key_name(""), None);
}

#[test]
fn parse_shortcut_combinations() {
    assert_eq!(
        parse_shortcut("Ctrl+CapsLock"),
        Some(Hotkey { ctrl: true, alt: false, shift: false, super_: false, key: Key::CapsLock })
    );
    assert_eq!(
        parse_shortcut("Alt+CapsLock"),
        Some(Hotkey { ctrl: false, alt: true, shift: false, super_: false, key: Key::CapsLock })
    );
    assert_eq!(
        parse_shortcut("Ctrl+Shift+V"),
        Some(Hotkey { ctrl: true, alt: false, shift: true, super_: false, key: Key::KeyV })
    );
    assert_eq!(
        parse_shortcut("Super+F5"),
        Some(Hotkey { ctrl: false, alt: false, shift: false, super_: true, key: Key::F5 })
    );
    assert_eq!(
        parse_shortcut("Win+Meta+Escape"),
        Some(Hotkey { ctrl: false, alt: false, shift: false, super_: true, key: Key::Escape })
    );
    // Whitespace around parts is tolerated.
    assert_eq!(
        parse_shortcut(" Ctrl + CapsLock "),
        Some(Hotkey { ctrl: true, alt: false, shift: false, super_: false, key: Key::CapsLock })
    );
    // Without a primary key there is no combination.
    assert_eq!(parse_shortcut("Ctrl+Shift"), None);
    assert_eq!(parse_shortcut(""), None);
    // A later key name wins; an unknown one clears an earlier match.
    assert_eq!(
        parse_shortcut("A+B").map(|h| h.key),
        Some(Key::KeyB)
    );
    assert_eq!(parse_shortcut("V+Bogus"), None);
}

#[test]
fn modifier_keys_are_recognized() {
    assert!(is_modifier_key(Key::ControlLeft));
    assert!(is_modifier_key(Key::AltGr));
    assert!(is_modifier_key(Key::MetaRight));
    assert!(!is_modifier_key(Key::CapsLock));
    assert!(!is_modifier_key(Key::KeyV));
}

fn configured_state() -> HotkeyState {
    let mut st = HotkeyState::new();
    init_hotkeys_from_config(&mut st, "Ctrl+CapsLock", "Alt+CapsLock");
    st
}

#[test]
fn record_combo_fires_on_press_and_release() {
    let mut st = configured_state();
    assert_eq!(handle_keyboard_event(&mut st, InputEvent::KeyPress(Key::ControlLeft)), None);
    assert!(st.ctrl_pressed);
    assert_eq!(
        handle_keyboard_event(&mut st, InputEvent::KeyPress(Key::CapsLock)),
        Some(KeyboardEvent::CtrlCapsLockPressed)
    );
    assert!(st.record_active);
    assert_eq!(
        handle_keyboard_event(&mut st, InputEvent::KeyRelease(Key::CapsLock)),
        Some(KeyboardEvent::CtrlCapsLockReleased)
    );
    assert!(!st.record_active);
}

#[test]
fn releasing_a_required_modifier_also_stops() {
    let mut st = configured_state();
    handle_keyboard_event(&mut st, InputEvent::KeyPress(Key::ControlLeft));
    handle_keyboard_event(&mut st, InputEvent::KeyPress(Key::CapsLock));
    assert!(st.record_active);
    assert_eq!(
        handle_keyboard_event(&mut st, InputEvent::KeyRelease(Key::ControlRight)),
        Some(KeyboardEvent::CtrlCapsLockReleased)
    );
    assert!(!st.record_active);
    // Either control key's release clears the tracked modifier.
    assert!(!st.ctrl_pressed);
}

#[test]
fn combo_needs_its_modifiers_down() {
    let mut st = configured_state();
    // CapsLock without Ctrl holds the record combo back, and the mode combo
    // needs Alt.
    assert_eq!(handle_keyboard_event(&mut st, InputEvent::KeyPress(Key::CapsLock)), None);
    assert!(!st.record_active);
    let h = st.record_hotkey.unwrap();
    assert!(!mods_match(h, &st));
    handle_keyboard_event(&mut st, InputEvent::KeyPress(Key::ControlLeft));
    assert!(mods_match(h, &st));
}

#[test]
fn mode_combo_toggles_translate() {
    let mut st = configured_state();
    handle_keyboard_event(&mut st, InputEvent::KeyPress(Key::Alt));
    assert_eq!(
        handle_keyboard_event(&mut st, InputEvent::KeyPress(Key::CapsLock)),
        Some(KeyboardEvent::AltCapsToggleTranslate)
    );
    assert!(!st.record_active);
}

#[test]
fn release_without_active_recording_is_silent() {
    let mut st = configured_state();
    assert_eq!(handle_keyboard_event(&mut st, InputEvent::KeyRelease(Key::CapsLock)), None);
    assert_eq!(handle_keyboard_event(&mut st, InputEvent::KeyRelease(Key::ControlLeft)), None);
}

#[test]
fn unrelated_keys_pass_through() {
    let mut st = configured_state();
    handle_keyboard_event(&mut st, InputEvent::KeyPress(Key::ControlLeft));
    assert_eq!(handle_keyboard_event(&mut st, InputEvent::KeyPress(Key::KeyQ)), None);
    handle_keyboard_event(&mut st, InputEvent::KeyPress(Key::CapsLock));
    assert!(st.record_active);
    assert_eq!(handle_keyboard_event(&mut st, InputEvent::KeyRelease(Key::KeyQ)), None);
    assert!(st.record_active);
}
