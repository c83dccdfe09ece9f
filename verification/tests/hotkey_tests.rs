use speedy_stt::hotkey::{
    describe_hotkey, eq_upper, parse_hotkey, parse_key, parse_modifier, HotkeyError, KeyCode,
    Modifier,
};

#[test]
fn eq_upper_is_case_insensitive_on_the_left() {
    assert!(eq_upper("ctrl", "CTRL"));
    assert!(eq_upper("CtRl", "CTRL"));
    assert!(eq_upper("CTRL", "CTRL"));
    assert!(!eq_upper("ctr", "CTRL"));
    assert!(!eq_upper("ctrl", "ctrl"));
}

#[test]
fn modifiers_parse_case_insensitively() {
    assert_eq!(parse_modifier("ctrl"), Ok(Modifier::Control));
    assert_eq!(parse_modifier("ALT"), Ok(Modifier::Alt));
    assert_eq!(parse_modifier("Shift"), Ok(Modifier::Shift));
    assert_eq!(parse_modifier("win"), Ok(Modifier::Super));
    assert_eq!(parse_modifier("super"), Ok(Modifier::Super));
    assert_eq!(parse_modifier("hyper"), Err(HotkeyError::InvalidModifier));
    assert_eq!(parse_modifier(""), Err(HotkeyError::InvalidModifier));
}

#[test]
fn keys_parse_case_insensitively() {
    assert_eq!(parse_key("space"), Ok(KeyCode::Space));
    assert_eq!(parse_key("ENTER"), Ok(KeyCode::Enter));
    assert_eq!(parse_key("return"), Ok(KeyCode::Enter));
    assert_eq!(parse_key("tab"), Ok(KeyCode::Tab));
    assert_eq!(parse_key("backspace"), Ok(KeyCode::Backspace));
    assert_eq!(parse_key("esc"), Ok(KeyCode::Escape));
    assert_eq!(parse_key("Escape"), Ok(KeyCode::Escape));
    assert_eq!(parse_key("win"), Ok(KeyCode::MetaLeft));
    assert_eq!(parse_key("super"), Ok(KeyCode::MetaLeft));
    assert_eq!(parse_key("alt"), Ok(KeyCode::AltLeft));
    assert_eq!(parse_key("altright"), Ok(KeyCode::AltRight));
    assert_eq!(parse_key("f1"), Ok(KeyCode::F1));
    assert_eq!(parse_key("F10"), Ok(KeyCode::F10));
    assert_eq!(parse_key("f12"), Ok(KeyCode::F12));
    assert_eq!(parse_key("a"), Ok(KeyCode::KeyA));
    assert_eq!(parse_key("Z"), Ok(KeyCode::KeyZ));
    assert_eq!(parse_key("F13"), Err(HotkeyError::InvalidKey));
    assert_eq!(parse_key(""), Err(HotkeyError::InvalidKey));
    assert_eq!(parse_key("aa"), Err(HotkeyError::InvalidKey));
}

#[test]
fn hotkey_combines_modifier_and_key() {
    let h = parse_hotkey("ctrl", "space").unwrap();
    assert_eq!(h.modifier, Some(Modifier::Control));
    assert_eq!(h.key, KeyCode::Space);
}

#[test]
fn hotkey_empty_or_none_modifier_means_no_modifier() {
    let h = parse_hotkey("", "a").unwrap();
    assert_eq!(h.modifier, None);
    assert_eq!(h.key, KeyCode::KeyA);
    let h = parse_hotkey("none", "tab").unwrap();
    assert_eq!(h.modifier, None);
    let h = parse_hotkey("NONE", "tab").unwrap();
    assert_eq!(h.modifier, None);
}

#[test]
fn hotkey_description_shows_both_parts() {
    assert_eq!(describe_hotkey("ctrl", "space"), "ctrl + space");
    assert_eq!(describe_hotkey("", "a"), "a");
    assert_eq!(describe_hotkey("none", "tab"), "tab");
    assert_eq!(describe_hotkey("NONE", "tab"), "tab");
}

#[test]
fn hotkey_errors_name_the_offending_part() {
    assert!(matches!(
        parse_hotkey("hyper", "space"),
        Err(HotkeyError::InvalidModifier)
    ));
    assert!(matches!(
        parse_hotkey("ctrl", "bogus"),
        Err(HotkeyError::InvalidKey)
    ));
    // The modifier is checked first, as the descriptor is read left to right.
    assert!(matches!(
        parse_hotkey("hyper", "bogus"),
        Err(HotkeyError::InvalidModifier)
    ));
}
