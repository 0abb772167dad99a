use screenshotapp::errors::GrammarError;
use screenshotapp::grammar::{
    normalize_and_parse, normalize_shortcut_string, parse_shortcut, parse_shortcut_parts,
    shortcut_display, shortcut_parts_to_string, shortcut_to_display, Shortcut,
};
use screenshotapp::keys::{
    char_to_code, code_to_string, modifier_to_string, string_to_code, Code, Modifier, Modifiers,
};

fn mods(cmd: bool, shift: bool, alt: bool, ctrl: bool) -> Modifiers {
    Modifiers { cmd, shift, alt, ctrl }
}

fn all_codes() -> Vec<Code> {
    vec![
        Code::Digit0, Code::Digit1, Code::Digit2, Code::Digit3, Code::Digit4, Code::Digit5,
        Code::Digit6, Code::Digit7, Code::Digit8, Code::Digit9, Code::KeyA, Code::KeyB,
        Code::KeyC, Code::KeyD, Code::KeyE, Code::KeyF, Code::KeyG, Code::KeyH, Code::KeyI,
        Code::KeyJ, Code::KeyK, Code::KeyL, Code::KeyM, Code::KeyN, Code::KeyO, Code::KeyP,
        Code::KeyQ, Code::KeyR, Code::KeyS, Code::KeyT, Code::KeyU, Code::KeyV, Code::KeyW,
        Code::KeyX, Code::KeyY, Code::KeyZ, Code::F1, Code::F2, Code::F3, Code::F4, Code::F5,
        Code::F6, Code::F7, Code::F8, Code::F9, Code::F10, Code::F11, Code::F12, Code::Space,
        Code::Enter, Code::Tab, Code::Escape, Code::Backspace, Code::Minus, Code::Equal,
        Code::BracketLeft, Code::BracketRight, Code::Semicolon, Code::Quote, Code::Comma,
        Code::Period, Code::Slash, Code::Backslash, Code::IntlBackslash, Code::Backquote,
    ]
}

#[test]
fn lower_and_mixed_case_parse_to_the_same_shortcut() {
    let a = parse_shortcut_parts("cmd+shift+3").unwrap();
    let b = parse_shortcut_parts("Shift+Cmd+3").unwrap();
    assert_eq!(a, b);
    assert_eq!(a, Shortcut { modifiers: mods(true, true, false, false), key: Code::Digit3 });
    assert_eq!(shortcut_parts_to_string(&a), "Cmd+Shift+3");
    assert_eq!(shortcut_parts_to_string(&b), "Cmd+Shift+3");
    assert_eq!(normalize_shortcut_string("cmd+shift+3").unwrap(), "Cmd+Shift+3");
    assert_eq!(normalize_shortcut_string("Shift+Cmd+3").unwrap(), "Cmd+Shift+3");
}

#[test]
fn modifier_aliases_are_accepted() {
    for alias in ["Cmd", "Command", "Super", "Meta", "cOmMaNd"] {
        let text = format!("{}+A", alias);
        assert_eq!(normalize_shortcut_string(&text).unwrap(), "Cmd+A");
    }
    for alias in ["Alt", "Option", "OPTION"] {
        let text = format!("{}+A", alias);
        assert_eq!(normalize_shortcut_string(&text).unwrap(), "Alt+A");
    }
    for alias in ["Ctrl", "Control", "control"] {
        let text = format!("{}+A", alias);
        assert_eq!(normalize_shortcut_string(&text).unwrap(), "Ctrl+A");
    }
    assert_eq!(normalize_shortcut_string("shift+a").unwrap(), "Shift+A");
}

#[test]
fn modifiers_are_written_in_the_fixed_order() {
    assert_eq!(
        normalize_shortcut_string("ctrl+alt+shift+cmd+f12").unwrap(),
        "Cmd+Shift+Alt+Ctrl+F12"
    );
    assert_eq!(normalize_shortcut_string("Ctrl+Cmd+Space").unwrap(), "Cmd+Ctrl+Space");
    assert_eq!(normalize_shortcut_string("cmd+cmd+x").unwrap(), "Cmd+X");
}

#[test]
fn the_key_may_stand_anywhere() {
    let expected = Shortcut { modifiers: mods(true, false, true, false), key: Code::KeyQ };
    assert_eq!(parse_shortcut("q+cmd+alt").unwrap(), expected);
    assert_eq!(parse_shortcut("cmd+q+alt").unwrap(), expected);
    assert_eq!(parse_shortcut("cmd+alt+q").unwrap(), expected);
}

#[test]
fn blanks_around_tokens_are_dropped() {
    assert_eq!(normalize_shortcut_string(" Cmd + Shift +\t4 ").unwrap(), "Cmd+Shift+4");
    assert_eq!(normalize_shortcut_string("Cmd+\u{a0}Tab\u{2003}").unwrap(), "Cmd+Tab");
}

#[test]
fn missing_modifier_is_reported() {
    assert_eq!(parse_shortcut_parts("a"), Err(GrammarError::MissingModifier));
    assert_eq!(parse_shortcut_parts("F5"), Err(GrammarError::MissingModifier));
}

#[test]
fn missing_key_is_reported() {
    assert_eq!(parse_shortcut_parts("cmd"), Err(GrammarError::MissingKey));
    assert_eq!(parse_shortcut_parts("cmd+shift"), Err(GrammarError::MissingKey));
}

#[test]
fn duplicate_key_is_reported() {
    assert_eq!(parse_shortcut_parts("cmd+a+b"), Err(GrammarError::DuplicateKey));
    assert_eq!(parse_shortcut_parts("a+b"), Err(GrammarError::DuplicateKey));
    // the second key is not looked up
    assert_eq!(parse_shortcut_parts("cmd+a+nosuchkey"), Err(GrammarError::DuplicateKey));
}

#[test]
fn empty_token_is_reported() {
    assert_eq!(parse_shortcut_parts(""), Err(GrammarError::EmptyToken));
    assert_eq!(parse_shortcut_parts("cmd++a"), Err(GrammarError::EmptyToken));
    assert_eq!(parse_shortcut_parts("cmd+a+"), Err(GrammarError::EmptyToken));
    assert_eq!(parse_shortcut_parts("+cmd+a"), Err(GrammarError::EmptyToken));
    assert_eq!(parse_shortcut_parts("cmd+  +a"), Err(GrammarError::EmptyToken));
}

#[test]
fn unknown_key_is_reported_as_written() {
    assert_eq!(
        parse_shortcut_parts("cmd+ NoSuchKey "),
        Err(GrammarError::UnknownKey("NoSuchKey".to_string()))
    );
    assert_eq!(parse_shortcut_parts("cmd+f13"), Err(GrammarError::UnknownKey("f13".to_string())));
    assert_eq!(parse_shortcut_parts("cmd+keyé"), Err(GrammarError::UnknownKey("keyé".to_string())));
}

#[test]
fn the_first_error_from_the_left_wins() {
    assert_eq!(parse_shortcut_parts("+nosuchkey"), Err(GrammarError::EmptyToken));
    assert_eq!(
        parse_shortcut_parts("nosuchkey++"),
        Err(GrammarError::UnknownKey("nosuchkey".to_string()))
    );
    assert_eq!(parse_shortcut_parts("a+b+"), Err(GrammarError::DuplicateKey));
}

#[test]
fn error_messages() {
    assert_eq!(GrammarError::MissingModifier.message(), "At least one modifier required");
    assert_eq!(GrammarError::MissingKey.message(), "No key specified in shortcut");
    assert_eq!(GrammarError::DuplicateKey.message(), "Shortcut must have only one main key");
    assert_eq!(GrammarError::EmptyToken.message(), "Shortcut contains an empty token");
    assert_eq!(GrammarError::UnknownKey("f13".to_string()).message(), "Unknown key: f13");
}

#[test]
fn key_aliases() {
    assert_eq!(string_to_code("0"), Ok(Code::Digit0));
    assert_eq!(string_to_code("Digit7"), Ok(Code::Digit7));
    assert_eq!(string_to_code("z"), Ok(Code::KeyZ));
    assert_eq!(string_to_code("KeyM"), Ok(Code::KeyM));
    assert_eq!(string_to_code("f1"), Ok(Code::F1));
    assert_eq!(string_to_code("F12"), Ok(Code::F12));
    assert_eq!(string_to_code("space"), Ok(Code::Space));
    assert_eq!(string_to_code("ENTER"), Ok(Code::Enter));
    assert_eq!(string_to_code("Tab"), Ok(Code::Tab));
    assert_eq!(string_to_code("esc"), Ok(Code::Escape));
    assert_eq!(string_to_code("Escape"), Ok(Code::Escape));
    assert_eq!(string_to_code("backspace"), Ok(Code::Backspace));
    assert_eq!(string_to_code("-"), Ok(Code::Minus));
    assert_eq!(string_to_code("minus"), Ok(Code::Minus));
    assert_eq!(string_to_code("="), Ok(Code::Equal));
    assert_eq!(string_to_code("equal"), Ok(Code::Equal));
    assert_eq!(string_to_code("equals"), Ok(Code::Equal));
    assert_eq!(string_to_code("["), Ok(Code::BracketLeft));
    assert_eq!(string_to_code("lbracket"), Ok(Code::BracketLeft));
    assert_eq!(string_to_code("bracketleft"), Ok(Code::BracketLeft));
    assert_eq!(string_to_code("]"), Ok(Code::BracketRight));
    assert_eq!(string_to_code("rbracket"), Ok(Code::BracketRight));
    assert_eq!(string_to_code("BracketRight"), Ok(Code::BracketRight));
    assert_eq!(string_to_code(";"), Ok(Code::Semicolon));
    assert_eq!(string_to_code("semicolon"), Ok(Code::Semicolon));
    assert_eq!(string_to_code("'"), Ok(Code::Quote));
    assert_eq!(string_to_code("quote"), Ok(Code::Quote));
    assert_eq!(string_to_code(","), Ok(Code::Comma));
    assert_eq!(string_to_code("comma"), Ok(Code::Comma));
    assert_eq!(string_to_code("."), Ok(Code::Period));
    assert_eq!(string_to_code("period"), Ok(Code::Period));
    assert_eq!(string_to_code("/"), Ok(Code::Slash));
    assert_eq!(string_to_code("slash"), Ok(Code::Slash));
    assert_eq!(string_to_code("\\"), Ok(Code::Backslash));
    assert_eq!(string_to_code("backslash"), Ok(Code::Backslash));
    assert_eq!(string_to_code("IntlBackslash"), Ok(Code::IntlBackslash));
    assert_eq!(string_to_code("`"), Ok(Code::Backquote));
    assert_eq!(string_to_code("grave"), Ok(Code::Backquote));
    assert_eq!(string_to_code("backquote"), Ok(Code::Backquote));
}

#[test]
fn unknown_aliases() {
    for text in ["", "f0", "f13", "digit", "digita", "digit10", "key", "key1", "keyab", "+", "é", "ab"] {
        assert_eq!(string_to_code(text), Err(GrammarError::UnknownKey(text.to_string())));
    }
}

#[test]
fn the_kelvin_sign_reads_as_k() {
    assert_eq!(string_to_code("\u{212a}"), Ok(Code::KeyK));
    assert_eq!(parse_shortcut("cmd+\u{212a}ey\u{212a}").unwrap().key, Code::KeyK);
    assert_eq!(string_to_code("bac\u{212a}space"), Ok(Code::Backspace));
}

#[test]
fn single_characters() {
    assert_eq!(char_to_code('a'), Some(Code::KeyA));
    assert_eq!(char_to_code('9'), Some(Code::Digit9));
    assert_eq!(char_to_code('A'), None);
    assert_eq!(char_to_code('+'), None);
}

#[test]
fn canonical_names() {
    assert_eq!(code_to_string(Code::Digit0), "0");
    assert_eq!(code_to_string(Code::KeyA), "A");
    assert_eq!(code_to_string(Code::F10), "F10");
    assert_eq!(code_to_string(Code::Space), "Space");
    assert_eq!(code_to_string(Code::Enter), "Enter");
    assert_eq!(code_to_string(Code::Tab), "Tab");
    assert_eq!(code_to_string(Code::Escape), "Escape");
    assert_eq!(code_to_string(Code::Backspace), "Backspace");
    assert_eq!(code_to_string(Code::Minus), "-");
    assert_eq!(code_to_string(Code::Equal), "=");
    assert_eq!(code_to_string(Code::BracketLeft), "[");
    assert_eq!(code_to_string(Code::BracketRight), "]");
    assert_eq!(code_to_string(Code::Semicolon), ";");
    assert_eq!(code_to_string(Code::Quote), "'");
    assert_eq!(code_to_string(Code::Comma), ",");
    assert_eq!(code_to_string(Code::Period), ".");
    assert_eq!(code_to_string(Code::Slash), "/");
    assert_eq!(code_to_string(Code::Backslash), "\\");
    assert_eq!(code_to_string(Code::IntlBackslash), "IntlBackslash");
    assert_eq!(code_to_string(Code::Backquote), "`");
    assert_eq!(modifier_to_string(Modifier::Cmd), "Cmd");
    assert_eq!(modifier_to_string(Modifier::Shift), "Shift");
    assert_eq!(modifier_to_string(Modifier::Alt), "Alt");
    assert_eq!(modifier_to_string(Modifier::Ctrl), "Ctrl");
}

#[test]
fn every_shortcut_is_read_back_as_written() {
    for code in all_codes() {
        for bits in 1u8..16 {
            let sc = Shortcut {
                modifiers: mods(bits & 1 != 0, bits & 2 != 0, bits & 4 != 0, bits & 8 != 0),
                key: code,
            };
            let text = shortcut_parts_to_string(&sc);
            let back = parse_shortcut_parts(&text).unwrap();
            assert_eq!(back, sc);
            assert_eq!(normalize_shortcut_string(&text).unwrap(), text);
        }
    }
}

#[test]
fn round_trip_of_written_strings() {
    for text in ["cmd+shift+3", "Option+Control+ESC", " meta + grave ", "super+keyq", "ctrl+digit5"] {
        let first = parse_shortcut_parts(text).unwrap();
        let again = parse_shortcut_parts(&shortcut_parts_to_string(&first)).unwrap();
        assert_eq!(first, again);
    }
}

#[test]
fn every_key_has_a_name_of_its_own() {
    let codes = all_codes();
    for (i, a) in codes.iter().enumerate() {
        assert_eq!(string_to_code(&code_to_string(*a)), Ok(*a));
        for b in &codes[i + 1..] {
            assert_ne!(code_to_string(*a), code_to_string(*b));
        }
    }
}

#[test]
fn the_two_backslash_keys_are_told_apart() {
    let intl = parse_shortcut_parts("cmd+intlbackslash").unwrap();
    assert_eq!(intl.key, Code::IntlBackslash);
    assert_eq!(shortcut_parts_to_string(&intl), "Cmd+IntlBackslash");
    assert_eq!(normalize_shortcut_string("Cmd+IntlBackslash").unwrap(), "Cmd+IntlBackslash");
    assert_eq!(parse_shortcut_parts("Cmd+IntlBackslash").unwrap(), intl);
    let plain = parse_shortcut_parts("cmd+backslash").unwrap();
    assert_eq!(plain.key, Code::Backslash);
    assert_eq!(shortcut_parts_to_string(&plain), "Cmd+\\");
    assert_eq!(parse_shortcut_parts("Cmd+\\").unwrap(), plain);
    assert_ne!(
        normalize_shortcut_string("Cmd+IntlBackslash").unwrap(),
        normalize_shortcut_string("Cmd+Backslash").unwrap()
    );
    assert_eq!(shortcut_to_display("cmd+intlbackslash"), "\u{2318}IntlBackslash");
}

#[test]
fn normalize_and_parse_gives_both() {
    let (text, sc) = normalize_and_parse("alt+SHIFT+f4").unwrap();
    assert_eq!(text, "Shift+Alt+F4");
    assert_eq!(sc, Shortcut { modifiers: mods(false, true, true, false), key: Code::F4 });
    assert_eq!(normalize_and_parse("alt+"), Err(GrammarError::EmptyToken));
}

#[test]
fn modifier_sets() {
    let mut m = Modifiers::empty();
    assert!(m.is_empty());
    m.insert(Modifier::Alt);
    assert!(!m.is_empty());
    assert!(m.contains(Modifier::Alt));
    assert!(!m.contains(Modifier::Cmd));
    m.insert(Modifier::Alt);
    assert_eq!(m, mods(false, false, true, false));
    m.insert(Modifier::Ctrl);
    m.insert(Modifier::Cmd);
    m.insert(Modifier::Shift);
    assert_eq!(m, mods(true, true, true, true));
}

#[test]
fn display_of_shortcuts() {
    assert_eq!(shortcut_to_display("cmd+shift+3"), "\u{2318}\u{21e7}3");
    assert_eq!(shortcut_to_display("Ctrl+Alt+Space"), "\u{2325}\u{2303}Space");
    assert_eq!(
        shortcut_to_display("cmd+shift+alt+ctrl+backspace"),
        "\u{2318}\u{21e7}\u{2325}\u{2303}Backspace"
    );
    let sc = Shortcut { modifiers: mods(false, true, false, false), key: Code::Minus };
    assert_eq!(shortcut_display(&sc), "\u{21e7}-");
}

#[test]
fn display_of_what_is_no_shortcut() {
    assert_eq!(shortcut_to_display("Cmd+Shift"), "\u{2318}\u{21e7}");
    assert_eq!(shortcut_to_display("Cmd+Nothing"), "\u{2318}Nothing");
    assert_eq!(shortcut_to_display("CtrlCtrl+Altar+"), "\u{2303}\u{2303}\u{2325}ar");
    assert_eq!(shortcut_to_display("cmd+"), "cmd");
    assert_eq!(shortcut_to_display(""), "");
}

#[test]
fn display_agrees_with_replacing_in_the_canonical_string() {
    for code in all_codes() {
        for bits in 1u8..16 {
            let sc = Shortcut {
                modifiers: mods(bits & 1 != 0, bits & 2 != 0, bits & 4 != 0, bits & 8 != 0),
                key: code,
            };
            let replaced = shortcut_parts_to_string(&sc)
                .replace("Cmd", "\u{2318}")
                .replace("Shift", "\u{21e7}")
                .replace("Alt", "\u{2325}")
                .replace("Ctrl", "\u{2303}")
                .replace("+", "");
            assert_eq!(shortcut_display(&sc), replaced);
        }
    }
}
