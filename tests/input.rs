use scroll_area::{
    button_from_code, modifiers_from_flags, select_touch, str_eq, text_from_key, translate_key, Key,
    Modifiers, PointerButton,
};

#[test]
fn key_names() {
    assert_eq!(translate_key("ArrowDown"), Some(Key::ArrowDown));
    assert_eq!(translate_key("Down"), Some(Key::ArrowDown));
    assert_eq!(translate_key("Esc"), Some(Key::Escape));
    assert_eq!(translate_key("a"), Some(Key::A));
    assert_eq!(translate_key("Z"), Some(Key::Z));
    assert_eq!(translate_key("7"), Some(Key::Num7));
    assert_eq!(translate_key("F12"), Some(Key::F12));
    assert_eq!(translate_key(" "), Some(Key::Space));
    assert_eq!(translate_key("ä"), None);
    assert_eq!(translate_key("Shift"), None);
}

#[test]
fn key_text() {
    assert_eq!(text_from_key("x"), Some("x".to_string()));
    assert_eq!(text_from_key("F"), Some("F".to_string()));
    assert_eq!(text_from_key("F5"), None);
    assert_eq!(text_from_key("Shift"), None);
    assert_eq!(text_from_key("GroupNext"), None);
    assert_eq!(text_from_key("ö"), Some("ö".to_string()));
}

#[test]
fn string_equality() {
    assert!(str_eq("abc", "abc"));
    assert!(!str_eq("abc", "abd"));
    assert!(!str_eq("ab", "abc"));
}

#[test]
fn buttons() {
    assert_eq!(button_from_code(0), Some(PointerButton::Primary));
    assert_eq!(button_from_code(1), Some(PointerButton::Middle));
    assert_eq!(button_from_code(2), Some(PointerButton::Secondary));
    assert_eq!(button_from_code(3), Some(PointerButton::Extra1));
    assert_eq!(button_from_code(4), Some(PointerButton::Extra2));
    assert_eq!(button_from_code(5), None);
    assert_eq!(button_from_code(-1), None);
}

#[test]
fn modifier_flags() {
    let m = modifiers_from_flags(false, false, true, true);
    assert_eq!(m, Modifiers { alt: false, ctrl: false, shift: true, mac_cmd: true, command: true });
    let m = modifiers_from_flags(true, true, false, false);
    assert_eq!(m, Modifiers { alt: true, ctrl: true, shift: false, mac_cmd: false, command: true });
    assert!(!modifiers_from_flags(true, false, true, false).command);
}

#[test]
fn touch_selection_keeps_the_same_touch() {
    let mut id = None;
    assert_eq!(select_touch(&vec![4, 9], &mut id), Some(0));
    assert_eq!(id, Some(4));
    // A second touch arrives first in the list: the pointer keeps following touch 4.
    assert_eq!(select_touch(&vec![9, 4], &mut id), Some(1));
    assert_eq!(id, Some(4));
    // Touch 4 ends: fall back to the first.
    assert_eq!(select_touch(&vec![9], &mut id), Some(0));
    assert_eq!(id, Some(9));
    assert_eq!(select_touch(&vec![], &mut id), None);
    assert_eq!(id, Some(9));
}
