use keypeek::layout_key::{KeycodeKind, KeycodeLabel, Label, LayoutKey};
use qmk_via_api::keycodes::Keycode;

fn basic_label(keycode: u16) -> KeycodeLabel {
    let long = if keycode == Keycode::KC_A as u16 {
        Some("A".to_string())
    } else {
        None
    };
    KeycodeLabel {
        long,
        short: None,
        symbol: None,
        kind: KeycodeKind::Basic,
        layer_ref: None,
    }
}

#[test]
fn test_from_qmk_keycode_basic() {
    let key = LayoutKey::from_qmk_keycode(Keycode::KC_A as u16, basic_label);
    assert!(key.is_some());
    let key = key.unwrap();
    assert_eq!(key.tap, "A");
    assert_eq!(key.kind, KeycodeKind::Basic);
}

#[test]
fn test_from_qmk_keycode_transparent() {
    let key = LayoutKey::from_qmk_keycode(Keycode::KC_TRANSPARENT as u16, |_| {
        panic!("the label of a transparent key is never asked for")
    });
    assert!(key.is_none());
}

#[test]
fn test_from_qmk_keycode_no() {
    let key = LayoutKey::from_qmk_keycode(Keycode::KC_NO as u16, basic_label);
    assert!(key.is_some());
    let key = key.unwrap();
    assert_eq!(key.tap, "");
}

#[test]
fn test_simple_constructor() {
    let key = LayoutKey::simple("A");
    assert_eq!(key.tap, "A");
    assert!(key.hold.is_none());
}

#[test]
fn test_hold_tap_constructor() {
    let key = LayoutKey::hold_tap("A", "Shift");
    assert_eq!(key.tap, "A");
    assert_eq!(key.hold, Some("Shift".to_string()));
    assert_eq!(key.kind, KeycodeKind::Modifier);
}

#[test]
fn test_layer_constructor() {
    let key = LayoutKey::layer("L1", 1);
    assert_eq!(key.tap, "L1");
    assert_eq!(key.layer_ref, Some(1));
    assert_eq!(key.kind, KeycodeKind::Modifier);
}

#[test]
fn default_key_is_empty_basic() {
    let key = LayoutKey::default();
    assert_eq!(key.tap, "");
    assert_eq!(key.hold, None);
    assert_eq!(key.short, None);
    assert_eq!(key.symbol, None);
    assert_eq!(key.kind, KeycodeKind::Basic);
    assert_eq!(key.layer_ref, None);
}

#[test]
fn keycode_label_fields_carry_over() {
    let key = LayoutKey::from_keycode_label(KeycodeLabel {
        long: Some("Enter".to_string()),
        short: Some("Ent".to_string()),
        symbol: Some("S".to_string()),
        kind: KeycodeKind::Special,
        layer_ref: Some(2),
    });
    assert_eq!(key.tap, "Enter");
    assert_eq!(key.short, Some("Ent".to_string()));
    assert_eq!(key.symbol, Some("S".to_string()));
    assert_eq!(key.kind, KeycodeKind::Special);
    assert_eq!(key.layer_ref, Some(2));
    assert_eq!(key.hold, None);
}

#[test]
fn display_label_prefers_symbol_then_fitting_short() {
    let mut key = LayoutKey::simple("Enter");
    assert_eq!(key.display_label(5), "Enter");
    assert_eq!(key.display_label(9), "Enter");
    assert_eq!(key.display_label(3), "Ent");
    key.short = Some("Ent".to_string());
    assert_eq!(key.display_label(3), "Ent");
    assert_eq!(key.display_label(2), "En");
    assert_eq!(key.display_label(0), "");
    key.symbol = Some("\u{E6A6}".to_string());
    assert_eq!(key.display_label(0), "\u{E6A6}");
}

#[test]
fn display_label_counts_bytes() {
    let mut key = LayoutKey::simple("Umlaut");
    key.short = Some("\u{00FC}".to_string());
    assert_eq!(key.display_label(1), "U");
    assert_eq!(key.display_label(2), "\u{00FC}");
}

#[test]
fn tap_label_truncates_on_char_boundaries() {
    let key = LayoutKey::simple("\u{00FC}b\u{20AC}d");
    assert_eq!(key.display_label(0), "");
    assert_eq!(key.display_label(1), "");
    assert_eq!(key.display_label(2), "\u{00FC}");
    assert_eq!(key.display_label(3), "\u{00FC}b");
    assert_eq!(key.display_label(5), "\u{00FC}b");
    assert_eq!(key.display_label(6), "\u{00FC}b\u{20AC}");
    assert_eq!(key.display_label(7), "\u{00FC}b\u{20AC}d");
    assert_eq!(key.display_label(100), "\u{00FC}b\u{20AC}d");
    let wide = LayoutKey::simple("\u{1F600}x");
    assert_eq!(wide.display_label(3), "");
    assert_eq!(wide.display_label(4), "\u{1F600}");
}

#[test]
fn label_constructors_and_clone() {
    let l = Label::with_short("Caps Word", "CW");
    let c = l.clone();
    assert_eq!(c.full, "Caps Word");
    assert_eq!(c.short, Some("CW".to_string()));
    let n = Label::new("Reset");
    assert_eq!(n.full, "Reset");
    assert_eq!(n.short, None);
    let k = LayoutKey::hold_tap("A", "Ctrl");
    assert_eq!(k.clone(), k);
}
