use keypeek::layout_key::{KeycodeKind, Label, LayoutKey};
use keypeek::zmk_keycode_labels::behavior::combine_labels;
use keypeek::zmk_keycode_labels::{
    behavior, behavior_to_layout_key, consumer_key_label, keycode_to_layout_key, layer_layout_key,
    shifted_key_label, system_key_label, Behavior,
};
use std::collections::HashMap;

fn table() -> Vec<Option<LayoutKey>> {
    let mut t: Vec<Option<LayoutKey>> = (0..256).map(|_| None).collect();
    t[0x04] = Some(LayoutKey::simple("A"));
    let mut shift = LayoutKey::simple("Shift");
    shift.short = Some("Sft".to_string());
    shift.kind = KeycodeKind::Modifier;
    t[0xE1] = Some(shift);
    t
}

fn key(b: Behavior) -> LayoutKey {
    behavior_to_layout_key(&b, &table()).expect("a key")
}

#[test]
fn transparent_has_no_key() {
    assert!(behavior_to_layout_key(&Behavior::Transparent, &table()).is_none());
    assert!(behavior::behavior_to_layout_key(&Behavior::Transparent, &HashMap::new(), &table())
        .is_none());
}

#[test]
fn no_action_is_empty_key() {
    let k = key(Behavior::NoAction);
    assert_eq!(k.tap, "");
    assert_eq!(k.kind, KeycodeKind::Basic);
}

#[test]
fn key_press_uses_basic_table() {
    let k = key(Behavior::KeyPress(0x0007_0004));
    assert_eq!(k.tap, "A");
    let k = keycode_to_layout_key(0x0007_00E1, &table());
    assert_eq!(k.tap, "Shift");
    assert_eq!(k.kind, KeycodeKind::Modifier);
}

#[test]
fn key_press_falls_back_to_zmk_name() {
    let k = keycode_to_layout_key(0x0007_00E1, &Vec::new());
    assert_eq!(k.tap, "LSHIFT");
    assert_eq!(k.short, None);
    let k = keycode_to_layout_key(0x0007_0200, &table());
    assert_eq!(k.tap, "0x00070200");
}

#[test]
fn shifted_consumer_and_system_pages() {
    let k = keycode_to_layout_key(0x0207_0038, &Vec::new());
    assert_eq!(k.tap, "?");
    assert_eq!(k.short, Some("?".to_string()));
    let k = keycode_to_layout_key(0x0207_0053, &Vec::new());
    assert_eq!(k.tap, "Clear");
    assert_eq!(k.short, Some("Clr".to_string()));
    let k = keycode_to_layout_key(0x000C_00B3, &Vec::new());
    assert_eq!(k.tap, "");
    assert_eq!(k.symbol, Some("\u{E6A6}".to_string()));
    let k = keycode_to_layout_key(0x000C_00B2, &Vec::new());
    assert_eq!(k.tap, "Record");
    assert_eq!(k.short, Some("Rec".to_string()));
    let k = keycode_to_layout_key(0x0001_0083, &Vec::new());
    assert_eq!(k.tap, "Wake");
}

#[test]
fn page_tables() {
    assert!(shifted_key_label(0x1E).is_some_and(|k| k.tap == "!"));
    assert!(shifted_key_label(0x37).is_none());
    assert!(consumer_key_label(0x0222).is_some_and(|k| k.tap == "Go To"
        && k.short == Some("GoTo".to_string())));
    assert!(consumer_key_label(0x00E9).is_some_and(|k| k.symbol
        == Some("\u{E44A}".to_string())));
    assert!(consumer_key_label(0x029D).is_some_and(|k| k.symbol
        == Some("\u{E472}".to_string())));
    assert!(consumer_key_label(0x0001).is_none());
    assert!(system_key_label(0x81).is_some_and(|k| k.tap == "Power"));
    assert!(system_key_label(0x84).is_none());
}

#[test]
fn key_toggle_holds_toggle() {
    let k = key(Behavior::KeyToggle(0x0007_0004));
    assert_eq!(k.tap, "A");
    assert_eq!(k.hold, Some("Toggle".to_string()));
}

#[test]
fn layer_behaviors() {
    let k = key(Behavior::MomentaryLayer { layer_id: 2 });
    assert_eq!(k.tap, "MO 2");
    assert_eq!(k.short, Some("MO2".to_string()));
    assert_eq!(k.kind, KeycodeKind::Special);
    assert_eq!(k.layer_ref, Some(2));
    let k = key(Behavior::ToLayer { layer_id: 300 });
    assert_eq!(k.tap, "TO 300");
    assert_eq!(k.layer_ref, Some(44));
    let k = layer_layout_key("SL", 0);
    assert_eq!(k.tap, "SL 0");
    assert_eq!(k.short, Some("SL0".to_string()));
}

#[test]
fn layer_tap_and_mod_tap() {
    let k = key(Behavior::LayerTap { layer_id: 1, tap: 0x0007_0004 });
    assert_eq!(k.tap, "A");
    assert_eq!(k.hold, Some("L1".to_string()));
    assert_eq!(k.kind, KeycodeKind::Special);
    assert_eq!(k.layer_ref, Some(1));
    let k = key(Behavior::ModTap { hold: 0x0007_00E1, tap: 0x0007_0004 });
    assert_eq!(k.tap, "A");
    assert_eq!(k.hold, Some("Shift".to_string()));
    assert_eq!(k.kind, KeycodeKind::Modifier);
    assert_eq!(k.layer_ref, None);
}

#[test]
fn sticky_key_prefixes_os() {
    let k = key(Behavior::StickyKey(0x0007_00E1));
    assert_eq!(k.tap, "OS Shift");
    assert_eq!(k.short, Some("OSSft".to_string()));
    assert_eq!(k.kind, KeycodeKind::Modifier);
    let k = key(Behavior::StickyKey(0x0007_0004));
    assert_eq!(k.short, Some("OSA".to_string()));
}

#[test]
fn fixed_and_numbered_behaviors() {
    let k = key(Behavior::CapsWord);
    assert_eq!((k.tap.as_str(), k.short.as_deref()), ("Caps Word", Some("CW")));
    assert_eq!(k.kind, KeycodeKind::Special);
    let k = key(Behavior::Reset);
    assert_eq!((k.tap.as_str(), k.short.as_deref()), ("Reset", None));
    let k = key(Behavior::GraveEscape);
    assert_eq!((k.tap.as_str(), k.short.as_deref()), ("Grave Esc", Some("G/E")));
    let k = key(Behavior::Bluetooth { command: 0, value: 0 });
    assert_eq!(k.tap, "BT Clr");
    let k = key(Behavior::Bluetooth { command: 2, value: 0 });
    assert_eq!(k.tap, "BT Prv");
    let k = key(Behavior::Bluetooth { command: 5, value: 1 });
    assert_eq!((k.tap.as_str(), k.short.as_deref()), ("BT 5", None));
    let k = key(Behavior::OutputSelection { value: 1 });
    assert_eq!((k.tap.as_str(), k.short.as_deref()), ("Out 1", Some("Out1")));
    let k = key(Behavior::ExternalPower { value: 2 });
    assert_eq!((k.tap.as_str(), k.short.as_deref()), ("ExtPwr 2", Some("EP2")));
    let k = key(Behavior::Underglow { command: 12, value: 0 });
    assert_eq!((k.tap.as_str(), k.short.as_deref()), ("RGB 12", Some("RGB12")));
    let k = key(Behavior::MouseScroll { value: 65536 });
    assert_eq!((k.tap.as_str(), k.short.as_deref()), ("Scroll 65536", Some("Scr65536")));
}

#[test]
fn unknown_behavior_shows_raw_binding() {
    let k = key(Behavior::Unknown { behavior_id: 0x1A, param1: 0, param2: 0 });
    assert_eq!(k.tap, "0x1A");
    assert_eq!(k.kind, KeycodeKind::Basic);
    let k = key(Behavior::Unknown { behavior_id: 0x1A, param1: 3, param2: 0 });
    assert_eq!(k.tap, "0x1A 3");
    let k = key(Behavior::Unknown { behavior_id: 255, param1: 0, param2: 7 });
    assert_eq!(k.tap, "0xFF 0 7");
}

fn named(b: Behavior, names: &HashMap<u32, String>) -> LayoutKey {
    behavior::behavior_to_layout_key(&b, names, &table()).expect("a key")
}

#[test]
fn named_layers() {
    let mut names = HashMap::new();
    names.insert(1, "Nav".to_string());
    let k = named(Behavior::MomentaryLayer { layer_id: 1 }, &names);
    assert_eq!((k.tap.as_str(), k.short.as_deref()), ("MO Nav", Some("MONav")));
    assert_eq!(k.layer_ref, Some(1));
    let k = named(Behavior::ToggleLayer { layer_id: 2 }, &names);
    assert_eq!((k.tap.as_str(), k.short.as_deref()), ("TG L2", Some("TGL2")));
    let k = behavior::layer_layout_key("TO", 1, &names);
    assert_eq!(k.tap, "TO Nav");
}

#[test]
fn named_layer_tap_combines_labels() {
    let mut names = HashMap::new();
    names.insert(1, "Nav".to_string());
    let k = named(Behavior::LayerTap { layer_id: 1, tap: 0x0007_0004 }, &names);
    assert_eq!((k.tap.as_str(), k.short.as_deref()), ("A(Nav)", Some("A(Nav)")));
    assert_eq!(k.hold, Some("Nav".to_string()));
    assert_eq!(k.kind, KeycodeKind::Special);
    let k = named(Behavior::LayerTap { layer_id: 1, tap: 0x000C_00B3 }, &names);
    assert_eq!((k.tap.as_str(), k.short.as_deref()), ("(Nav)", Some("(Nav)")));
    assert_eq!(k.symbol, Some("\u{E6A6}".to_string()));
}

#[test]
fn named_mod_tap_combines_labels() {
    let k = named(Behavior::ModTap { hold: 0x0007_00E1, tap: 0x0007_0004 }, &HashMap::new());
    assert_eq!((k.tap.as_str(), k.short.as_deref()), ("A(Shift)", Some("A(Sft)")));
    assert_eq!(k.hold, Some("Shift".to_string()));
    assert_eq!(k.kind, KeycodeKind::Modifier);
}

#[test]
fn named_unknown_heuristics() {
    let k = named(
        Behavior::Unknown { behavior_id: 0x40, param1: 1, param2: 0x0200_0038 },
        &HashMap::new(),
    );
    assert_eq!((k.tap.as_str(), k.short.as_deref()), ("?(L1)", Some("?(L1)")));
    assert_eq!(k.layer_ref, Some(1));
    assert_eq!(k.hold, Some("L1".to_string()));
    let k = named(
        Behavior::Unknown { behavior_id: 0x40, param1: 0x0007_00E1, param2: 0x0007_0004 },
        &HashMap::new(),
    );
    assert_eq!((k.tap.as_str(), k.short.as_deref()), ("A(Shift)", Some("A(Sft)")));
    let k = named(
        Behavior::Unknown { behavior_id: 0x40, param1: 40, param2: 0x0007_0004 },
        &HashMap::new(),
    );
    assert_eq!(k.tap, "0x40 40 458756");
}

#[test]
fn named_other_behaviors_match_unnamed() {
    let names = HashMap::new();
    let k = named(Behavior::CapsWord, &names);
    assert_eq!(k, key(Behavior::CapsWord));
    let k = named(Behavior::KeyPress(0x0007_0004), &names);
    assert_eq!(k.tap, "A");
}

#[test]
fn combine_label_forms() {
    let c = combine_labels(Label::with_short("A", "a"), Label::new("Hold"));
    assert_eq!((c.full.as_str(), c.short.as_deref()), ("A(Hold)", Some("a(Hold)")));
    let c = combine_labels(Label::new("A"), Label::new("Hold"));
    assert_eq!((c.full.as_str(), c.short.as_deref()), ("A(Hold)", None));
    let c = combine_labels(Label::with_short("A", "a"), Label::with_short("Hold", "H"));
    assert_eq!((c.full.as_str(), c.short.as_deref()), ("A(Hold)", Some("a(H)")));
    let c = combine_labels(Label::new(""), Label::with_short("Hold", "H"));
    assert_eq!((c.full.as_str(), c.short.as_deref()), ("(Hold)", Some("(H)")));
}

#[test]
fn consumer_symbols_are_phosphor_glyphs() {
    let cases = [
        (0x00B3, "\u{E6A6}"),
        (0x00B4, "\u{E6A8}"),
        (0x00B5, "\u{E5A6}"),
        (0x00B6, "\u{E5A4}"),
        (0x00B7, "\u{E46C}"),
        (0x00CD, "\u{E8BE}"),
        (0x00E2, "\u{E45C}"),
        (0x00E9, "\u{E44A}"),
        (0x00EA, "\u{E44C}"),
        (0x029D, "\u{E472}"),
    ];
    for (usage, glyph) in cases {
        let k = consumer_key_label(usage).expect("a consumer key");
        assert_eq!(k.symbol, Some(glyph.to_string()));
        assert_eq!(k.tap, "");
        assert_eq!(k.display_label(8), glyph);
    }
}
