//! Display labels for ZMK behaviors and keycodes.

use vstd::prelude::*;
use crate::layout_key::{default_key, KeycodeKind, Label, LabelView, LayoutKey, LayoutKeyView};
use crate::text::{decimal, push_decimal, upper_hex, push_upper_hex};
use icons::{
    fast_forward_icon, play_pause_icon, rewind_icon, skip_back_icon, skip_forward_icon,
    speaker_high_icon, speaker_low_icon, speaker_x_icon, stop_icon, sun_icon,
};

pub mod behavior;
pub mod icons;

verus! {

/// The keyboard usage page.
pub const PAGE_KEYBOARD: u32 = 0x0007;

/// The keyboard usage page with left shift held, as ZMK encodes it.
pub const PAGE_KEYBOARD_SHIFTED: u32 = 0x0207;

/// The consumer usage page.
pub const PAGE_CONSUMER: u32 = 0x000C;

/// The generic desktop (system) usage page.
pub const PAGE_SYSTEM: u32 = 0x0001;

/// A ZMK key binding, with each key given by its encoded HID usage
/// (modifiers in bits 31-24, usage page in bits 23-16, usage ID in bits 15-0).
#[derive(Clone, Copy, Debug, PartialEq, Eq, Structural)]
pub enum Behavior {
    Transparent,
    /// The `&none` behavior: the key does nothing.
    NoAction,
    KeyPress(u32),
    KeyToggle(u32),
    MomentaryLayer { layer_id: u32 },
    ToggleLayer { layer_id: u32 },
    ToLayer { layer_id: u32 },
    StickyLayer { layer_id: u32 },
    LayerTap { layer_id: u32, tap: u32 },
    ModTap { hold: u32, tap: u32 },
    StickyKey(u32),
    CapsWord,
    KeyRepeat,
    Reset,
    Bootloader,
    SoftOff,
    StudioUnlock,
    GraveEscape,
    Bluetooth { command: u32, value: u32 },
    OutputSelection { value: u32 },
    ExternalPower { value: u32 },
    Backlight { command: u32, value: u32 },
    Underglow { command: u32, value: u32 },
    MouseKeyPress { value: u32 },
    MouseMove { value: u32 },
    MouseScroll { value: u32 },
    /// A behavior with no label of its own: its ID and raw parameters.
    Unknown { behavior_id: u32, param1: u32, param2: u32 },
}

/// What ZMK displays for an encoded HID usage: the name of the keycode it is,
/// or its hexadecimal encoding when it is none.
pub uninterp spec fn zmk_usage_name(usage: u32) -> Seq<char>;

/// The display text of a HID usage, from
/// `zmk_studio_api::HidUsage::from_encoded(usage)` formatted with `Display`.
///
/// The contract names the result `zmk_usage_name(usage)`: that crate's table
/// of keycode names decides it, so no clause here says more of it.
#[verifier::external_body]
fn usage_name(usage: u32) -> (s: String)
    ensures
        s@ == zmk_usage_name(usage),
{
    zmk_studio_api::HidUsage::from_encoded(usage).to_string()
}

/// A key showing the text `t` and nothing else.
pub open spec fn text_key(t: Seq<char>) -> LayoutKeyView {
    LayoutKeyView { tap: t, ..default_key() }
}

/// A key showing `full`, or `short` where space is tight.
pub open spec fn short_key(full: Seq<char>, short: Seq<char>) -> LayoutKeyView {
    LayoutKeyView { tap: full, short: Some(short), ..default_key() }
}

/// A key shown by a symbol alone.
pub open spec fn symbol_key(symbol: Seq<char>) -> LayoutKeyView {
    LayoutKeyView { symbol: Some(symbol), ..default_key() }
}

/// A key of the given kind showing a label.
pub open spec fn label_key(l: LabelView, kind: KeycodeKind) -> LayoutKeyView {
    LayoutKeyView { tap: l.full, short: l.short, kind: kind, ..default_key() }
}

/// The layer number a key refers to: the low byte of the layer ID.
pub open spec fn layer_byte(layer_id: u32) -> u8 {
    (layer_id % 256) as u8
}

/// The labels of the shifted keyboard keys: full and short form.
pub open spec fn shifted_label(usage_id: u32) -> Option<(Seq<char>, Seq<char>)> {
    match usage_id {
        0x1E => Some(("!"@, "!"@)),
        0x1F => Some(("@"@, "@"@)),
        0x20 => Some(("#"@, "#"@)),
        0x21 => Some(("$"@, "$"@)),
        0x22 => Some(("%"@, "%"@)),
        0x23 => Some(("^"@, "^"@)),
        0x24 => Some(("&"@, "&"@)),
        0x25 => Some(("*"@, "*"@)),
        0x2D => Some(("_"@, "_"@)),
        0x2E => Some(("+"@, "+"@)),
        0x31 => Some(("|"@, "|"@)),
        0x32 => Some(("~"@, "~"@)),
        0x33 => Some((":"@, ":"@)),
        0x35 => Some(("~"@, "~"@)),
        0x36 => Some(("<"@, "<"@)),
        0x38 => Some(("?"@, "?"@)),
        0x53 => Some(("Clear"@, "Clr"@)),
        0x64 => Some(("|"@, "|"@)),
        _ => None,
    }
}

/// The keys of the consumer page that have a label.
pub open spec fn consumer_key(usage_id: u32) -> Option<LayoutKeyView> {
    match usage_id {
        0x0030 => Some(text_key("Power"@)),
        0x0032 => Some(text_key("Sleep"@)),
        0x0040 => Some(text_key("Menu"@)),
        0x00B0 => Some(text_key("Play"@)),
        0x00B1 => Some(text_key("Pause"@)),
        0x00B2 => Some(short_key("Record"@, "Rec"@)),
        0x00B3 => Some(symbol_key(seq!['\u{E6A6}'])),
        0x00B4 => Some(symbol_key(seq!['\u{E6A8}'])),
        0x00B5 => Some(symbol_key(seq!['\u{E5A6}'])),
        0x00B6 => Some(symbol_key(seq!['\u{E5A4}'])),
        0x00B7 => Some(symbol_key(seq!['\u{E46C}'])),
        0x00B8 => Some(short_key("Eject"@, "Ejct"@)),
        0x00CD => Some(symbol_key(seq!['\u{E8BE}'])),
        0x00E2 => Some(symbol_key(seq!['\u{E45C}'])),
        0x00E9 => Some(symbol_key(seq!['\u{E44A}'])),
        0x00EA => Some(symbol_key(seq!['\u{E44C}'])),
        0x0183 => Some(short_key("Select"@, "Sel"@)),
        0x018A => Some(text_key("Mail"@)),
        0x0192 => Some(text_key("Calc"@)),
        0x0196 => Some(text_key("WWW"@)),
        0x0201 => Some(text_key("New"@)),
        0x0202 => Some(text_key("Open"@)),
        0x0203 => Some(text_key("Close"@)),
        0x0204 => Some(text_key("Exit"@)),
        0x0207 => Some(text_key("Save"@)),
        0x0208 => Some(text_key("Print"@)),
        0x021A => Some(text_key("Undo"@)),
        0x021B => Some(text_key("Copy"@)),
        0x021C => Some(text_key("Cut"@)),
        0x021D => Some(text_key("Paste"@)),
        0x021F => Some(text_key("Find"@)),
        0x0221 => Some(text_key("Search"@)),
        0x0222 => Some(short_key("Go To"@, "GoTo"@)),
        0x0223 => Some(text_key("Home"@)),
        0x0224 => Some(text_key("Back"@)),
        0x0225 => Some(text_key("Forward"@)),
        0x0226 => Some(text_key("Stop"@)),
        0x0227 => Some(text_key("Refresh"@)),
        0x022A => Some(text_key("Favorites"@)),
        0x022D => Some(short_key("Zoom In"@, "Z+"@)),
        0x022E => Some(short_key("Zoom Out"@, "Z-"@)),
        0x029D => Some(symbol_key(seq!['\u{E472}'])),
        _ => None,
    }
}

/// The labels of the system page keys.
pub open spec fn system_label(usage_id: u32) -> Option<Seq<char>> {
    match usage_id {
        0x81 => Some("Power"@),
        0x82 => Some("Sleep"@),
        0x83 => Some("Wake"@),
        _ => None,
    }
}

/// The entry of the basic keycode table for a usage ID, if it has one.
pub open spec fn basic_lookup(basic_keys: Seq<Option<LayoutKey>>, usage_id: int) -> Option<
    LayoutKeyView,
> {
    if 0 <= usage_id < basic_keys.len() {
        match basic_keys[usage_id] {
            Some(k) => Some(k@),
            None => None,
        }
    } else {
        None
    }
}

/// The key an encoded HID usage is shown as: a keyboard usage up to `0xFF`
/// from the basic keycode table, a shifted, consumer or system usage from its
/// table, and otherwise ZMK's name for the usage.
pub open spec fn keycode_key(usage: u32, basic_keys: Seq<Option<LayoutKey>>) -> LayoutKeyView {
    let page = usage / 0x10000;
    let id = usage % 0x10000;
    if page == PAGE_KEYBOARD && id <= 0xFF && basic_lookup(basic_keys, id as int) is Some {
        basic_lookup(basic_keys, id as int)->0
    } else if page == PAGE_KEYBOARD_SHIFTED && shifted_label(id) is Some {
        short_key((shifted_label(id)->0).0, (shifted_label(id)->0).1)
    } else if page == PAGE_CONSUMER && consumer_key(id) is Some {
        consumer_key(id)->0
    } else if page == PAGE_SYSTEM && system_label(id) is Some {
        text_key(system_label(id)->0)
    } else {
        text_key(zmk_usage_name(usage))
    }
}

/// The key of a layer behavior: `ABBR id`, short `ABBRid`, special, referring
/// to the layer.
pub open spec fn layer_key(abbreviation: Seq<char>, layer_id: u32) -> LayoutKeyView {
    LayoutKeyView {
        tap: abbreviation + " "@ + decimal(layer_id as nat),
        short: Some(abbreviation + decimal(layer_id as nat)),
        kind: KeycodeKind::Special,
        layer_ref: Some(layer_byte(layer_id)),
        ..default_key()
    }
}

/// A special key with a label.
pub open spec fn special(l: LabelView) -> LayoutKeyView {
    label_key(l, KeycodeKind::Special)
}

/// A label `PREFIX n`, short `SHORTn`.
pub open spec fn numbered(prefix: Seq<char>, short: Seq<char>, n: u32) -> LabelView {
    LabelView { full: prefix + decimal(n as nat), short: Some(short + decimal(n as nat)) }
}

/// The short form of a key's tap label, or the tap label when it has none.
pub open spec fn short_or_tap(k: LayoutKeyView) -> Seq<char> {
    match k.short {
        Some(s) => s,
        None => k.tap,
    }
}

/// `0xID`, then each nonzero parameter from the last one that is nonzero:
/// `0xID P1 P2` when `P2` is nonzero, `0xID P1` when only `P1` is.
pub open spec fn raw_label(behavior_id: u32, param1: u32, param2: u32) -> Seq<char> {
    let head = "0x"@ + upper_hex(behavior_id as nat);
    if param2 != 0 {
        head + " "@ + decimal(param1 as nat) + " "@ + decimal(param2 as nat)
    } else if param1 != 0 {
        head + " "@ + decimal(param1 as nat)
    } else {
        head
    }
}

/// The label of a Bluetooth command.
pub open spec fn bluetooth_label(command: u32) -> Seq<char> {
    if command == 0 {
        "BT Clr"@
    } else if command == 1 {
        "BT Nxt"@
    } else if command == 2 {
        "BT Prv"@
    } else {
        "BT "@ + decimal(command as nat)
    }
}

/// The key a behavior is shown as; `None` for a transparent binding.
pub open spec fn behavior_key(b: Behavior, basic_keys: Seq<Option<LayoutKey>>) -> Option<
    LayoutKeyView,
> {
    match b {
        Behavior::Transparent => Option::None,
        Behavior::NoAction => Some(default_key()),
        Behavior::KeyPress(k) => Some(keycode_key(k, basic_keys)),
        Behavior::KeyToggle(k) => Some(
            LayoutKeyView { hold: Some("Toggle"@), ..keycode_key(k, basic_keys) },
        ),
        Behavior::MomentaryLayer { layer_id } => Some(layer_key("MO"@, layer_id)),
        Behavior::ToggleLayer { layer_id } => Some(layer_key("TG"@, layer_id)),
        Behavior::ToLayer { layer_id } => Some(layer_key("TO"@, layer_id)),
        Behavior::StickyLayer { layer_id } => Some(layer_key("SL"@, layer_id)),
        Behavior::LayerTap { layer_id, tap } => {
            let t = keycode_key(tap, basic_keys);
            Some(
                LayoutKeyView {
                    tap: t.tap,
                    hold: Some("L"@ + decimal(layer_id as nat)),
                    short: t.short,
                    symbol: t.symbol,
                    kind: KeycodeKind::Special,
                    layer_ref: Some(layer_byte(layer_id)),
                },
            )
        },
        Behavior::ModTap { hold, tap } => {
            let h = keycode_key(hold, basic_keys);
            let t = keycode_key(tap, basic_keys);
            Some(
                LayoutKeyView {
                    tap: t.tap,
                    hold: Some(h.tap),
                    short: t.short,
                    symbol: t.symbol,
                    kind: KeycodeKind::Modifier,
                    layer_ref: Option::None,
                },
            )
        },
        Behavior::StickyKey(k) => {
            let key = keycode_key(k, basic_keys);
            Some(
                label_key(
                    LabelView { full: "OS "@ + key.tap, short: Some("OS"@ + short_or_tap(key)) },
                    KeycodeKind::Modifier,
                ),
            )
        },
        Behavior::CapsWord => Some(special(LabelView { full: "Caps Word"@, short: Some("CW"@) })),
        Behavior::KeyRepeat => Some(special(LabelView { full: "Key Repeat"@, short: Some("Rep"@) })),
        Behavior::Reset => Some(special(LabelView { full: "Reset"@, short: Option::None })),
        Behavior::Bootloader => Some(special(LabelView { full: "Bootloader"@, short: Some("Boot"@) })),
        Behavior::SoftOff => Some(special(LabelView { full: "Soft Off"@, short: Some("Off"@) })),
        Behavior::StudioUnlock => Some(
            special(LabelView { full: "Studio Unlock"@, short: Some("Unlock"@) }),
        ),
        Behavior::GraveEscape => Some(special(LabelView { full: "Grave Esc"@, short: Some("G/E"@) })),
        Behavior::Bluetooth { command, .. } => Some(
            special(LabelView { full: bluetooth_label(command), short: Option::None }),
        ),
        Behavior::OutputSelection { value } => Some(special(numbered("Out "@, "Out"@, value))),
        Behavior::ExternalPower { value } => Some(special(numbered("ExtPwr "@, "EP"@, value))),
        Behavior::Backlight { command, .. } => Some(special(numbered("BL "@, "BL"@, command))),
        Behavior::Underglow { command, .. } => Some(special(numbered("RGB "@, "RGB"@, command))),
        Behavior::MouseKeyPress { value } => Some(special(numbered("Mouse "@, "M"@, value))),
        Behavior::MouseMove { value } => Some(special(numbered("Move "@, "Mv"@, value))),
        Behavior::MouseScroll { value } => Some(special(numbered("Scroll "@, "Scr"@, value))),
        Behavior::Unknown { behavior_id, param1, param2 } => Some(
            text_key(raw_label(behavior_id, param1, param2)),
        ),
    }
}

/// A key showing `t` and nothing else.
pub fn new_text_key(t: &str) -> (k: LayoutKey)
    ensures
        k@ == text_key(t@),
{
    LayoutKey { tap: String::from_str(t), ..Default::default() }
}

/// A key showing `full`, or `short` where space is tight.
pub fn new_short_key(full: &str, short: &str) -> (k: LayoutKey)
    ensures
        k@ == short_key(full@, short@),
{
    LayoutKey { tap: String::from_str(full), short: Some(String::from_str(short)), ..Default::default() }
}

/// A key shown by a symbol alone.
pub fn new_symbol_key(symbol: String) -> (k: LayoutKey)
    ensures
        k@ == symbol_key(symbol@),
{
    LayoutKey { symbol: Some(symbol), ..Default::default() }
}

/// A key of the given kind showing a label.
pub fn new_label_key(l: Label, kind: KeycodeKind) -> (k: LayoutKey)
    ensures
        k@ == label_key(l@, kind),
{
    LayoutKey { tap: l.full, short: l.short, kind, ..Default::default() }
}

/// `prefix` followed by `n` in decimal.
pub fn numbered_text(prefix: &str, n: u32) -> (s: String)
    ensures
        s@ == prefix@ + decimal(n as nat),
{
    let mut s = String::from_str(prefix);
    push_decimal(&mut s, n);
    s
}

/// A label `PREFIX n`, short `SHORTn`.
pub fn numbered_label(prefix: &str, short: &str, n: u32) -> (l: Label)
    ensures
        l@ == numbered(prefix@, short@, n),
{
    Label { full: numbered_text(prefix, n), short: Some(numbered_text(short, n)) }
}

/// The label of a behavior that has none of its own.
pub fn raw_behavior_label(behavior_id: u32, param1: u32, param2: u32) -> (s: String)
    ensures
        s@ == raw_label(behavior_id, param1, param2),
{
    let mut s = String::from_str("0x");
    push_upper_hex(&mut s, behavior_id);
    if param2 != 0 {
        s.append(" ");
        push_decimal(&mut s, param1);
        s.append(" ");
        push_decimal(&mut s, param2);
    } else if param1 != 0 {
        s.append(" ");
        push_decimal(&mut s, param1);
    }
    assert(s@ =~= raw_label(behavior_id, param1, param2));
    s
}

/// The key of a layer behavior: `ABBR id`, short `ABBRid`.
pub fn layer_layout_key(abbreviation: &str, layer_id: u32) -> (k: LayoutKey)
    ensures
        k@ == layer_key(abbreviation@, layer_id),
{
    let mut full = String::from_str(abbreviation);
    full.append(" ");
    push_decimal(&mut full, layer_id);
    let k = LayoutKey {
        tap: full,
        short: Some(numbered_text(abbreviation, layer_id)),
        kind: KeycodeKind::Special,
        layer_ref: Some((layer_id % 256) as u8),
        ..Default::default()
    };
    assert(k@.tap =~= layer_key(abbreviation@, layer_id).tap);
    k
}

/// The key of a shifted keyboard usage, if it has a label.
pub fn shifted_key_label(usage_id: u32) -> (r: Option<LayoutKey>)
    ensures
        match shifted_label(usage_id) {
            Some(l) => r matches Some(k) && k@ == short_key(l.0, l.1),
            None => r is None,
        },
{
    let (full, short): (&str, &str) = match usage_id {
        0x1E => ("!", "!"),
        0x1F => ("@", "@"),
        0x20 => ("#", "#"),
        0x21 => ("$", "$"),
        0x22 => ("%", "%"),
        0x23 => ("^", "^"),
        0x24 => ("&", "&"),
        0x25 => ("*", "*"),
        0x2D => ("_", "_"),
        0x2E => ("+", "+"),
        0x31 => ("|", "|"),
        0x32 => ("~", "~"),
        0x33 => (":", ":"),
        0x35 => ("~", "~"),
        0x36 => ("<", "<"),
        0x38 => ("?", "?"),
        0x53 => ("Clear", "Clr"),
        0x64 => ("|", "|"),
        _ => return Option::None,
    };
    Some(new_short_key(full, short))
}

/// The key of a consumer usage, if it has a label.
pub fn consumer_key_label(usage_id: u32) -> (r: Option<LayoutKey>)
    ensures
        match consumer_key(usage_id) {
            Some(v) => r matches Some(k) && k@ == v,
            None => r is None,
        },
{
    match usage_id {
        0x0030 => Some(new_text_key("Power")),
        0x0032 => Some(new_text_key("Sleep")),
        0x0040 => Some(new_text_key("Menu")),
        0x00B0 => Some(new_text_key("Play")),
        0x00B1 => Some(new_text_key("Pause")),
        0x00B2 => Some(new_short_key("Record", "Rec")),
        0x00B3 => Some(new_symbol_key(fast_forward_icon())),
        0x00B4 => Some(new_symbol_key(rewind_icon())),
        0x00B5 => Some(new_symbol_key(skip_forward_icon())),
        0x00B6 => Some(new_symbol_key(skip_back_icon())),
        0x00B7 => Some(new_symbol_key(stop_icon())),
        0x00B8 => Some(new_short_key("Eject", "Ejct")),
        0x00CD => Some(new_symbol_key(play_pause_icon())),
        0x00E2 => Some(new_symbol_key(speaker_x_icon())),
        0x00E9 => Some(new_symbol_key(speaker_high_icon())),
        0x00EA => Some(new_symbol_key(speaker_low_icon())),
        0x0183 => Some(new_short_key("Select", "Sel")),
        0x018A => Some(new_text_key("Mail")),
        0x0192 => Some(new_text_key("Calc")),
        0x0196 => Some(new_text_key("WWW")),
        0x0201 => Some(new_text_key("New")),
        0x0202 => Some(new_text_key("Open")),
        0x0203 => Some(new_text_key("Close")),
        0x0204 => Some(new_text_key("Exit")),
        0x0207 => Some(new_text_key("Save")),
        0x0208 => Some(new_text_key("Print")),
        0x021A => Some(new_text_key("Undo")),
        0x021B => Some(new_text_key("Copy")),
        0x021C => Some(new_text_key("Cut")),
        0x021D => Some(new_text_key("Paste")),
        0x021F => Some(new_text_key("Find")),
        0x0221 => Some(new_text_key("Search")),
        0x0222 => Some(new_short_key("Go To", "GoTo")),
        0x0223 => Some(new_text_key("Home")),
        0x0224 => Some(new_text_key("Back")),
        0x0225 => Some(new_text_key("Forward")),
        0x0226 => Some(new_text_key("Stop")),
        0x0227 => Some(new_text_key("Refresh")),
        0x022A => Some(new_text_key("Favorites")),
        0x022D => Some(new_short_key("Zoom In", "Z+")),
        0x022E => Some(new_short_key("Zoom Out", "Z-")),
        0x029D => Some(new_symbol_key(sun_icon())),
        _ => Option::None,
    }
}

/// The key of a system usage, if it has a label.
pub fn system_key_label(usage_id: u32) -> (r: Option<LayoutKey>)
    ensures
        match system_label(usage_id) {
            Some(l) => r matches Some(k) && k@ == text_key(l),
            None => r is None,
        },
{
    let label: &str = match usage_id {
        0x81 => "Power",
        0x82 => "Sleep",
        0x83 => "Wake",
        _ => return Option::None,
    };
    Some(new_text_key(label))
}

/// The key an encoded HID usage is shown as: from `basic_keys` (indexed by
/// usage ID) for a keyboard usage up to `0xFF` that it has, from the shifted,
/// consumer or system tables for their pages, and otherwise ZMK's name for
/// the usage.
pub fn keycode_to_layout_key(usage: u32, basic_keys: &Vec<Option<LayoutKey>>) -> (k: LayoutKey)
    ensures
        k@ == keycode_key(usage, basic_keys@),
{
    let page = usage / 0x10000;
    let usage_id = usage % 0x10000;
    if page == PAGE_KEYBOARD && usage_id <= 0xFF {
        let i = usage_id as usize;
        if i < basic_keys.len() {
            if let Some(key) = &basic_keys[i] {
                return key.clone();
            }
        }
    }
    if page == PAGE_KEYBOARD_SHIFTED {
        if let Some(key) = shifted_key_label(usage_id) {
            return key;
        }
    }
    if page == PAGE_CONSUMER {
        if let Some(key) = consumer_key_label(usage_id) {
            return key;
        }
    }
    if page == PAGE_SYSTEM {
        if let Some(key) = system_key_label(usage_id) {
            return key;
        }
    }
    LayoutKey { tap: usage_name(usage), ..Default::default() }
}

/// A special key with a label.
pub fn special_key(l: Label) -> (k: LayoutKey)
    ensures
        k@ == special(l@),
{
    new_label_key(l, KeycodeKind::Special)
}

/// The key a behavior is shown as, with `basic_keys` the basic keycode table
/// indexed by usage ID; `None` exactly for a transparent binding, so that the
/// layers below show through.
pub fn behavior_to_layout_key(behavior: &Behavior, basic_keys: &Vec<Option<LayoutKey>>) -> (r:
    Option<LayoutKey>)
    ensures
        r is None <==> behavior_key(*behavior, basic_keys@) is None,
        r matches Some(k) ==> behavior_key(*behavior, basic_keys@) == Some(k@),
{
    match behavior {
        Behavior::Transparent => Option::None,
        Behavior::NoAction => Some(LayoutKey { tap: String::new(), ..Default::default() }),
        Behavior::KeyPress(keycode) => Some(keycode_to_layout_key(*keycode, basic_keys)),
        Behavior::KeyToggle(keycode) => {
            let mut key = keycode_to_layout_key(*keycode, basic_keys);
            key.hold = Some(String::from_str("Toggle"));
            Some(key)
        },
        Behavior::MomentaryLayer { layer_id } => Some(layer_layout_key("MO", *layer_id)),
        Behavior::ToggleLayer { layer_id } => Some(layer_layout_key("TG", *layer_id)),
        Behavior::ToLayer { layer_id } => Some(layer_layout_key("TO", *layer_id)),
        Behavior::StickyLayer { layer_id } => Some(layer_layout_key("SL", *layer_id)),
        Behavior::LayerTap { layer_id, tap } => {
            let tap_key = keycode_to_layout_key(*tap, basic_keys);
            Some(
                LayoutKey {
                    tap: tap_key.tap,
                    hold: Some(numbered_text("L", *layer_id)),
                    short: tap_key.short,
                    symbol: tap_key.symbol,
                    kind: KeycodeKind::Special,
                    layer_ref: Some((*layer_id % 256) as u8),
                },
            )
        },
        Behavior::ModTap { hold, tap } => {
            let hold_key = keycode_to_layout_key(*hold, basic_keys);
            let tap_key = keycode_to_layout_key(*tap, basic_keys);
            Some(
                LayoutKey {
                    tap: tap_key.tap,
                    hold: Some(hold_key.tap),
                    short: tap_key.short,
                    symbol: tap_key.symbol,
                    kind: KeycodeKind::Modifier,
                    layer_ref: Option::None,
                },
            )
        },
        Behavior::StickyKey(keycode) => {
            let key = keycode_to_layout_key(*keycode, basic_keys);
            let mut full = String::from_str("OS ");
            full.append(key.tap.as_str());
            let mut short = String::from_str("OS");
            match &key.short {
                Some(sh) => short.append(sh.as_str()),
                Option::None => short.append(key.tap.as_str()),
            }
            Some(new_label_key(Label { full, short: Some(short) }, KeycodeKind::Modifier))
        },
        Behavior::CapsWord => Some(special_key(Label::with_short("Caps Word", "CW"))),
        Behavior::KeyRepeat => Some(special_key(Label::with_short("Key Repeat", "Rep"))),
        Behavior::Reset => Some(special_key(Label::new("Reset"))),
        Behavior::Bootloader => Some(special_key(Label::with_short("Bootloader", "Boot"))),
        Behavior::SoftOff => Some(special_key(Label::with_short("Soft Off", "Off"))),
        Behavior::StudioUnlock => Some(special_key(Label::with_short("Studio Unlock", "Unlock"))),
        Behavior::GraveEscape => Some(special_key(Label::with_short("Grave Esc", "G/E"))),
        Behavior::Bluetooth { command, .. } => {
            let label = match *command {
                0 => "BT Clr",
                1 => "BT Nxt",
                2 => "BT Prv",
                n => {
                    return Some(
                        special_key(Label { full: numbered_text("BT ", n), short: Option::None }),
                    );
                },
            };
            Some(special_key(Label::new(label)))
        },
        Behavior::OutputSelection { value } => Some(
            special_key(numbered_label("Out ", "Out", *value)),
        ),
        Behavior::ExternalPower { value } => Some(
            special_key(numbered_label("ExtPwr ", "EP", *value)),
        ),
        Behavior::Backlight { command, .. } => Some(
            special_key(numbered_label("BL ", "BL", *command)),
        ),
        Behavior::Underglow { command, .. } => Some(
            special_key(numbered_label("RGB ", "RGB", *command)),
        ),
        Behavior::MouseKeyPress { value } => Some(
            special_key(numbered_label("Mouse ", "M", *value)),
        ),
        Behavior::MouseMove { value } => Some(special_key(numbered_label("Move ", "Mv", *value))),
        Behavior::MouseScroll { value } => Some(
            special_key(numbered_label("Scroll ", "Scr", *value)),
        ),
        Behavior::Unknown { behavior_id, param1, param2 } => Some(
            LayoutKey {
                tap: raw_behavior_label(*behavior_id, *param1, *param2),
                ..Default::default()
            },
        ),
    }
}

/// The layer a behavior switches to or holds, if it is a layer behavior.
pub open spec fn target_layer(b: Behavior) -> Option<u32> {
    match b {
        Behavior::MomentaryLayer { layer_id } => Some(layer_id),
        Behavior::ToggleLayer { layer_id } => Some(layer_id),
        Behavior::ToLayer { layer_id } => Some(layer_id),
        Behavior::StickyLayer { layer_id } => Some(layer_id),
        Behavior::LayerTap { layer_id, .. } => Some(layer_id),
        _ => Option::None,
    }
}

/// Only a transparent binding has no key: every other behavior is shown.
pub proof fn lemma_only_transparent_is_hidden(b: Behavior, basic_keys: Seq<Option<LayoutKey>>)
    ensures
        behavior_key(b, basic_keys) is None <==> b == Behavior::Transparent,
{
}

/// The key of a layer behavior refers to the low byte of its layer.
pub proof fn lemma_layer_keys_refer_to_layer(b: Behavior, basic_keys: Seq<Option<LayoutKey>>)
    requires
        target_layer(b) is Some,
    ensures
        behavior_key(b, basic_keys) matches Some(k) && k.layer_ref == Some(
            layer_byte(target_layer(b)->0),
        ),
{
}

/// The abbreviation ZMK's keymap documentation gives each layer behavior:
/// `&mo` momentary layer MO, `&tog` toggle layer TG, `&to` to-layer TO,
/// `&sl` sticky layer SL.
pub open spec fn zmk_layer_abbreviation(b: Behavior) -> Option<Seq<char>> {
    match b {
        Behavior::MomentaryLayer { .. } => Some(seq!['M', 'O']),
        Behavior::ToggleLayer { .. } => Some(seq!['T', 'G']),
        Behavior::ToLayer { .. } => Some(seq!['T', 'O']),
        Behavior::StickyLayer { .. } => Some(seq!['S', 'L']),
        _ => Option::None,
    }
}

/// No two kinds of layer behavior share an abbreviation: two layer behaviors
/// with the same abbreviation are of the same kind.
pub proof fn lemma_layer_abbreviations_distinct(a: Behavior, b: Behavior)
    requires
        zmk_layer_abbreviation(a) is Some,
        zmk_layer_abbreviation(a) == zmk_layer_abbreviation(b),
    ensures
        a is MomentaryLayer <==> b is MomentaryLayer,
        a is ToggleLayer <==> b is ToggleLayer,
        a is ToLayer <==> b is ToLayer,
        a is StickyLayer <==> b is StickyLayer,
{
    let x = zmk_layer_abbreviation(a)->0;
    let y = zmk_layer_abbreviation(b)->0;
    assert(x[0] == y[0] && x[1] == y[1]);
}

/// A layer behavior is labelled with its own abbreviation, a space and the
/// layer number in decimal, or, short, the abbreviation and the number; it is
/// a special key that refers to the low byte of the layer.
pub proof fn lemma_layer_key_label(b: Behavior, basic_keys: Seq<Option<LayoutKey>>)
    requires
        zmk_layer_abbreviation(b) is Some,
    ensures
        behavior_key(b, basic_keys) matches Some(k) && {
            let abbr = zmk_layer_abbreviation(b)->0;
            let n = decimal(target_layer(b)->0 as nat);
            &&& k.tap == abbr + seq![' '] + n
            &&& k.short == Some(abbr + n)
            &&& k.kind == KeycodeKind::Special
            &&& k.layer_ref == Some(layer_byte(target_layer(b)->0))
        },
{
    reveal_strlit("MO");
    reveal_strlit("TG");
    reveal_strlit("TO");
    reveal_strlit("SL");
    reveal_strlit(" ");
    let k = behavior_key(b, basic_keys)->0;
    let abbr = zmk_layer_abbreviation(b)->0;
    assert(k.tap =~= abbr + seq![' '] + decimal(target_layer(b)->0 as nat));
    assert(k.short->0 =~= abbr + decimal(target_layer(b)->0 as nat));
}

/// The character shift gives each key of the US keyboard layout, by its
/// keyboard usage ID.
pub open spec fn us_shifted_char(usage_id: u32) -> Option<char> {
    match usage_id {
        0x1E => Some('!'),
        0x1F => Some('@'),
        0x20 => Some('#'),
        0x21 => Some('$'),
        0x22 => Some('%'),
        0x23 => Some('^'),
        0x24 => Some('&'),
        0x25 => Some('*'),
        0x26 => Some('('),
        0x27 => Some(')'),
        0x2D => Some('_'),
        0x2E => Some('+'),
        0x2F => Some('{'),
        0x30 => Some('}'),
        0x31 => Some('|'),
        0x32 => Some('~'),
        0x33 => Some(':'),
        0x34 => Some('"'),
        0x35 => Some('~'),
        0x36 => Some('<'),
        0x37 => Some('>'),
        0x38 => Some('?'),
        0x64 => Some('|'),
        _ => Option::None,
    }
}

/// A shifted keyboard key with a label shows, full and short, the character
/// shift gives that key on a US layout; the one exception is the shifted
/// keypad Num Lock key, which shows `Clear`, short `Clr`.
pub proof fn lemma_shifted_shows_shift_character(usage_id: u32)
    requires
        shifted_label(usage_id) is Some,
    ensures
        usage_id != 0x53 ==> (us_shifted_char(usage_id) matches Some(c) && shifted_label(usage_id)
            == Some((seq![c], seq![c]))),
        usage_id == 0x53 ==> shifted_label(usage_id) == Some(
            (seq!['C', 'l', 'e', 'a', 'r'], seq!['C', 'l', 'r']),
        ),
{
    reveal_strlit("!");
    reveal_strlit("@");
    reveal_strlit("#");
    reveal_strlit("$");
    reveal_strlit("%");
    reveal_strlit("^");
    reveal_strlit("&");
    reveal_strlit("*");
    reveal_strlit("_");
    reveal_strlit("+");
    reveal_strlit("|");
    reveal_strlit("~");
    reveal_strlit(":");
    reveal_strlit("<");
    reveal_strlit("?");
    reveal_strlit("Clear");
    reveal_strlit("Clr");
    let l = shifted_label(usage_id)->0;
    if usage_id != 0x53 {
        let c = us_shifted_char(usage_id)->0;
        assert(l.0 =~= seq![c]);
        assert(l.1 =~= seq![c]);
    } else {
        assert(l.0 =~= seq!['C', 'l', 'e', 'a', 'r']);
        assert(l.1 =~= seq!['C', 'l', 'r']);
    }
}

/// A usage on the shifted keyboard page whose key has a shifted label shows
/// the character shift gives that key on a US layout.
pub proof fn lemma_shifted_usage_key(usage: u32, basic_keys: Seq<Option<LayoutKey>>)
    requires
        usage / 0x10000 == PAGE_KEYBOARD_SHIFTED,
        shifted_label(usage % 0x10000) is Some,
        usage % 0x10000 != 0x53,
    ensures
        us_shifted_char(usage % 0x10000) matches Some(c) && keycode_key(usage, basic_keys).tap
            == seq![c] && keycode_key(usage, basic_keys).short == Some(seq![c]),
{
    lemma_shifted_shows_shift_character(usage % 0x10000);
}

/// Whether a behavior is one of the fixed special behaviors, each labelled by
/// a text of its own.
pub open spec fn is_fixed_special(b: Behavior) -> bool {
    ||| b is CapsWord
    ||| b is KeyRepeat
    ||| b is Reset
    ||| b is Bootloader
    ||| b is SoftOff
    ||| b is StudioUnlock
    ||| b is GraveEscape
}

/// Different fixed special behaviors are labelled differently, in full and
/// in short form: no two of them can be mistaken for each other.
pub proof fn lemma_fixed_labels_distinct(a: Behavior, b: Behavior, basic_keys: Seq<Option<LayoutKey>>)
    requires
        is_fixed_special(a),
        is_fixed_special(b),
        a != b,
    ensures
        behavior_key(a, basic_keys) matches Some(ka) && behavior_key(b, basic_keys) matches Some(kb)
            && ka.tap != kb.tap && ka.kind == KeycodeKind::Special && kb.kind
            == KeycodeKind::Special,
{
    reveal_strlit("Caps Word");
    reveal_strlit("Key Repeat");
    reveal_strlit("Reset");
    reveal_strlit("Bootloader");
    reveal_strlit("Soft Off");
    reveal_strlit("Studio Unlock");
    reveal_strlit("Grave Esc");
    let ka = behavior_key(a, basic_keys)->0;
    let kb = behavior_key(b, basic_keys)->0;
    if ka.tap == kb.tap {
        assert(ka.tap.len() == kb.tap.len());
        assert(ka.tap[0] == kb.tap[0]);
        assert(ka.tap[1] == kb.tap[1]);
    }
}

/// A Bluetooth binding is labelled `BT` and a space, then `Clr`, `Nxt` or
/// `Prv` for the clear, next and previous commands, and the command number
/// for any other command; it has no short form.
pub proof fn lemma_bluetooth_label(command: u32, value: u32, basic_keys: Seq<Option<LayoutKey>>)
    ensures
        behavior_key(Behavior::Bluetooth { command, value }, basic_keys) matches Some(k) && k.short
            is None && k.kind == KeycodeKind::Special && k.tap == seq!['B', 'T', ' '] + (if command
            == 0 {
            seq!['C', 'l', 'r']
        } else if command == 1 {
            seq!['N', 'x', 't']
        } else if command == 2 {
            seq!['P', 'r', 'v']
        } else {
            decimal(command as nat)
        }),
{
    reveal_strlit("BT Clr");
    reveal_strlit("BT Nxt");
    reveal_strlit("BT Prv");
    reveal_strlit("BT ");
    let k = behavior_key(Behavior::Bluetooth { command, value }, basic_keys)->0;
    if command == 0 {
        assert(k.tap =~= seq!['B', 'T', ' '] + seq!['C', 'l', 'r']);
    } else if command == 1 {
        assert(k.tap =~= seq!['B', 'T', ' '] + seq!['N', 'x', 't']);
    } else if command == 2 {
        assert(k.tap =~= seq!['B', 'T', ' '] + seq!['P', 'r', 'v']);
    } else {
        assert(k.tap =~= seq!['B', 'T', ' '] + decimal(command as nat));
    }
}

} // verus!
