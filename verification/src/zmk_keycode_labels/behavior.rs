//! Display labels for ZMK behaviors, with the keymap's layer names.

use vstd::prelude::*;
use std::collections::HashMap;
use crate::layout_key::{KeycodeKind, Label, LabelView, LayoutKey, LayoutKeyView};
use crate::text::decimal;
use super::{
    behavior_key, keycode_key, keycode_to_layout_key, layer_byte, numbered_text, raw_behavior_label,
    raw_label, target_layer, text_key, zmk_layer_abbreviation, Behavior,
};

verus! {

broadcast use vstd::std_specs::hash::group_hash_axioms;

/// The name of a layer: its name in `names`, or `L<id>` when it has none.
pub open spec fn layer_name(names: Map<u32, String>, layer_id: u32) -> Seq<char> {
    if names.contains_key(layer_id) {
        names[layer_id]@
    } else {
        "L"@ + decimal(layer_id as nat)
    }
}

/// The label of a key with a tap and a hold action: `TAP(HOLD)`, or `(HOLD)`
/// when the tap label is empty; the short form likewise from the short forms,
/// with a full form standing in for a missing short one, and no short form
/// when neither label has one.
pub open spec fn combined(tap: LabelView, hold: LabelView) -> LabelView {
    LabelView {
        full: if tap.full.len() == 0 {
            "("@ + hold.full + ")"@
        } else {
            tap.full + "("@ + hold.full + ")"@
        },
        short: match (tap.short, hold.short) {
            (Some(ts), Some(hs)) => Some(ts + "("@ + hs + ")"@),
            (Some(ts), Option::None) => Some(ts + "("@ + hold.full + ")"@),
            (Option::None, Some(hs)) => if tap.full.len() == 0 {
                Some("("@ + hs + ")"@)
            } else {
                Some(tap.full + "("@ + hs + ")"@)
            },
            (Option::None, Option::None) => Option::None,
        },
    }
}

/// The tap label of a key as a label.
pub open spec fn tap_label(k: LayoutKeyView) -> LabelView {
    LabelView { full: k.tap, short: k.short }
}

/// The key of a layer behavior: `ABBR name`, short `ABBRname`, special,
/// referring to the layer.
pub open spec fn named_layer_key(abbreviation: Seq<char>, layer_id: u32, names: Map<u32, String>) -> LayoutKeyView {
    LayoutKeyView {
        tap: abbreviation + " "@ + layer_name(names, layer_id),
        short: Some(abbreviation + layer_name(names, layer_id)),
        kind: KeycodeKind::Special,
        layer_ref: Some(layer_byte(layer_id)),
        hold: Option::None,
        symbol: Option::None,
    }
}

/// The key of a layer-tap: the tap key's label combined with the layer name,
/// held for the layer.
pub open spec fn layer_tap_key(t: LayoutKeyView, layer_id: u32, names: Map<u32, String>) -> LayoutKeyView {
    let name = layer_name(names, layer_id);
    let c = combined(tap_label(t), LabelView { full: name, short: Some(name) });
    LayoutKeyView {
        tap: c.full,
        short: c.short,
        hold: Some(name),
        symbol: t.symbol,
        kind: KeycodeKind::Special,
        layer_ref: Some(layer_byte(layer_id)),
    }
}

/// The key of a mod-tap: the tap key's label combined with the hold key's.
pub open spec fn mod_tap_key(h: LayoutKeyView, t: LayoutKeyView) -> LayoutKeyView {
    let c = combined(tap_label(t), tap_label(h));
    LayoutKeyView {
        tap: c.full,
        short: c.short,
        hold: Some(h.tap),
        symbol: t.symbol,
        kind: KeycodeKind::Modifier,
        layer_ref: Option::None,
    }
}

/// An encoded usage as ZMK decodes it: a zero usage page stands for the
/// keyboard page (`0x07`).
pub open spec fn normalized_usage(encoded: u32) -> u32 {
    if (encoded / 0x10000) % 0x100 == 0 {
        (encoded + 0x70000) as u32
    } else {
        encoded
    }
}

/// A parameter that is an encoded keyboard usage or above.
pub open spec fn is_usage_param(p: u32) -> bool {
    p >= 0x70000
}

/// The key a behavior is shown as, with layer names; `None` for a
/// transparent binding. Layer behaviors show the layer's name, layer-taps and
/// mod-taps combine their two labels, and a behavior without a label of its
/// own is read as a layer-tap when its first parameter is a small layer
/// number and its second a key, or as a mod-tap when both are keys.
pub open spec fn named_behavior_key(
    b: Behavior,
    names: Map<u32, String>,
    basic_keys: Seq<Option<LayoutKey>>,
) -> Option<LayoutKeyView> {
    match b {
        Behavior::MomentaryLayer { layer_id } => Some(named_layer_key("MO"@, layer_id, names)),
        Behavior::ToggleLayer { layer_id } => Some(named_layer_key("TG"@, layer_id, names)),
        Behavior::ToLayer { layer_id } => Some(named_layer_key("TO"@, layer_id, names)),
        Behavior::StickyLayer { layer_id } => Some(named_layer_key("SL"@, layer_id, names)),
        Behavior::LayerTap { layer_id, tap } => Some(
            layer_tap_key(keycode_key(tap, basic_keys), layer_id, names),
        ),
        Behavior::ModTap { hold, tap } => Some(
            mod_tap_key(keycode_key(hold, basic_keys), keycode_key(tap, basic_keys)),
        ),
        Behavior::Unknown { behavior_id, param1, param2 } => Some(
            if param1 < 32 && is_usage_param(param2) {
                layer_tap_key(keycode_key(normalized_usage(param2), basic_keys), param1, names)
            } else if is_usage_param(param1) && is_usage_param(param2) {
                mod_tap_key(
                    keycode_key(normalized_usage(param1), basic_keys),
                    keycode_key(normalized_usage(param2), basic_keys),
                )
            } else {
                text_key(raw_label(behavior_id, param1, param2))
            },
        ),
        _ => behavior_key(b, basic_keys),
    }
}

/// The encoded usage as `zmk_studio_api::HidUsage::from_encoded` decodes it
/// and `to_hid_usage` encodes it again.
///
/// The contract states what that crate's source does: the usage page byte 0
/// is read as the keyboard page `0x07`, every other bit is kept.
#[verifier::external_body]
fn decoded_usage(encoded: u32) -> (u: u32)
    ensures
        u == normalized_usage(encoded),
{
    zmk_studio_api::HidUsage::from_encoded(encoded).to_hid_usage()
}

/// The name of a layer: its entry in `layer_names`, or `L<id>`.
pub fn layer_name_text(layer_id: u32, layer_names: &HashMap<u32, String>) -> (s: String)
    ensures
        s@ == layer_name(layer_names@, layer_id),
{
    match layer_names.get(&layer_id) {
        Some(name) => name.clone(),
        Option::None => numbered_text("L", layer_id),
    }
}

/// The label of a key with a tap and a hold action, `TAP(HOLD)`.
pub fn combine_labels(tap: Label, hold: Label) -> (l: Label)
    ensures
        l@ == combined(tap@, hold@),
{
    let full = if tap.full.as_str().is_empty() {
        let mut f = String::from_str("(");
        f.append(hold.full.as_str());
        f.append(")");
        f
    } else {
        let mut f = tap.full.clone();
        f.append("(");
        f.append(hold.full.as_str());
        f.append(")");
        f
    };
    let short = match (&tap.short, &hold.short) {
        (Some(ts), Some(hs)) => {
            let mut s = ts.clone();
            s.append("(");
            s.append(hs.as_str());
            s.append(")");
            Some(s)
        },
        (Some(ts), Option::None) => {
            let mut s = ts.clone();
            s.append("(");
            s.append(hold.full.as_str());
            s.append(")");
            Some(s)
        },
        (Option::None, Some(hs)) => {
            let mut s = if tap.full.as_str().is_empty() {
                String::from_str("(")
            } else {
                let mut p = tap.full.clone();
                p.append("(");
                p
            };
            s.append(hs.as_str());
            s.append(")");
            Some(s)
        },
        (Option::None, Option::None) => Option::None,
    };
    let l = Label { full, short };
    assert(l@ =~= combined(tap@, hold@));
    l
}

/// The key of a layer behavior: `ABBR name`, short `ABBRname`.
pub fn layer_layout_key(abbreviation: &str, layer_id: u32, layer_names: &HashMap<u32, String>) -> (k:
    LayoutKey)
    ensures
        k@ == named_layer_key(abbreviation@, layer_id, layer_names@),
{
    let name = layer_name_text(layer_id, layer_names);
    let mut full = String::from_str(abbreviation);
    full.append(" ");
    full.append(name.as_str());
    let mut short = String::from_str(abbreviation);
    short.append(name.as_str());
    let k = LayoutKey {
        tap: full,
        short: Some(short),
        kind: KeycodeKind::Special,
        layer_ref: Some((layer_id % 256) as u8),
        hold: Option::None,
        symbol: Option::None,
    };
    assert(k@ =~= named_layer_key(abbreviation@, layer_id, layer_names@));
    k
}

/// The key of a layer-tap from its tap key.
fn layer_tap_layout_key(tap_key: LayoutKey, layer_id: u32, layer_names: &HashMap<u32, String>) -> (k:
    LayoutKey)
    ensures
        k@ == layer_tap_key(tap_key@, layer_id, layer_names@),
{
    let name = layer_name_text(layer_id, layer_names);
    let hold_label = Label { full: name.clone(), short: Some(name) };
    let tap = combine_labels(Label { full: tap_key.tap, short: tap_key.short }, hold_label.clone());
    LayoutKey {
        tap: tap.full,
        short: tap.short,
        hold: Some(hold_label.full),
        symbol: tap_key.symbol,
        kind: KeycodeKind::Special,
        layer_ref: Some((layer_id % 256) as u8),
    }
}

/// The key of a mod-tap from its hold and tap keys.
fn mod_tap_layout_key(hold_key: LayoutKey, tap_key: LayoutKey) -> (k: LayoutKey)
    ensures
        k@ == mod_tap_key(hold_key@, tap_key@),
{
    let hold_full = hold_key.tap.clone();
    let tap = combine_labels(
        Label { full: tap_key.tap, short: tap_key.short },
        Label { full: hold_key.tap, short: hold_key.short },
    );
    LayoutKey {
        tap: tap.full,
        short: tap.short,
        hold: Some(hold_full),
        symbol: tap_key.symbol,
        kind: KeycodeKind::Modifier,
        layer_ref: Option::None,
    }
}

/// The key a behavior is shown as, with the keymap's layer names and
/// `basic_keys` the basic keycode table indexed by usage ID; `None` exactly
/// for a transparent binding.
pub fn behavior_to_layout_key(
    behavior: &Behavior,
    layer_names: &HashMap<u32, String>,
    basic_keys: &Vec<Option<LayoutKey>>,
) -> (r: Option<LayoutKey>)
    ensures
        r is None <==> named_behavior_key(*behavior, layer_names@, basic_keys@) is None,
        r matches Some(k) ==> named_behavior_key(*behavior, layer_names@, basic_keys@) == Some(k@),
{
    match behavior {
        Behavior::MomentaryLayer { layer_id } => Some(layer_layout_key("MO", *layer_id, layer_names)),
        Behavior::ToggleLayer { layer_id } => Some(layer_layout_key("TG", *layer_id, layer_names)),
        Behavior::ToLayer { layer_id } => Some(layer_layout_key("TO", *layer_id, layer_names)),
        Behavior::StickyLayer { layer_id } => Some(layer_layout_key("SL", *layer_id, layer_names)),
        Behavior::LayerTap { layer_id, tap } => {
            let tap_key = keycode_to_layout_key(*tap, basic_keys);
            Some(layer_tap_layout_key(tap_key, *layer_id, layer_names))
        },
        Behavior::ModTap { hold, tap } => {
            let hold_key = keycode_to_layout_key(*hold, basic_keys);
            let tap_key = keycode_to_layout_key(*tap, basic_keys);
            Some(mod_tap_layout_key(hold_key, tap_key))
        },
        Behavior::Unknown { behavior_id, param1, param2 } => {
            if *param1 < 32 && *param2 >= 0x70000 {
                let tap_key = keycode_to_layout_key(decoded_usage(*param2), basic_keys);
                Some(layer_tap_layout_key(tap_key, *param1, layer_names))
            } else if *param1 >= 0x70000 && *param2 >= 0x70000 {
                let tap_key = keycode_to_layout_key(decoded_usage(*param2), basic_keys);
                let hold_key = keycode_to_layout_key(decoded_usage(*param1), basic_keys);
                Some(mod_tap_layout_key(hold_key, tap_key))
            } else {
                Some(
                    LayoutKey {
                        tap: raw_behavior_label(*behavior_id, *param1, *param2),
                        ..Default::default()
                    },
                )
            }
        },
        _ => super::behavior_to_layout_key(behavior, basic_keys),
    }
}

/// With layer names too, only a transparent binding has no key.
pub proof fn lemma_named_only_transparent_is_hidden(
    b: Behavior,
    names: Map<u32, String>,
    basic_keys: Seq<Option<LayoutKey>>,
)
    ensures
        named_behavior_key(b, names, basic_keys) is None <==> b == Behavior::Transparent,
{
}

/// With layer names, the key of a layer behavior still refers to the low
/// byte of its layer, and shows the layer's name.
pub proof fn lemma_named_layer_keys_refer_to_layer(
    b: Behavior,
    names: Map<u32, String>,
    basic_keys: Seq<Option<LayoutKey>>,
)
    requires
        target_layer(b) is Some,
    ensures
        named_behavior_key(b, names, basic_keys) matches Some(k) && k.layer_ref == Some(
            layer_byte(target_layer(b)->0),
        ) && (k.hold matches Some(h) ==> h == layer_name(names, target_layer(b)->0)),
{
}

/// A behavior that is neither a layer behavior, a layer-tap, a mod-tap nor
/// one without a label of its own is shown the same with and without layer
/// names.
pub proof fn lemma_names_only_change_layer_keys(
    b: Behavior,
    names: Map<u32, String>,
    basic_keys: Seq<Option<LayoutKey>>,
)
    requires
        target_layer(b) is None,
        !(b is ModTap),
        !(b is Unknown),
    ensures
        named_behavior_key(b, names, basic_keys) == behavior_key(b, basic_keys),
{
}

/// With layer names, a layer behavior is labelled with its own abbreviation,
/// a space and the layer's name, or, short, the abbreviation and the name; the
/// name is the keymap's name for the layer, or `L` and the layer number when
/// it has none. It is a special key that refers to the low byte of the layer.
pub proof fn lemma_named_layer_key_label(
    b: Behavior,
    names: Map<u32, String>,
    basic_keys: Seq<Option<LayoutKey>>,
)
    requires
        zmk_layer_abbreviation(b) is Some,
    ensures
        named_behavior_key(b, names, basic_keys) matches Some(k) && {
            let abbr = zmk_layer_abbreviation(b)->0;
            let id = target_layer(b)->0;
            let name = if names.contains_key(id) {
                names[id]@
            } else {
                seq!['L'] + decimal(id as nat)
            };
            &&& k.tap == abbr + seq![' '] + name
            &&& k.short == Some(abbr + name)
            &&& k.kind == KeycodeKind::Special
            &&& k.layer_ref == Some(layer_byte(id))
        },
{
    reveal_strlit("MO");
    reveal_strlit("TG");
    reveal_strlit("TO");
    reveal_strlit("SL");
    reveal_strlit(" ");
    reveal_strlit("L");
    let k = named_behavior_key(b, names, basic_keys)->0;
    let abbr = zmk_layer_abbreviation(b)->0;
    let id = target_layer(b)->0;
    let name = if names.contains_key(id) {
        names[id]@
    } else {
        seq!['L'] + decimal(id as nat)
    };
    assert(layer_name(names, id) =~= name);
    assert(k.tap =~= abbr + seq![' '] + name);
    assert(k.short->0 =~= abbr + name);
}

/// Without a name for the layer, a layer behavior's label with layer names is
/// its label without them with `L` put before the layer number, in full and
/// short form.
pub proof fn lemma_unnamed_layer_adds_l(
    b: Behavior,
    names: Map<u32, String>,
    basic_keys: Seq<Option<LayoutKey>>,
)
    requires
        zmk_layer_abbreviation(b) is Some,
        !names.contains_key(target_layer(b)->0),
    ensures
        named_behavior_key(b, names, basic_keys) matches Some(n) && behavior_key(b, basic_keys)
            matches Some(k) && {
            let abbr = zmk_layer_abbreviation(b)->0;
            &&& n.tap == k.tap.take(abbr.len() as int + 1) + seq!['L'] + k.tap.skip(abbr.len() as int + 1)
            &&& n.short->0 == abbr + seq!['L'] + k.short->0.skip(abbr.len() as int)
            &&& n.layer_ref == k.layer_ref
        },
{
    lemma_named_layer_key_label(b, names, basic_keys);
    super::lemma_layer_key_label(b, basic_keys);
    let abbr = zmk_layer_abbreviation(b)->0;
    let k = behavior_key(b, basic_keys)->0;
    let d = decimal(target_layer(b)->0 as nat);
    assert(k.tap.take(abbr.len() as int + 1) =~= abbr + seq![' ']);
    assert(k.tap.skip(abbr.len() as int + 1) =~= d);
    assert(k.short->0.skip(abbr.len() as int) =~= d);
    let n = named_behavior_key(b, names, basic_keys)->0;
    assert(n.tap =~= k.tap.take(abbr.len() as int + 1) + seq!['L'] + k.tap.skip(abbr.len() as int + 1));
    assert(n.short->0 =~= abbr + seq!['L'] + k.short->0.skip(abbr.len() as int));
}

} // verus!
