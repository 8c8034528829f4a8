//! Display-oriented key representation.
//!
//! `LayoutKey` holds a key's display labels independently of the firmware the
//! key came from: QMK keycodes and ZMK bindings are both turned into it.
//!
//! Transparent keys are represented as `None` in collections such as
//! `Vec<Vec<Vec<Option<LayoutKey>>>>`, so layer fall-through only has to check
//! whether a key is present.

use vstd::prelude::*;
use crate::text::opt_view;
use vstd::utf8::encode_utf8;

verus! {

/// Visual classification of a key, used for colouring.
#[derive(Clone, Copy, Debug, PartialEq, Eq, Structural)]
pub enum KeycodeKind {
    Basic,
    Modifier,
    Special,
}

/// A label with an optional shorter form for narrow keys.
#[derive(Debug)]
pub struct Label {
    pub full: String,
    pub short: Option<String>,
}

/// The mathematical value of a [`Label`].
pub struct LabelView {
    pub full: Seq<char>,
    pub short: Option<Seq<char>>,
}

impl View for Label {
    type V = LabelView;

    open spec fn view(&self) -> LabelView {
        LabelView { full: self.full@, short: opt_view(self.short) }
    }
}

impl Label {
    /// A label with only a full form.
    pub fn new(full: &str) -> (l: Label)
        ensures
            l@ == (LabelView { full: full@, short: None }),
    {
        Label { full: String::from_str(full), short: None }
    }

    /// A label with a full and a short form.
    pub fn with_short(full: &str, short: &str) -> (l: Label)
        ensures
            l@ == (LabelView { full: full@, short: Some(short@) }),
    {
        Label { full: String::from_str(full), short: Some(String::from_str(short)) }
    }
}

impl Clone for Label {
    fn clone(&self) -> (l: Label)
        ensures
            l@ == self@,
    {
        Label { full: self.full.clone(), short: clone_opt(&self.short) }
    }
}

/// The label record of a keycode: the long, short and symbol forms, how it is
/// coloured, and the layer it activates.
#[derive(Debug)]
pub struct KeycodeLabel {
    pub long: Option<String>,
    pub short: Option<String>,
    pub symbol: Option<String>,
    pub kind: KeycodeKind,
    pub layer_ref: Option<u8>,
}

/// A key's display representation: all label variants and metadata.
#[derive(Debug, PartialEq, Eq)]
pub struct LayoutKey {
    /// Primary key action label (e.g. "A", "Enter", "L1").
    pub tap: String,
    /// Hold action label for hold-tap keys (e.g. "Shift").
    pub hold: Option<String>,
    /// Short version of the tap label (e.g. "Ent" for "Enter").
    pub short: Option<String>,
    /// Symbol or icon for the key.
    pub symbol: Option<String>,
    /// Visual classification for colouring.
    pub kind: KeycodeKind,
    /// Layer this key activates, used for colouring.
    pub layer_ref: Option<u8>,
}

/// The mathematical value of a [`LayoutKey`].
pub struct LayoutKeyView {
    pub tap: Seq<char>,
    pub hold: Option<Seq<char>>,
    pub short: Option<Seq<char>>,
    pub symbol: Option<Seq<char>>,
    pub kind: KeycodeKind,
    pub layer_ref: Option<u8>,
}

impl View for LayoutKey {
    type V = LayoutKeyView;

    open spec fn view(&self) -> LayoutKeyView {
        LayoutKeyView {
            tap: self.tap@,
            hold: opt_view(self.hold),
            short: opt_view(self.short),
            symbol: opt_view(self.symbol),
            kind: self.kind,
            layer_ref: self.layer_ref,
        }
    }
}

/// The default key: empty tap label, nothing else, basic kind.
pub open spec fn default_key() -> LayoutKeyView {
    LayoutKeyView {
        tap: Seq::empty(),
        hold: None,
        short: None,
        symbol: None,
        kind: KeycodeKind::Basic,
        layer_ref: None,
    }
}

/// The key a keycode label describes: its long form as tap label (empty when it
/// has none), no hold label, and the other fields as they are.
pub open spec fn key_of_label(
    long: Option<Seq<char>>,
    short: Option<Seq<char>>,
    symbol: Option<Seq<char>>,
    kind: KeycodeKind,
    layer_ref: Option<u8>,
) -> LayoutKeyView {
    LayoutKeyView {
        tap: match long {
            Some(l) => l,
            None => Seq::empty(),
        },
        hold: None,
        short: short,
        symbol: symbol,
        kind: kind,
        layer_ref: layer_ref,
    }
}

/// The number of UTF-8 bytes of `c`.
pub open spec fn char_width(c: char) -> nat {
    encode_utf8(seq![c]).len()
}

/// How many leading characters of `s` fit in `budget` bytes of UTF-8.
pub open spec fn fitting_chars(s: Seq<char>, budget: int) -> nat
    decreases s.len(),
{
    if s.len() > 0 && char_width(s[0]) <= budget {
        1 + fitting_chars(s.drop_first(), budget - char_width(s[0]))
    } else {
        0
    }
}

/// `s` cut to the longest prefix of at most `max_bytes` bytes of UTF-8: all
/// of `s` when it fits.
pub open spec fn truncated(s: Seq<char>, max_bytes: usize) -> Seq<char> {
    s.take(fitting_chars(s, max_bytes as int) as int)
}

/// The label that fits: the symbol when there is one, else the short form when
/// it is at most `max_bytes` bytes of UTF-8 (a length that `str::len` reports
/// as a `usize`), else the tap label cut to at most `max_bytes` bytes.
pub open spec fn display_label_of(k: LayoutKeyView, max_bytes: usize) -> Seq<char> {
    match k.symbol {
        Some(s) => s,
        None => match k.short {
            Some(sh) => if (encode_utf8(sh).len() as usize) <= max_bytes {
                sh
            } else {
                truncated(k.tap, max_bytes)
            },
            None => truncated(k.tap, max_bytes),
        },
    }
}

/// The UTF-8 encoding of a sequence starts with that of its first character.
pub proof fn lemma_encode_first(s: Seq<char>)
    requires
        s.len() > 0,
    ensures
        encode_utf8(s).len() == char_width(s[0]) + encode_utf8(s.drop_first()).len(),
{
    let one = seq![s[0]];
    assert(one.drop_first() =~= Seq::<char>::empty());
    assert(encode_utf8(one.drop_first()).len() == 0);
}

/// The characters that fit take at most `budget` bytes, and the next one
/// would not fit.
pub proof fn lemma_fitting_chars(s: Seq<char>, budget: int)
    requires
        budget >= 0,
    ensures
        fitting_chars(s, budget) <= s.len(),
        encode_utf8(s.take(fitting_chars(s, budget) as int)).len() <= budget,
        fitting_chars(s, budget) < s.len() ==> encode_utf8(
            s.take(fitting_chars(s, budget) as int + 1),
        ).len() > budget,
    decreases s.len(),
{
    let n = fitting_chars(s, budget) as int;
    if s.len() == 0 {
        assert(s.take(0) =~= Seq::<char>::empty());
    } else if char_width(s[0]) <= budget {
        let rest = s.drop_first();
        let b = budget - char_width(s[0]);
        lemma_fitting_chars(rest, b);
        let p = s.take(n);
        assert(p.drop_first() =~= rest.take(n - 1));
        lemma_encode_first(p);
        if n < s.len() {
            let q = s.take(n + 1);
            assert(q.drop_first() =~= rest.take(n));
            lemma_encode_first(q);
        }
    } else {
        assert(s.take(0) =~= Seq::<char>::empty());
        let q = s.take(1);
        assert(q.drop_first() =~= Seq::<char>::empty());
        lemma_encode_first(q);
    }
}

/// A sequence that fits in `budget` bytes fits whole.
pub proof fn lemma_fitting_whole(s: Seq<char>, budget: int)
    requires
        encode_utf8(s).len() <= budget,
    ensures
        fitting_chars(s, budget) == s.len(),
    decreases s.len(),
{
    if s.len() > 0 {
        lemma_encode_first(s);
        lemma_fitting_whole(s.drop_first(), budget - char_width(s[0]));
    }
}

/// The cut tap label is a prefix of the tap label of at most `max_bytes`
/// bytes, the longest such prefix, and the whole tap label when that fits.
pub proof fn lemma_truncated(s: Seq<char>, max_bytes: usize)
    ensures
        truncated(s, max_bytes).is_prefix_of(s),
        encode_utf8(truncated(s, max_bytes)).len() <= max_bytes,
        truncated(s, max_bytes).len() < s.len() ==> encode_utf8(
            s.take(truncated(s, max_bytes).len() as int + 1),
        ).len() > max_bytes,
        encode_utf8(s).len() <= max_bytes ==> truncated(s, max_bytes) == s,
{
    lemma_fitting_chars(s, max_bytes as int);
    if encode_utf8(s).len() <= max_bytes {
        lemma_fitting_whole(s, max_bytes as int);
        assert(s.take(s.len() as int) =~= s);
    }
}

/// The label shown is the symbol when the key has one; otherwise it is the
/// short form, shown only when it fits, or else the tap label cut to fit.
pub proof fn lemma_display_label_choice(k: LayoutKeyView, max_bytes: usize)
    ensures
        k.symbol is Some ==> display_label_of(k, max_bytes) == k.symbol->0,
        k.symbol is None ==> (display_label_of(k, max_bytes) == truncated(k.tap, max_bytes) || (
        k.short == Some(display_label_of(k, max_bytes)) && (encode_utf8(
            display_label_of(k, max_bytes),
        ).len() as usize) <= max_bytes)),
{
}

/// The number of UTF-8 bytes of `c`.
pub fn utf8_width(c: char) -> (w: usize)
    ensures
        w == char_width(c),
        1 <= w <= 4,
{
    let v = c as u32;
    proof {
        vstd::utf8::char_is_scalar(c);
        let one = seq![c];
        assert(one.drop_first() =~= Seq::<char>::empty());
        assert(encode_utf8(one) == vstd::utf8::encode_scalar(c as u32) + encode_utf8(
            one.drop_first(),
        ));
    }
    if v < 0x80 {
        1
    } else if v < 0x800 {
        2
    } else if v < 0x10000 {
        3
    } else {
        4
    }
}

/// `s` cut to its longest prefix of at most `max_bytes` bytes of UTF-8.
pub fn truncate_to_bytes(s: &str, max_bytes: usize) -> (r: &str)
    ensures
        r@ == truncated(s@, max_bytes),
{
    let n = s.unicode_len();
    let mut i: usize = 0;
    let mut used: usize = 0;
    assert(s@.skip(0) =~= s@);
    while i < n
        invariant_except_break
            n == s@.len(),
            0 <= i <= n,
            used <= max_bytes,
            fitting_chars(s@, max_bytes as int) == i + fitting_chars(
                s@.skip(i as int),
                max_bytes - used,
            ),
        ensures
            i <= n,
            fitting_chars(s@, max_bytes as int) == i,
        decreases n - i,
    {
        let c = s.get_char(i);
        let w = utf8_width(c);
        let ghost rest = s@.skip(i as int);
        assert(rest[0] == c);
        assert(rest.drop_first() =~= s@.skip(i + 1));
        if w > max_bytes - used {
            assert(fitting_chars(rest, max_bytes - used) == 0);
            break;
        }
        used = used + w;
        i = i + 1;
    }
    if i == n {
        assert(s@.skip(n as int).len() == 0);
    }
    s.substring_char(0, i)
}
/// Clones an optional string.
pub fn clone_opt(o: &Option<String>) -> (r: Option<String>)
    ensures
        opt_view(r) == opt_view(*o),
{
    match o {
        Some(s) => Some(s.clone()),
        None => None,
    }
}

impl Clone for LayoutKey {
    fn clone(&self) -> (k: LayoutKey)
        ensures
            k@ == self@,
    {
        LayoutKey {
            tap: self.tap.clone(),
            hold: clone_opt(&self.hold),
            short: clone_opt(&self.short),
            symbol: clone_opt(&self.symbol),
            kind: self.kind,
            layer_ref: self.layer_ref,
        }
    }
}

impl Default for LayoutKey {
    fn default() -> (k: LayoutKey)
        ensures
            k@ == default_key(),
    {
        LayoutKey {
            tap: String::new(),
            hold: None,
            short: None,
            symbol: None,
            kind: KeycodeKind::Basic,
            layer_ref: None,
        }
    }
}

/// The numeric value of QMK's `KC_TRANSPARENT` keycode.
///
/// Calls `qmk_via_api::keycodes::Keycode::to_u16` on `KC_TRANSPARENT`; the
/// contract claims the value its declaration gives, `0x0001`.
#[verifier::external_body]
fn qmk_transparent_keycode() -> (k: u16)
    ensures
        k == 1,
{
    qmk_via_api::keycodes::Keycode::KC_TRANSPARENT.to_u16()
}

impl LayoutKey {
    /// A simple key with just a tap label.
    pub fn simple(tap: &str) -> (k: LayoutKey)
        ensures
            k@ == (LayoutKeyView { tap: tap@, ..default_key() }),
    {
        LayoutKey { tap: String::from_str(tap), ..Default::default() }
    }

    /// A hold-tap key with both tap and hold labels.
    pub fn hold_tap(tap: &str, hold: &str) -> (k: LayoutKey)
        ensures
            k@ == (LayoutKeyView {
                tap: tap@,
                hold: Some(hold@),
                kind: KeycodeKind::Modifier,
                ..default_key()
            }),
    {
        LayoutKey {
            tap: String::from_str(tap),
            hold: Some(String::from_str(hold)),
            kind: KeycodeKind::Modifier,
            ..Default::default()
        }
    }

    /// A layer-switching key.
    pub fn layer(tap: &str, layer: u8) -> (k: LayoutKey)
        ensures
            k@ == (LayoutKeyView {
                tap: tap@,
                kind: KeycodeKind::Modifier,
                layer_ref: Some(layer),
                ..default_key()
            }),
    {
        LayoutKey {
            tap: String::from_str(tap),
            kind: KeycodeKind::Modifier,
            layer_ref: Some(layer),
            ..Default::default()
        }
    }

    /// The key a keycode label describes.
    pub fn from_keycode_label(label: KeycodeLabel) -> (k: LayoutKey)
        ensures
            k@ == key_of_label(
                opt_view(label.long),
                opt_view(label.short),
                opt_view(label.symbol),
                label.kind,
                label.layer_ref,
            ),
    {
        LayoutKey {
            tap: match label.long {
                Some(l) => l,
                None => String::new(),
            },
            hold: None,
            short: label.short,
            symbol: label.symbol,
            kind: label.kind,
            layer_ref: label.layer_ref,
        }
    }

    /// The key for a QMK keycode, with `label_of` giving the keycode's label.
    ///
    /// Returns `None` for `KC_TRANSPARENT` (`0x0001`), which a key matrix holds
    /// as `None` so that the layers below show through; `label_of` is not
    /// called then.
    pub fn from_qmk_keycode<F: Fn(u16) -> KeycodeLabel>(keycode: u16, label_of: F) -> (r: Option<
        LayoutKey,
    >)
        requires
            keycode != 1 ==> call_requires(label_of, (keycode,)),
        ensures
            r is None <==> keycode == 1,
            r matches Some(k) ==> exists|l: KeycodeLabel|
                #[trigger] call_ensures(label_of, (keycode,), l) && k@ == key_of_label(
                    opt_view(l.long),
                    opt_view(l.short),
                    opt_view(l.symbol),
                    l.kind,
                    l.layer_ref,
                ),
    {
        if keycode == qmk_transparent_keycode() {
            return None;
        }
        let label = label_of(keycode);
        Some(Self::from_keycode_label(label))
    }

    /// The best label for display in a space of `max_chars` bytes: the symbol,
    /// else the short form when it fits, else the tap label, truncated to its
    /// longest prefix of at most `max_chars` bytes when it does not fit.
    pub fn display_label(&self, max_chars: usize) -> (s: &str)
        ensures
            s@ == display_label_of(self@, max_chars),
    {
        if let Some(symbol) = &self.symbol {
            return symbol.as_str();
        }
        if let Some(short) = &self.short {
            let sh = short.as_str();
            if sh.len() <= max_chars {
                return sh;
            }
        }
        truncate_to_bytes(self.tap.as_str(), max_chars)
    }
}

} // verus!
