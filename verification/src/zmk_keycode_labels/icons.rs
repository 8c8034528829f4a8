//! The Phosphor icon glyphs that some keys are shown with.
//!
//! Each glyph is a constant of `egui_phosphor::regular`; the functions here
//! hand it out as a `String`.

use vstd::prelude::*;

verus! {

/// The glyph `egui_phosphor::regular::FAST_FORWARD`, which that crate defines as the
/// single character U+E6A6.
#[verifier::external_body]
pub(crate) fn fast_forward_icon() -> (s: String)
    ensures
        s@ == seq!['\u{E6A6}'],
{
    egui_phosphor::regular::FAST_FORWARD.to_string()
}

/// The glyph `egui_phosphor::regular::REWIND`, which that crate defines as the
/// single character U+E6A8.
#[verifier::external_body]
pub(crate) fn rewind_icon() -> (s: String)
    ensures
        s@ == seq!['\u{E6A8}'],
{
    egui_phosphor::regular::REWIND.to_string()
}

/// The glyph `egui_phosphor::regular::SKIP_FORWARD`, which that crate defines as the
/// single character U+E5A6.
#[verifier::external_body]
pub(crate) fn skip_forward_icon() -> (s: String)
    ensures
        s@ == seq!['\u{E5A6}'],
{
    egui_phosphor::regular::SKIP_FORWARD.to_string()
}

/// The glyph `egui_phosphor::regular::SKIP_BACK`, which that crate defines as the
/// single character U+E5A4.
#[verifier::external_body]
pub(crate) fn skip_back_icon() -> (s: String)
    ensures
        s@ == seq!['\u{E5A4}'],
{
    egui_phosphor::regular::SKIP_BACK.to_string()
}

/// The glyph `egui_phosphor::regular::STOP`, which that crate defines as the
/// single character U+E46C.
#[verifier::external_body]
pub(crate) fn stop_icon() -> (s: String)
    ensures
        s@ == seq!['\u{E46C}'],
{
    egui_phosphor::regular::STOP.to_string()
}

/// The glyph `egui_phosphor::regular::PLAY_PAUSE`, which that crate defines as the
/// single character U+E8BE.
#[verifier::external_body]
pub(crate) fn play_pause_icon() -> (s: String)
    ensures
        s@ == seq!['\u{E8BE}'],
{
    egui_phosphor::regular::PLAY_PAUSE.to_string()
}

/// The glyph `egui_phosphor::regular::SPEAKER_X`, which that crate defines as the
/// single character U+E45C.
#[verifier::external_body]
pub(crate) fn speaker_x_icon() -> (s: String)
    ensures
        s@ == seq!['\u{E45C}'],
{
    egui_phosphor::regular::SPEAKER_X.to_string()
}

/// The glyph `egui_phosphor::regular::SPEAKER_HIGH`, which that crate defines as the
/// single character U+E44A.
#[verifier::external_body]
pub(crate) fn speaker_high_icon() -> (s: String)
    ensures
        s@ == seq!['\u{E44A}'],
{
    egui_phosphor::regular::SPEAKER_HIGH.to_string()
}

/// The glyph `egui_phosphor::regular::SPEAKER_LOW`, which that crate defines as the
/// single character U+E44C.
#[verifier::external_body]
pub(crate) fn speaker_low_icon() -> (s: String)
    ensures
        s@ == seq!['\u{E44C}'],
{
    egui_phosphor::regular::SPEAKER_LOW.to_string()
}

/// The glyph `egui_phosphor::regular::SUN`, which that crate defines as the
/// single character U+E472.
#[verifier::external_body]
pub(crate) fn sun_icon() -> (s: String)
    ensures
        s@ == seq!['\u{E472}'],
{
    egui_phosphor::regular::SUN.to_string()
}

} // verus!
