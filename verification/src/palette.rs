//! The colours that the state decides: of the status pill, of console lines,
//! of the console placeholder, of the path fields and of the highlighted button.

use vstd::prelude::*;
use crate::console::LineKind;
use crate::status::StatusTone;

verus! {

/// A colour as red, green and blue components.
#[derive(Clone, Copy, Debug, PartialEq, Eq)]
pub struct Rgb {
    pub r: u8,
    pub g: u8,
    pub b: u8,
}

/// The colour with the given components.
pub open spec fn rgb(r: u8, g: u8, b: u8) -> Rgb {
    Rgb { r, g, b }
}

/// The colour of the status pill for each colour family: grey when idle,
/// amber while running, green on success, red on failure.
pub open spec fn tone_color(t: StatusTone) -> Rgb {
    match t {
        StatusTone::Neutral => rgb(156, 163, 175),
        StatusTone::Working => rgb(251, 191, 36),
        StatusTone::Succeeded => rgb(52, 211, 153),
        StatusTone::Failed => rgb(248, 113, 113),
    }
}

/// The colour of a console line of each kind: soft red for errors, soft cyan
/// for system lines, warm off-white otherwise.
pub open spec fn kind_color(k: LineKind) -> Rgb {
    match k {
        LineKind::Error => rgb(248, 113, 113),
        LineKind::System => rgb(34, 211, 238),
        LineKind::Plain => rgb(228, 228, 231),
    }
}

/// The colour of the text that stands in an empty console.
pub open spec fn placeholder_line_color() -> Rgb {
    rgb(80, 80, 95)
}

/// The colour of a path field: dim for its placeholder, light for a path.
pub open spec fn path_color(placeholder: bool) -> Rgb {
    if placeholder {
        rgb(110, 110, 130)
    } else {
        rgb(210, 210, 215)
    }
}

/// The fill of the decompile button while it is highlighted.
pub open spec fn highlight_color() -> Rgb {
    rgb(124, 58, 237)
}

/// The colour of the status pill for a colour family.
pub fn status_tone_color(t: StatusTone) -> (c: Rgb)
    ensures
        c == tone_color(t),
{
    match t {
        StatusTone::Neutral => Rgb { r: 156, g: 163, b: 175 },
        StatusTone::Working => Rgb { r: 251, g: 191, b: 36 },
        StatusTone::Succeeded => Rgb { r: 52, g: 211, b: 153 },
        StatusTone::Failed => Rgb { r: 248, g: 113, b: 113 },
    }
}

/// The colour of a console line of the given kind.
pub fn line_kind_color(k: LineKind) -> (c: Rgb)
    ensures
        c == kind_color(k),
{
    match k {
        LineKind::Error => Rgb { r: 248, g: 113, b: 113 },
        LineKind::System => Rgb { r: 34, g: 211, b: 238 },
        LineKind::Plain => Rgb { r: 228, g: 228, b: 231 },
    }
}

/// The colour of a path field, dim when it shows its placeholder.
pub fn path_label_color(placeholder: bool) -> (c: Rgb)
    ensures
        c == path_color(placeholder),
{
    if placeholder {
        Rgb { r: 110, g: 110, b: 130 }
    } else {
        Rgb { r: 210, g: 210, b: 215 }
    }
}

/// The fill of the highlighted decompile button.
pub fn button_highlight_color() -> (c: Rgb)
    ensures
        c == highlight_color(),
{
    Rgb { r: 124, g: 58, b: 237 }
}

} // verus!
