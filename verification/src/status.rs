//! The state of a decompilation run, and the status pill that shows it.

use vstd::prelude::*;
use crate::palette::{Rgb, status_tone_color, tone_color};

verus! {

/// Where the current decompilation run stands.
#[derive(Clone, Debug, PartialEq)]
pub enum DecompileStatus {
    /// No run has started since the console was last cleared.
    Idle,
    /// A run is under way.
    Decompiling,
    /// The last run finished without error.
    Success,
    /// The last run failed, with the reason.
    Error(String),
}

/// The mathematical value of a [`DecompileStatus`].
pub enum StatusView {
    Idle,
    Decompiling,
    Success,
    Error(Seq<char>),
}

impl View for DecompileStatus {
    type V = StatusView;

    open spec fn view(&self) -> StatusView {
        match self {
            DecompileStatus::Idle => StatusView::Idle,
            DecompileStatus::Decompiling => StatusView::Decompiling,
            DecompileStatus::Success => StatusView::Success,
            DecompileStatus::Error(e) => StatusView::Error(e@),
        }
    }
}

/// The colour family of the status pill.
#[derive(Clone, Copy, Debug, PartialEq, Eq)]
pub enum StatusTone {
    Neutral,
    Working,
    Succeeded,
    Failed,
}

/// What the status pill shows: its text, whether it is bold, and its colour family.
#[derive(Clone, Debug, PartialEq)]
pub struct StatusPill {
    pub label: String,
    pub strong: bool,
    pub tone: StatusTone,
    pub color: Rgb,
}

/// The text of the status pill for each status.
pub open spec fn pill_label(s: StatusView) -> Seq<char> {
    match s {
        StatusView::Idle => "Idle"@,
        StatusView::Decompiling => "Decompiling..."@,
        StatusView::Success => "Success!"@,
        StatusView::Error(_) => "Failed"@,
    }
}

/// The colour family of the status pill for each status.
pub open spec fn pill_tone(s: StatusView) -> StatusTone {
    match s {
        StatusView::Idle => StatusTone::Neutral,
        StatusView::Decompiling => StatusTone::Working,
        StatusView::Success => StatusTone::Succeeded,
        StatusView::Error(_) => StatusTone::Failed,
    }
}

impl DecompileStatus {
    /// Whether a run is under way.
    pub fn is_decompiling(&self) -> (r: bool)
        ensures
            r == (self@ is Decompiling),
    {
        match self {
            DecompileStatus::Decompiling => true,
            _ => false,
        }
    }

    /// The status pill for this status: every status but idle is shown in
    /// bold, in the colour of its family.
    pub fn pill(&self) -> (p: StatusPill)
        ensures
            p.label@ == pill_label(self@),
            p.strong == !(self@ is Idle),
            p.tone == pill_tone(self@),
            p.color == tone_color(pill_tone(self@)),
    {
        let (label, strong, tone) = match self {
            DecompileStatus::Idle => (String::from_str("Idle"), false, StatusTone::Neutral),
            DecompileStatus::Decompiling => (String::from_str("Decompiling..."), true, StatusTone::Working),
            DecompileStatus::Success => (String::from_str("Success!"), true, StatusTone::Succeeded),
            DecompileStatus::Error(_) => (String::from_str("Failed"), true, StatusTone::Failed),
        };
        StatusPill { label, strong, tone, color: status_tone_color(tone) }
    }
}

} // verus!
