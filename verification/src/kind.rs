//! The kinds of playable notes.
use vstd::prelude::*;

verus! {

/// Where an air note sends the player's hand.
#[derive(Debug, Clone, Copy, PartialEq, Eq, Structural)]
pub enum AirDirection {
    UpRight,
    UpLeft,
    Down,
    DownRight,
    DownLeft,
}

/// Every category of playable note.
#[derive(Debug, Clone, PartialEq, Eq)]
pub enum ChuniNoteType {
    /// A plain tap.
    Tap,
    /// A tap that always scores as perfect (CHR).
    ExTap,
    /// A note to hold down (HLD).
    Hold,
    /// A hold that starts with an ex-tap (HXD).
    ExHold,
    /// A slide that starts with a straight line (SLD).
    Slide,
    /// A slide that starts with an ex-tap (SXD).
    ExSlide,
    /// A slide control point that moves at once (SLC).
    SlideControlPoint,
    /// A slide control point that starts with an ex-tap (SXC).
    ExSlideControlPoint,
    /// A tap that asks for a swipe (FLK).
    Flick,
    /// A note for the air sensor (AIR).
    Air,
    /// A hold in the air (AHD).
    AirHold,
    /// A hold in the air with a bar on the ground (AHX).
    AirHoldGround,
    /// An air note with a direction (AUR, AUL, ADW, ADR, ADL).
    AirDirectional(AirDirection),
    /// A slide in the air (ALD).
    AirSlide,
    /// A control point of a slide in the air (ASC).
    AirSlideControlPoint,
    /// A note that must not be touched (MNE).
    Mine,
    /// An invisible placeholder (DEF).
    Default,
    /// A tag that the vocabulary does not know, kept as it was read.
    Unknown(String),
}

/// A chart in the style of this game family.
pub trait ChuniChart {

}

/// The mathematical value of a `ChuniNoteType`.
pub enum NoteKind {
    Tap,
    ExTap,
    Hold,
    ExHold,
    Slide,
    ExSlide,
    SlideControlPoint,
    ExSlideControlPoint,
    Flick,
    Air,
    AirHold,
    AirHoldGround,
    AirDirectional(AirDirection),
    AirSlide,
    AirSlideControlPoint,
    Mine,
    Default,
    Unknown(Seq<char>),
}

impl View for ChuniNoteType {
    type V = NoteKind;

    open spec fn view(&self) -> NoteKind {
        match self {
            ChuniNoteType::Tap => NoteKind::Tap,
            ChuniNoteType::ExTap => NoteKind::ExTap,
            ChuniNoteType::Hold => NoteKind::Hold,
            ChuniNoteType::ExHold => NoteKind::ExHold,
            ChuniNoteType::Slide => NoteKind::Slide,
            ChuniNoteType::ExSlide => NoteKind::ExSlide,
            ChuniNoteType::SlideControlPoint => NoteKind::SlideControlPoint,
            ChuniNoteType::ExSlideControlPoint => NoteKind::ExSlideControlPoint,
            ChuniNoteType::Flick => NoteKind::Flick,
            ChuniNoteType::Air => NoteKind::Air,
            ChuniNoteType::AirHold => NoteKind::AirHold,
            ChuniNoteType::AirHoldGround => NoteKind::AirHoldGround,
            ChuniNoteType::AirDirectional(d) => NoteKind::AirDirectional(*d),
            ChuniNoteType::AirSlide => NoteKind::AirSlide,
            ChuniNoteType::AirSlideControlPoint => NoteKind::AirSlideControlPoint,
            ChuniNoteType::Mine => NoteKind::Mine,
            ChuniNoteType::Default => NoteKind::Default,
            ChuniNoteType::Unknown(raw) => NoteKind::Unknown(raw@),
        }
    }
}

} // verus!
