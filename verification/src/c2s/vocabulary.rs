//! The three-letter tags of the record dialect and the kinds they name.
use vstd::prelude::*;
use crate::c2s::error::C2sError;
use crate::kind::{AirDirection, ChuniNoteType, NoteKind};
use crate::text::text_eq;

verus! {

/// The kind that a tag names. A tag outside the vocabulary names the
/// unknown kind that carries the tag.
pub open spec fn tag_kind(tag: Seq<char>) -> NoteKind {
    if tag == "DEF"@ {
        NoteKind::Default
    } else if tag == "TAP"@ {
        NoteKind::Tap
    } else if tag == "CHR"@ {
        NoteKind::ExTap
    } else if tag == "HLD"@ {
        NoteKind::Hold
    } else if tag == "HXD"@ {
        NoteKind::ExHold
    } else if tag == "SLD"@ {
        NoteKind::Slide
    } else if tag == "SXD"@ {
        NoteKind::ExSlide
    } else if tag == "SLC"@ {
        NoteKind::SlideControlPoint
    } else if tag == "SXC"@ {
        NoteKind::ExSlideControlPoint
    } else if tag == "FLK"@ {
        NoteKind::Flick
    } else if tag == "AIR"@ {
        NoteKind::Air
    } else if tag == "AUR"@ {
        NoteKind::AirDirectional(AirDirection::UpRight)
    } else if tag == "AUL"@ {
        NoteKind::AirDirectional(AirDirection::UpLeft)
    } else if tag == "ADW"@ {
        NoteKind::AirDirectional(AirDirection::Down)
    } else if tag == "ADR"@ {
        NoteKind::AirDirectional(AirDirection::DownRight)
    } else if tag == "ADL"@ {
        NoteKind::AirDirectional(AirDirection::DownLeft)
    } else if tag == "AHD"@ {
        NoteKind::AirHold
    } else if tag == "AHX"@ {
        NoteKind::AirHoldGround
    } else if tag == "ALD"@ {
        NoteKind::AirSlide
    } else if tag == "ASC"@ {
        NoteKind::AirSlideControlPoint
    } else if tag == "MNE"@ {
        NoteKind::Mine
    } else {
        NoteKind::Unknown(tag)
    }
}

/// The tag that names a kind, where the kind has one. The unknown kind is
/// named by the text it carries, whatever that text is.
pub open spec fn kind_tag(kind: NoteKind) -> Option<Seq<char>> {
    match kind {
        NoteKind::Default => Some("DEF"@),
        NoteKind::Tap => Some("TAP"@),
        NoteKind::ExTap => Some("CHR"@),
        NoteKind::Hold => Some("HLD"@),
        NoteKind::ExHold => Some("HXD"@),
        NoteKind::Slide => Some("SLD"@),
        NoteKind::ExSlide => Some("SXD"@),
        NoteKind::SlideControlPoint => Some("SLC"@),
        NoteKind::ExSlideControlPoint => Some("SXC"@),
        NoteKind::Flick => Some("FLK"@),
        NoteKind::Air => Some("AIR"@),
        NoteKind::AirDirectional(AirDirection::UpRight) => Some("AUR"@),
        NoteKind::AirDirectional(AirDirection::UpLeft) => Some("AUL"@),
        NoteKind::AirDirectional(AirDirection::Down) => Some("ADW"@),
        NoteKind::AirDirectional(AirDirection::DownRight) => Some("ADR"@),
        NoteKind::AirDirectional(AirDirection::DownLeft) => Some("ADL"@),
        NoteKind::AirHold => Some("AHD"@),
        NoteKind::AirHoldGround => Some("AHX"@),
        NoteKind::AirSlide => Some("ALD"@),
        NoteKind::AirSlideControlPoint => Some("ASC"@),
        NoteKind::Mine => Some("MNE"@),
        NoteKind::Unknown(raw) => Some(raw),
    }
}

/// The tags of the vocabulary.
pub open spec fn known_tags() -> Seq<Seq<char>> {
    seq![
        "DEF"@,
        "TAP"@,
        "CHR"@,
        "HLD"@,
        "HXD"@,
        "SLD"@,
        "SXD"@,
        "SLC"@,
        "SXC"@,
        "FLK"@,
        "AIR"@,
        "AUR"@,
        "AUL"@,
        "ADW"@,
        "ADR"@,
        "ADL"@,
        "AHD"@,
        "AHX"@,
        "ALD"@,
        "ASC"@,
        "MNE"@,
    ]
}

/// Whether the vocabulary holds the tag.
pub open spec fn is_known_tag(tag: Seq<char>) -> bool {
    known_tags().contains(tag)
}

proof fn reveal_tags()
    ensures
        "DEF"@ == seq!['D', 'E', 'F'],
        "TAP"@ == seq!['T', 'A', 'P'],
        "CHR"@ == seq!['C', 'H', 'R'],
        "HLD"@ == seq!['H', 'L', 'D'],
        "HXD"@ == seq!['H', 'X', 'D'],
        "SLD"@ == seq!['S', 'L', 'D'],
        "SXD"@ == seq!['S', 'X', 'D'],
        "SLC"@ == seq!['S', 'L', 'C'],
        "SXC"@ == seq!['S', 'X', 'C'],
        "FLK"@ == seq!['F', 'L', 'K'],
        "AIR"@ == seq!['A', 'I', 'R'],
        "AUR"@ == seq!['A', 'U', 'R'],
        "AUL"@ == seq!['A', 'U', 'L'],
        "ADW"@ == seq!['A', 'D', 'W'],
        "ADR"@ == seq!['A', 'D', 'R'],
        "ADL"@ == seq!['A', 'D', 'L'],
        "AHD"@ == seq!['A', 'H', 'D'],
        "AHX"@ == seq!['A', 'H', 'X'],
        "ALD"@ == seq!['A', 'L', 'D'],
        "ASC"@ == seq!['A', 'S', 'C'],
        "MNE"@ == seq!['M', 'N', 'E'],
{
    reveal_strlit("DEF");
    reveal_strlit("TAP");
    reveal_strlit("CHR");
    reveal_strlit("HLD");
    reveal_strlit("HXD");
    reveal_strlit("SLD");
    reveal_strlit("SXD");
    reveal_strlit("SLC");
    reveal_strlit("SXC");
    reveal_strlit("FLK");
    reveal_strlit("AIR");
    reveal_strlit("AUR");
    reveal_strlit("AUL");
    reveal_strlit("ADW");
    reveal_strlit("ADR");
    reveal_strlit("ADL");
    reveal_strlit("AHD");
    reveal_strlit("AHX");
    reveal_strlit("ALD");
    reveal_strlit("ASC");
    reveal_strlit("MNE");
    assert("DEF"@ =~= seq!['D', 'E', 'F']);
    assert("TAP"@ =~= seq!['T', 'A', 'P']);
    assert("CHR"@ =~= seq!['C', 'H', 'R']);
    assert("HLD"@ =~= seq!['H', 'L', 'D']);
    assert("HXD"@ =~= seq!['H', 'X', 'D']);
    assert("SLD"@ =~= seq!['S', 'L', 'D']);
    assert("SXD"@ =~= seq!['S', 'X', 'D']);
    assert("SLC"@ =~= seq!['S', 'L', 'C']);
    assert("SXC"@ =~= seq!['S', 'X', 'C']);
    assert("FLK"@ =~= seq!['F', 'L', 'K']);
    assert("AIR"@ =~= seq!['A', 'I', 'R']);
    assert("AUR"@ =~= seq!['A', 'U', 'R']);
    assert("AUL"@ =~= seq!['A', 'U', 'L']);
    assert("ADW"@ =~= seq!['A', 'D', 'W']);
    assert("ADR"@ =~= seq!['A', 'D', 'R']);
    assert("ADL"@ =~= seq!['A', 'D', 'L']);
    assert("AHD"@ =~= seq!['A', 'H', 'D']);
    assert("AHX"@ =~= seq!['A', 'H', 'X']);
    assert("ALD"@ =~= seq!['A', 'L', 'D']);
    assert("ASC"@ =~= seq!['A', 'S', 'C']);
    assert("MNE"@ =~= seq!['M', 'N', 'E']);
}

/// Reading a tag and writing the kind back gives the tag again, for every
/// tag of the vocabulary.
pub proof fn lemma_tag_round_trip(tag: Seq<char>)
    requires
        is_known_tag(tag),
    ensures
        kind_tag(tag_kind(tag)) == Some(tag),
{
    reveal_tags();
}

/// Reading any text as a tag and writing the kind back gives the text
/// again: a tag outside the vocabulary travels inside the unknown kind.
pub proof fn lemma_any_tag_round_trip(tag: Seq<char>)
    ensures
        kind_tag(tag_kind(tag)) == Some(tag),
{
}

/// Every kind has a tag: writing a kind never fails for want of one.
pub proof fn lemma_every_kind_has_a_tag(kind: NoteKind)
    ensures
        kind_tag(kind) is Some,
        kind matches NoteKind::Unknown(raw) ==> kind_tag(kind) == Some(raw),
{
}

/// A tag outside the vocabulary is kept as it is, and only such a tag gives
/// the unknown kind.
pub proof fn lemma_unknown_tag_is_kept(tag: Seq<char>)
    ensures
        !is_known_tag(tag) <==> tag_kind(tag) == NoteKind::Unknown(tag),
        tag_kind(tag) is Unknown ==> tag_kind(tag) == NoteKind::Unknown(tag),
{
    let t = known_tags();
    if is_known_tag(tag) {
        let i = choose|i: int| 0 <= i < t.len() && t[i] == tag;
        assert(t[i] == tag);
    } else {
        assert(t[0] != tag && t[1] != tag && t[2] != tag && t[3] != tag && t[4] != tag && t[5]
            != tag && t[6] != tag);
        assert(t[7] != tag && t[8] != tag && t[9] != tag && t[10] != tag && t[11] != tag && t[12]
            != tag && t[13] != tag);
        assert(t[14] != tag && t[15] != tag && t[16] != tag && t[17] != tag && t[18] != tag
            && t[19] != tag && t[20] != tag);
    }
}

/// Writing a kind of the vocabulary and reading the tag back gives the kind
/// again.
pub proof fn lemma_kind_round_trip(kind: NoteKind)
    requires
        !(kind is Unknown),
    ensures
        kind_tag(kind) matches Some(tag) && tag_kind(tag) == kind && is_known_tag(tag),
{
    reveal_tags();
    let tag = kind_tag(kind).unwrap();
    let t = known_tags();
    assert(t[0] == "DEF"@ && t[1] == "TAP"@ && t[2] == "CHR"@ && t[3] == "HLD"@ && t[4] == "HXD"@
        && t[5] == "SLD"@ && t[6] == "SXD"@);
    assert(t[7] == "SLC"@ && t[8] == "SXC"@ && t[9] == "FLK"@ && t[10] == "AIR"@ && t[11]
        == "AUR"@ && t[12] == "AUL"@ && t[13] == "ADW"@);
    assert(t[14] == "ADR"@ && t[15] == "ADL"@ && t[16] == "AHD"@ && t[17] == "AHX"@ && t[18]
        == "ALD"@ && t[19] == "ASC"@ && t[20] == "MNE"@);
    assert(exists|i: int| 0 <= i < t.len() && t[i] == tag);
}

/// The kind that a tag names.
pub fn note_type_of(s: &str) -> (kind: ChuniNoteType)
    ensures
        kind@ == tag_kind(s@),
{
    if text_eq(s, "DEF") {
        ChuniNoteType::Default
    } else if text_eq(s, "TAP") {
        ChuniNoteType::Tap
    } else if text_eq(s, "CHR") {
        ChuniNoteType::ExTap
    } else if text_eq(s, "HLD") {
        ChuniNoteType::Hold
    } else if text_eq(s, "HXD") {
        ChuniNoteType::ExHold
    } else if text_eq(s, "SLD") {
        ChuniNoteType::Slide
    } else if text_eq(s, "SXD") {
        ChuniNoteType::ExSlide
    } else if text_eq(s, "SLC") {
        ChuniNoteType::SlideControlPoint
    } else if text_eq(s, "SXC") {
        ChuniNoteType::ExSlideControlPoint
    } else if text_eq(s, "FLK") {
        ChuniNoteType::Flick
    } else if text_eq(s, "AIR") {
        ChuniNoteType::Air
    } else if text_eq(s, "AUR") {
        ChuniNoteType::AirDirectional(AirDirection::UpRight)
    } else if text_eq(s, "AUL") {
        ChuniNoteType::AirDirectional(AirDirection::UpLeft)
    } else if text_eq(s, "ADW") {
        ChuniNoteType::AirDirectional(AirDirection::Down)
    } else if text_eq(s, "ADR") {
        ChuniNoteType::AirDirectional(AirDirection::DownRight)
    } else if text_eq(s, "ADL") {
        ChuniNoteType::AirDirectional(AirDirection::DownLeft)
    } else if text_eq(s, "AHD") {
        ChuniNoteType::AirHold
    } else if text_eq(s, "AHX") {
        ChuniNoteType::AirHoldGround
    } else if text_eq(s, "ALD") {
        ChuniNoteType::AirSlide
    } else if text_eq(s, "ASC") {
        ChuniNoteType::AirSlideControlPoint
    } else if text_eq(s, "MNE") {
        ChuniNoteType::Mine
    } else {
        ChuniNoteType::Unknown(s.to_string())
    }
}

/// The kind that a tag names. This never fails: a tag outside the
/// vocabulary gives the unknown kind that carries it.
pub fn string_to_note_type(s: &str) -> (r: Result<ChuniNoteType, String>)
    ensures
        r matches Ok(kind) && kind@ == tag_kind(s@),
{
    Ok(note_type_of(s))
}

/// The tag that names a kind. A kind without a tag would be refused as
/// `InvalidKind`; every kind has one, so this always succeeds, and an
/// unknown kind gives back the text it carries, an empty text too.
pub fn c2s_note_type_to_string(note_type: &ChuniNoteType) -> (r: Result<String, C2sError>)
    ensures
        r is Ok,
        match r {
            Ok(tag) => kind_tag(note_type@) == Some(tag@),
            Err(e) => kind_tag(note_type@) is None && e == C2sError::InvalidKind,
        },
{
    let tag = match note_type {
        ChuniNoteType::Default => "DEF",
        ChuniNoteType::Tap => "TAP",
        ChuniNoteType::ExTap => "CHR",
        ChuniNoteType::Hold => "HLD",
        ChuniNoteType::ExHold => "HXD",
        ChuniNoteType::Slide => "SLD",
        ChuniNoteType::ExSlide => "SXD",
        ChuniNoteType::SlideControlPoint => "SLC",
        ChuniNoteType::ExSlideControlPoint => "SXC",
        ChuniNoteType::Flick => "FLK",
        ChuniNoteType::Air => "AIR",
        ChuniNoteType::AirDirectional(AirDirection::UpRight) => "AUR",
        ChuniNoteType::AirDirectional(AirDirection::UpLeft) => "AUL",
        ChuniNoteType::AirDirectional(AirDirection::Down) => "ADW",
        ChuniNoteType::AirDirectional(AirDirection::DownRight) => "ADR",
        ChuniNoteType::AirDirectional(AirDirection::DownLeft) => "ADL",
        ChuniNoteType::AirHold => "AHD",
        ChuniNoteType::AirHoldGround => "AHX",
        ChuniNoteType::AirSlide => "ALD",
        ChuniNoteType::AirSlideControlPoint => "ASC",
        ChuniNoteType::Mine => "MNE",
        ChuniNoteType::Unknown(raw) => {
            return Ok(raw.clone());
        },
    };
    Ok(tag.to_string())
}

} // verus!
