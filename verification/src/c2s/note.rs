//! Notes of the record dialect and the records they are read from.
//!
//! A record is a line split into fields. The first field is the tag; the
//! next four are measure, offset, cell and width. What follows depends on
//! the kind that the tag names, or, for the two wrapper tags, on the fixed
//! shape of a wrapper.
use vstd::prelude::*;
use crate::c2s::error::{C2sError, Field};
use crate::c2s::vocabulary::{note_type_of, tag_kind};
use crate::kind::{AirDirection, ChuniNoteType, NoteKind};
use crate::number::{decimal_u32, is_number_text, numeral, parse_u32, NumberText};
use crate::text::{fields, lemma_texts, split_fields, text_eq, texts, uppercase};

verus! {

/// What a wrapper record said beyond the note it wraps.
#[derive(Debug, Clone, PartialEq, Eq)]
pub struct WrappedNoteInfo {
    /// The wrapper's own tag, in upper case: `ASD` or `ASC`.
    pub original_format: String,
    /// The wrapped tag as it was written.
    pub wrapped_type: String,
    /// First parameter of the wrapper.
    pub param1: NumberText,
    /// Second parameter of the wrapper.
    pub param2: NumberText,
    /// The closing mode word of the wrapper.
    pub param3: String,
}

/// The mathematical value of a `WrappedNoteInfo`.
pub struct WrappedView {
    pub original_format: Seq<char>,
    pub wrapped_type: Seq<char>,
    pub param1: Seq<char>,
    pub param2: Seq<char>,
    pub param3: Seq<char>,
}

impl View for WrappedNoteInfo {
    type V = WrappedView;

    open spec fn view(&self) -> WrappedView {
        WrappedView {
            original_format: self.original_format@,
            wrapped_type: self.wrapped_type@,
            param1: self.param1@,
            param2: self.param2@,
            param3: self.param3@,
        }
    }
}

/// One note of a chart.
#[derive(Debug, Clone, PartialEq, Eq)]
pub struct Note {
    /// The kind of the note.
    pub note_type: ChuniNoteType,
    /// Measure in which the note starts.
    pub measure: u32,
    /// Ticks from the start of the measure.
    pub offset: u32,
    /// Leftmost cell of the note.
    pub cell: u32,
    /// Width in cells.
    pub width: u32,
    /// Length in ticks, for the kinds that last.
    pub duration: Option<u32>,
    /// Cell at which a slide ends.
    pub end_cell: Option<NumberText>,
    /// Width with which a slide ends.
    pub end_width: Option<NumberText>,
    /// Tag of the note that an air note rests on.
    pub target_note: Option<String>,
    /// Effect word of an ex-tap.
    pub chr_modifier: Option<String>,
    /// Direction word of a flick.
    pub flick_modifier: Option<String>,
    /// What the wrapper said, for a note that came wrapped.
    pub wrapped_note_info: Option<WrappedNoteInfo>,
}

/// The mathematical value of a `Note`.
pub struct NoteView {
    pub note_type: NoteKind,
    pub measure: u32,
    pub offset: u32,
    pub cell: u32,
    pub width: u32,
    pub duration: Option<u32>,
    pub end_cell: Option<Seq<char>>,
    pub end_width: Option<Seq<char>>,
    pub target_note: Option<Seq<char>>,
    pub chr_modifier: Option<Seq<char>>,
    pub flick_modifier: Option<Seq<char>>,
    pub wrapped_note_info: Option<WrappedView>,
}

/// The view of an optional string.
pub open spec fn opt_text(o: Option<String>) -> Option<Seq<char>> {
    match o {
        Some(t) => Some(t@),
        None => None,
    }
}

/// The view of an optional number text.
pub open spec fn opt_number(o: Option<NumberText>) -> Option<Seq<char>> {
    match o {
        Some(t) => Some(t@),
        None => None,
    }
}

impl View for Note {
    type V = NoteView;

    open spec fn view(&self) -> NoteView {
        NoteView {
            note_type: self.note_type@,
            measure: self.measure,
            offset: self.offset,
            cell: self.cell,
            width: self.width,
            duration: self.duration,
            end_cell: opt_number(self.end_cell),
            end_width: opt_number(self.end_width),
            target_note: opt_text(self.target_note),
            chr_modifier: opt_text(self.chr_modifier),
            flick_modifier: opt_text(self.flick_modifier),
            wrapped_note_info: match self.wrapped_note_info {
                Some(info) => Some(info@),
                None => None,
            },
        }
    }
}

/// A note with the five fields that every note has and nothing else.
pub open spec fn bare(kind: NoteKind, measure: u32, offset: u32, cell: u32, width: u32) -> NoteView {
    NoteView {
        note_type: kind,
        measure,
        offset,
        cell,
        width,
        duration: None,
        end_cell: None,
        end_width: None,
        target_note: None,
        chr_modifier: None,
        flick_modifier: None,
        wrapped_note_info: None,
    }
}

/// The view of what reading a record gave.
pub open spec fn result_view(r: Result<Note, C2sError>) -> Result<NoteView, C2sError> {
    match r {
        Ok(note) => Ok(note@),
        Err(e) => Err(e),
    }
}

/// Where the fields after the fifth stand in a record: for each of them the
/// index at which a kind expects it, if the kind has it at all.
#[derive(Debug, Clone, Copy, PartialEq, Eq, Structural)]
pub struct Layout {
    /// A duration in ticks, an unsigned integer.
    pub duration: Option<usize>,
    /// The cell at which a slide ends, a number that may have a fraction.
    pub end_cell: Option<usize>,
    /// The width with which a slide ends, a number that may have a fraction.
    pub end_width: Option<usize>,
    /// The tag of the note that an air note rests on, any text.
    pub target: Option<usize>,
    /// The effect of an ex-tap, any text.
    pub modifier: Option<usize>,
    /// Whether the kind is a flick, whose direction word is fixed.
    pub flick: bool,
}

/// The layout of a kind without further fields.
pub open spec fn no_columns() -> Layout {
    Layout { duration: None, end_cell: None, end_width: None, target: None, modifier: None, flick: false }
}

/// The positional table: which further fields a record of each kind holds.
pub open spec fn layout(kind: NoteKind) -> Layout {
    match kind {
        NoteKind::Hold | NoteKind::ExHold => Layout { duration: Some(5), ..no_columns() },
        NoteKind::AirHold | NoteKind::AirHoldGround => Layout {
            target: Some(5),
            duration: Some(6),
            ..no_columns()
        },
        NoteKind::Slide
        | NoteKind::ExSlide
        | NoteKind::SlideControlPoint
        | NoteKind::ExSlideControlPoint
        | NoteKind::AirSlide
        | NoteKind::AirSlideControlPoint => Layout {
            duration: Some(5),
            end_cell: Some(6),
            end_width: Some(7),
            ..no_columns()
        },
        NoteKind::ExTap => Layout { modifier: Some(5), ..no_columns() },
        NoteKind::Flick => Layout { flick: true, ..no_columns() },
        NoteKind::Air | NoteKind::AirDirectional(_) => Layout { target: Some(5), ..no_columns() },
        _ => no_columns(),
    }
}

/// The field at an index of the layout, where the record is long enough to
/// have it. A record may stop before any of its further fields.
pub open spec fn text_at(parts: Seq<Seq<char>>, at: Option<usize>) -> Option<Seq<char>> {
    match at {
        Some(i) => if i < parts.len() {
            Some(parts[i as int])
        } else {
            None
        },
        None => None,
    }
}

/// The first of the four position fields that is no unsigned integer.
pub open spec fn position_error(parts: Seq<Seq<char>>) -> Option<Field>
    recommends
        parts.len() >= 5,
{
    if decimal_u32(parts[1]) is None {
        Some(Field::Measure)
    } else if decimal_u32(parts[2]) is None {
        Some(Field::Offset)
    } else if decimal_u32(parts[3]) is None {
        Some(Field::Cell)
    } else if decimal_u32(parts[4]) is None {
        Some(Field::Width)
    } else {
        None
    }
}

/// The note that a record of an ordinary tag denotes. `tag` is the record's
/// tag in upper case; `parts` are all fields of the record, tag included.
///
/// Fewer than five fields are too few. The four position fields and then
/// the further fields of the kind's layout are read in the order in which
/// they stand, and the first that cannot be read is the one reported.
pub open spec fn plain_note(tag: Seq<char>, parts: Seq<Seq<char>>) -> Result<NoteView, C2sError> {
    let kind = tag_kind(tag);
    let columns = layout(kind);
    let duration = text_at(parts, columns.duration);
    let end_cell = text_at(parts, columns.end_cell);
    let end_width = text_at(parts, columns.end_width);
    if parts.len() < 5 {
        Err(C2sError::MissingFields { found: parts.len() as usize })
    } else if position_error(parts) is Some {
        Err(C2sError::InvalidField { field: position_error(parts).unwrap() })
    } else if duration matches Some(t) && decimal_u32(t) is None {
        Err(C2sError::InvalidField { field: Field::Duration })
    } else if end_cell matches Some(t) && !is_number_text(t) {
        Err(C2sError::InvalidField { field: Field::EndCell })
    } else if end_width matches Some(t) && !is_number_text(t) {
        Err(C2sError::InvalidField { field: Field::EndWidth })
    } else {
        Ok(
            NoteView {
                duration: match duration {
                    Some(t) => decimal_u32(t),
                    None => None,
                },
                end_cell,
                end_width,
                target_note: text_at(parts, columns.target),
                chr_modifier: text_at(parts, columns.modifier),
                flick_modifier: if columns.flick {
                    Some("L"@)
                } else {
                    None
                },
                ..bare(
                    kind,
                    decimal_u32(parts[1]).unwrap(),
                    decimal_u32(parts[2]).unwrap(),
                    decimal_u32(parts[3]).unwrap(),
                    decimal_u32(parts[4]).unwrap(),
                )
            },
        )
    }
}

/// The two tags that wrap another note.
pub open spec fn is_wrapper_tag(tag: Seq<char>) -> bool {
    tag == "ASD"@ || tag == "ASC"@
}

/// The first field of a wrapper's envelope that cannot be read, the
/// wrapper's own tag last.
pub open spec fn wrapper_error(prefix: Seq<char>, parts: Seq<Seq<char>>) -> Option<Field>
    recommends
        parts.len() == 12,
{
    if position_error(parts) is Some {
        position_error(parts)
    } else if !is_number_text(parts[6]) {
        Some(Field::Param1)
    } else if decimal_u32(parts[7]) is None {
        Some(Field::Duration)
    } else if decimal_u32(parts[8]) is None {
        Some(Field::EndCell)
    } else if decimal_u32(parts[9]) is None {
        Some(Field::EndWidth)
    } else if !is_number_text(parts[10]) {
        Some(Field::Param2)
    } else if !is_wrapper_tag(prefix) {
        Some(Field::Tag)
    } else {
        None
    }
}

/// The note that a wrapper record denotes. `prefix` is the record's tag in
/// upper case, `wrapped_tag` its sixth field in upper case, `parts` all of
/// its fields.
///
/// A wrapper has twelve fields: tag, measure, offset, cell, width, wrapped
/// tag, first parameter, duration, end cell, end width, second parameter,
/// mode word. The note is of the kind that the wrapped tag names, whatever
/// that tag is: one level is unwrapped and no more. End cell and end width
/// are unsigned integers here and are kept as their decimal numerals.
pub open spec fn wrapper_note(prefix: Seq<char>, wrapped_tag: Seq<char>, parts: Seq<Seq<char>>) -> Result<
    NoteView,
    C2sError,
> {
    if parts.len() != 12 {
        Err(C2sError::StructuralMismatch { found: parts.len() as usize })
    } else if wrapper_error(prefix, parts) is Some {
        Err(C2sError::InvalidField { field: wrapper_error(prefix, parts).unwrap() })
    } else {
        Ok(
            NoteView {
                duration: decimal_u32(parts[7]),
                end_cell: Some(numeral(decimal_u32(parts[8]).unwrap() as nat, 10)),
                end_width: Some(numeral(decimal_u32(parts[9]).unwrap() as nat, 10)),
                wrapped_note_info: Some(
                    WrappedView {
                        original_format: prefix,
                        wrapped_type: parts[5],
                        param1: parts[6],
                        param2: parts[10],
                        param3: parts[11],
                    },
                ),
                ..bare(
                    tag_kind(wrapped_tag),
                    decimal_u32(parts[1]).unwrap(),
                    decimal_u32(parts[2]).unwrap(),
                    decimal_u32(parts[3]).unwrap(),
                    decimal_u32(parts[4]).unwrap(),
                )
            },
        )
    }
}

/// The upper-case form of the field at `i`, where the record has it.
pub open spec fn upper_at(parts: Seq<Seq<char>>, i: int) -> Seq<char> {
    if 0 <= i < parts.len() {
        uppercase(parts[i])
    } else {
        Seq::empty()
    }
}

/// The note that a record denotes, given the upper-case forms of its first
/// and its sixth field. A record is a wrapper where its tag is a wrapper
/// tag and it has twelve fields; any other record is an ordinary one, a
/// wrapper tag with another count of fields included.
pub open spec fn record_note(parts: Seq<Seq<char>>, tag: Seq<char>, wrapped_tag: Seq<char>) -> Result<
    NoteView,
    C2sError,
> {
    if is_wrapper_tag(tag) && parts.len() == 12 {
        wrapper_note(tag, wrapped_tag, parts)
    } else {
        plain_note(tag, parts)
    }
}

/// The note that a line denotes.
pub open spec fn line_note(line: Seq<char>) -> Result<NoteView, C2sError> {
    let parts = fields(line);
    record_note(parts, upper_at(parts, 0), upper_at(parts, 5))
}

/// A wrapper is transport: a note carries what a wrapper said exactly when
/// its record was a wrapper, and its kind is then the kind that the wrapped
/// tag names, whatever the wrapper's own tag. A note of an ordinary record
/// is of the kind that its own tag names.
pub proof fn lemma_wrapper_is_transport(parts: Seq<Seq<char>>, tag: Seq<char>, wrapped_tag: Seq<char>)
    requires
        record_note(parts, tag, wrapped_tag) is Ok,
    ensures
        ({
            let note = record_note(parts, tag, wrapped_tag)->Ok_0;
            &&& note.wrapped_note_info is Some <==> is_wrapper_tag(tag) && parts.len() == 12
            &&& note.wrapped_note_info is None ==> note.note_type == tag_kind(tag)
            &&& note.wrapped_note_info matches Some(info) ==> {
                &&& note.note_type == tag_kind(wrapped_tag)
                &&& info.original_format == tag
                &&& info.wrapped_type == parts[5]
                &&& info.param3 == parts[11]
                &&& is_number_text(info.param1)
                &&& is_number_text(info.param2)
                &&& note.duration is Some
                &&& note.end_cell is Some
                &&& note.end_width is Some
            }
        }),
{
}

/// Which of the further fields a note of an ordinary record has is a matter
/// of its kind: it has none that the layout of its kind does not hold, and
/// it has the direction word of a flick exactly when it is a flick. Every
/// number it has was written as one.
pub proof fn lemma_fields_follow_layout(tag: Seq<char>, parts: Seq<Seq<char>>)
    requires
        plain_note(tag, parts) is Ok,
    ensures
        ({
            let note = plain_note(tag, parts)->Ok_0;
            let columns = layout(note.note_type);
            &&& note.duration is Some ==> columns.duration is Some
            &&& note.end_cell is Some ==> columns.end_cell is Some
            &&& note.end_width is Some ==> columns.end_width is Some
            &&& note.target_note is Some ==> columns.target is Some
            &&& note.chr_modifier is Some ==> columns.modifier is Some
            &&& note.flick_modifier is Some <==> note.note_type is Flick
            &&& note.end_cell matches Some(t) ==> is_number_text(t)
            &&& note.end_width matches Some(t) ==> is_number_text(t)
        }),
{
}

/// A record is read from its fields alone: white space before, between and
/// after the fields of a line does not matter.
pub proof fn lemma_line_is_read_by_fields(a: Seq<char>, b: Seq<char>)
    requires
        fields(a) == fields(b),
    ensures
        line_note(a) == line_note(b),
{
}

/// The layout of a kind.
pub fn layout_of(kind: &ChuniNoteType) -> (columns: Layout)
    ensures
        columns == layout(kind@),
{
    let none = Layout {
        duration: None,
        end_cell: None,
        end_width: None,
        target: None,
        modifier: None,
        flick: false,
    };
    match kind {
        ChuniNoteType::Hold | ChuniNoteType::ExHold => Layout { duration: Some(5), ..none },
        ChuniNoteType::AirHold | ChuniNoteType::AirHoldGround => Layout {
            target: Some(5),
            duration: Some(6),
            ..none
        },
        ChuniNoteType::Slide
        | ChuniNoteType::ExSlide
        | ChuniNoteType::SlideControlPoint
        | ChuniNoteType::ExSlideControlPoint
        | ChuniNoteType::AirSlide
        | ChuniNoteType::AirSlideControlPoint => Layout {
            duration: Some(5),
            end_cell: Some(6),
            end_width: Some(7),
            ..none
        },
        ChuniNoteType::ExTap => Layout { modifier: Some(5), ..none },
        ChuniNoteType::Flick => Layout { flick: true, ..none },
        ChuniNoteType::Air | ChuniNoteType::AirDirectional(_) => Layout { target: Some(5), ..none },
        _ => none,
    }
}

fn integer_field(parts: &Vec<String>, i: usize, field: Field) -> (r: Result<u32, C2sError>)
    requires
        i < parts.len(),
    ensures
        match r {
            Ok(v) => decimal_u32(texts(parts@)[i as int]) == Some(v),
            Err(e) => decimal_u32(texts(parts@)[i as int]) is None && e == (C2sError::InvalidField {
                field,
            }),
        },
{
    proof {
        lemma_texts(parts@);
    }
    match parse_u32(parts[i].as_str()) {
        Some(v) => Ok(v),
        None => Err(C2sError::InvalidField { field }),
    }
}

fn fraction_field(parts: &Vec<String>, i: usize, field: Field) -> (r: Result<NumberText, C2sError>)
    requires
        i < parts.len(),
    ensures
        match r {
            Ok(n) => is_number_text(texts(parts@)[i as int]) && n@ == texts(parts@)[i as int],
            Err(e) => !is_number_text(texts(parts@)[i as int]) && e == (C2sError::InvalidField {
                field,
            }),
        },
{
    proof {
        lemma_texts(parts@);
    }
    match NumberText::parse(parts[i].as_str()) {
        Some(n) => Ok(n),
        None => Err(C2sError::InvalidField { field }),
    }
}

fn optional_text(parts: &Vec<String>, at: Option<usize>) -> (r: Option<String>)
    ensures
        opt_text(r) == text_at(texts(parts@), at),
{
    proof {
        lemma_texts(parts@);
    }
    match at {
        Some(i) => if i < parts.len() {
            Some(parts[i].clone())
        } else {
            None
        },
        None => None,
    }
}

fn optional_integer(parts: &Vec<String>, at: Option<usize>, field: Field) -> (r: Result<
    Option<u32>,
    C2sError,
>)
    ensures
        match r {
            Ok(v) => match text_at(texts(parts@), at) {
                Some(t) => decimal_u32(t) is Some && v == decimal_u32(t),
                None => v is None,
            },
            Err(e) => text_at(texts(parts@), at) matches Some(t) && decimal_u32(t) is None && e == (
            C2sError::InvalidField { field }),
        },
{
    match at {
        Some(i) => if i < parts.len() {
            match integer_field(parts, i, field) {
                Ok(v) => Ok(Some(v)),
                Err(e) => Err(e),
            }
        } else {
            Ok(None)
        },
        None => Ok(None),
    }
}

fn optional_fraction(parts: &Vec<String>, at: Option<usize>, field: Field) -> (r: Result<
    Option<NumberText>,
    C2sError,
>)
    ensures
        match r {
            Ok(v) => opt_number(v) == text_at(texts(parts@), at) && (text_at(texts(parts@), at)
                matches Some(t) ==> is_number_text(t)),
            Err(e) => text_at(texts(parts@), at) matches Some(t) && !is_number_text(t) && e == (
            C2sError::InvalidField { field }),
        },
{
    match at {
        Some(i) => if i < parts.len() {
            match fraction_field(parts, i, field) {
                Ok(v) => Ok(Some(v)),
                Err(e) => Err(e),
            }
        } else {
            Ok(None)
        },
        None => Ok(None),
    }
}

/// The four position fields of a record.
fn position_fields(parts: &Vec<String>) -> (r: Result<(u32, u32, u32, u32), C2sError>)
    requires
        parts.len() >= 5,
    ensures
        match r {
            Ok(p) => {
                &&& position_error(texts(parts@)) is None
                &&& decimal_u32(texts(parts@)[1]) == Some(p.0)
                &&& decimal_u32(texts(parts@)[2]) == Some(p.1)
                &&& decimal_u32(texts(parts@)[3]) == Some(p.2)
                &&& decimal_u32(texts(parts@)[4]) == Some(p.3)
            },
            Err(e) => position_error(texts(parts@)) matches Some(field) && e == (
            C2sError::InvalidField { field }),
        },
{
    let measure = integer_field(parts, 1, Field::Measure)?;
    let offset = integer_field(parts, 2, Field::Offset)?;
    let cell = integer_field(parts, 3, Field::Cell)?;
    let width = integer_field(parts, 4, Field::Width)?;
    Ok((measure, offset, cell, width))
}

impl Note {
    fn plain(kind: ChuniNoteType, measure: u32, offset: u32, cell: u32, width: u32) -> (r: Note)
        ensures
            r@ == bare(kind@, measure, offset, cell, width),
    {
        Note {
            note_type: kind,
            measure,
            offset,
            cell,
            width,
            duration: None,
            end_cell: None,
            end_width: None,
            target_note: None,
            chr_modifier: None,
            flick_modifier: None,
            wrapped_note_info: None,
        }
    }

    /// A tap.
    pub fn tap(measure: u32, offset: u32, cell: u32, width: u32) -> (r: Note)
        ensures
            r@ == bare(NoteKind::Tap, measure, offset, cell, width),
    {
        Note::plain(ChuniNoteType::Tap, measure, offset, cell, width)
    }

    /// An ex-tap with its effect word.
    pub fn chr(measure: u32, offset: u32, cell: u32, width: u32, modifier: String) -> (r: Note)
        ensures
            r@ == (NoteView {
                chr_modifier: Some(modifier@),
                ..bare(NoteKind::ExTap, measure, offset, cell, width)
            }),
    {
        let mut note = Note::plain(ChuniNoteType::ExTap, measure, offset, cell, width);
        note.chr_modifier = Some(modifier);
        note
    }

    /// A hold of the given length.
    pub fn hold(measure: u32, offset: u32, cell: u32, width: u32, duration: u32) -> (r: Note)
        ensures
            r@ == (NoteView {
                duration: Some(duration),
                ..bare(NoteKind::Hold, measure, offset, cell, width)
            }),
    {
        let mut note = Note::plain(ChuniNoteType::Hold, measure, offset, cell, width);
        note.duration = Some(duration);
        note
    }

    /// A slide that ends at the given cell with the given width.
    pub fn slide(
        measure: u32,
        offset: u32,
        cell: u32,
        width: u32,
        duration: u32,
        end_cell: NumberText,
        end_width: NumberText,
    ) -> (r: Note)
        ensures
            r@ == (NoteView {
                duration: Some(duration),
                end_cell: Some(end_cell@),
                end_width: Some(end_width@),
                ..bare(NoteKind::Slide, measure, offset, cell, width)
            }),
    {
        let mut note = Note::plain(ChuniNoteType::Slide, measure, offset, cell, width);
        note.duration = Some(duration);
        note.end_cell = Some(end_cell);
        note.end_width = Some(end_width);
        note
    }

    /// A slide control point that ends at the given cell with the given
    /// width.
    pub fn slide_control(
        measure: u32,
        offset: u32,
        cell: u32,
        width: u32,
        duration: u32,
        end_cell: NumberText,
        end_width: NumberText,
    ) -> (r: Note)
        ensures
            r@ == (NoteView {
                duration: Some(duration),
                end_cell: Some(end_cell@),
                end_width: Some(end_width@),
                ..bare(NoteKind::SlideControlPoint, measure, offset, cell, width)
            }),
    {
        let mut note = Note::plain(ChuniNoteType::SlideControlPoint, measure, offset, cell, width);
        note.duration = Some(duration);
        note.end_cell = Some(end_cell);
        note.end_width = Some(end_width);
        note
    }

    /// A flick, with the direction word that every flick has.
    pub fn flick(measure: u32, offset: u32, cell: u32, width: u32) -> (r: Note)
        ensures
            r@ == (NoteView {
                flick_modifier: Some("L"@),
                ..bare(NoteKind::Flick, measure, offset, cell, width)
            }),
    {
        let mut note = Note::plain(ChuniNoteType::Flick, measure, offset, cell, width);
        note.flick_modifier = Some("L".to_string());
        note
    }

    /// An air note that rests on the note of the given tag.
    pub fn air(measure: u32, offset: u32, cell: u32, width: u32, target_note: String) -> (r: Note)
        ensures
            r@ == (NoteView {
                target_note: Some(target_note@),
                ..bare(NoteKind::Air, measure, offset, cell, width)
            }),
    {
        let mut note = Note::plain(ChuniNoteType::Air, measure, offset, cell, width);
        note.target_note = Some(target_note);
        note
    }

    /// An air note with a direction.
    pub fn air_directional(
        measure: u32,
        offset: u32,
        cell: u32,
        width: u32,
        target_note: String,
        direction: AirDirection,
    ) -> (r: Note)
        ensures
            r@ == (NoteView {
                target_note: Some(target_note@),
                ..bare(NoteKind::AirDirectional(direction), measure, offset, cell, width)
            }),
    {
        let mut note = Note::plain(
            ChuniNoteType::AirDirectional(direction),
            measure,
            offset,
            cell,
            width,
        );
        note.target_note = Some(target_note);
        note
    }

    /// A hold in the air.
    pub fn air_hold(
        measure: u32,
        offset: u32,
        cell: u32,
        width: u32,
        target_note: String,
        duration: u32,
    ) -> (r: Note)
        ensures
            r@ == (NoteView {
                target_note: Some(target_note@),
                duration: Some(duration),
                ..bare(NoteKind::AirHold, measure, offset, cell, width)
            }),
    {
        let mut note = Note::plain(ChuniNoteType::AirHold, measure, offset, cell, width);
        note.target_note = Some(target_note);
        note.duration = Some(duration);
        note
    }

    /// A mine.
    pub fn mine(measure: u32, offset: u32, cell: u32, width: u32) -> (r: Note)
        ensures
            r@ == bare(NoteKind::Mine, measure, offset, cell, width),
    {
        Note::plain(ChuniNoteType::Mine, measure, offset, cell, width)
    }

    /// Whether the note came in a wrapper record.
    pub fn is_wrapped_note(&self) -> (r: bool)
        ensures
            r == self@.wrapped_note_info is Some,
    {
        self.wrapped_note_info.is_some()
    }

    /// Whether the note is an air action: a slide in the air, or a control
    /// point of one, whose wrapper closed with the mode word `NON`.
    pub fn is_air_action(&self) -> (r: bool)
        ensures
            r <==> {
                &&& self@.note_type is AirSlide || self@.note_type is AirSlideControlPoint
                &&& self@.wrapped_note_info matches Some(info) && info.param3 == "NON"@
            },
    {
        let in_air = match &self.note_type {
            ChuniNoteType::AirSlide | ChuniNoteType::AirSlideControlPoint => true,
            _ => false,
        };
        match &self.wrapped_note_info {
            Some(info) => in_air && text_eq(info.param3.as_str(), "NON"),
            None => false,
        }
    }

    /// The wrapper's tag, for a note that came wrapped.
    pub fn get_original_format(&self) -> (r: Option<&str>)
        ensures
            match r {
                Some(t) => self@.wrapped_note_info matches Some(info) && info.original_format == t@,
                None => self@.wrapped_note_info is None,
            },
    {
        match &self.wrapped_note_info {
            Some(info) => Some(info.original_format.as_str()),
            None => None,
        }
    }

    /// The wrapped tag as it was written, for a note that came wrapped.
    pub fn get_wrapped_type(&self) -> (r: Option<&str>)
        ensures
            match r {
                Some(t) => self@.wrapped_note_info matches Some(info) && info.wrapped_type == t@,
                None => self@.wrapped_note_info is None,
            },
    {
        match &self.wrapped_note_info {
            Some(info) => Some(info.wrapped_type.as_str()),
            None => None,
        }
    }

    /// Reads a record of an ordinary tag. `tag` is the record's tag in
    /// upper case, `parts` all of its fields.
    pub fn from_record(tag: &str, parts: &Vec<String>) -> (r: Result<Note, C2sError>)
        ensures
            result_view(r) == plain_note(tag@, texts(parts@)),
    {
        proof {
            lemma_texts(parts@);
        }
        let note_type = note_type_of(tag);
        if parts.len() < 5 {
            return Err(C2sError::MissingFields { found: parts.len() });
        }
        let (measure, offset, cell, width) = position_fields(parts)?;
        let columns = layout_of(&note_type);
        let duration = optional_integer(parts, columns.duration, Field::Duration)?;
        let end_cell = optional_fraction(parts, columns.end_cell, Field::EndCell)?;
        let end_width = optional_fraction(parts, columns.end_width, Field::EndWidth)?;
        let target_note = optional_text(parts, columns.target);
        let chr_modifier = optional_text(parts, columns.modifier);
        let flick_modifier = if columns.flick {
            Some("L".to_string())
        } else {
            None
        };
        Ok(
            Note {
                note_type,
                measure,
                offset,
                cell,
                width,
                duration,
                end_cell,
                end_width,
                target_note,
                chr_modifier,
                flick_modifier,
                wrapped_note_info: None,
            },
        )
    }

    /// Reads a wrapper record. `prefix` is the record's tag in upper case,
    /// `wrapped_tag` its sixth field in upper case, `parts` all of its
    /// fields.
    pub fn from_wrapper_record(prefix: &str, wrapped_tag: &str, parts: &Vec<String>) -> (r: Result<
        Note,
        C2sError,
    >)
        ensures
            result_view(r) == wrapper_note(prefix@, wrapped_tag@, texts(parts@)),
    {
        proof {
            lemma_texts(parts@);
        }
        if parts.len() != 12 {
            return Err(C2sError::StructuralMismatch { found: parts.len() });
        }
        let (measure, offset, cell, width) = position_fields(parts)?;
        let param1 = fraction_field(parts, 6, Field::Param1)?;
        let duration = integer_field(parts, 7, Field::Duration)?;
        let end_cell = integer_field(parts, 8, Field::EndCell)?;
        let end_width = integer_field(parts, 9, Field::EndWidth)?;
        let param2 = fraction_field(parts, 10, Field::Param2)?;
        if !text_eq(prefix, "ASD") && !text_eq(prefix, "ASC") {
            return Err(C2sError::InvalidField { field: Field::Tag });
        }
        let note_type = note_type_of(wrapped_tag);
        Ok(
            Note {
                note_type,
                measure,
                offset,
                cell,
                width,
                duration: Some(duration),
                end_cell: Some(NumberText::from_u32(end_cell)),
                end_width: Some(NumberText::from_u32(end_width)),
                target_note: None,
                chr_modifier: None,
                flick_modifier: None,
                wrapped_note_info: Some(
                    WrappedNoteInfo {
                        original_format: prefix.to_string(),
                        wrapped_type: parts[5].clone(),
                        param1,
                        param2,
                        param3: parts[11].clone(),
                    },
                ),
            },
        )
    }

    /// Reads the record that a line holds, given the line's fields.
    pub fn from_fields(parts: &Vec<String>) -> (r: Result<Note, C2sError>)
        ensures
            result_view(r) == record_note(
                texts(parts@),
                upper_at(texts(parts@), 0),
                upper_at(texts(parts@), 5),
            ),
    {
        proof {
            lemma_texts(parts@);
        }
        if parts.len() == 0 {
            return Err(C2sError::MissingFields { found: 0 });
        }
        let tag = parts[0].as_str().to_uppercase();
        if (text_eq(tag.as_str(), "ASD") || text_eq(tag.as_str(), "ASC")) && parts.len() == 12 {
            let wrapped_tag = parts[5].as_str().to_uppercase();
            Note::from_wrapper_record(tag.as_str(), wrapped_tag.as_str(), parts)
        } else {
            Note::from_record(tag.as_str(), parts)
        }
    }

    /// Reads the note that a line denotes. The tag counts in upper case, so
    /// `tap` is read as `TAP`.
    pub fn from_line(line: &str) -> (r: Result<Note, C2sError>)
        ensures
            result_view(r) == line_note(line@),
    {
        let parts = split_fields(line);
        Note::from_fields(&parts)
    }

    /// Reads a line as a wrapper record, whatever its tag, and refuses any
    /// line that does not have the twelve fields of a wrapper.
    pub fn from_asd_line(line: &str) -> (r: Result<Note, C2sError>)
        ensures
            result_view(r) == wrapper_note(
                upper_at(fields(line@), 0),
                upper_at(fields(line@), 5),
                fields(line@),
            ),
    {
        let parts = split_fields(line);
        proof {
            lemma_texts(parts@);
        }
        if parts.len() != 12 {
            return Err(C2sError::StructuralMismatch { found: parts.len() });
        }
        let prefix = parts[0].as_str().to_uppercase();
        let wrapped_tag = parts[5].as_str().to_uppercase();
        Note::from_wrapper_record(prefix.as_str(), wrapped_tag.as_str(), &parts)
    }
}

} // verus!
