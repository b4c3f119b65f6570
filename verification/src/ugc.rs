//! The coded dialect: `@KEY value` declarations and `#bar'tick:payload`
//! note records, where single characters name kinds, directions and
//! colours. A record that cannot be read stops the decoding.
use std::collections::HashMap;
use vstd::prelude::*;
use crate::metadata::MetadataMap;
use crate::number::{decimal_u32, decimal_u64, is_number_text, parse_digits, parse_within, NumberText};
use crate::text::{
    chars_eq,
    lemma_run,
    lemma_texts,
    lines,
    run,
    scan,
    slice,
    split_lines,
    texts,
    to_chars,
    to_text,
    trim,
    trimmed,
    CharClass,
};

verus! {

broadcast use vstd::std_specs::hash::group_hash_axioms;

/// The kinds of points that follow a note of several segments.
#[derive(Debug, Clone, Copy, PartialEq, Eq, Structural)]
pub enum ChildNoteType {
    HoldEndPoint,
    SlideRelayPoint { lane: u8, width: u8 },
    /// A point whose line is not drawn.
    SlideControlPoint { lane: u8, width: u8 },
    AirHoldRelayPoint,
    /// A point without an air action.
    AirHoldControlPoint,
    AirSlideRelayPoint { lane: u8, width: u8, height: u16 },
    /// A point without an air action.
    AirSlideControlPoint { lane: u8, width: u8, height: u16 },
    AirCrushEndPoint { lane: u8, width: u8, height: u16 },
}

/// A point that follows a note of several segments.
#[derive(Debug, Clone, Copy, PartialEq, Eq, Structural)]
pub struct ChildNote {
    pub note_type: ChildNoteType,
    /// Ticks after the note that the point belongs to.
    pub offset_tick: u64,
}

/// The effect that an ex-tap shows.
#[derive(Debug, Clone, Copy, PartialEq, Eq, Structural)]
pub enum ExTapEffectDirection {
    Up,
    Down,
    Center,
    Clockwise,
    Counterclockwise,
    Right,
    Left,
    InOut,
}

/// The effect that a flick shows.
#[derive(Debug, Clone, Copy, PartialEq, Eq, Structural)]
pub enum FlickEffectDirection {
    Auto,
    Right,
    Left,
}

/// Where an air note sends the player's hand.
#[derive(Debug, Clone, Copy, PartialEq, Eq, Structural)]
pub enum AirDirection {
    Up,
    UpRight,
    UpLeft,
    Down,
    DownRight,
    DownLeft,
}

/// The colour of an air note.
#[derive(Debug, Clone, Copy, PartialEq, Eq, Structural)]
pub enum AirColor {
    Normal,
    Inverted,
}

/// The colour of an air crush.
#[derive(Debug, Clone, Copy, PartialEq, Eq, Structural)]
pub enum AirCrushColor {
    Normal,
    Red,
    Orange,
    Yellow,
    YellowGreen,
    Green,
    Cyan,
    Sky,
    Light,
    Blue,
    BluePurple,
    Magenta,
    Pink,
    White,
    Black,
    Transparent,
}

/// The kinds of notes that a record can hold, each with its geometry.
#[allow(inconsistent_fields)]
#[derive(Debug, PartialEq, Eq)]
pub enum ParentNoteType {
    Click,
    Tap { lane: u8, width: u8 },
    ExTap { lane: u8, width: u8, direction: ExTapEffectDirection },
    Flick { lane: u8, width: u8, direction: FlickEffectDirection },
    Damage { lane: u8, width: u8 },
    Hold { lane: u8, width: u8, children: Vec<ChildNote> },
    Slide { lane: u8, width: u8, children: Vec<ChildNote> },
    Air { lane: u8, width: u8, direction: AirDirection, color: AirColor },
    AirHold { lane: u8, width: u8, color: AirColor, children: Vec<ChildNote> },
    AirSlide { lane: u8, width: u8, height: u16, color: AirColor, children: Vec<ChildNote> },
    AirCrush {
        lane: u8,
        width: u8,
        height: u16,
        color: AirCrushColor,
        interval: Option<NumberText>,
        children: Vec<ChildNote>,
    },
}

/// The mathematical value of a `ParentNoteType`.
#[allow(inconsistent_fields)]
pub enum ParentKind {
    Click,
    Tap { lane: u8, width: u8 },
    ExTap { lane: u8, width: u8, direction: ExTapEffectDirection },
    Flick { lane: u8, width: u8, direction: FlickEffectDirection },
    Damage { lane: u8, width: u8 },
    Hold { lane: u8, width: u8, children: Seq<ChildNote> },
    Slide { lane: u8, width: u8, children: Seq<ChildNote> },
    Air { lane: u8, width: u8, direction: AirDirection, color: AirColor },
    AirHold { lane: u8, width: u8, color: AirColor, children: Seq<ChildNote> },
    AirSlide { lane: u8, width: u8, height: u16, color: AirColor, children: Seq<ChildNote> },
    AirCrush {
        lane: u8,
        width: u8,
        height: u16,
        color: AirCrushColor,
        interval: Option<Seq<char>>,
        children: Seq<ChildNote>,
    },
}

impl View for ParentNoteType {
    type V = ParentKind;

    open spec fn view(&self) -> ParentKind {
        match self {
            ParentNoteType::Click => ParentKind::Click,
            ParentNoteType::Tap { lane, width } => ParentKind::Tap { lane: *lane, width: *width },
            ParentNoteType::ExTap { lane, width, direction } => ParentKind::ExTap {
                lane: *lane,
                width: *width,
                direction: *direction,
            },
            ParentNoteType::Flick { lane, width, direction } => ParentKind::Flick {
                lane: *lane,
                width: *width,
                direction: *direction,
            },
            ParentNoteType::Damage { lane, width } => ParentKind::Damage {
                lane: *lane,
                width: *width,
            },
            ParentNoteType::Hold { lane, width, children } => ParentKind::Hold {
                lane: *lane,
                width: *width,
                children: children@,
            },
            ParentNoteType::Slide { lane, width, children } => ParentKind::Slide {
                lane: *lane,
                width: *width,
                children: children@,
            },
            ParentNoteType::Air { lane, width, direction, color } => ParentKind::Air {
                lane: *lane,
                width: *width,
                direction: *direction,
                color: *color,
            },
            ParentNoteType::AirHold { lane, width, color, children } => ParentKind::AirHold {
                lane: *lane,
                width: *width,
                color: *color,
                children: children@,
            },
            ParentNoteType::AirSlide {
                lane,
                width,
                height,
                color,
                children,
            } => ParentKind::AirSlide {
                lane: *lane,
                width: *width,
                height: *height,
                color: *color,
                children: children@,
            },
            ParentNoteType::AirCrush {
                lane,
                width,
                height,
                color,
                interval,
                children,
            } => ParentKind::AirCrush {
                lane: *lane,
                width: *width,
                height: *height,
                color: *color,
                interval: match interval {
                    Some(n) => Some(n@),
                    None => None,
                },
                children: children@,
            },
        }
    }
}

/// A note with the time at which it stands.
#[derive(Debug, PartialEq, Eq)]
pub struct ParentNote {
    pub note_type: ParentNoteType,
    pub bar: u64,
    pub tick: u64,
}

/// The mathematical value of a `ParentNote`.
pub struct ParentNoteView {
    pub note_type: ParentKind,
    pub bar: u64,
    pub tick: u64,
}

impl View for ParentNote {
    type V = ParentNoteView;

    open spec fn view(&self) -> ParentNoteView {
        ParentNoteView { note_type: self.note_type@, bar: self.bar, tick: self.tick }
    }
}

/// The parts of a record that a failure can name.
#[derive(Debug, Clone, Copy, PartialEq, Eq, Structural)]
pub enum UgcField {
    Payload,
    Bar,
    Tick,
    Kind,
    Lane,
    Width,
    Height,
    Direction,
    Color,
    Interval,
}

/// The failures of the coded dialect.
#[derive(Debug, Clone, Copy, PartialEq, Eq, Structural)]
pub enum UgcError {
    /// The record ends, or lacks a separator, before the named part.
    MissingFields { field: UgcField },
    /// The named part is there but is not the number it has to be.
    InvalidField { field: UgcField },
    /// The character at this position of the payload is no code of the
    /// table that applies there.
    UnknownCode { code: char, position: usize },
    /// The records of child notes are not decoded.
    ChildNotesUnsupported,
}

/// A failure and the line on which decoding stopped, counted from 0.
#[derive(Debug, Clone, Copy, PartialEq, Eq, Structural)]
pub struct UgcFailure {
    pub line: usize,
    pub error: UgcError,
}

/// Bar and tick of a timing `bar'tick`, two unsigned decimal integers.
pub open spec fn timing_of(s: Seq<char>) -> Result<(u64, u64), UgcError> {
    let mark = run(s, CharClass::Not('\''));
    if mark == s.len() {
        Err(UgcError::MissingFields { field: UgcField::Tick })
    } else {
        match decimal_u64(s.take(mark as int)) {
            None => Err(UgcError::InvalidField { field: UgcField::Bar }),
            Some(bar) => match decimal_u64(s.skip((mark + 1) as int)) {
                None => Err(UgcError::InvalidField { field: UgcField::Tick }),
                Some(tick) => Ok((bar, tick)),
            },
        }
    }
}

/// The base-36 number that stands at `data[from..to]`.
pub open spec fn digits_at(data: Seq<char>, from: int, to: int, max: nat, field: UgcField) -> Result<
    nat,
    UgcError,
> {
    if data.len() < to {
        Err(UgcError::MissingFields { field })
    } else {
        match parse_within(data.subrange(from, to), 36, max) {
            Some(v) => Ok(v),
            None => Err(UgcError::InvalidField { field }),
        }
    }
}

/// What the code at a position of the payload means, given the entry that
/// the table in force has for the character there.
pub open spec fn coded<T>(data: Seq<char>, position: int, field: UgcField, entry: Option<T>) -> Result<
    T,
    UgcError,
> {
    if data.len() <= position {
        Err(UgcError::MissingFields { field })
    } else {
        match entry {
            Some(v) => Ok(v),
            None => Err(UgcError::UnknownCode { code: data[position], position: position as usize }),
        }
    }
}

/// The effects of an ex-tap by their codes.
pub open spec fn extap_direction(c: char) -> Option<ExTapEffectDirection> {
    if c == 'U' {
        Some(ExTapEffectDirection::Up)
    } else if c == 'D' {
        Some(ExTapEffectDirection::Down)
    } else if c == 'C' {
        Some(ExTapEffectDirection::Center)
    } else if c == 'A' {
        Some(ExTapEffectDirection::Clockwise)
    } else if c == 'W' {
        Some(ExTapEffectDirection::Counterclockwise)
    } else if c == 'L' {
        Some(ExTapEffectDirection::Right)
    } else if c == 'R' {
        Some(ExTapEffectDirection::Left)
    } else if c == 'I' {
        Some(ExTapEffectDirection::InOut)
    } else {
        None
    }
}

/// The effects of a flick by their codes.
pub open spec fn flick_direction(c: char) -> Option<FlickEffectDirection> {
    if c == 'A' {
        Some(FlickEffectDirection::Auto)
    } else if c == 'L' {
        Some(FlickEffectDirection::Left)
    } else if c == 'R' {
        Some(FlickEffectDirection::Right)
    } else {
        None
    }
}

/// The directions of an air note by their codes of two characters. The
/// codes `L` and `R` name the side crosswise: `UL` is up and to the right.
pub open spec fn air_direction(a: char, b: char) -> Option<AirDirection> {
    if a == 'U' && b == 'C' {
        Some(AirDirection::Up)
    } else if a == 'U' && b == 'L' {
        Some(AirDirection::UpRight)
    } else if a == 'U' && b == 'R' {
        Some(AirDirection::UpLeft)
    } else if a == 'D' && b == 'C' {
        Some(AirDirection::Down)
    } else if a == 'D' && b == 'L' {
        Some(AirDirection::DownRight)
    } else if a == 'D' && b == 'R' {
        Some(AirDirection::DownLeft)
    } else {
        None
    }
}

/// The colours of an air note by their codes.
pub open spec fn air_color(c: char) -> Option<AirColor> {
    if c == 'N' {
        Some(AirColor::Normal)
    } else if c == 'I' {
        Some(AirColor::Inverted)
    } else {
        None
    }
}

/// The colours of an air crush by their codes.
pub open spec fn crush_color(c: char) -> Option<AirCrushColor> {
    if c == '0' {
        Some(AirCrushColor::Normal)
    } else if c == '1' {
        Some(AirCrushColor::Red)
    } else if c == '2' {
        Some(AirCrushColor::Orange)
    } else if c == '3' {
        Some(AirCrushColor::Yellow)
    } else if c == '4' {
        Some(AirCrushColor::YellowGreen)
    } else if c == '5' {
        Some(AirCrushColor::Green)
    } else if c == '6' {
        Some(AirCrushColor::Cyan)
    } else if c == '7' {
        Some(AirCrushColor::Sky)
    } else if c == '8' {
        Some(AirCrushColor::Light)
    } else if c == '9' {
        Some(AirCrushColor::Blue)
    } else if c == 'A' {
        Some(AirCrushColor::BluePurple)
    } else if c == 'Y' {
        Some(AirCrushColor::Magenta)
    } else if c == 'B' {
        Some(AirCrushColor::Pink)
    } else if c == 'C' {
        Some(AirCrushColor::White)
    } else if c == 'D' {
        Some(AirCrushColor::Black)
    } else if c == 'Z' {
        Some(AirCrushColor::Transparent)
    } else {
        None
    }
}

/// The direction of an air note, which stands at the fourth and fifth
/// character of the payload. Where the two are no code, the failure names
/// the first of them that cannot stand where it stands.
pub open spec fn air_direction_at(data: Seq<char>) -> Result<AirDirection, UgcError> {
    if data.len() < 5 {
        Err(UgcError::MissingFields { field: UgcField::Direction })
    } else {
        match air_direction(data[3], data[4]) {
            Some(d) => Ok(d),
            None => if data[3] == 'U' || data[3] == 'D' {
                Err(UgcError::UnknownCode { code: data[4], position: 4 })
            } else {
                Err(UgcError::UnknownCode { code: data[3], position: 3 })
            },
        }
    }
}

/// The interval of an air crush: the number after the first comma of the
/// payload, if the payload has a comma.
pub open spec fn interval_of(data: Seq<char>) -> Result<Option<Seq<char>>, UgcError> {
    let comma = run(data, CharClass::Not(','));
    if comma == data.len() {
        Ok(None)
    } else if is_number_text(data.skip((comma + 1) as int)) {
        Ok(Some(data.skip((comma + 1) as int)))
    } else {
        Err(UgcError::InvalidField { field: UgcField::Interval })
    }
}

/// The characters that name a kind of note.
pub open spec fn is_kind_code(c: char) -> bool {
    c == 'c' || c == 't' || c == 'x' || c == 'f' || c == 'd' || c == 'h' || c == 's' || c == 'a'
        || c == 'H' || c == 'S' || c == 'C'
}

/// The note of a kind that has a lane and a width, from what follows the
/// two in the payload.
pub open spec fn shaped(data: Seq<char>, lane: u8, width: u8) -> Result<ParentKind, UgcError>
    recommends
        data.len() >= 3,
{
    let code = data[0];
    if code == 't' {
        Ok(ParentKind::Tap { lane, width })
    } else if code == 'd' {
        Ok(ParentKind::Damage { lane, width })
    } else if code == 'h' {
        Ok(ParentKind::Hold { lane, width, children: Seq::empty() })
    } else if code == 's' {
        Ok(ParentKind::Slide { lane, width, children: Seq::empty() })
    } else if code == 'x' {
        match coded(data, 3, UgcField::Direction, extap_direction(data[3])) {
            Ok(direction) => Ok(ParentKind::ExTap { lane, width, direction }),
            Err(e) => Err(e),
        }
    } else if code == 'f' {
        match coded(data, 3, UgcField::Direction, flick_direction(data[3])) {
            Ok(direction) => Ok(ParentKind::Flick { lane, width, direction }),
            Err(e) => Err(e),
        }
    } else if code == 'a' {
        match air_direction_at(data) {
            Err(e) => Err(e),
            Ok(direction) => match coded(data, 5, UgcField::Color, air_color(data[5])) {
                Ok(color) => Ok(ParentKind::Air { lane, width, direction, color }),
                Err(e) => Err(e),
            },
        }
    } else if code == 'H' {
        match coded(data, 3, UgcField::Color, air_color(data[3])) {
            Ok(color) => Ok(ParentKind::AirHold { lane, width, color, children: Seq::empty() }),
            Err(e) => Err(e),
        }
    } else if code == 'S' {
        match digits_at(data, 3, 5, u16::MAX as nat, UgcField::Height) {
            Err(e) => Err(e),
            Ok(height) => match coded(data, 5, UgcField::Color, air_color(data[5])) {
                Ok(color) => Ok(
                    ParentKind::AirSlide {
                        lane,
                        width,
                        height: height as u16,
                        color,
                        children: Seq::empty(),
                    },
                ),
                Err(e) => Err(e),
            },
        }
    } else {
        match digits_at(data, 3, 5, u16::MAX as nat, UgcField::Height) {
            Err(e) => Err(e),
            Ok(height) => match coded(data, 5, UgcField::Color, crush_color(data[5])) {
                Err(e) => Err(e),
                Ok(color) => match interval_of(data) {
                    Err(e) => Err(e),
                    Ok(interval) => Ok(
                        ParentKind::AirCrush {
                            lane,
                            width,
                            height: height as u16,
                            color,
                            interval,
                            children: Seq::empty(),
                        },
                    ),
                },
            },
        }
    }
}

/// The note that a payload denotes. Its first character names the kind;
/// lane and width follow as one base-36 digit each, except for a click,
/// which has neither; then comes what the kind asks for. The parts are
/// read from left to right and the first that fails is reported. Whatever
/// follows the last part is not looked at. A note of several segments
/// comes without its child notes.
pub open spec fn parent_kind(data: Seq<char>) -> Result<ParentKind, UgcError> {
    if data.len() == 0 {
        Err(UgcError::MissingFields { field: UgcField::Kind })
    } else if !is_kind_code(data[0]) {
        Err(UgcError::UnknownCode { code: data[0], position: 0 })
    } else if data[0] == 'c' {
        Ok(ParentKind::Click)
    } else {
        match digits_at(data, 1, 2, u8::MAX as nat, UgcField::Lane) {
            Err(e) => Err(e),
            Ok(lane) => match digits_at(data, 2, 3, u8::MAX as nat, UgcField::Width) {
                Err(e) => Err(e),
                Ok(width) => shaped(data, lane as u8, width as u8),
            },
        }
    }
}

/// The note that a record `bar'tick:payload` denotes.
pub open spec fn parent_note(line: Seq<char>) -> Result<ParentNoteView, UgcError> {
    let colon = run(line, CharClass::Not(':'));
    if colon == line.len() {
        Err(UgcError::MissingFields { field: UgcField::Payload })
    } else {
        match timing_of(line.take(colon as int)) {
            Err(e) => Err(e),
            Ok(at) => match parent_kind(line.skip((colon + 1) as int)) {
                Err(e) => Err(e),
                Ok(kind) => Ok(ParentNoteView { note_type: kind, bar: at.0, tick: at.1 }),
            },
        }
    }
}

/// A failure over a code is located: the character that it names stands
/// in the payload at the position that it names.
pub proof fn lemma_unknown_code_is_located(data: Seq<char>)
    requires
        parent_kind(data) matches Err(UgcError::UnknownCode { .. }),
    ensures
        parent_kind(data) matches Err(UgcError::UnknownCode { code, position }) && position
            < data.len() && data[position as int] == code,
{
}

/// A note that was read stands at the time that its record names, and a
/// note of several segments comes without child notes.
pub proof fn lemma_note_stands_at_its_timing(line: Seq<char>)
    requires
        parent_note(line) is Ok,
    ensures
        ({
            let note = parent_note(line)->Ok_0;
            let colon = run(line, CharClass::Not(':'));
            &&& colon < line.len()
            &&& timing_of(line.take(colon as int)) == Ok::<(u64, u64), UgcError>(
                (note.bar, note.tick),
            )
            &&& match note.note_type {
                ParentKind::Hold { children, .. } => children.len() == 0,
                ParentKind::Slide { children, .. } => children.len() == 0,
                ParentKind::AirHold { children, .. } => children.len() == 0,
                ParentKind::AirSlide { children, .. } => children.len() == 0,
                ParentKind::AirCrush { children, .. } => children.len() == 0,
                _ => true,
            }
        }),
{
    lemma_run(line, CharClass::Not(':'));
}

fn timing_of_chars(cs: &Vec<char>) -> (r: Result<(u64, u64), UgcError>)
    ensures
        r == timing_of(cs@),
{
    let n = cs.len();
    let mark = scan(cs, 0, n, CharClass::Not('\''));
    proof {
        assert(cs@.subrange(0, n as int) =~= cs@);
    }
    if mark == n {
        return Err(UgcError::MissingFields { field: UgcField::Tick });
    }
    proof {
        assert(cs@.subrange(0, mark as int) =~= cs@.take(mark as int));
        assert(cs@.subrange(mark + 1, n as int) =~= cs@.skip(mark + 1));
    }
    let bar = match parse_digits(cs, 0, mark, 10, 0xffff_ffff_ffff_ffff) {
        Some(v) => v,
        None => {
            return Err(UgcError::InvalidField { field: UgcField::Bar });
        },
    };
    let tick = match parse_digits(cs, mark + 1, n, 10, 0xffff_ffff_ffff_ffff) {
        Some(v) => v,
        None => {
            return Err(UgcError::InvalidField { field: UgcField::Tick });
        },
    };
    Ok((bar, tick))
}

/// Bar and tick of a timing `bar'tick`.
pub fn parse_timing(string: &str) -> (r: Result<(u64, u64), UgcError>)
    ensures
        r == timing_of(string@),
{
    let cs = to_chars(string);
    timing_of_chars(&cs)
}

fn digits_field(data: &Vec<char>, from: usize, to: usize, max: u64, field: UgcField) -> (r: Result<
    u64,
    UgcError,
>)
    requires
        from <= to,
    ensures
        match r {
            Ok(v) => digits_at(data@, from as int, to as int, max as nat, field) == Ok::<
                nat,
                UgcError,
            >(v as nat) && v <= max,
            Err(e) => digits_at(data@, from as int, to as int, max as nat, field) == Err::<
                nat,
                UgcError,
            >(e),
        },
{
    if data.len() < to {
        return Err(UgcError::MissingFields { field });
    }
    match parse_digits(data, from, to, 36, max) {
        Some(v) => Ok(v),
        None => Err(UgcError::InvalidField { field }),
    }
}

fn extap_direction_of(c: char) -> (r: Option<ExTapEffectDirection>)
    ensures
        r == extap_direction(c),
{
    if c == 'U' {
        Some(ExTapEffectDirection::Up)
    } else if c == 'D' {
        Some(ExTapEffectDirection::Down)
    } else if c == 'C' {
        Some(ExTapEffectDirection::Center)
    } else if c == 'A' {
        Some(ExTapEffectDirection::Clockwise)
    } else if c == 'W' {
        Some(ExTapEffectDirection::Counterclockwise)
    } else if c == 'L' {
        Some(ExTapEffectDirection::Right)
    } else if c == 'R' {
        Some(ExTapEffectDirection::Left)
    } else if c == 'I' {
        Some(ExTapEffectDirection::InOut)
    } else {
        None
    }
}

fn flick_direction_of(c: char) -> (r: Option<FlickEffectDirection>)
    ensures
        r == flick_direction(c),
{
    if c == 'A' {
        Some(FlickEffectDirection::Auto)
    } else if c == 'L' {
        Some(FlickEffectDirection::Left)
    } else if c == 'R' {
        Some(FlickEffectDirection::Right)
    } else {
        None
    }
}

fn air_direction_of(a: char, b: char) -> (r: Option<AirDirection>)
    ensures
        r == air_direction(a, b),
{
    if a == 'U' && b == 'C' {
        Some(AirDirection::Up)
    } else if a == 'U' && b == 'L' {
        Some(AirDirection::UpRight)
    } else if a == 'U' && b == 'R' {
        Some(AirDirection::UpLeft)
    } else if a == 'D' && b == 'C' {
        Some(AirDirection::Down)
    } else if a == 'D' && b == 'L' {
        Some(AirDirection::DownRight)
    } else if a == 'D' && b == 'R' {
        Some(AirDirection::DownLeft)
    } else {
        None
    }
}

fn air_color_of(c: char) -> (r: Option<AirColor>)
    ensures
        r == air_color(c),
{
    if c == 'N' {
        Some(AirColor::Normal)
    } else if c == 'I' {
        Some(AirColor::Inverted)
    } else {
        None
    }
}

fn crush_color_of(c: char) -> (r: Option<AirCrushColor>)
    ensures
        r == crush_color(c),
{
    if c == '0' {
        Some(AirCrushColor::Normal)
    } else if c == '1' {
        Some(AirCrushColor::Red)
    } else if c == '2' {
        Some(AirCrushColor::Orange)
    } else if c == '3' {
        Some(AirCrushColor::Yellow)
    } else if c == '4' {
        Some(AirCrushColor::YellowGreen)
    } else if c == '5' {
        Some(AirCrushColor::Green)
    } else if c == '6' {
        Some(AirCrushColor::Cyan)
    } else if c == '7' {
        Some(AirCrushColor::Sky)
    } else if c == '8' {
        Some(AirCrushColor::Light)
    } else if c == '9' {
        Some(AirCrushColor::Blue)
    } else if c == 'A' {
        Some(AirCrushColor::BluePurple)
    } else if c == 'Y' {
        Some(AirCrushColor::Magenta)
    } else if c == 'B' {
        Some(AirCrushColor::Pink)
    } else if c == 'C' {
        Some(AirCrushColor::White)
    } else if c == 'D' {
        Some(AirCrushColor::Black)
    } else if c == 'Z' {
        Some(AirCrushColor::Transparent)
    } else {
        None
    }
}

fn code_at<T>(data: &Vec<char>, position: usize, field: UgcField, entry: Option<T>) -> (r: Result<
    T,
    UgcError,
>)
    ensures
        r == coded(data@, position as int, field, entry),
{
    if data.len() <= position {
        return Err(UgcError::MissingFields { field });
    }
    match entry {
        Some(v) => Ok(v),
        None => Err(UgcError::UnknownCode { code: data[position], position }),
    }
}

/// The character at a position, or a blank where the payload has ended.
fn peek(data: &Vec<char>, position: usize) -> (c: char)
    ensures
        position < data.len() ==> c == data@[position as int],
{
    if position < data.len() {
        data[position]
    } else {
        ' '
    }
}

fn air_direction_in(data: &Vec<char>) -> (r: Result<AirDirection, UgcError>)
    ensures
        r == air_direction_at(data@),
{
    if data.len() < 5 {
        return Err(UgcError::MissingFields { field: UgcField::Direction });
    }
    match air_direction_of(data[3], data[4]) {
        Some(d) => Ok(d),
        None => if data[3] == 'U' || data[3] == 'D' {
            Err(UgcError::UnknownCode { code: data[4], position: 4 })
        } else {
            Err(UgcError::UnknownCode { code: data[3], position: 3 })
        },
    }
}

fn interval_in(data: &Vec<char>) -> (r: Result<Option<NumberText>, UgcError>)
    ensures
        match r {
            Ok(Some(n)) => interval_of(data@) == Ok::<Option<Seq<char>>, UgcError>(Some(n@)),
            Ok(None) => interval_of(data@) == Ok::<Option<Seq<char>>, UgcError>(None),
            Err(e) => interval_of(data@) == Err::<Option<Seq<char>>, UgcError>(e),
        },
{
    let n = data.len();
    let comma = scan(data, 0, n, CharClass::Not(','));
    proof {
        assert(data@.subrange(0, n as int) =~= data@);
    }
    if comma == n {
        return Ok(None);
    }
    let rest = slice(data, comma + 1, n);
    proof {
        assert(data@.subrange(comma + 1, n as int) =~= data@.skip(comma + 1));
    }
    match NumberText::from_chars(&rest) {
        Some(interval) => Ok(Some(interval)),
        None => Err(UgcError::InvalidField { field: UgcField::Interval }),
    }
}

/// The view of what reading a payload gave.
pub open spec fn kind_view(r: Result<ParentNoteType, UgcError>) -> Result<ParentKind, UgcError> {
    match r {
        Ok(kind) => Ok(kind@),
        Err(e) => Err(e),
    }
}

/// The view of what reading a record gave.
pub open spec fn note_view(r: Result<ParentNote, UgcError>) -> Result<ParentNoteView, UgcError> {
    match r {
        Ok(note) => Ok(note@),
        Err(e) => Err(e),
    }
}

fn shaped_in(data: &Vec<char>, lane: u8, width: u8) -> (r: Result<ParentNoteType, UgcError>)
    requires
        data.len() >= 3,
        is_kind_code(data@[0]),
        data@[0] != 'c',
    ensures
        kind_view(r) == shaped(data@, lane, width),
{
    let code = data[0];
    if code == 't' {
        Ok(ParentNoteType::Tap { lane, width })
    } else if code == 'd' {
        Ok(ParentNoteType::Damage { lane, width })
    } else if code == 'h' {
        Ok(ParentNoteType::Hold { lane, width, children: Vec::new() })
    } else if code == 's' {
        Ok(ParentNoteType::Slide { lane, width, children: Vec::new() })
    } else if code == 'x' {
        let direction = code_at(data, 3, UgcField::Direction, extap_direction_of(peek(data, 3)))?;
        Ok(ParentNoteType::ExTap { lane, width, direction })
    } else if code == 'f' {
        let direction = code_at(data, 3, UgcField::Direction, flick_direction_of(peek(data, 3)))?;
        Ok(ParentNoteType::Flick { lane, width, direction })
    } else if code == 'a' {
        let direction = air_direction_in(data)?;
        let color = code_at(data, 5, UgcField::Color, air_color_of(peek(data, 5)))?;
        Ok(ParentNoteType::Air { lane, width, direction, color })
    } else if code == 'H' {
        let color = code_at(data, 3, UgcField::Color, air_color_of(peek(data, 3)))?;
        Ok(ParentNoteType::AirHold { lane, width, color, children: Vec::new() })
    } else if code == 'S' {
        let height = digits_field(data, 3, 5, 0xffff, UgcField::Height)?;
        let color = code_at(data, 5, UgcField::Color, air_color_of(peek(data, 5)))?;
        Ok(
            ParentNoteType::AirSlide {
                lane,
                width,
                height: height as u16,
                color,
                children: Vec::new(),
            },
        )
    } else {
        let height = digits_field(data, 3, 5, 0xffff, UgcField::Height)?;
        let color = code_at(data, 5, UgcField::Color, crush_color_of(peek(data, 5)))?;
        let interval = interval_in(data)?;
        Ok(
            ParentNoteType::AirCrush {
                lane,
                width,
                height: height as u16,
                color,
                interval,
                children: Vec::new(),
            },
        )
    }
}

fn is_kind(c: char) -> (r: bool)
    ensures
        r == is_kind_code(c),
{
    c == 'c' || c == 't' || c == 'x' || c == 'f' || c == 'd' || c == 'h' || c == 's' || c == 'a'
        || c == 'H' || c == 'S' || c == 'C'
}

fn parent_kind_in(data: &Vec<char>) -> (r: Result<ParentNoteType, UgcError>)
    ensures
        kind_view(r) == parent_kind(data@),
{
    if data.len() == 0 {
        return Err(UgcError::MissingFields { field: UgcField::Kind });
    }
    if !is_kind(data[0]) {
        return Err(UgcError::UnknownCode { code: data[0], position: 0 });
    }
    if data[0] == 'c' {
        return Ok(ParentNoteType::Click);
    }
    let lane = digits_field(data, 1, 2, 0xff, UgcField::Lane)?;
    let width = digits_field(data, 2, 3, 0xff, UgcField::Width)?;
    shaped_in(data, lane as u8, width as u8)
}

fn parent_note_in(cs: &Vec<char>) -> (r: Result<ParentNote, UgcError>)
    ensures
        note_view(r) == parent_note(cs@),
{
    let n = cs.len();
    let colon = scan(cs, 0, n, CharClass::Not(':'));
    proof {
        assert(cs@.subrange(0, n as int) =~= cs@);
    }
    if colon == n {
        return Err(UgcError::MissingFields { field: UgcField::Payload });
    }
    let timing = slice(cs, 0, colon);
    let data = slice(cs, colon + 1, n);
    proof {
        assert(cs@.subrange(0, colon as int) =~= cs@.take(colon as int));
        assert(cs@.subrange(colon + 1, n as int) =~= cs@.skip(colon + 1));
    }
    let (bar, tick) = timing_of_chars(&timing)?;
    let note_type = parent_kind_in(&data)?;
    Ok(ParentNote { note_type, bar, tick })
}

/// Reads a note record `bar'tick:payload`, without the `#` that opens its
/// line.
pub fn parse_parent_note(line: &str) -> (r: Result<ParentNote, UgcError>)
    ensures
        note_view(r) == parent_note(line@),
{
    let cs = to_chars(line);
    parent_note_in(&cs)
}

/// Child notes are not decoded: every record of one is refused.
pub fn parse_child_note(line: &str) -> (r: Result<ChildNote, UgcError>)
    ensures
        r == Err::<ChildNote, UgcError>(UgcError::ChildNotesUnsupported),
{
    Err(UgcError::ChildNotesUnsupported)
}

/// A chart of the coded dialect.
#[derive(Debug)]
pub struct UGCChart {
    /// The declarations by their keys; of two with one key the later
    /// counts.
    pub metadata: MetadataMap,
    /// The notes of each timeline, in the order of their records.
    pub timelines: HashMap<u32, Vec<ParentNote>>,
}

/// The mathematical value of a `UGCChart`.
pub struct UgcChartView {
    pub metadata: Map<Seq<char>, Seq<char>>,
    pub timelines: Map<u32, Seq<ParentNoteView>>,
}

/// The views of the notes of a timeline.
pub open spec fn notes_view(notes: Vec<ParentNote>) -> Seq<ParentNoteView> {
    notes@.map_values(|n: ParentNote| n@)
}

impl View for UGCChart {
    type V = UgcChartView;

    open spec fn view(&self) -> UgcChartView {
        UgcChartView {
            metadata: self.metadata@,
            timelines: self.timelines@.map_values(|notes: Vec<ParentNote>| notes_view(notes)),
        }
    }
}

/// A chart while it is decoded: what was read so far, and the timeline
/// under which the next note is filed.
pub struct UgcState {
    pub chart: UgcChartView,
    pub timeline: u32,
}

/// The timelines after a note was filed under one of them, behind the
/// notes that the timeline had.
pub open spec fn filed(
    timelines: Map<u32, Seq<ParentNoteView>>,
    id: u32,
    note: ParentNoteView,
) -> Map<u32, Seq<ParentNoteView>> {
    timelines.insert(
        id,
        if timelines.contains_key(id) {
            timelines[id].push(note)
        } else {
            seq![note]
        },
    )
}

/// Where decoding stands before the first line: nothing declared, no note,
/// timeline 0.
pub open spec fn initial_state() -> UgcState {
    UgcState {
        chart: UgcChartView { metadata: Map::empty(), timelines: Map::empty() },
        timeline: 0,
    }
}

/// Where decoding stands after one more line. The line is trimmed. A line
/// that opens with `@` declares: its key runs to the first blank, its value
/// is all that follows the blank. `USETIL` with an unsigned integer makes
/// that the timeline for the notes to come, and with anything else changes
/// nothing; any other key is entered with its value. A line that opens with
/// `#` is a note record: its note is filed under the timeline in force, and
/// a record that denotes no note is a failure. Any other line is passed
/// over.
pub open spec fn line_step(st: UgcState, line: Seq<char>) -> Result<UgcState, UgcError> {
    let t = trim(line);
    if t.len() == 0 {
        Ok(st)
    } else if t[0] == '@' {
        let blank = run(t, CharClass::Not(' '));
        let key = t.subrange(1, blank as int);
        let rest = if blank < t.len() {
            t.skip((blank + 1) as int)
        } else {
            Seq::empty()
        };
        if key == "USETIL"@ {
            match decimal_u32(rest) {
                Some(id) => Ok(UgcState { chart: st.chart, timeline: id }),
                None => Ok(st),
            }
        } else {
            Ok(
                UgcState {
                    chart: UgcChartView {
                        metadata: st.chart.metadata.insert(key, rest),
                        timelines: st.chart.timelines,
                    },
                    timeline: st.timeline,
                },
            )
        }
    } else if t[0] == '#' {
        match parent_note(t.drop_first()) {
            Ok(note) => Ok(
                UgcState {
                    chart: UgcChartView {
                        metadata: st.chart.metadata,
                        timelines: filed(st.chart.timelines, st.timeline, note),
                    },
                    timeline: st.timeline,
                },
            ),
            Err(e) => Err(e),
        }
    } else {
        Ok(st)
    }
}

/// Where decoding stands after a sequence of lines, or the first failure
/// with the index of its line.
pub open spec fn ugc_decoded(lines: Seq<Seq<char>>) -> Result<UgcState, UgcFailure>
    decreases lines.len(),
{
    if lines.len() == 0 {
        Ok(initial_state())
    } else {
        match ugc_decoded(lines.drop_last()) {
            Err(failure) => Err(failure),
            Ok(st) => match line_step(st, lines.last()) {
                Ok(next) => Ok(next),
                Err(error) => Err(UgcFailure { line: (lines.len() - 1) as usize, error }),
            },
        }
    }
}

/// Decoding stops at the first failure: once a prefix of the lines has
/// failed, the lines after it change nothing.
pub proof fn lemma_failure_is_final(lines: Seq<Seq<char>>, k: int)
    requires
        0 <= k <= lines.len(),
        ugc_decoded(lines.take(k)) is Err,
    ensures
        ugc_decoded(lines) == ugc_decoded(lines.take(k)),
    decreases lines.len() - k,
{
    if k == lines.len() {
        assert(lines.take(k) =~= lines);
    } else {
        assert(lines.drop_last().take(k) =~= lines.take(k));
        lemma_failure_is_final(lines.drop_last(), k);
    }
}

fn file_note(timelines: &mut HashMap<u32, Vec<ParentNote>>, id: u32, note: ParentNote)
    ensures
        final(timelines)@.map_values(|notes: Vec<ParentNote>| notes_view(notes)) == filed(
            old(timelines)@.map_values(|notes: Vec<ParentNote>| notes_view(notes)),
            id,
            note@,
        ),
{
    let ghost before = timelines@;
    let ghost views = |notes: Vec<ParentNote>| notes_view(notes);
    let removed = timelines.remove(&id);
    proof {
        assert(timelines@ == before.remove(id));
    }
    let mut notes = match removed {
        Some(notes) => {
            assert(before.contains_key(id) && before[id] == notes);
            notes
        },
        None => {
            assert(!before.contains_key(id));
            Vec::new()
        },
    };
    let ghost had = notes;
    notes.push(note);
    let ghost now = notes;
    timelines.insert(id, notes);
    proof {
        let after = timelines@;
        assert(after == before.remove(id).insert(id, now));
        assert(notes_view(now) =~= notes_view(had).push(note@));
        assert(notes_view(had).push(note@) == filed(before.map_values(views), id, note@)[id]) by {
            if !before.contains_key(id) {
                assert(notes_view(had) =~= Seq::<ParentNoteView>::empty());
                assert(notes_view(had).push(note@) =~= seq![note@]);
            }
        }
        assert forall|k: u32| #[trigger]
            after.map_values(views).contains_key(k) implies after.map_values(views)[k] == filed(
            before.map_values(views),
            id,
            note@,
        )[k] by {
            if k != id {
                assert(after[k] == before[k]);
            }
        }
        assert(after.map_values(views) =~= filed(before.map_values(views), id, note@));
    }
}

impl UGCChart {
    /// The chart without lines.
    pub fn new() -> (r: UGCChart)
        ensures
            r@ == initial_state().chart,
    {
        let r = UGCChart { metadata: MetadataMap::new(), timelines: HashMap::new() };
        assert(r@.timelines =~= Map::<u32, Seq<ParentNoteView>>::empty());
        r
    }

    /// Takes in one more line, with `timeline` as the timeline in force, and
    /// returns the timeline that is in force after the line. A failure
    /// leaves the chart as it was.
    pub fn apply_line(&mut self, timeline: u32, line: &str) -> (r: Result<u32, UgcError>)
        ensures
            match r {
                Ok(next) => line_step(UgcState { chart: old(self)@, timeline }, line@) == Ok::<
                    UgcState,
                    UgcError,
                >(UgcState { chart: final(self)@, timeline: next }),
                Err(e) => line_step(UgcState { chart: old(self)@, timeline }, line@) == Err::<
                    UgcState,
                    UgcError,
                >(e) && final(self)@ == old(self)@,
            },
    {
        let cs = to_chars(line);
        let t = trimmed(&cs, 0, cs.len());
        proof {
            assert(cs@.subrange(0, cs.len() as int) =~= cs@);
        }
        let n = t.len();
        if n == 0 {
            return Ok(timeline);
        }
        if t[0] == '@' {
            let blank = scan(&t, 0, n, CharClass::Not(' '));
            proof {
                assert(t@.subrange(0, n as int) =~= t@);
                assert(blank >= 1);
            }
            let key = slice(&t, 1, blank);
            let rest = if blank < n {
                slice(&t, blank + 1, n)
            } else {
                Vec::new()
            };
            proof {
                if blank < n {
                    assert(t@.subrange(blank + 1, n as int) =~= t@.skip(blank + 1));
                }
                assert(rest@.subrange(0, rest.len() as int) =~= rest@);
                assert(key@.subrange(0, key.len() as int) =~= key@);
            }
            if chars_eq(&key, "USETIL") {
                match parse_digits(&rest, 0, rest.len(), 10, 0xffff_ffff) {
                    Some(id) => {
                        return Ok(id as u32);
                    },
                    None => {
                        return Ok(timeline);
                    },
                }
            }
            self.metadata.insert(to_text(&key, 0, key.len()), to_text(&rest, 0, rest.len()));
            return Ok(timeline);
        }
        if t[0] == '#' {
            let record = slice(&t, 1, n);
            proof {
                assert(t@.subrange(1, n as int) =~= t@.drop_first());
            }
            let note = parent_note_in(&record)?;
            file_note(&mut self.timelines, timeline, note);
            return Ok(timeline);
        }
        Ok(timeline)
    }

    /// Decodes a whole chart, or stops at the first record that denotes no
    /// note.
    pub fn from_string(content: &str) -> (r: Result<UGCChart, UgcFailure>)
        ensures
            match r {
                Ok(chart) => ugc_decoded(lines(content@)) matches Ok(st) && st.chart == chart@,
                Err(failure) => ugc_decoded(lines(content@)) == Err::<UgcState, UgcFailure>(
                    failure,
                ),
            },
    {
        let all = split_lines(content);
        let mut chart = UGCChart::new();
        let mut timeline: u32 = 0;
        let mut i: usize = 0;
        proof {
            lemma_texts(all@);
            assert(texts(all@).take(0) =~= Seq::<Seq<char>>::empty());
        }
        while i < all.len()
            invariant
                i <= all.len(),
                texts(all@) == lines(content@),
                ugc_decoded(texts(all@).take(i as int)) == Ok::<UgcState, UgcFailure>(
                    UgcState { chart: chart@, timeline },
                ),
            decreases all.len() - i,
        {
            proof {
                lemma_texts(all@);
                assert(texts(all@).take(i + 1).drop_last() =~= texts(all@).take(i as int));
            }
            match chart.apply_line(timeline, all[i].as_str()) {
                Ok(next) => {
                    timeline = next;
                },
                Err(error) => {
                    proof {
                        lemma_failure_is_final(texts(all@), i + 1);
                    }
                    return Err(UgcFailure { line: i, error });
                },
            }
            i += 1;
        }
        proof {
            assert(texts(all@).take(all.len() as int) =~= texts(all@));
        }
        Ok(chart)
    }
}

} // verus!
