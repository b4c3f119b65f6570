//! The packed dialect: lines that open with `#`, a header, and, after a
//! colon, a payload. Every line is classified; none is refused.
use vstd::prelude::*;
use crate::kind::{ChuniNoteType, NoteKind};
use crate::metadata::MetadataMap;
use crate::number::{
    all_digits,
    digit,
    digit_of,
    digits_value,
    is_digit,
    is_number_text,
    numeral,
    push_numeral,
    NumberText,
};
use crate::text::{
    chars_eq,
    has_prefix,
    lemma_texts,
    lines,
    run,
    scan,
    slice,
    split_lines,
    texts,
    to_chars,
    to_text,
    trim,
    trimmed,
    CharClass,
};

verus! {

/// A note that a packed line spells out.
#[derive(Debug, Clone, PartialEq, Eq)]
pub struct Note {
    /// Lane of the note, a base-36 digit.
    pub lane: u8,
    /// Position inside the measure.
    pub tick: u32,
    /// Kind of the note.
    pub note_type: ChuniNoteType,
    /// Width of the note, a base-36 digit.
    pub width: u8,
}

/// The mathematical value of a `Note`.
pub struct NoteView {
    pub lane: u8,
    pub tick: u32,
    pub note_type: NoteKind,
    pub width: u8,
}

impl View for Note {
    type V = NoteView;

    open spec fn view(&self) -> NoteView {
        NoteView { lane: self.lane, tick: self.tick, note_type: self.note_type@, width: self.width }
    }
}

/// One classified line.
#[derive(Debug, Clone, PartialEq, Eq)]
pub enum SusLine {
    /// `#KEY value`: a declaration.
    Metadata { key: String, value: String },
    /// A line that does not open with `#`, or an empty line.
    Comment { content: String },
    /// A packed line whose payload is long enough to spell a note.
    Note(Note),
    /// `#BPMxx: value`: an entry of the tempo table.
    BpmDefinition { id: String, bpm: NumberText },
    /// `#ATRxx: value`: an entry of the attribute table.
    AttributeDefinition { id: String, attributes: String },
    /// `#TILxx: value`: an entry of the speed table.
    HiSpeedDefinition { id: String, definition: String },
    /// `#mmm02: value`: the length of a measure.
    MeasureLength { measure: u32, length: NumberText },
    /// `#mmm08: value`: a change of tempo, by reference into the tempo table.
    BpmChange { measure: u32, lane: u8, data: String },
    /// `#mmm1x: payload`: taps.
    TapNotes { measure: u32, lane: u8, data: String },
    /// `#mmm2xy: payload`: holds.
    HoldNotes { measure: u32, lane: u8, channel: u8, data: String },
    /// `#mmm3xy: payload` or `#mmm4xy: payload`: slides of one of two kinds.
    SlideNotes { measure: u32, slide_type: u8, lane: u8, channel: u8, data: String },
    /// `#mmm5x: payload`: directional notes.
    DirectionalNotes { measure: u32, lane: u8, data: String },
    /// A line with a colon that has none of the known shapes.
    Unknown { content: String },
}

/// The mathematical value of a `SusLine`.
pub enum SusLineView {
    Metadata { key: Seq<char>, value: Seq<char> },
    Comment { content: Seq<char> },
    Note(NoteView),
    BpmDefinition { id: Seq<char>, bpm: Seq<char> },
    AttributeDefinition { id: Seq<char>, attributes: Seq<char> },
    HiSpeedDefinition { id: Seq<char>, definition: Seq<char> },
    MeasureLength { measure: u32, length: Seq<char> },
    BpmChange { measure: u32, lane: u8, data: Seq<char> },
    TapNotes { measure: u32, lane: u8, data: Seq<char> },
    HoldNotes { measure: u32, lane: u8, channel: u8, data: Seq<char> },
    SlideNotes { measure: u32, slide_type: u8, lane: u8, channel: u8, data: Seq<char> },
    DirectionalNotes { measure: u32, lane: u8, data: Seq<char> },
    Unknown { content: Seq<char> },
}

impl View for SusLine {
    type V = SusLineView;

    open spec fn view(&self) -> SusLineView {
        match self {
            SusLine::Metadata { key, value } => SusLineView::Metadata { key: key@, value: value@ },
            SusLine::Comment { content } => SusLineView::Comment { content: content@ },
            SusLine::Note(note) => SusLineView::Note(note@),
            SusLine::BpmDefinition { id, bpm } => SusLineView::BpmDefinition { id: id@, bpm: bpm@ },
            SusLine::AttributeDefinition { id, attributes } => SusLineView::AttributeDefinition {
                id: id@,
                attributes: attributes@,
            },
            SusLine::HiSpeedDefinition { id, definition } => SusLineView::HiSpeedDefinition {
                id: id@,
                definition: definition@,
            },
            SusLine::MeasureLength { measure, length } => SusLineView::MeasureLength {
                measure: *measure,
                length: length@,
            },
            SusLine::BpmChange { measure, lane, data } => SusLineView::BpmChange {
                measure: *measure,
                lane: *lane,
                data: data@,
            },
            SusLine::TapNotes { measure, lane, data } => SusLineView::TapNotes {
                measure: *measure,
                lane: *lane,
                data: data@,
            },
            SusLine::HoldNotes { measure, lane, channel, data } => SusLineView::HoldNotes {
                measure: *measure,
                lane: *lane,
                channel: *channel,
                data: data@,
            },
            SusLine::SlideNotes {
                measure,
                slide_type,
                lane,
                channel,
                data,
            } => SusLineView::SlideNotes {
                measure: *measure,
                slide_type: *slide_type,
                lane: *lane,
                channel: *channel,
                data: data@,
            },
            SusLine::DirectionalNotes { measure, lane, data } => SusLineView::DirectionalNotes {
                measure: *measure,
                lane: *lane,
                data: data@,
            },
            SusLine::Unknown { content } => SusLineView::Unknown { content: content@ },
        }
    }
}

impl SusLine {
    /// A declaration.
    pub fn metadata(key: &str, value: &str) -> (r: SusLine)
        ensures
            r@ == (SusLineView::Metadata { key: key@, value: value@ }),
    {
        SusLine::Metadata { key: key.to_string(), value: value.to_string() }
    }

    /// A comment.
    pub fn comment(content: &str) -> (r: SusLine)
        ensures
            r@ == (SusLineView::Comment { content: content@ }),
    {
        SusLine::Comment { content: content.to_string() }
    }

    /// A note.
    pub fn note(note: Note) -> (r: SusLine)
        ensures
            r@ == SusLineView::Note(note@),
    {
        SusLine::Note(note)
    }

    /// A line of taps.
    pub fn tap_notes(measure: u32, lane: u8, data: &str) -> (r: SusLine)
        ensures
            r@ == (SusLineView::TapNotes { measure, lane, data: data@ }),
    {
        SusLine::TapNotes { measure, lane, data: data.to_string() }
    }

    /// A line of holds.
    pub fn hold_notes(measure: u32, lane: u8, channel: u8, data: &str) -> (r: SusLine)
        ensures
            r@ == (SusLineView::HoldNotes { measure, lane, channel, data: data@ }),
    {
        SusLine::HoldNotes { measure, lane, channel, data: data.to_string() }
    }

    /// A line of slides.
    pub fn slide_notes(measure: u32, slide_type: u8, lane: u8, channel: u8, data: &str) -> (r:
        SusLine)
        ensures
            r@ == (SusLineView::SlideNotes { measure, slide_type, lane, channel, data: data@ }),
    {
        SusLine::SlideNotes { measure, slide_type, lane, channel, data: data.to_string() }
    }

    /// A line of directional notes.
    pub fn directional_notes(measure: u32, lane: u8, data: &str) -> (r: SusLine)
        ensures
            r@ == (SusLineView::DirectionalNotes { measure, lane, data: data@ }),
    {
        SusLine::DirectionalNotes { measure, lane, data: data.to_string() }
    }

    /// An entry of the tempo table.
    pub fn bpm_definition(id: &str, bpm: NumberText) -> (r: SusLine)
        ensures
            r@ == (SusLineView::BpmDefinition { id: id@, bpm: bpm@ }),
    {
        SusLine::BpmDefinition { id: id.to_string(), bpm }
    }

    /// An entry of the attribute table.
    pub fn attribute_definition(id: &str, attributes: &str) -> (r: SusLine)
        ensures
            r@ == (SusLineView::AttributeDefinition { id: id@, attributes: attributes@ }),
    {
        SusLine::AttributeDefinition { id: id.to_string(), attributes: attributes.to_string() }
    }

    /// An entry of the speed table.
    pub fn hi_speed_definition(id: &str, definition: &str) -> (r: SusLine)
        ensures
            r@ == (SusLineView::HiSpeedDefinition { id: id@, definition: definition@ }),
    {
        SusLine::HiSpeedDefinition { id: id.to_string(), definition: definition.to_string() }
    }

    /// The length of a measure.
    pub fn measure_length(measure: u32, length: NumberText) -> (r: SusLine)
        ensures
            r@ == (SusLineView::MeasureLength { measure, length: length@ }),
    {
        SusLine::MeasureLength { measure, length }
    }

    /// A change of tempo.
    pub fn bpm_change(measure: u32, lane: u8, data: &str) -> (r: SusLine)
        ensures
            r@ == (SusLineView::BpmChange { measure, lane, data: data@ }),
    {
        SusLine::BpmChange { measure, lane, data: data.to_string() }
    }
}

/// The kind that a type digit of a packed payload names. A slide line names
/// a slide whatever the digit; elsewhere 1 to 6 name taps, the digits that
/// are written `2x` in base 16 holds, `3x` and `4x` slides, `5x` flicks. Any
/// other digit names the unknown kind that carries the digit in base 16.
pub open spec fn sus_kind(type_digit: u8, slide_type: Option<u8>) -> NoteKind {
    if slide_type == Some(3u8) || slide_type == Some(4u8) {
        NoteKind::Slide
    } else if 1 <= type_digit <= 6 {
        NoteKind::Tap
    } else if 0x20 <= type_digit <= 0x2f {
        NoteKind::Hold
    } else if 0x30 <= type_digit <= 0x4f {
        NoteKind::Slide
    } else if 0x50 <= type_digit <= 0x5f {
        NoteKind::Flick
    } else {
        NoteKind::Unknown("SUS type "@ + numeral(type_digit as nat, 16))
    }
}

/// The kind that a type digit of a packed payload names.
pub fn sus_type_to_chuni_note_type(type_digit: u8, slide_type: Option<u8>) -> (r: ChuniNoteType)
    ensures
        r@ == sus_kind(type_digit, slide_type),
{
    let slide_line = match slide_type {
        Some(t) => t == 3 || t == 4,
        None => false,
    };
    if slide_line {
        ChuniNoteType::Slide
    } else if 1 <= type_digit && type_digit <= 6 {
        ChuniNoteType::Tap
    } else if 0x20 <= type_digit && type_digit <= 0x2f {
        ChuniNoteType::Hold
    } else if 0x30 <= type_digit && type_digit <= 0x4f {
        ChuniNoteType::Slide
    } else if 0x50 <= type_digit && type_digit <= 0x5f {
        ChuniNoteType::Flick
    } else {
        let mut raw = "SUS type ".to_string();
        push_numeral(&mut raw, type_digit as u32, 16);
        ChuniNoteType::Unknown(raw)
    }
}

/// The value of a character as a base-36 digit, if it is one.
pub open spec fn lane_of(c: char) -> Option<u8> {
    match digit_of(c) {
        Some(d) => Some(d as u8),
        None => None,
    }
}

/// The value of a character as a base-36 digit: `0`-`9`, then the letters
/// of either case.
pub fn parse_hex_char(c: char) -> (r: Option<u8>)
    ensures
        r == lane_of(c),
{
    digit(c)
}

/// The lane that a character names.
pub fn parse_lane(c: char) -> (r: Option<u8>)
    ensures
        r == lane_of(c),
{
    parse_hex_char(c)
}

/// The measure that three base-36 digits name, most significant first.
pub open spec fn measure_of(s: Seq<char>) -> Option<u32> {
    if s.len() == 3 && all_digits(s, 36) {
        Some(digits_value(s, 36) as u32)
    } else {
        None
    }
}

/// Three base-36 digits name a number below 36 * 36 * 36.
pub proof fn lemma_measure_bound(s: Seq<char>)
    requires
        s.len() == 3,
        all_digits(s, 36),
    ensures
        digits_value(s, 36) == (digit_of(s[0])->0 * 36 + digit_of(s[1])->0) * 36 + digit_of(
            s[2],
        )->0,
        digits_value(s, 36) < 46656,
{
    let s2 = s.drop_last();
    let s1 = s2.drop_last();
    let s0 = s1.drop_last();
    assert(s2.last() == s[1]);
    assert(s1.last() == s[0]);
    assert(s0.len() == 0);
    assert(digits_value(s0, 36) == 0);
    assert(digits_value(s1, 36) == digits_value(s0, 36) * 36 + digit_of(s[0])->0);
    assert(digits_value(s2, 36) == digits_value(s1, 36) * 36 + digit_of(s[1])->0);
    assert(digits_value(s, 36) == digits_value(s2, 36) * 36 + digit_of(s[2])->0);
    assert(is_digit(s[0], 36));
    assert(is_digit(s[1], 36));
    assert(is_digit(s[2], 36));
}

fn measure_at(cs: &Vec<char>) -> (r: Option<u32>)
    requires
        cs.len() >= 3,
    ensures
        r == measure_of(cs@.take(3)),
{
    let ghost s = cs@.take(3);
    proof {
        assert(s[0] == cs@[0] && s[1] == cs@[1] && s[2] == cs@[2]);
        if all_digits(s, 36) {
            lemma_measure_bound(s);
        }
    }
    match (digit(cs[0]), digit(cs[1]), digit(cs[2])) {
        (Some(a), Some(b), Some(c)) => {
            proof {
                assert forall|i: int| 0 <= i < s.len() implies is_digit(#[trigger] s[i], 36) by {
                    assert(i == 0 || i == 1 || i == 2);
                }
                lemma_measure_bound(s);
            }
            Some((a as u32 * 36 + b as u32) * 36 + c as u32)
        },
        _ => {
            proof {
                if all_digits(s, 36) {
                    assert(is_digit(s[0], 36) && is_digit(s[1], 36) && is_digit(s[2], 36));
                }
            }
            None
        },
    }
}

/// The measure that a header of three base-36 digits names.
pub fn parse_measure(s: &str) -> (r: Option<u32>)
    ensures
        r == measure_of(s@),
{
    let cs = to_chars(s);
    if cs.len() != 3 {
        return None;
    }
    assert(cs@.take(3) =~= cs@);
    measure_at(&cs)
}

/// A value without the double quotes around it, if it has them.
pub open spec fn unquoted(value: Seq<char>) -> Seq<char> {
    if value.len() >= 2 && value[0] == '"' && value.last() == '"' {
        value.subrange(1, value.len() - 1)
    } else {
        value
    }
}

/// The declaration that a line holds. A line that does not open with `#`
/// holds none. The key runs to the first blank, the value is the rest,
/// both trimmed; a line without a blank is a key without a value.
pub open spec fn metadata_line(line: Seq<char>) -> Option<SusLineView> {
    if line.len() == 0 || line[0] != '#' {
        None
    } else {
        let content = line.drop_first();
        let n = run(content, CharClass::Not(' '));
        if n < content.len() {
            Some(
                SusLineView::Metadata {
                    key: trim(content.take(n as int)),
                    value: unquoted(trim(content.skip((n + 1) as int))),
                },
            )
        } else {
            Some(SusLineView::Metadata { key: trim(content), value: Seq::empty() })
        }
    }
}

/// The value of a character as a base-36 digit, or the default where it is
/// none.
pub open spec fn digit_or(c: char, default: u8) -> u8 {
    match digit_of(c) {
        Some(d) => d as u8,
        None => default,
    }
}

/// The note that a payload of two characters or more spells: its width is
/// the second character as a base-36 digit, or 1.
pub open spec fn packed_note(lane: u8, kind: NoteKind, data: Seq<char>) -> SusLineView
    recommends
        data.len() >= 2,
{
    SusLineView::Note(NoteView { lane, tick: 0, note_type: kind, width: digit_or(data[1], 1) })
}

/// What a line of a measure holds. `code` is the header after the three
/// digits of the measure, two characters at least; `data` is the payload.
/// The first character of the code tells the shape:
/// `0`: `02` is the length of the measure, `08` a change of tempo;
/// `1` and a lane: taps; `2`, a lane and a channel: holds; `3` or `4`, a lane
/// and a channel: slides; `5` and a lane: directional notes.
/// A payload of two characters or more gives the note it spells in place of
/// the raw line. Whatever fits none of this is an unknown line.
pub open spec fn measure_record(measure: u32, code: Seq<char>, data: Seq<char>, line: Seq<char>) -> SusLineView
    recommends
        code.len() >= 2,
{
    let unknown = SusLineView::Unknown { content: line };
    let spelled = data.len() >= 2;
    if code[0] == '0' {
        if code == "02"@ {
            if is_number_text(data) {
                SusLineView::MeasureLength { measure, length: data }
            } else {
                unknown
            }
        } else if code == "08"@ {
            SusLineView::BpmChange { measure, lane: 0, data }
        } else {
            unknown
        }
    } else if code[0] == '1' {
        match lane_of(code[1]) {
            Some(lane) => if spelled {
                packed_note(lane, NoteKind::Tap, data)
            } else {
                SusLineView::TapNotes { measure, lane, data }
            },
            None => unknown,
        }
    } else if code[0] == '2' && code.len() >= 3 {
        match (lane_of(code[1]), lane_of(code[2])) {
            (Some(lane), Some(channel)) => if spelled {
                packed_note(lane, NoteKind::Hold, data)
            } else {
                SusLineView::HoldNotes { measure, lane, channel, data }
            },
            _ => unknown,
        }
    } else if (code[0] == '3' || code[0] == '4') && code.len() >= 3 {
        match (lane_of(code[1]), lane_of(code[2])) {
            (Some(lane), Some(channel)) => if spelled {
                packed_note(lane, NoteKind::Slide, data)
            } else {
                SusLineView::SlideNotes {
                    measure,
                    slide_type: if code[0] == '3' {
                        3
                    } else {
                        4
                    },
                    lane,
                    channel,
                    data,
                }
            },
            _ => unknown,
        }
    } else if code[0] == '5' {
        match lane_of(code[1]) {
            Some(lane) => if spelled {
                packed_note(lane, sus_kind(digit_or(data[0], 5), None), data)
            } else {
                SusLineView::DirectionalNotes { measure, lane, data }
            },
            None => unknown,
        }
    } else {
        unknown
    }
}

/// What a line with a colon holds, by its header and its payload. The three
/// tables come first: `BPM`, `ATR` or `TIL` and an identifier. A tempo entry
/// whose payload is no number is no tempo entry and is read on as what
/// else it may be. Then come the lines of a measure: three base-36 digits
/// and a code of two characters or more.
pub open spec fn classified(header: Seq<char>, data: Seq<char>, line: Seq<char>) -> SusLineView {
    if header.len() >= 4 && "BPM"@.is_prefix_of(header) && is_number_text(data) {
        SusLineView::BpmDefinition { id: header.skip(3), bpm: data }
    } else if header.len() >= 4 && "ATR"@.is_prefix_of(header) {
        SusLineView::AttributeDefinition { id: header.skip(3), attributes: data }
    } else if header.len() >= 4 && "TIL"@.is_prefix_of(header) {
        SusLineView::HiSpeedDefinition { id: header.skip(3), definition: data }
    } else if header.len() >= 5 && measure_of(header.take(3)) is Some {
        measure_record(measure_of(header.take(3))->0, header.skip(3), data, line)
    } else {
        SusLineView::Unknown { content: line }
    }
}

/// What a line with a colon holds; a line without one holds no chart data.
/// The header is what stands before the first colon, trimmed and without
/// its leading `#` signs; the payload is what follows the colon, trimmed.
pub open spec fn chart_data_line(line: Seq<char>) -> Option<SusLineView> {
    let colon = run(line, CharClass::Not(':'));
    if colon == line.len() {
        None
    } else {
        let head = trim(line.take(colon as int));
        let header = head.skip(run(head, CharClass::Is('#')) as int);
        let data = trim(line.skip((colon + 1) as int));
        Some(classified(header, data, line))
    }
}

/// What a line holds. An empty line is an empty comment. A line that opens
/// with `#` is chart data where it has a colon and a declaration where it
/// has none. Any other line is a comment.
pub open spec fn classified_line(line: Seq<char>) -> SusLineView {
    let t = trim(line);
    if t.len() == 0 {
        SusLineView::Comment { content: Seq::empty() }
    } else if t[0] == '#' {
        match chart_data_line(t) {
            Some(parsed) => parsed,
            None => metadata_line(t)->0,
        }
    } else {
        SusLineView::Comment { content: t }
    }
}

fn text_of(cs: &Vec<char>) -> (t: String)
    ensures
        t@ == cs@,
{
    let t = to_text(cs, 0, cs.len());
    assert(cs@.subrange(0, cs.len() as int) =~= cs@);
    t
}

fn metadata_of_chars(cs: &Vec<char>) -> (r: Option<SusLine>)
    ensures
        match r {
            Some(parsed) => metadata_line(cs@) == Some(parsed@),
            None => metadata_line(cs@) is None,
        },
{
    if cs.len() == 0 || cs[0] != '#' {
        return None;
    }
    let content = slice(cs, 1, cs.len());
    let n = content.len();
    let blank = scan(&content, 0, n, CharClass::Not(' '));
    proof {
        assert(content@.subrange(0, n as int) =~= content@);
    }
    if blank < n {
        let key = trimmed(&content, 0, blank);
        let value = trimmed(&content, blank + 1, n);
        let m = value.len();
        let value = if m >= 2 && value[0] == '"' && value[m - 1] == '"' {
            to_text(&value, 1, m - 1)
        } else {
            text_of(&value)
        };
        Some(SusLine::Metadata { key: text_of(&key), value })
    } else {
        let key = trimmed(&content, 0, n);
        Some(SusLine::Metadata { key: text_of(&key), value: String::new() })
    }
}

/// The declaration that a line holds, if it opens with `#`.
pub fn parse_metadata_line(line: &str) -> (r: Option<SusLine>)
    ensures
        match r {
            Some(parsed) => metadata_line(line@) == Some(parsed@),
            None => metadata_line(line@) is None,
        },
{
    let cs = to_chars(line);
    metadata_of_chars(&cs)
}

fn width_of(data: &Vec<char>) -> (r: u8)
    requires
        data.len() >= 2,
    ensures
        r == digit_or(data@[1], 1),
{
    match digit(data[1]) {
        Some(d) => d,
        None => 1,
    }
}

fn unknown_line(line: &Vec<char>) -> (r: SusLine)
    ensures
        r@ == (SusLineView::Unknown { content: line@ }),
{
    SusLine::Unknown { content: text_of(line) }
}

fn measure_line(measure: u32, code: &Vec<char>, data: &Vec<char>, line: &Vec<char>) -> (r: SusLine)
    requires
        code.len() >= 2,
    ensures
        r@ == measure_record(measure, code@, data@, line@),
{
    let spelled = data.len() >= 2;
    let shape = code[0];
    if shape == '0' {
        if chars_eq(code, "02") {
            match NumberText::from_chars(data) {
                Some(length) => SusLine::MeasureLength { measure, length },
                None => unknown_line(line),
            }
        } else if chars_eq(code, "08") {
            SusLine::BpmChange { measure, lane: 0, data: text_of(data) }
        } else {
            unknown_line(line)
        }
    } else if shape == '1' {
        match parse_lane(code[1]) {
            Some(lane) => if spelled {
                SusLine::Note(
                    Note { lane, tick: 0, note_type: ChuniNoteType::Tap, width: width_of(data) },
                )
            } else {
                SusLine::TapNotes { measure, lane, data: text_of(data) }
            },
            None => unknown_line(line),
        }
    } else if shape == '2' && code.len() >= 3 {
        match (parse_lane(code[1]), parse_lane(code[2])) {
            (Some(lane), Some(channel)) => if spelled {
                SusLine::Note(
                    Note { lane, tick: 0, note_type: ChuniNoteType::Hold, width: width_of(data) },
                )
            } else {
                SusLine::HoldNotes { measure, lane, channel, data: text_of(data) }
            },
            _ => unknown_line(line),
        }
    } else if (shape == '3' || shape == '4') && code.len() >= 3 {
        let slide_type: u8 = if shape == '3' {
            3
        } else {
            4
        };
        match (parse_lane(code[1]), parse_lane(code[2])) {
            (Some(lane), Some(channel)) => if spelled {
                SusLine::Note(
                    Note { lane, tick: 0, note_type: ChuniNoteType::Slide, width: width_of(data) },
                )
            } else {
                SusLine::SlideNotes { measure, slide_type, lane, channel, data: text_of(data) }
            },
            _ => unknown_line(line),
        }
    } else if shape == '5' {
        match parse_lane(code[1]) {
            Some(lane) => if spelled {
                let type_digit = match digit(data[0]) {
                    Some(d) => d,
                    None => 5,
                };
                let note_type = sus_type_to_chuni_note_type(type_digit, None);
                SusLine::Note(Note { lane, tick: 0, note_type, width: width_of(data) })
            } else {
                SusLine::DirectionalNotes { measure, lane, data: text_of(data) }
            },
            None => unknown_line(line),
        }
    } else {
        unknown_line(line)
    }
}

fn classify(header: &Vec<char>, data: &Vec<char>, line: &Vec<char>) -> (r: SusLine)
    ensures
        r@ == classified(header@, data@, line@),
{
    let n = header.len();
    if n >= 4 && has_prefix(header, "BPM") {
        match NumberText::from_chars(data) {
            Some(bpm) => {
                proof {
                    assert(header@.subrange(3, n as int) =~= header@.skip(3));
                }
                return SusLine::BpmDefinition { id: to_text(header, 3, n), bpm };
            },
            None => {},
        }
    }
    proof {
        assert(header@.subrange(3, n as int) =~= header@.skip(3));
    }
    if n >= 4 && has_prefix(header, "ATR") {
        return SusLine::AttributeDefinition { id: to_text(header, 3, n), attributes: text_of(data) };
    }
    if n >= 4 && has_prefix(header, "TIL") {
        return SusLine::HiSpeedDefinition { id: to_text(header, 3, n), definition: text_of(data) };
    }
    if n >= 5 {
        match measure_at(header) {
            Some(measure) => {
                let code = slice(header, 3, n);
                return measure_line(measure, &code, data, line);
            },
            None => {},
        }
    }
    unknown_line(line)
}

fn chart_data_of_chars(cs: &Vec<char>) -> (r: Option<SusLine>)
    ensures
        match r {
            Some(parsed) => chart_data_line(cs@) == Some(parsed@),
            None => chart_data_line(cs@) is None,
        },
{
    let n = cs.len();
    let colon = scan(cs, 0, n, CharClass::Not(':'));
    proof {
        assert(cs@.subrange(0, n as int) =~= cs@);
    }
    if colon == n {
        return None;
    }
    let head = trimmed(cs, 0, colon);
    let hashes = scan(&head, 0, head.len(), CharClass::Is('#'));
    proof {
        assert(head@.subrange(0, head.len() as int) =~= head@);
    }
    let header = slice(&head, hashes, head.len());
    let data = trimmed(cs, colon + 1, n);
    Some(classify(&header, &data, cs))
}

/// What a line with a colon holds; `None` for a line without a colon.
pub fn parse_chart_data_line(line: &str) -> (r: Option<SusLine>)
    ensures
        match r {
            Some(parsed) => chart_data_line(line@) == Some(parsed@),
            None => chart_data_line(line@) is None,
        },
{
    let cs = to_chars(line);
    chart_data_of_chars(&cs)
}

/// Classifies one line.
pub fn parse_line(line: &str) -> (r: SusLine)
    ensures
        r@ == classified_line(line@),
{
    let cs = to_chars(line);
    let t = trimmed(&cs, 0, cs.len());
    proof {
        assert(cs@.subrange(0, cs.len() as int) =~= cs@);
    }
    if t.len() == 0 {
        return SusLine::Comment { content: String::new() };
    }
    if t[0] == '#' {
        match chart_data_of_chars(&t) {
            Some(parsed) => {
                return parsed;
            },
            None => {},
        }
        match metadata_of_chars(&t) {
            Some(parsed) => {
                return parsed;
            },
            None => {},
        }
    }
    SusLine::Comment { content: text_of(&t) }
}

/// A chart of the packed dialect: its lines as they were classified, and
/// its declarations by their keys.
#[derive(Debug)]
pub struct SusChart {
    /// The declarations; of two with one key the later counts.
    pub metadata: MetadataMap,
    /// Every line of the chart, in order.
    pub lines: Vec<SusLine>,
}

/// The mathematical value of a `SusChart`.
pub struct SusChartView {
    pub metadata: Map<Seq<char>, Seq<char>>,
    pub lines: Seq<SusLineView>,
}

impl View for SusChart {
    type V = SusChartView;

    open spec fn view(&self) -> SusChartView {
        SusChartView { metadata: self.metadata@, lines: self.lines@.map_values(|l: SusLine| l@) }
    }
}

/// The chart with one more line: the line is appended, and a declaration
/// is also entered under its key.
pub open spec fn line_added(c: SusChartView, line: SusLineView) -> SusChartView {
    SusChartView {
        metadata: match line {
            SusLineView::Metadata { key, value } => c.metadata.insert(key, value),
            _ => c.metadata,
        },
        lines: c.lines.push(line),
    }
}

/// The chart that a sequence of lines denotes.
pub open spec fn chart_of(lines: Seq<Seq<char>>) -> SusChartView
    decreases lines.len(),
{
    if lines.len() == 0 {
        SusChartView { metadata: Map::empty(), lines: Seq::empty() }
    } else {
        line_added(chart_of(lines.drop_last()), classified_line(lines.last()))
    }
}

/// A chart has one classified line for each line that was read, in order.
pub proof fn lemma_every_line_is_kept(lines: Seq<Seq<char>>)
    ensures
        chart_of(lines).lines.len() == lines.len(),
        forall|i: int|
            0 <= i < lines.len() ==> (#[trigger] chart_of(lines).lines[i]) == classified_line(
                lines[i],
            ),
    decreases lines.len(),
{
    if lines.len() > 0 {
        lemma_every_line_is_kept(lines.drop_last());
    }
}

/// Of two declarations with one key the later counts: after a declaration
/// its key has its value, and every other key is as it was. A line that is
/// no declaration leaves the declarations alone.
pub proof fn lemma_later_declaration_counts(c: SusChartView, line: SusLineView)
    ensures
        line matches SusLineView::Metadata { key, value } ==> {
            &&& line_added(c, line).metadata.contains_key(key)
            &&& line_added(c, line).metadata[key] == value
            &&& forall|other: Seq<char>|
                other != key ==> (line_added(c, line).metadata.contains_key(other)
                    <==> c.metadata.contains_key(other)) && (c.metadata.contains_key(other)
                    ==> line_added(c, line).metadata[other] == c.metadata[other])
        },
        !(line is Metadata) ==> line_added(c, line).metadata == c.metadata,
{
}

impl SusChart {
    /// The chart without lines.
    pub fn new() -> (r: SusChart)
        ensures
            r@ == chart_of(Seq::empty()),
    {
        let r = SusChart { metadata: MetadataMap::new(), lines: Vec::new() };
        assert(r@.lines =~= Seq::<SusLineView>::empty());
        r
    }

    /// Appends any line.
    pub fn new_line(&mut self, line: SusLine) -> (chart: &mut Self)
        ensures
            chart@ == line_added(old(self)@, line@),
            *final(self) == *final(chart),
    {
        match &line {
            SusLine::Metadata { key, value } => {
                self.metadata.insert(key.clone(), value.clone());
            },
            _ => {},
        }
        self.lines.push(line);
        assert(self@.lines =~= old(self)@.lines.push(line@));
        self
    }

    /// Appends a note.
    pub fn note(&mut self, note: Note) -> (chart: &mut Self)
        ensures
            chart@ == line_added(old(self)@, SusLineView::Note(note@)),
            *final(self) == *final(chart),
    {
        self.new_line(SusLine::Note(note))
    }

    /// Appends a declaration and enters it under its key.
    pub fn metadata(&mut self, key: &str, value: &str) -> (chart: &mut Self)
        ensures
            chart@ == line_added(old(self)@, SusLineView::Metadata { key: key@, value: value@ }),
            *final(self) == *final(chart),
    {
        self.new_line(SusLine::metadata(key, value))
    }

    /// Appends a comment.
    pub fn comment(&mut self, content: &str) -> (chart: &mut Self)
        ensures
            chart@ == line_added(old(self)@, SusLineView::Comment { content: content@ }),
            *final(self) == *final(chart),
    {
        self.new_line(SusLine::comment(content))
    }
}

/// The views of a sequence of string slices.
pub open spec fn slices(v: Seq<&str>) -> Seq<Seq<char>> {
    v.map_values(|t: &str| t@)
}

/// Decodes a chart from its lines.
pub fn parse_sus_iter(lines: &[&str]) -> (r: SusChart)
    ensures
        r@ == chart_of(slices(lines@)),
{
    let mut chart = SusChart::new();
    let mut i: usize = 0;
    proof {
        assert(slices(lines@).take(0) =~= Seq::<Seq<char>>::empty());
    }
    while i < lines.len()
        invariant
            i <= lines.len(),
            chart@ == chart_of(slices(lines@).take(i as int)),
        decreases lines.len() - i,
    {
        proof {
            assert(slices(lines@).take(i + 1).drop_last() =~= slices(lines@).take(i as int));
            assert(slices(lines@).take(i + 1).last() == lines@[i as int]@);
        }
        chart.new_line(parse_line(lines[i]));
        i += 1;
    }
    proof {
        assert(slices(lines@).take(lines.len() as int) =~= slices(lines@));
    }
    chart
}

/// Decodes a chart from the text of a file.
pub fn parse_sus(content: &str) -> (r: SusChart)
    ensures
        r@ == chart_of(lines(content@)),
{
    let all = split_lines(content);
    let mut chart = SusChart::new();
    let mut i: usize = 0;
    proof {
        lemma_texts(all@);
        assert(texts(all@).take(0) =~= Seq::<Seq<char>>::empty());
    }
    while i < all.len()
        invariant
            i <= all.len(),
            chart@ == chart_of(texts(all@).take(i as int)),
        decreases all.len() - i,
    {
        proof {
            lemma_texts(all@);
            assert(texts(all@).take(i + 1).drop_last() =~= texts(all@).take(i as int));
        }
        chart.new_line(parse_line(all[i].as_str()));
        i += 1;
    }
    proof {
        assert(texts(all@).take(all.len() as int) =~= texts(all@));
    }
    chart
}

} // verus!
