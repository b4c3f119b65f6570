//! Charts of the record dialect: the commands at the head of a file, the
//! timing entries, and the notes in the order of their lines.
use vstd::prelude::*;
use crate::c2s::error::C2sError;
use crate::c2s::note::{line_note, Note, NoteView};
use crate::number::{
    decimal_u32,
    is_decimal,
    is_number_text,
    mantissa_digits,
    mantissa_len,
    numeral,
    parse_u32,
    unsigned_part,
    NumberText,
};
use crate::text::{
    fields,
    join_fields,
    join_from,
    lemma_fields_of_trimmed,
    lemma_run_is,
    lemma_texts,
    lines,
    split_fields,
    split_lines,
    text_eq,
    texts,
    trim,
    CharClass,
};

verus! {

/// A change of tempo.
#[derive(Debug, Clone, PartialEq, Eq)]
pub struct Bpm {
    /// Measure in which the change takes effect.
    pub measure: u32,
    /// Ticks from the start of the measure.
    pub offset: u32,
    /// Beats per minute from there on.
    pub bpm: NumberText,
}

/// The mathematical value of a `Bpm`.
pub struct BpmView {
    pub measure: u32,
    pub offset: u32,
    pub bpm: Seq<char>,
}

impl View for Bpm {
    type V = BpmView;

    open spec fn view(&self) -> BpmView {
        BpmView { measure: self.measure, offset: self.offset, bpm: self.bpm@ }
    }
}

/// A change of time signature.
#[derive(Debug, Clone, Copy, PartialEq, Eq, Structural)]
pub struct TimeSignature {
    /// Measure in which the change takes effect.
    pub measure: u32,
    /// Ticks from the start of the measure.
    pub offset: u32,
    /// Beats in a measure.
    pub numerator: u32,
    /// The note value that counts as one beat.
    pub denominator: u32,
}

/// A change of scroll speed.
#[derive(Debug, Clone, PartialEq, Eq)]
pub struct Sfl {
    /// Measure in which the change takes effect.
    pub measure: u32,
    /// Ticks from the start of the measure.
    pub offset: u32,
    /// Ticks for which the change lasts.
    pub duration: u32,
    /// Factor on the scroll speed.
    pub multiplier: NumberText,
}

/// The mathematical value of an `Sfl`.
pub struct SflView {
    pub measure: u32,
    pub offset: u32,
    pub duration: u32,
    pub multiplier: Seq<char>,
}

impl View for Sfl {
    type V = SflView;

    open spec fn view(&self) -> SflView {
        SflView {
            measure: self.measure,
            offset: self.offset,
            duration: self.duration,
            multiplier: self.multiplier@,
        }
    }
}

/// What the commands of a chart say.
#[derive(Debug, PartialEq, Eq)]
pub struct C2SMetadata {
    /// The two version words of `VERSION`.
    pub version: [String; 2],
    /// `MUSIC`: the song's identifier.
    pub music: u32,
    /// `SEQUENCEID`.
    pub sequence_id: u32,
    /// `DIFFICULT`.
    pub difficulty: u32,
    /// `LEVEL`, which may be written with a fraction.
    pub level: NumberText,
    /// `CREATOR`: who wrote the chart.
    pub creator: String,
    /// `BPM_DEF`: the four default tempo values.
    pub bpm_default: [NumberText; 4],
    /// `MET_DEF`: the default metronome.
    pub metronome_def: Option<[u32; 4]>,
    /// `RESOLUTION`: ticks in a measure.
    pub resolution: u32,
    /// `CLK_DEF`.
    pub clock_default: NumberText,
    /// `PROGJUDGE_BPM`.
    pub progjudge_bpm: NumberText,
    /// `PROGJUDGE_AER`.
    pub progjudge_aer: NumberText,
    /// `TUTORIAL`: whether the chart is a tutorial.
    pub tutorial: bool,
    /// `BPM`: the tempo changes, in the order of their lines.
    pub bpm: Vec<Bpm>,
    /// `MET`: the time signature changes, in the order of their lines.
    pub time_signatures: Vec<TimeSignature>,
    /// `SFL`: the speed changes, in the order of their lines.
    pub sfl: Vec<Sfl>,
}

/// The mathematical value of a `C2SMetadata`.
pub struct MetadataView {
    pub version: Seq<Seq<char>>,
    pub music: u32,
    pub sequence_id: u32,
    pub difficulty: u32,
    pub level: Seq<char>,
    pub creator: Seq<char>,
    pub bpm_default: Seq<Seq<char>>,
    pub metronome_def: Option<Seq<u32>>,
    pub resolution: u32,
    pub clock_default: Seq<char>,
    pub progjudge_bpm: Seq<char>,
    pub progjudge_aer: Seq<char>,
    pub tutorial: bool,
    pub bpm: Seq<BpmView>,
    pub time_signatures: Seq<TimeSignature>,
    pub sfl: Seq<SflView>,
}

/// The views of a sequence of number texts.
pub open spec fn numbers(v: Seq<NumberText>) -> Seq<Seq<char>> {
    v.map_values(|n: NumberText| n@)
}

impl View for C2SMetadata {
    type V = MetadataView;

    open spec fn view(&self) -> MetadataView {
        MetadataView {
            version: texts(self.version@),
            music: self.music,
            sequence_id: self.sequence_id,
            difficulty: self.difficulty,
            level: self.level@,
            creator: self.creator@,
            bpm_default: numbers(self.bpm_default@),
            metronome_def: match self.metronome_def {
                Some(a) => Some(a@),
                None => None,
            },
            resolution: self.resolution,
            clock_default: self.clock_default@,
            progjudge_bpm: self.progjudge_bpm@,
            progjudge_aer: self.progjudge_aer@,
            tutorial: self.tutorial,
            bpm: self.bpm@.map_values(|b: Bpm| b@),
            time_signatures: self.time_signatures@,
            sfl: self.sfl@.map_values(|s: Sfl| s@),
        }
    }
}

/// Ticks in a measure where a chart does not say.
pub const DEFAULT_RESOLUTION: u32 = 384;

/// What a chart without commands says.
pub open spec fn initial_metadata() -> MetadataView {
    MetadataView {
        version: seq!["1.00.00"@, "1.00.00"@],
        music: 0,
        sequence_id: 0,
        difficulty: 0,
        level: numeral(0, 10),
        creator: "Unknown"@,
        bpm_default: seq![numeral(120, 10), numeral(120, 10), numeral(120, 10), numeral(120, 10)],
        metronome_def: Some(seq![4u32, 4u32, 0u32, 0u32]),
        resolution: 384,
        clock_default: numeral(384, 10),
        progjudge_bpm: numeral(240, 10),
        progjudge_aer: "0.999"@,
        tutorial: false,
        bpm: Seq::empty(),
        time_signatures: Seq::empty(),
        sfl: Seq::empty(),
    }
}

/// The unsigned integer that a field denotes, or the default where it
/// denotes none.
pub open spec fn integer_or(t: Seq<char>, default: u32) -> u32 {
    match decimal_u32(t) {
        Some(v) => v,
        None => default,
    }
}

/// The field itself where it denotes a number, or the numeral of the
/// default.
pub open spec fn number_or(t: Seq<char>, default: nat) -> Seq<char> {
    if is_number_text(t) {
        t
    } else {
        numeral(default, 10)
    }
}

/// The keywords that open a command.
pub open spec fn is_command(key: Seq<char>) -> bool {
    ||| key == "VERSION"@
    ||| key == "MUSIC"@
    ||| key == "SEQUENCEID"@
    ||| key == "DIFFICULT"@
    ||| key == "LEVEL"@
    ||| key == "CREATOR"@
    ||| key == "BPM_DEF"@
    ||| key == "MET_DEF"@
    ||| key == "RESOLUTION"@
    ||| key == "CLK_DEF"@
    ||| key == "PROGJUDGE_BPM"@
    ||| key == "PROGJUDGE_AER"@
    ||| key == "TUTORIAL"@
    ||| key == "BPM"@
    ||| key == "MET"@
    ||| key == "SFL"@
}

/// What the metadata say after a command. A command with too few fields
/// changes nothing; a field that denotes no number gives its default. The
/// three timing commands append an entry, every other command replaces what
/// an earlier one of its keyword said.
pub open spec fn command_applied(m: MetadataView, parts: Seq<Seq<char>>) -> MetadataView {
    let key = parts[0];
    let n = parts.len();
    if n == 0 {
        m
    } else if key == "VERSION"@ && n >= 3 {
        MetadataView { version: seq![parts[1], parts[2]], ..m }
    } else if key == "MUSIC"@ && n >= 2 {
        MetadataView { music: integer_or(parts[1], 0), ..m }
    } else if key == "SEQUENCEID"@ && n >= 2 {
        MetadataView { sequence_id: integer_or(parts[1], 0), ..m }
    } else if key == "DIFFICULT"@ && n >= 2 {
        MetadataView { difficulty: integer_or(parts[1], 0), ..m }
    } else if key == "LEVEL"@ && n >= 2 {
        MetadataView { level: number_or(parts[1], 0), ..m }
    } else if key == "CREATOR"@ && n >= 2 {
        MetadataView { creator: join_from(parts, 1), ..m }
    } else if key == "BPM_DEF"@ && n >= 5 {
        MetadataView {
            bpm_default: seq![
                number_or(parts[1], 120),
                number_or(parts[2], 120),
                number_or(parts[3], 120),
                number_or(parts[4], 120),
            ],
            ..m
        }
    } else if key == "MET_DEF"@ && n >= 3 {
        MetadataView {
            metronome_def: Some(seq![integer_or(parts[1], 4), integer_or(parts[2], 4), 0u32, 0u32]),
            ..m
        }
    } else if key == "RESOLUTION"@ && n >= 2 {
        MetadataView { resolution: integer_or(parts[1], 384), ..m }
    } else if key == "CLK_DEF"@ && n >= 2 {
        MetadataView { clock_default: number_or(parts[1], 384), ..m }
    } else if key == "PROGJUDGE_BPM"@ && n >= 2 {
        MetadataView { progjudge_bpm: number_or(parts[1], 240), ..m }
    } else if key == "PROGJUDGE_AER"@ && n >= 2 {
        MetadataView {
            progjudge_aer: if is_number_text(parts[1]) {
                parts[1]
            } else {
                "0.999"@
            },
            ..m
        }
    } else if key == "TUTORIAL"@ && n >= 2 {
        MetadataView { tutorial: parts[1] == "1"@, ..m }
    } else if key == "BPM"@ && n >= 4 {
        MetadataView {
            bpm: m.bpm.push(
                BpmView {
                    measure: integer_or(parts[1], 0),
                    offset: integer_or(parts[2], 0),
                    bpm: number_or(parts[3], 120),
                },
            ),
            ..m
        }
    } else if key == "MET"@ && n >= 5 {
        MetadataView {
            time_signatures: m.time_signatures.push(
                TimeSignature {
                    measure: integer_or(parts[1], 0),
                    offset: integer_or(parts[2], 0),
                    numerator: integer_or(parts[3], 4),
                    denominator: integer_or(parts[4], 4),
                },
            ),
            ..m
        }
    } else if key == "SFL"@ && n >= 5 {
        MetadataView {
            sfl: m.sfl.push(
                SflView {
                    measure: integer_or(parts[1], 0),
                    offset: integer_or(parts[2], 0),
                    duration: integer_or(parts[3], 0),
                    multiplier: number_or(parts[4], 1),
                },
            ),
            ..m
        }
    } else {
        m
    }
}

/// A chart: what its commands say, and its notes.
#[derive(Debug, PartialEq, Eq)]
pub struct C2SChart {
    pub metadata: C2SMetadata,
    pub notes: Vec<Note>,
}

/// The mathematical value of a `C2SChart`.
pub struct ChartView {
    pub metadata: MetadataView,
    pub notes: Seq<NoteView>,
}

impl View for C2SChart {
    type V = ChartView;

    open spec fn view(&self) -> ChartView {
        ChartView { metadata: self.metadata@, notes: self.notes@.map_values(|n: Note| n@) }
    }
}

/// The chart after one more line. A line without fields changes nothing. A
/// line that opens with a command keyword is a command. Any other line is a
/// record: where it denotes a note, the note is appended; where it does not,
/// the line is passed over.
pub open spec fn line_applied(c: ChartView, line: Seq<char>) -> ChartView {
    let parts = fields(line);
    if parts.len() == 0 {
        c
    } else if is_command(parts[0]) {
        ChartView { metadata: command_applied(c.metadata, parts), notes: c.notes }
    } else {
        match line_note(line) {
            Ok(note) => ChartView { metadata: c.metadata, notes: c.notes.push(note) },
            Err(_) => c,
        }
    }
}

/// The chart that a sequence of lines denotes.
pub open spec fn decoded(lines: Seq<Seq<char>>) -> ChartView
    decreases lines.len(),
{
    if lines.len() == 0 {
        ChartView { metadata: initial_metadata(), notes: Seq::empty() }
    } else {
        line_applied(decoded(lines.drop_last()), lines.last())
    }
}

/// The note that a line adds to a chart, if it adds one.
pub open spec fn note_added(line: Seq<char>) -> Option<NoteView> {
    let parts = fields(line);
    if parts.len() > 0 && !is_command(parts[0]) {
        match line_note(line) {
            Ok(note) => Some(note),
            Err(_) => None,
        }
    } else {
        None
    }
}

/// The notes that a sequence of lines adds, in the order of the lines.
pub open spec fn notes_added(lines: Seq<Seq<char>>) -> Seq<NoteView>
    decreases lines.len(),
{
    if lines.len() == 0 {
        Seq::empty()
    } else {
        match note_added(lines.last()) {
            Some(note) => notes_added(lines.drop_last()).push(note),
            None => notes_added(lines.drop_last()),
        }
    }
}

/// The notes of a chart are the notes of its record lines, one for each
/// line that denotes one, in the order of the lines.
pub proof fn lemma_notes_follow_lines(lines: Seq<Seq<char>>)
    ensures
        decoded(lines).notes == notes_added(lines),
    decreases lines.len(),
{
    if lines.len() > 0 {
        lemma_notes_follow_lines(lines.drop_last());
    }
}

/// A line with fewer than five fields denotes no note, and a chart passes
/// over it: it adds no note to the chart.
pub proof fn lemma_short_line_adds_no_note(c: ChartView, line: Seq<char>)
    requires
        fields(line).len() < 5,
    ensures
        line_note(line) == Err::<NoteView, C2sError>(
            C2sError::MissingFields { found: fields(line).len() as usize },
        ),
        note_added(line) is None,
        line_applied(c, line).notes == c.notes,
{
}

/// A chart reads a line by its fields alone: white space around the line
/// changes nothing.
pub proof fn lemma_line_is_read_trimmed(c: ChartView, line: Seq<char>)
    ensures
        line_applied(c, trim(line)) == line_applied(c, line),
{
    lemma_fields_of_trimmed(line);
}

/// A command never takes a timing entry away nor changes one: the entries
/// before it stay, in their order, and at most one is added behind them.
pub proof fn lemma_timing_entries_are_appended(m: MetadataView, parts: Seq<Seq<char>>)
    ensures
        ({
            let after = command_applied(m, parts);
            &&& m.bpm.is_prefix_of(after.bpm)
            &&& m.time_signatures.is_prefix_of(after.time_signatures)
            &&& m.sfl.is_prefix_of(after.sfl)
            &&& after.bpm.len() + after.time_signatures.len() + after.sfl.len() <= m.bpm.len()
                + m.time_signatures.len() + m.sfl.len() + 1
        }),
{
}

/// A line never takes away what the lines before it gave: notes and timing
/// entries stay, in their order, and what the line adds stands behind them.
pub proof fn lemma_lines_only_append(lines: Seq<Seq<char>>, line: Seq<char>)
    ensures
        ({
            let before = decoded(lines);
            let after = decoded(lines.push(line));
            &&& before.notes.is_prefix_of(after.notes)
            &&& before.metadata.bpm.is_prefix_of(after.metadata.bpm)
            &&& before.metadata.time_signatures.is_prefix_of(after.metadata.time_signatures)
            &&& before.metadata.sfl.is_prefix_of(after.metadata.sfl)
        }),
{
    assert(lines.push(line).drop_last() =~= lines);
    lemma_timing_entries_are_appended(decoded(lines).metadata, fields(line));
}

fn default_aer() -> (r: NumberText)
    ensures
        r@ == "0.999"@,
{
    proof {
        lemma_default_aer();
    }
    match NumberText::parse("0.999") {
        Some(n) => n,
        None => NumberText::from_u32(0),
    }
}

proof fn lemma_default_aer()
    ensures
        is_number_text("0.999"@),
{
    reveal_strlit("0.999");
    let s = "0.999"@;
    assert(s =~= seq!['0', '.', '9', '9', '9']);
    lemma_run_is(s, CharClass::Digit, 1);
    lemma_run_is(s.skip(2), CharClass::Digit, 3);
    assert(mantissa_len(s) == 5);
    assert(mantissa_digits(s) == 4);
    assert(unsigned_part(s) == s);
    assert(s.skip(5).len() == 0);
    assert(is_decimal(s));
}

fn integer_at(parts: &Vec<String>, i: usize, default: u32) -> (r: u32)
    requires
        i < parts.len(),
    ensures
        r == integer_or(texts(parts@)[i as int], default),
{
    proof {
        lemma_texts(parts@);
    }
    match parse_u32(parts[i].as_str()) {
        Some(v) => v,
        None => default,
    }
}

fn number_at(parts: &Vec<String>, i: usize, default: u32) -> (r: NumberText)
    requires
        i < parts.len(),
    ensures
        r@ == number_or(texts(parts@)[i as int], default as nat),
{
    proof {
        lemma_texts(parts@);
    }
    match NumberText::parse(parts[i].as_str()) {
        Some(n) => n,
        None => NumberText::from_u32(default),
    }
}

impl Default for C2SMetadata {
    fn default() -> (r: Self)
        ensures
            r@ == initial_metadata(),
    {
        let r = C2SMetadata {
            version: ["1.00.00".to_string(), "1.00.00".to_string()],
            music: 0,
            sequence_id: 0,
            difficulty: 0,
            level: NumberText::from_u32(0),
            creator: "Unknown".to_string(),
            bpm_default: [
                NumberText::from_u32(120),
                NumberText::from_u32(120),
                NumberText::from_u32(120),
                NumberText::from_u32(120),
            ],
            metronome_def: Some([4, 4, 0, 0]),
            resolution: DEFAULT_RESOLUTION,
            clock_default: NumberText::from_u32(384),
            progjudge_bpm: NumberText::from_u32(240),
            progjudge_aer: default_aer(),
            tutorial: false,
            bpm: Vec::new(),
            time_signatures: Vec::new(),
            sfl: Vec::new(),
        };
        proof {
            assert(r@.version =~= initial_metadata().version);
            assert(r@.bpm_default =~= initial_metadata().bpm_default);
            assert(r@.metronome_def->0 =~= initial_metadata().metronome_def->0);
            assert(r@.bpm =~= initial_metadata().bpm);
            assert(r@.sfl =~= initial_metadata().sfl);
        }
        r
    }
}

impl C2SMetadata {
    /// Takes in a command: the fields of a line whose first field is a
    /// command keyword. Any other fields change nothing.
    pub fn apply_command(&mut self, parts: &Vec<String>)
        ensures
            final(self)@ == command_applied(old(self)@, texts(parts@)),
    {
        proof {
            lemma_texts(parts@);
        }
        let n = parts.len();
        if n == 0 {
            return ;
        }
        let key = parts[0].as_str();
        if text_eq(key, "VERSION") && n >= 3 {
            self.version = [parts[1].clone(), parts[2].clone()];
            assert(self@.version =~= seq![texts(parts@)[1], texts(parts@)[2]]);
        } else if text_eq(key, "MUSIC") && n >= 2 {
            self.music = integer_at(parts, 1, 0);
        } else if text_eq(key, "SEQUENCEID") && n >= 2 {
            self.sequence_id = integer_at(parts, 1, 0);
        } else if text_eq(key, "DIFFICULT") && n >= 2 {
            self.difficulty = integer_at(parts, 1, 0);
        } else if text_eq(key, "LEVEL") && n >= 2 {
            self.level = number_at(parts, 1, 0);
        } else if text_eq(key, "CREATOR") && n >= 2 {
            self.creator = join_fields(parts, 1);
        } else if text_eq(key, "BPM_DEF") && n >= 5 {
            self.bpm_default = [
                number_at(parts, 1, 120),
                number_at(parts, 2, 120),
                number_at(parts, 3, 120),
                number_at(parts, 4, 120),
            ];
            assert(self@.bpm_default =~= seq![
                number_or(texts(parts@)[1], 120),
                number_or(texts(parts@)[2], 120),
                number_or(texts(parts@)[3], 120),
                number_or(texts(parts@)[4], 120),
            ]);
        } else if text_eq(key, "MET_DEF") && n >= 3 {
            self.metronome_def = Some([integer_at(parts, 1, 4), integer_at(parts, 2, 4), 0, 0]);
            assert(self@.metronome_def->0 =~= seq![
                integer_or(texts(parts@)[1], 4),
                integer_or(texts(parts@)[2], 4),
                0u32,
                0u32,
            ]);
        } else if text_eq(key, "RESOLUTION") && n >= 2 {
            self.resolution = integer_at(parts, 1, DEFAULT_RESOLUTION);
        } else if text_eq(key, "CLK_DEF") && n >= 2 {
            self.clock_default = number_at(parts, 1, 384);
        } else if text_eq(key, "PROGJUDGE_BPM") && n >= 2 {
            self.progjudge_bpm = number_at(parts, 1, 240);
        } else if text_eq(key, "PROGJUDGE_AER") && n >= 2 {
            self.progjudge_aer = match NumberText::parse(parts[1].as_str()) {
                Some(number) => number,
                None => default_aer(),
            };
        } else if text_eq(key, "TUTORIAL") && n >= 2 {
            self.tutorial = text_eq(parts[1].as_str(), "1");
        } else if text_eq(key, "BPM") && n >= 4 {
            let entry = Bpm {
                measure: integer_at(parts, 1, 0),
                offset: integer_at(parts, 2, 0),
                bpm: number_at(parts, 3, 120),
            };
            self.bpm.push(entry);
            assert(self@.bpm =~= old(self)@.bpm.push(entry@));
        } else if text_eq(key, "MET") && n >= 5 {
            let entry = TimeSignature {
                measure: integer_at(parts, 1, 0),
                offset: integer_at(parts, 2, 0),
                numerator: integer_at(parts, 3, 4),
                denominator: integer_at(parts, 4, 4),
            };
            self.time_signatures.push(entry);
        } else if text_eq(key, "SFL") && n >= 5 {
            let entry = Sfl {
                measure: integer_at(parts, 1, 0),
                offset: integer_at(parts, 2, 0),
                duration: integer_at(parts, 3, 0),
                multiplier: number_at(parts, 4, 1),
            };
            self.sfl.push(entry);
            assert(self@.sfl =~= old(self)@.sfl.push(entry@));
        }
    }
}

/// Whether a field is a command keyword.
pub fn is_command_keyword(key: &str) -> (r: bool)
    ensures
        r == is_command(key@),
{
    text_eq(key, "VERSION") || text_eq(key, "MUSIC") || text_eq(key, "SEQUENCEID") || text_eq(
        key,
        "DIFFICULT",
    ) || text_eq(key, "LEVEL") || text_eq(key, "CREATOR") || text_eq(key, "BPM_DEF") || text_eq(
        key,
        "MET_DEF",
    ) || text_eq(key, "RESOLUTION") || text_eq(key, "CLK_DEF") || text_eq(key, "PROGJUDGE_BPM")
        || text_eq(key, "PROGJUDGE_AER") || text_eq(key, "TUTORIAL") || text_eq(key, "BPM")
        || text_eq(key, "MET") || text_eq(key, "SFL")
}

impl C2SChart {
    /// A chart without lines.
    pub fn new() -> (r: C2SChart)
        ensures
            r@ == decoded(Seq::empty()),
    {
        let r = C2SChart { metadata: C2SMetadata::default(), notes: Vec::new() };
        assert(r@.notes =~= Seq::empty());
        r
    }

    /// Takes in one more line.
    pub fn apply_line(&mut self, line: &str)
        ensures
            final(self)@ == line_applied(old(self)@, line@),
    {
        let parts = split_fields(line);
        proof {
            lemma_texts(parts@);
        }
        if parts.len() == 0 {
            return ;
        }
        if is_command_keyword(parts[0].as_str()) {
            self.metadata.apply_command(&parts);
            return ;
        }
        match Note::from_fields(&parts) {
            Ok(note) => {
                self.notes.push(note);
                assert(self@.notes =~= old(self)@.notes.push(note@));
            },
            Err(_) => {},
        }
    }

    /// Decodes a whole chart. This never fails: a record that denotes no
    /// note is passed over, and a command field that denotes no number gives
    /// its default.
    pub fn from_string(content: &str) -> (r: Result<C2SChart, C2sError>)
        ensures
            r matches Ok(chart) && chart@ == decoded(lines(content@)),
    {
        let all = split_lines(content);
        let mut chart = C2SChart::new();
        let mut i: usize = 0;
        proof {
            lemma_texts(all@);
            assert(texts(all@).take(0) =~= Seq::<Seq<char>>::empty());
        }
        while i < all.len()
            invariant
                i <= all.len(),
                chart@ == decoded(texts(all@).take(i as int)),
            decreases all.len() - i,
        {
            proof {
                lemma_texts(all@);
                assert(texts(all@).take(i + 1).drop_last() =~= texts(all@).take(i as int));
            }
            chart.apply_line(all[i].as_str());
            i += 1;
        }
        proof {
            assert(texts(all@).take(all.len() as int) =~= texts(all@));
        }
        Ok(chart)
    }
}

} // verus!
