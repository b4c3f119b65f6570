use chuni_chart::number::NumberText;
use chuni_chart::sus::{
    parse_chart_data_line, parse_hex_char, parse_lane, parse_line, parse_measure,
    parse_metadata_line, parse_sus, parse_sus_iter, sus_type_to_chuni_note_type, Note, SusChart,
    SusLine,
};
use chuni_chart::ChuniNoteType;

#[test]
fn test_parse_metadata() {
    let line = "#TITLE \"Test Song\"";
    let result = parse_line(line);
    match result {
        SusLine::Metadata { key, value } => {
            assert_eq!(key, "TITLE");
            assert_eq!(value, "Test Song");
        }
        _ => panic!("Expected metadata, got {:?}", result),
    }
}

#[test]
fn test_parse_comment() {
    let line = "This is a comment";
    let result = parse_line(line);
    match result {
        SusLine::Comment { content } => {
            assert_eq!(content, "This is a comment");
        }
        _ => panic!("Expected comment, got {:?}", result),
    }
}

#[test]
fn test_parse_bpm_definition() {
    let line = "#BPM01: 140.0";
    let result = parse_line(line);
    match result {
        SusLine::BpmDefinition { id, bpm } => {
            assert_eq!(id, "01");
            assert_eq!(bpm.as_str().parse::<f64>().unwrap(), 140.0);
        }
        _ => panic!("Expected BPM definition, got {:?}", result),
    }
}

#[test]
fn test_parse_measure_length() {
    let line = "#00002: 4.0";
    let result = parse_line(line);
    match result {
        SusLine::MeasureLength { measure, length } => {
            assert_eq!(measure, 0);
            assert_eq!(length.as_str().parse::<f64>().unwrap(), 4.0);
        }
        _ => panic!("Expected measure length, got {:?}", result),
    }
}

#[test]
fn test_parse_tap_notes() {
    let line = "#00010: 14141414";
    let result = parse_line(line);
    match result {
        SusLine::Note(note) => {
            assert_eq!(note.lane, 0);
            assert_eq!(note.note_type, ChuniNoteType::Tap);
            assert_eq!(note.width, 4);
        }
        _ => panic!("Expected tap note, got {:?}", result),
    }
}

#[test]
fn test_parse_hold_notes() {
    let line = "#00020a: 14002400";
    let result = parse_line(line);
    match result {
        SusLine::Note(note) => {
            assert_eq!(note.lane, 0);
            assert_eq!(note.note_type, ChuniNoteType::Hold);
            assert_eq!(note.width, 4);
        }
        _ => panic!("Expected hold note, got {:?}", result),
    }
}

#[test]
fn test_parse_slide_notes() {
    let line = "#00030a: 14340024";
    let result = parse_line(line);
    match result {
        SusLine::Note(note) => {
            assert_eq!(note.lane, 0);
            assert_eq!(note.note_type, ChuniNoteType::Slide);
            assert_eq!(note.width, 4);
        }
        _ => panic!("Expected slide note, got {:?}", result),
    }
}

#[test]
fn test_parse_full_sus() {
    let content = "#TITLE \"Test Song\"
#ARTIST \"Test Artist\"
#BPM01: 120.0
This is a comment
#00002: 4.0
#00008: 01
#00010: 14141414";

    let chart = parse_sus(content);
    assert_eq!(chart.metadata.get("TITLE"), Some(&"Test Song".to_string()));
    assert_eq!(
        chart.metadata.get("ARTIST"),
        Some(&"Test Artist".to_string())
    );
    assert_eq!(chart.lines.len(), 7);

    let lines: Vec<&str> = content.lines().collect();
    let chart_iter = parse_sus_iter(&lines);
    assert_eq!(
        chart_iter.metadata.get("TITLE"),
        Some(&"Test Song".to_string())
    );
    assert_eq!(
        chart_iter.metadata.get("ARTIST"),
        Some(&"Test Artist".to_string())
    );
    assert_eq!(chart_iter.lines.len(), 7);
}

#[test]
fn test_parse_hex_measure() {
    assert_eq!(parse_measure("000"), Some(0));
    assert_eq!(parse_measure("001"), Some(1));
    assert_eq!(parse_measure("00a"), Some(10));
    assert_eq!(parse_measure("010"), Some(36));
}

#[test]
fn measures_in_base_36() {
    assert_eq!(parse_measure("00A"), Some(10));
    assert_eq!(parse_measure("00z"), Some(35));
    assert_eq!(parse_measure("100"), Some(1296));
    assert_eq!(parse_measure("zzz"), Some(46655));
    assert_eq!(parse_measure("ZZZ"), Some(46655));
    assert_eq!(parse_measure("BPM"), Some(15178));
    assert_eq!(parse_measure(""), None);
    assert_eq!(parse_measure("00"), None);
    assert_eq!(parse_measure("0000"), None);
    assert_eq!(parse_measure("0 0"), None);
    assert_eq!(parse_measure("+00"), None);
    assert_eq!(parse_measure("0-0"), None);
    assert_eq!(parse_measure("00é"), None);
}

#[test]
fn base_36_digits() {
    assert_eq!(parse_hex_char('0'), Some(0));
    assert_eq!(parse_hex_char('9'), Some(9));
    assert_eq!(parse_hex_char('a'), Some(10));
    assert_eq!(parse_hex_char('f'), Some(15));
    assert_eq!(parse_hex_char('g'), Some(16));
    assert_eq!(parse_hex_char('z'), Some(35));
    assert_eq!(parse_hex_char('A'), Some(10));
    assert_eq!(parse_hex_char('Z'), Some(35));
    assert_eq!(parse_hex_char(' '), None);
    assert_eq!(parse_hex_char('/'), None);
    assert_eq!(parse_hex_char(':'), None);
    assert_eq!(parse_hex_char('@'), None);
    assert_eq!(parse_hex_char('['), None);
    assert_eq!(parse_hex_char('`'), None);
    assert_eq!(parse_hex_char('{'), None);
    assert_eq!(parse_hex_char('é'), None);
    for c in ['0', '7', 'b', 'Q', '#'] {
        assert_eq!(parse_lane(c), parse_hex_char(c));
        assert_eq!(parse_hex_char(c), c.to_digit(36).map(|d| d as u8));
    }
}

#[test]
fn type_digits() {
    for d in 1..=6 {
        assert_eq!(sus_type_to_chuni_note_type(d, None), ChuniNoteType::Tap);
    }
    assert_eq!(sus_type_to_chuni_note_type(0x20, None), ChuniNoteType::Hold);
    assert_eq!(sus_type_to_chuni_note_type(0x2f, None), ChuniNoteType::Hold);
    assert_eq!(sus_type_to_chuni_note_type(0x30, None), ChuniNoteType::Slide);
    assert_eq!(sus_type_to_chuni_note_type(0x4f, None), ChuniNoteType::Slide);
    assert_eq!(sus_type_to_chuni_note_type(0x50, None), ChuniNoteType::Flick);
    assert_eq!(sus_type_to_chuni_note_type(0x5f, None), ChuniNoteType::Flick);
    assert_eq!(
        sus_type_to_chuni_note_type(0, None),
        ChuniNoteType::Unknown("SUS type 0".to_string())
    );
    assert_eq!(
        sus_type_to_chuni_note_type(7, None),
        ChuniNoteType::Unknown("SUS type 7".to_string())
    );
    assert_eq!(
        sus_type_to_chuni_note_type(0x1f, None),
        ChuniNoteType::Unknown("SUS type 1F".to_string())
    );
    assert_eq!(
        sus_type_to_chuni_note_type(0x60, None),
        ChuniNoteType::Unknown("SUS type 60".to_string())
    );
    assert_eq!(
        sus_type_to_chuni_note_type(255, None),
        ChuniNoteType::Unknown("SUS type FF".to_string())
    );
    assert_eq!(
        sus_type_to_chuni_note_type(0xab, Some(2)),
        ChuniNoteType::Unknown("SUS type AB".to_string())
    );
    assert_eq!(sus_type_to_chuni_note_type(0, Some(3)), ChuniNoteType::Slide);
    assert_eq!(sus_type_to_chuni_note_type(1, Some(4)), ChuniNoteType::Slide);
    assert_eq!(sus_type_to_chuni_note_type(1, Some(5)), ChuniNoteType::Tap);
}

#[test]
fn empty_lines_are_empty_comments() {
    assert_eq!(parse_line(""), SusLine::comment(""));
    assert_eq!(parse_line("  \t\r"), SusLine::comment(""));
    assert_eq!(parse_line("  text  "), SusLine::comment("text"));
    assert_eq!(parse_line("a: b"), SusLine::comment("a: b"));
}

#[test]
fn declarations() {
    assert_eq!(parse_line("#NOATTRIBUTE"), SusLine::metadata("NOATTRIBUTE", ""));
    assert_eq!(
        parse_line("#ARTIST   Some  One  "),
        SusLine::metadata("ARTIST", "Some  One")
    );
    assert_eq!(parse_line("#WAVE \"a b.wav\""), SusLine::metadata("WAVE", "a b.wav"));
    assert_eq!(parse_line("#Q \""), SusLine::metadata("Q", "\""));
    assert_eq!(parse_line("#Q \"\""), SusLine::metadata("Q", ""));
    assert_eq!(parse_line("#Q \"open"), SusLine::metadata("Q", "\"open"));
    assert_eq!(parse_line("# spaced"), SusLine::metadata("", "spaced"));
    assert_eq!(parse_line("#"), SusLine::metadata("", ""));
    assert_eq!(parse_metadata_line("TITLE x"), None);
    assert_eq!(parse_metadata_line(""), None);
    assert_eq!(
        parse_metadata_line("#TITLE x"),
        Some(SusLine::metadata("TITLE", "x"))
    );
}

#[test]
fn table_entries() {
    let number = |t: &str| NumberText::parse(t).unwrap();
    assert_eq!(
        parse_line("#BPM01: 140.0"),
        SusLine::bpm_definition("01", number("140.0"))
    );
    assert_eq!(
        parse_line("#ATR01: pr:100, h:1.5"),
        SusLine::attribute_definition("01", "pr:100, h:1.5")
    );
    assert_eq!(
        parse_line("#TIL00: \"0'0:1.0, 0'960:2.0\""),
        SusLine::hi_speed_definition("00", "\"0'0:1.0, 0'960:2.0\"")
    );
    assert_eq!(
        parse_line("#ATRx:"),
        SusLine::attribute_definition("x", "")
    );
    // a table prefix without an identifier is no table entry
    assert_eq!(
        parse_line("#ATR: x"),
        SusLine::Unknown {
            content: "#ATR: x".to_string()
        }
    );
}

#[test]
fn tempo_entry_without_number_is_read_on() {
    assert_eq!(
        parse_line("#BPM01: fast"),
        SusLine::Unknown {
            content: "#BPM01: fast".to_string()
        }
    );
    assert_eq!(
        parse_line("#BPM1: fast"),
        SusLine::Unknown {
            content: "#BPM1: fast".to_string()
        }
    );
    // BPM are three base-36 digits too
    assert_eq!(
        parse_line("#BPM08: fast"),
        SusLine::bpm_change(15178, 0, "fast")
    );
    assert_eq!(
        parse_line("#BPM1a: x"),
        SusLine::tap_notes(15178, 10, "x")
    );
}

#[test]
fn measure_lines() {
    let number = |t: &str| NumberText::parse(t).unwrap();
    assert_eq!(
        parse_line("#00a02: 4"),
        SusLine::measure_length(10, number("4"))
    );
    assert_eq!(
        parse_line("#00002: four"),
        SusLine::Unknown {
            content: "#00002: four".to_string()
        }
    );
    assert_eq!(parse_line("#01008: 01"), SusLine::bpm_change(36, 0, "01"));
    assert_eq!(
        parse_line("#00003: 1"),
        SusLine::Unknown {
            content: "#00003: 1".to_string()
        }
    );
    assert_eq!(
        parse_line("#000023: 1"),
        SusLine::Unknown {
            content: "#000023: 1".to_string()
        }
    );
}

#[test]
fn short_payloads_stay_raw() {
    assert_eq!(parse_line("#0001c: 1"), SusLine::tap_notes(0, 12, "1"));
    assert_eq!(parse_line("#0001c:"), SusLine::tap_notes(0, 12, ""));
    assert_eq!(parse_line("#0122ab: 1"), SusLine::hold_notes(38, 10, 11, "1"));
    assert_eq!(
        parse_line("#0123ab: 1"),
        SusLine::slide_notes(38, 3, 10, 11, "1")
    );
    assert_eq!(
        parse_line("#0124ab:"),
        SusLine::slide_notes(38, 4, 10, 11, "")
    );
    assert_eq!(
        parse_line("#00052: 1"),
        SusLine::directional_notes(0, 2, "1")
    );
}

#[test]
fn long_payloads_spell_notes() {
    let note = |lane, note_type, width| {
        SusLine::note(Note {
            lane,
            tick: 0,
            note_type,
            width,
        })
    };
    assert_eq!(parse_line("#0001c: 1z"), note(12, ChuniNoteType::Tap, 35));
    assert_eq!(parse_line("#0001c: 1-"), note(12, ChuniNoteType::Tap, 1));
    assert_eq!(parse_line("#0002ab: 1G"), note(10, ChuniNoteType::Hold, 16));
    assert_eq!(parse_line("#0003ab: 14"), note(10, ChuniNoteType::Slide, 4));
    assert_eq!(parse_line("#0004ab: 14"), note(10, ChuniNoteType::Slide, 4));
    assert_eq!(parse_line("#00052: 14"), note(2, ChuniNoteType::Tap, 4));
    assert_eq!(parse_line("#00052: w4"), note(2, ChuniNoteType::Hold, 4));
    assert_eq!(
        parse_line("#00052: 84"),
        note(2, ChuniNoteType::Unknown("SUS type 8".to_string()), 4)
    );
    assert_eq!(
        parse_line("#00052: v4"),
        note(2, ChuniNoteType::Unknown("SUS type 1F".to_string()), 4)
    );
    // a type character that is no digit counts as 5
    assert_eq!(parse_line("#00052: -4"), note(2, ChuniNoteType::Tap, 4));
}

#[test]
fn lines_of_no_known_shape() {
    let unknown = |t: &str| SusLine::Unknown {
        content: t.to_string(),
    };
    assert_eq!(parse_line("#0001: 14"), unknown("#0001: 14"));
    assert_eq!(parse_line("#00=10: 14"), unknown("#00=10: 14"));
    assert_eq!(parse_line("#0001-: 14"), unknown("#0001-: 14"));
    assert_eq!(parse_line("#0002a: 14"), unknown("#0002a: 14"));
    assert_eq!(parse_line("#0002a-: 14"), unknown("#0002a-: 14"));
    assert_eq!(parse_line("#0003-a: 14"), unknown("#0003-a: 14"));
    assert_eq!(parse_line("#00060: 14"), unknown("#00060: 14"));
    assert_eq!(parse_line("#:"), unknown("#:"));
    assert_eq!(parse_line("  #TITLE: x  "), unknown("#TITLE: x"));
}

#[test]
fn header_is_trimmed_and_loses_its_signs() {
    assert_eq!(parse_line("##00010 :  14  "), parse_line("#00010:14"));
    assert_eq!(
        parse_chart_data_line("00010: 1"),
        Some(SusLine::tap_notes(0, 0, "1"))
    );
    assert_eq!(parse_chart_data_line("#00010 1"), None);
    assert_eq!(
        parse_chart_data_line(" #00010 : 1 "),
        Some(SusLine::tap_notes(0, 0, "1"))
    );
    // only the first colon divides
    assert_eq!(
        parse_chart_data_line("#00008: a:b"),
        Some(SusLine::bpm_change(0, 0, "a:b"))
    );
}

#[test]
fn later_declaration_replaces_earlier() {
    let chart = parse_sus("#TITLE one\n#ARTIST x\n#TITLE two\n");
    assert_eq!(chart.lines.len(), 3);
    assert_eq!(chart.metadata.get("TITLE"), Some(&"two".to_string()));
    assert_eq!(chart.metadata.get("ARTIST"), Some(&"x".to_string()));
    assert_eq!(chart.metadata.get("title"), None);
    assert!(chart.metadata.contains_key("TITLE"));
    assert!(!chart.metadata.contains_key("GENRE"));
}

#[test]
fn every_line_is_kept_in_order() {
    let chart = parse_sus("\n#00010: 14\n\nnote\n#x\n");
    assert_eq!(
        chart.lines,
        vec![
            SusLine::comment(""),
            parse_line("#00010: 14"),
            SusLine::comment(""),
            SusLine::comment("note"),
            SusLine::metadata("x", ""),
        ]
    );
    assert_eq!(parse_sus("").lines.len(), 0);
    assert_eq!(parse_sus("\n").lines.len(), 1);
    assert_eq!(parse_sus("a").lines.len(), 1);
    assert_eq!(parse_sus("a\n").lines.len(), 1);
    assert_eq!(parse_sus("a\r\nb\r\n").lines, vec![SusLine::comment("a"), SusLine::comment("b")]);
    assert_eq!(parse_sus_iter(&[]).lines.len(), 0);
}

#[test]
fn chart_builders() {
    let mut chart = SusChart::new();
    chart
        .metadata("TITLE", "Test Song")
        .note(Note {
            lane: 1,
            tick: 480,
            note_type: ChuniNoteType::Tap,
            width: 1,
        })
        .new_line(SusLine::comment("A comment"));
    chart.comment("Another");
    chart.new_line(SusLine::metadata("TITLE", "Other"));
    chart.new_line(SusLine::tap_notes(0, 1, "14141414"));
    assert_eq!(chart.lines.len(), 6);
    assert_eq!(chart.metadata.get("TITLE"), Some(&"Other".to_string()));
    assert_eq!(chart.lines[0], SusLine::metadata("TITLE", "Test Song"));
    assert_eq!(chart.lines[3], SusLine::comment("Another"));
    match &chart.lines[1] {
        SusLine::Note(note) => assert_eq!(note.tick, 480),
        other => panic!("Expected a note, got {:?}", other),
    }
}
