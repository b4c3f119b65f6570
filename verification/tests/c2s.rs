use chuni_chart::c2s::{
    c2s_note_type_to_string, string_to_note_type, C2SChart, C2SMetadata, C2sError, Field, Note,
};
use chuni_chart::number::NumberText;
use chuni_chart::{AirDirection, ChuniNoteType};

fn float(n: &NumberText) -> f32 {
    n.as_str().parse::<f32>().unwrap()
}

fn opt_float(n: &Option<NumberText>) -> Option<f32> {
    n.as_ref().map(float)
}

const CYAEGHA_NOTES: &str = "TAP 8 0 6 4
TAP 8 0 12 4
SLC 8 96 4 4 7 3 4
TAP 8 96 10 4
SLC 8 103 3 4 10 2 4
SLC 8 113 2 4 13 1 4
SLC 8 126 1 4 22 0 4
SLD 8 148 0 4 236 0 4
TAP 8 192 8 4
SLC 8 288 6 4 4 7 4
SLC 8 292 7 4 12 9 4
SLC 8 304 9 4 9 10 4
SLC 8 313 10 4 12 11 4
SLC 8 325 11 4 23 12 4
SLD 8 348 12 4 36 12 4
AHD 9 0 0 4 SLD 192
CHR 9 0 4 8 CE
AIR 9 0 4 8 CHR
AHD 9 0 12 4 SLD 192
TAP 9 288 3 4
TAP 9 288 9 4";

#[test]
fn test_c2s_note_parsing_1080() {
    let lines: Vec<&str> = CYAEGHA_NOTES.lines().collect();
    let mut notes = Vec::new();

    for line in lines {
        match Note::from_line(line) {
            Ok(note) => {
                println!("{:?}", note);
                notes.push(note);
            }
            Err(e) => panic!("Failed to parse note: {:?}", e),
        }
    }

    assert_eq!(notes[0].note_type, ChuniNoteType::Tap);
    assert_eq!(notes[1].note_type, ChuniNoteType::Tap);
    assert_eq!(notes[2].note_type, ChuniNoteType::SlideControlPoint);
    assert_eq!(notes[3].note_type, ChuniNoteType::Tap);
    assert_eq!(notes[4].note_type, ChuniNoteType::SlideControlPoint);
    assert_eq!(notes[5].note_type, ChuniNoteType::SlideControlPoint);
    assert_eq!(notes[6].note_type, ChuniNoteType::SlideControlPoint);
    assert_eq!(notes[7].note_type, ChuniNoteType::Slide);
    assert_eq!(notes[8].note_type, ChuniNoteType::Tap);
    assert_eq!(notes[9].note_type, ChuniNoteType::SlideControlPoint);
}

const ADVANCED_NOTES: &str = "TAP\t4\t0\t4\t4
TAP\t4\t96\t8\t4
CHR\t4\t192\t0\t16\tUP
HLD\t5\t0\t0\t4\t192
HXD\t5\t0\t12\t4\t192
SLD\t6\t0\t4\t4\t96\t8\t4
SLC\t6\t96\t8\t4\t96\t4\t4
SXD\t6\t192\t4\t4\t96\t8\t4
SXC\t6\t288\t8\t4\t96\t4\t4
FLK\t7\t0\t6\t4\tL
AIR\t7\t0\t6\t4\tFLK\tDEF
AUR\t7\t96\t0\t4\tTAP\tDEF
AUL\t7\t96\t12\t4\tTAP\tDEF
ADW\t7\t192\t4\t8\tTAP\tDEF
ADR\t7\t288\t0\t4\tTAP\tDEF
ADL\t7\t288\t12\t4\tTAP\tDEF
AHD\t8\t0\t4\t4\tTAP\t192\tDEF
AHX\t8\t192\t4\t4\tTAP\t192\tDEF
ALD\t9\t0\t0\t4\t6\t1.0\t96\t8\t4\t1.0\tDEF
ASC\t9\t96\t8\t4\tALD\t1.0\t96\t0\t4\t1.0\tDEF
ASD\t9\t192\t0\t4\tASC\t1.0\t96\t8\t4\t1.0\tDEF
MNE\t10\t0\t8\t2";

#[test]
fn test_chronomia_adv_1130() {
    let lines: Vec<&str> = ADVANCED_NOTES.lines().collect();
    let mut notes = Vec::new();

    for line in lines {
        println!("Parsing line: {}", line);
        match Note::from_line(line) {
            Ok(note) => {
                println!("{:?}", note);
                notes.push(note);
            }
            Err(e) => panic!("Failed to parse note: {:?}", e),
        }
    }
    assert_eq!(notes.len(), 22);
}

#[test]
fn test_asd_wrapped_note_info() {
    let asd_line = "ASD 12 0 0 6 CHR 5.0 384 0 3 5.0 DEF";
    let note = Note::from_line(asd_line).unwrap();

    assert_eq!(note.note_type, ChuniNoteType::ExTap);
    assert_eq!(note.measure, 12);
    assert_eq!(note.offset, 0);
    assert_eq!(note.duration, Some(384));
    assert_eq!(opt_float(&note.end_cell), Some(0.0));
    assert_eq!(opt_float(&note.end_width), Some(3.0));

    assert!(note.wrapped_note_info.is_some());
    let wrapped_info = note.wrapped_note_info.unwrap();
    assert_eq!(wrapped_info.original_format, "ASD");
    assert_eq!(wrapped_info.wrapped_type, "CHR");
    assert_eq!(float(&wrapped_info.param1), 5.0);
    assert_eq!(float(&wrapped_info.param2), 5.0);
    assert_eq!(wrapped_info.param3, "DEF");

    let asc_line = "ASC 2 96 12 4 SLD 5.0 12 6 4 5.0 DEF";
    let note = Note::from_line(asc_line).unwrap();

    assert_eq!(note.note_type, ChuniNoteType::Slide);
    assert!(note.wrapped_note_info.is_some());
    let wrapped_info = note.wrapped_note_info.unwrap();
    assert_eq!(wrapped_info.original_format, "ASC");
    assert_eq!(wrapped_info.wrapped_type, "SLD");

    let asc_asc_line = "ASC 5 336 9 4 ASC 5.0 22 9 5 5.0 DEF";
    let note = Note::from_line(asc_asc_line).unwrap();

    assert_eq!(note.note_type, ChuniNoteType::AirSlideControlPoint);
    assert!(note.wrapped_note_info.is_some());
    let wrapped_info = note.wrapped_note_info.unwrap();
    assert_eq!(wrapped_info.original_format, "ASC");
    assert_eq!(wrapped_info.wrapped_type, "ASC");

    let regular_line = "TAP 8 0 6 4";
    let note = Note::from_line(regular_line).unwrap();
    assert_eq!(note.note_type, ChuniNoteType::Tap);
    assert!(note.wrapped_note_info.is_none());
}

#[test]
fn test_full_chart_with_metadata() {
    let chart_content = "VERSION\t1.12.00\t1.12.00
MUSIC\t0
SEQUENCEID\t0
DIFFICULT\t00
LEVEL\t0.0
CREATOR\tみぞれヤナギ
BPM_DEF\t135.000\t135.000\t135.000\t135.000
MET_DEF\t4\t4
RESOLUTION\t384
CLK_DEF\t384
PROGJUDGE_BPM\t240.000
PROGJUDGE_AER\t  0.999
TUTORIAL\t0

BPM\t0\t0\t135.000
MET\t0\t0\t4\t4

TAP\t0\t0\t8\t4
CHR\t0\t192\t4\t8\tCE
HLD\t1\t0\t0\t4\t192
SLD\t2\t0\t12\t4\t192\t8\t4
AHD\t3\t0\t6\t4\tTAP\t96
AIR\t3\t0\t6\t4\tTAP
TAP\t4\t0\t0\t16";

    let chart = C2SChart::from_string(chart_content).unwrap();

    assert_eq!(chart.metadata.version[0], "1.12.00");
    assert_eq!(chart.metadata.version[1], "1.12.00");
    assert_eq!(chart.metadata.music, 0);
    assert_eq!(chart.metadata.sequence_id, 0);
    assert_eq!(chart.metadata.difficulty, 0);
    assert_eq!(float(&chart.metadata.level) as u32, 0);
    assert_eq!(chart.metadata.creator, "みぞれヤナギ");
    assert_eq!(
        chart.metadata.bpm_default.each_ref().map(float),
        [135.0, 135.0, 135.0, 135.0]
    );
    assert_eq!(chart.metadata.metronome_def, Some([4, 4, 0, 0]));
    assert_eq!(chart.metadata.resolution, 384);
    assert_eq!(float(&chart.metadata.clock_default), 384.0);
    assert_eq!(float(&chart.metadata.progjudge_bpm), 240.0);
    assert_eq!(float(&chart.metadata.progjudge_aer), 0.999);
    assert!(!chart.metadata.tutorial);

    assert_eq!(chart.metadata.bpm.len(), 1);
    assert_eq!(chart.metadata.bpm[0].measure, 0);
    assert_eq!(chart.metadata.bpm[0].offset, 0);
    assert_eq!(float(&chart.metadata.bpm[0].bpm), 135.0);

    assert_eq!(chart.metadata.time_signatures.len(), 1);
    assert_eq!(chart.metadata.time_signatures[0].measure, 0);
    assert_eq!(chart.metadata.time_signatures[0].offset, 0);
    assert_eq!(chart.metadata.time_signatures[0].numerator, 4);
    assert_eq!(chart.metadata.time_signatures[0].denominator, 4);

    assert_eq!(chart.notes.len(), 7);
    assert_eq!(chart.notes[0].note_type, ChuniNoteType::Tap);
    assert_eq!(chart.notes[1].note_type, ChuniNoteType::ExTap);
    assert_eq!(chart.notes[2].note_type, ChuniNoteType::Hold);
    assert_eq!(chart.notes[3].note_type, ChuniNoteType::Slide);
    assert_eq!(chart.notes[4].note_type, ChuniNoteType::AirHold);
    assert_eq!(chart.notes[5].note_type, ChuniNoteType::Air);
    assert_eq!(chart.notes[6].note_type, ChuniNoteType::Tap);

    assert_eq!(chart.notes[1].chr_modifier, Some("CE".to_string()));
    assert_eq!(chart.notes[2].duration, Some(192));
    assert_eq!(opt_float(&chart.notes[3].end_cell), Some(8.0));
    assert_eq!(opt_float(&chart.notes[3].end_width), Some(4.0));
    assert_eq!(chart.notes[4].target_note, Some("TAP".to_string()));
    assert_eq!(chart.notes[4].duration, Some(96));
    assert_eq!(chart.notes[5].target_note, Some("TAP".to_string()));

    assert_eq!(chart.notes[6].cell, 0);
    assert_eq!(chart.notes[6].width, 16);
}

#[test]
fn test_air_action_and_air_crush_notes() {
    let chart_content = "VERSION\t1.13.00\t1.13.00
MUSIC\t2699
SEQUENCEID\t3
DIFFICULT\t03
LEVEL\t13.0
CREATOR\tSOMEONE
BPM_DEF\t175.000\t175.000\t175.000\t175.000
MET_DEF\t4\t4
RESOLUTION\t384
CLK_DEF\t384
PROGJUDGE_BPM\t240.000
PROGJUDGE_AER\t0.999
TUTORIAL\t0

BPM\t0\t0\t175.000
MET\t0\t0\t4\t4

TAP\t5\t0\t8\t4
AHX\t5\t96\t8\t4\tSLD\t96\tDEF
CHR\t6\t0\t4\t8\tRS
ALD\t6\t96\t4\t8\t38400\t5.0\t1\t4\t8\t5.0\tNON
ALD\t6\t192\t5\t6\t6\t3.0\t1\t5\t6\t3.0\tNON
ALD\t6\t192\t6\t4\t6\t2.0\t1\t6\t4\t2.0\tNON
ALD\t6\t192\t7\t2\t6\t1.0\t1\t7\t2\t1.0\tNON";

    let chart = C2SChart::from_string(chart_content).unwrap();

    assert_eq!(chart.metadata.version[0], "1.13.00");
    assert_eq!(chart.metadata.music, 2699);
    assert_eq!(chart.metadata.sequence_id, 3);
    assert_eq!(chart.metadata.difficulty, 3);
    assert_eq!(float(&chart.metadata.level) as u32, 13);
    assert_eq!(chart.metadata.creator, "SOMEONE");
    assert_eq!(float(&chart.metadata.bpm_default[0]), 175.0);

    assert_eq!(chart.notes.len(), 7);

    assert_eq!(chart.notes[0].note_type, ChuniNoteType::Tap);

    assert_eq!(chart.notes[1].note_type, ChuniNoteType::AirHoldGround);
    assert_eq!(chart.notes[1].target_note, Some("SLD".to_string()));
    assert_eq!(chart.notes[1].duration, Some(96));

    assert_eq!(chart.notes[2].note_type, ChuniNoteType::ExTap);
    assert_eq!(chart.notes[2].chr_modifier, Some("RS".to_string()));

    assert_eq!(chart.notes[3].note_type, ChuniNoteType::AirSlide);
    assert_eq!(chart.notes[3].duration, Some(38400));

    assert_eq!(chart.notes[4].note_type, ChuniNoteType::AirSlide);
    assert_eq!(chart.notes[5].note_type, ChuniNoteType::AirSlide);
    assert_eq!(chart.notes[6].note_type, ChuniNoteType::AirSlide);

    assert_eq!(chart.notes[4].measure, 6);
    assert_eq!(chart.notes[4].offset, 192);
    assert_eq!(chart.notes[5].measure, 6);
    assert_eq!(chart.notes[5].offset, 192);
    assert_eq!(chart.notes[6].measure, 6);
    assert_eq!(chart.notes[6].offset, 192);

    assert_eq!(chart.notes[4].cell, 5);
    assert_eq!(chart.notes[4].width, 6);
    assert_eq!(chart.notes[5].cell, 6);
    assert_eq!(chart.notes[5].width, 4);
    assert_eq!(chart.notes[6].cell, 7);
    assert_eq!(chart.notes[6].width, 2);
}

#[test]
fn test_comprehensive_metadata_parsing() {
    let chart_content = "VERSION\t1.13.00\t1.13.00
MUSIC\t2699
SEQUENCEID\t3
DIFFICULT\t03
LEVEL\t13.2
CREATOR\tSOMEONE
BPM_DEF\t120.000\t120.000\t120.000\t120.000
MET_DEF\t4\t4
RESOLUTION\t384
CLK_DEF\t384
PROGJUDGE_BPM\t240.000
PROGJUDGE_AER\t0.999
TUTORIAL\t0

BPM\t0\t0\t120.000
BPM\t4\t0\t160.000
BPM\t8\t192\t140.000
BPM\t16\t0\t180.000

MET\t0\t0\t4\t4
MET\t8\t0\t3\t4
MET\t12\t0\t4\t4

SFL\t0\t0\t192\t1.0
SFL\t4\t0\t384\t1.5
SFL\t8\t0\t192\t0.8
SFL\t12\t0\t96\t2.0

TAP\t0\t0\t8\t4
HLD\t1\t0\t0\t4\t192
CHR\t2\t0\t12\t4\tUP
SLD\t3\t0\t4\t4\t192\t8\t4
FLK\t4\t0\t0\t2
AIR\t4\t0\t0\t2\tFLK
SLC\t4\t96\t8\t4\t96\t12\t4
SLD\t4\t192\t12\t4\t192\t4\t4
AHD\t5\t0\t4\t4\tSLD\t192
MNE\t6\t0\t2\t2
TAP\t7\t0\t14\t2
AUR\t7\t96\t14\t2\tTAP
AUL\t7\t192\t14\t2\tTAP
ADW\t7\t288\t14\t2\tTAP
ALD\t8\t0\t6\t4\t192\t10\t4\t5.0\tNON
ASC\t8\t96\t10\t4\t96\t8\t4\t3.0\tDEF
ASD\t9\t0\t0\t6\tCHR\t5.0\t384\t0\t3\t5.0\tDEF
AHX\t10\t0\t8\t4\tTAP\t192\tDEF";

    let chart = C2SChart::from_string(chart_content).unwrap();

    assert_eq!(chart.metadata.version[0], "1.13.00");
    assert_eq!(chart.metadata.version[1], "1.13.00");
    assert_eq!(chart.metadata.music, 2699);
    assert_eq!(chart.metadata.sequence_id, 3);
    assert_eq!(chart.metadata.difficulty, 3);
    assert_eq!(float(&chart.metadata.level) as u32, 13);
    assert_eq!(chart.metadata.creator, "SOMEONE");
    assert_eq!(
        chart.metadata.bpm_default.each_ref().map(float),
        [120.0, 120.0, 120.0, 120.0]
    );
    assert_eq!(chart.metadata.metronome_def, Some([4, 4, 0, 0]));
    assert_eq!(chart.metadata.resolution, 384);
    assert_eq!(float(&chart.metadata.clock_default), 384.0);
    assert_eq!(float(&chart.metadata.progjudge_bpm), 240.0);
    assert_eq!(float(&chart.metadata.progjudge_aer), 0.999);
    assert!(!chart.metadata.tutorial);

    assert_eq!(chart.metadata.bpm.len(), 4);
    assert_eq!(chart.metadata.bpm[0].measure, 0);
    assert_eq!(chart.metadata.bpm[0].offset, 0);
    assert_eq!(float(&chart.metadata.bpm[0].bpm), 120.0);
    assert_eq!(chart.metadata.bpm[1].measure, 4);
    assert_eq!(chart.metadata.bpm[1].offset, 0);
    assert_eq!(float(&chart.metadata.bpm[1].bpm), 160.0);
    assert_eq!(chart.metadata.bpm[2].measure, 8);
    assert_eq!(chart.metadata.bpm[2].offset, 192);
    assert_eq!(float(&chart.metadata.bpm[2].bpm), 140.0);
    assert_eq!(chart.metadata.bpm[3].measure, 16);
    assert_eq!(chart.metadata.bpm[3].offset, 0);
    assert_eq!(float(&chart.metadata.bpm[3].bpm), 180.0);

    assert_eq!(chart.metadata.time_signatures.len(), 3);
    assert_eq!(chart.metadata.time_signatures[0].measure, 0);
    assert_eq!(chart.metadata.time_signatures[0].offset, 0);
    assert_eq!(chart.metadata.time_signatures[0].numerator, 4);
    assert_eq!(chart.metadata.time_signatures[0].denominator, 4);
    assert_eq!(chart.metadata.time_signatures[1].measure, 8);
    assert_eq!(chart.metadata.time_signatures[1].offset, 0);
    assert_eq!(chart.metadata.time_signatures[1].numerator, 3);
    assert_eq!(chart.metadata.time_signatures[1].denominator, 4);
    assert_eq!(chart.metadata.time_signatures[2].measure, 12);
    assert_eq!(chart.metadata.time_signatures[2].offset, 0);
    assert_eq!(chart.metadata.time_signatures[2].numerator, 4);
    assert_eq!(chart.metadata.time_signatures[2].denominator, 4);

    assert_eq!(chart.metadata.sfl.len(), 4);
    assert_eq!(chart.metadata.sfl[0].measure, 0);
    assert_eq!(chart.metadata.sfl[0].offset, 0);
    assert_eq!(chart.metadata.sfl[0].duration, 192);
    assert_eq!(float(&chart.metadata.sfl[0].multiplier), 1.0);
    assert_eq!(chart.metadata.sfl[1].measure, 4);
    assert_eq!(chart.metadata.sfl[1].offset, 0);
    assert_eq!(chart.metadata.sfl[1].duration, 384);
    assert_eq!(float(&chart.metadata.sfl[1].multiplier), 1.5);
    assert_eq!(chart.metadata.sfl[2].measure, 8);
    assert_eq!(chart.metadata.sfl[2].offset, 0);
    assert_eq!(chart.metadata.sfl[2].duration, 192);
    assert_eq!(float(&chart.metadata.sfl[2].multiplier), 0.8);
    assert_eq!(chart.metadata.sfl[3].measure, 12);
    assert_eq!(chart.metadata.sfl[3].offset, 0);
    assert_eq!(chart.metadata.sfl[3].duration, 96);
    assert_eq!(float(&chart.metadata.sfl[3].multiplier), 2.0);

    assert_eq!(chart.notes.len(), 18);

    assert_eq!(chart.notes[0].note_type, ChuniNoteType::Tap);
    assert_eq!(chart.notes[1].note_type, ChuniNoteType::Hold);
    assert_eq!(chart.notes[2].note_type, ChuniNoteType::ExTap);
    assert_eq!(chart.notes[3].note_type, ChuniNoteType::Slide);
    assert_eq!(chart.notes[4].note_type, ChuniNoteType::Flick);
    assert_eq!(chart.notes[5].note_type, ChuniNoteType::Air);
    assert_eq!(chart.notes[6].note_type, ChuniNoteType::SlideControlPoint);
    assert_eq!(chart.notes[7].note_type, ChuniNoteType::Slide);
    assert_eq!(chart.notes[8].note_type, ChuniNoteType::AirHold);
    assert_eq!(chart.notes[9].note_type, ChuniNoteType::Mine);
    assert_eq!(chart.notes[10].note_type, ChuniNoteType::Tap);
    assert_eq!(
        chart.notes[11].note_type,
        ChuniNoteType::AirDirectional(AirDirection::UpRight)
    );
    assert_eq!(
        chart.notes[12].note_type,
        ChuniNoteType::AirDirectional(AirDirection::UpLeft)
    );
    assert_eq!(
        chart.notes[13].note_type,
        ChuniNoteType::AirDirectional(AirDirection::Down)
    );
    assert_eq!(chart.notes[14].note_type, ChuniNoteType::AirSlide);
    assert_eq!(
        chart.notes[15].note_type,
        ChuniNoteType::AirSlideControlPoint
    );
    assert_eq!(chart.notes[16].note_type, ChuniNoteType::ExTap);
    assert_eq!(chart.notes[17].note_type, ChuniNoteType::AirHoldGround);

    assert_eq!(chart.notes[1].duration, Some(192));
    assert_eq!(chart.notes[2].chr_modifier, Some("UP".to_string()));
    assert_eq!(opt_float(&chart.notes[3].end_cell), Some(8.0));
    assert_eq!(opt_float(&chart.notes[3].end_width), Some(4.0));
    assert_eq!(chart.notes[4].flick_modifier, Some("L".to_string()));
    assert_eq!(chart.notes[5].target_note, Some("FLK".to_string()));
    assert_eq!(chart.notes[8].target_note, Some("SLD".to_string()));
    assert_eq!(chart.notes[8].duration, Some(192));

    assert_eq!(chart.notes[11].target_note, Some("TAP".to_string()));
    assert_eq!(chart.notes[12].target_note, Some("TAP".to_string()));
    assert_eq!(chart.notes[13].target_note, Some("TAP".to_string()));

    assert_eq!(chart.notes[14].duration, Some(192));
    assert_eq!(opt_float(&chart.notes[14].end_cell), Some(10.0));
    assert_eq!(opt_float(&chart.notes[14].end_width), Some(4.0));

    assert_eq!(chart.notes[15].duration, Some(96));
    assert_eq!(opt_float(&chart.notes[15].end_cell), Some(8.0));
    assert_eq!(opt_float(&chart.notes[15].end_width), Some(4.0));

    assert!(chart.notes[16].wrapped_note_info.is_some());
    let wrapped_info = chart.notes[16].wrapped_note_info.as_ref().unwrap();
    assert_eq!(wrapped_info.original_format, "ASD");
    assert_eq!(wrapped_info.wrapped_type, "CHR");
    assert_eq!(float(&wrapped_info.param1), 5.0);
    assert_eq!(float(&wrapped_info.param2), 5.0);
    assert_eq!(wrapped_info.param3, "DEF");

    assert_eq!(chart.notes[17].target_note, Some("TAP".to_string()));
    assert_eq!(chart.notes[17].duration, Some(192));
}

const KNOWN_TAGS: [&str; 21] = [
    "DEF", "TAP", "CHR", "HLD", "HXD", "SLD", "SXD", "SLC", "SXC", "FLK", "AIR", "AUR", "AUL",
    "ADW", "ADR", "ADL", "AHD", "AHX", "ALD", "ASC", "MNE",
];

#[test]
fn every_known_tag_round_trips() {
    for tag in KNOWN_TAGS {
        let kind = string_to_note_type(tag).unwrap();
        assert!(!matches!(kind, ChuniNoteType::Unknown(_)));
        assert_eq!(c2s_note_type_to_string(&kind), Ok(tag.to_string()));
    }
}

#[test]
fn known_tags_name_distinct_kinds() {
    for (i, a) in KNOWN_TAGS.iter().enumerate() {
        for b in KNOWN_TAGS.iter().skip(i + 1) {
            assert_ne!(string_to_note_type(a), string_to_note_type(b));
        }
    }
}

#[test]
fn tag_table_entries() {
    assert_eq!(string_to_note_type("DEF"), Ok(ChuniNoteType::Default));
    assert_eq!(string_to_note_type("CHR"), Ok(ChuniNoteType::ExTap));
    assert_eq!(string_to_note_type("HXD"), Ok(ChuniNoteType::ExHold));
    assert_eq!(string_to_note_type("SXD"), Ok(ChuniNoteType::ExSlide));
    assert_eq!(
        string_to_note_type("SXC"),
        Ok(ChuniNoteType::ExSlideControlPoint)
    );
    assert_eq!(
        string_to_note_type("ADR"),
        Ok(ChuniNoteType::AirDirectional(AirDirection::DownRight))
    );
    assert_eq!(
        string_to_note_type("ADL"),
        Ok(ChuniNoteType::AirDirectional(AirDirection::DownLeft))
    );
    assert_eq!(string_to_note_type("MNE"), Ok(ChuniNoteType::Mine));
}

#[test]
fn unknown_tag_is_kept() {
    assert_eq!(
        string_to_note_type("ZZZ"),
        Ok(ChuniNoteType::Unknown("ZZZ".to_string()))
    );
    assert_eq!(
        c2s_note_type_to_string(&ChuniNoteType::Unknown("ZZZ".to_string())),
        Ok("ZZZ".to_string())
    );
    // the table is read as written: a tag in lower case is not in it
    assert_eq!(
        string_to_note_type("tap"),
        Ok(ChuniNoteType::Unknown("tap".to_string()))
    );
    // the wrapper tag that names no kind of its own
    assert_eq!(
        string_to_note_type("ASD"),
        Ok(ChuniNoteType::Unknown("ASD".to_string()))
    );
    assert_eq!(
        string_to_note_type(""),
        Ok(ChuniNoteType::Unknown(String::new()))
    );
}

#[test]
fn unknown_kind_with_empty_text_is_written() {
    assert_eq!(
        c2s_note_type_to_string(&ChuniNoteType::Unknown(String::new())),
        Ok(String::new())
    );
}

#[test]
fn every_text_round_trips_as_a_tag() {
    for text in ["", " ", "ZZZ", "tap", "TAPS", "ASD", "みぞれ", "A B", "DEF "] {
        let kind = string_to_note_type(text).unwrap();
        assert_eq!(c2s_note_type_to_string(&kind), Ok(text.to_string()), "{:?}", text);
    }
    // an unknown kind that carries the text of a known tag is written as that text
    assert_eq!(
        c2s_note_type_to_string(&ChuniNoteType::Unknown("TAP".to_string())),
        Ok("TAP".to_string())
    );
}

#[test]
fn asd_wrapper_fields() {
    let note = Note::from_line("ASD 12 0 0 6 CHR 5.0 384 0 3 5.0 DEF").unwrap();
    assert_eq!(note.cell, 0);
    assert_eq!(note.width, 6);
    assert_eq!(note.end_cell.as_ref().unwrap().as_str(), "0");
    assert_eq!(note.end_width.as_ref().unwrap().as_str(), "3");
    assert_eq!(note.target_note, None);
    assert_eq!(note.chr_modifier, None);
    assert_eq!(note.flick_modifier, None);
    let info = note.wrapped_note_info.as_ref().unwrap();
    assert_eq!(info.param1.as_str(), "5.0");
    assert_eq!(info.param2.as_str(), "5.0");
    assert!(note.is_wrapped_note());
    assert_eq!(note.get_original_format(), Some("ASD"));
    assert_eq!(note.get_wrapped_type(), Some("CHR"));
}

#[test]
fn wrapper_end_fields_are_written_anew() {
    let note = Note::from_line("ASD 1 0 0 4 TAP 5.0 +0384 007 +3 5.0 DEF").unwrap();
    assert_eq!(note.duration, Some(384));
    assert_eq!(note.end_cell.as_ref().unwrap().as_str(), "7");
    assert_eq!(note.end_width.as_ref().unwrap().as_str(), "3");
}

#[test]
fn asc_wrapping_asc_is_unwrapped_once() {
    let note = Note::from_line("ASC 5 336 9 4 ASC 5.0 22 9 5 5.0 DEF").unwrap();
    assert_eq!(note.note_type, ChuniNoteType::AirSlideControlPoint);
    assert_eq!(note.measure, 5);
    assert_eq!(note.offset, 336);
    assert_eq!(note.cell, 9);
    assert_eq!(note.width, 4);
    assert_eq!(note.duration, Some(22));
    assert_eq!(opt_float(&note.end_cell), Some(9.0));
    assert_eq!(opt_float(&note.end_width), Some(5.0));
    assert_eq!(note.get_wrapped_type(), Some("ASC"));
    assert_eq!(note.get_original_format(), Some("ASC"));
}

#[test]
fn wrapper_wrapping_the_other_wrapper_tag() {
    // ASD names no kind, so a wrapped ASD is the unknown kind
    let note = Note::from_line("ASC 5 336 9 4 ASD 5.0 22 9 5 5.0 DEF").unwrap();
    assert_eq!(note.note_type, ChuniNoteType::Unknown("ASD".to_string()));
}

#[test]
fn tags_count_in_upper_case() {
    let note = Note::from_line("tap 8 0 6 4").unwrap();
    assert_eq!(note.note_type, ChuniNoteType::Tap);
    let note = Note::from_line("Sld 3 0 4 4 192 8 4").unwrap();
    assert_eq!(note.note_type, ChuniNoteType::Slide);
    let note = Note::from_line("asd 12 0 0 6 chr 5.0 384 0 3 5.0 DEF").unwrap();
    assert_eq!(note.note_type, ChuniNoteType::ExTap);
    let info = note.wrapped_note_info.unwrap();
    assert_eq!(info.original_format, "ASD");
    assert_eq!(info.wrapped_type, "chr");
    let note = Note::from_line("zzz 1 2 3 4").unwrap();
    assert_eq!(note.note_type, ChuniNoteType::Unknown("ZZZ".to_string()));
}

#[test]
fn too_few_fields() {
    assert_eq!(
        Note::from_line("TAP 1 2 3"),
        Err(C2sError::MissingFields { found: 4 })
    );
    assert_eq!(
        Note::from_line("TAP"),
        Err(C2sError::MissingFields { found: 1 })
    );
    assert_eq!(
        Note::from_line(""),
        Err(C2sError::MissingFields { found: 0 })
    );
    assert_eq!(
        Note::from_line("   \t "),
        Err(C2sError::MissingFields { found: 0 })
    );
    assert_eq!(
        Note::from_line("ASD 1 2 3"),
        Err(C2sError::MissingFields { found: 4 })
    );
}

#[test]
fn short_line_is_absent_from_chart() {
    let chart = C2SChart::from_string("TAP 0 0 8 4\nTAP 1 2 3\nTAP 4 0 0 16\n").unwrap();
    assert_eq!(chart.notes.len(), 2);
    assert_eq!(chart.notes[0].measure, 0);
    assert_eq!(chart.notes[1].measure, 4);
}

#[test]
fn invalid_position_fields() {
    let invalid = |field| Err(C2sError::InvalidField { field });
    assert_eq!(Note::from_line("TAP x 0 6 4"), invalid(Field::Measure));
    assert_eq!(Note::from_line("TAP 8 -1 6 4"), invalid(Field::Offset));
    assert_eq!(Note::from_line("TAP 8 0 6.5 4"), invalid(Field::Cell));
    assert_eq!(
        Note::from_line("TAP 8 0 6 4294967296"),
        invalid(Field::Width)
    );
    assert_eq!(Note::from_line("TAP x y 6 4"), invalid(Field::Measure));
    assert_eq!(
        Note::from_line("TAP 8 0 6 4294967295").unwrap().width,
        4294967295
    );
}

#[test]
fn invalid_further_fields() {
    let invalid = |field| Err(C2sError::InvalidField { field });
    assert_eq!(Note::from_line("HLD 1 0 0 4 long"), invalid(Field::Duration));
    assert_eq!(
        Note::from_line("SLD 1 0 0 4 96 left 4"),
        invalid(Field::EndCell)
    );
    assert_eq!(
        Note::from_line("SLD 1 0 0 4 96 8 wide"),
        invalid(Field::EndWidth)
    );
    assert_eq!(
        Note::from_line("SLD 1 0 0 4 x y z"),
        invalid(Field::Duration)
    );
    assert_eq!(
        Note::from_line("AHD 1 0 0 4 TAP soon"),
        invalid(Field::Duration)
    );
    assert_eq!(
        Note::from_line("ALD 1 0 0 4 96 1e"),
        invalid(Field::EndCell)
    );
}

#[test]
fn invalid_wrapper_fields() {
    let invalid = |field| Err(C2sError::InvalidField { field });
    assert_eq!(
        Note::from_line("ASD x 0 0 6 CHR 5.0 384 0 3 5.0 DEF"),
        invalid(Field::Measure)
    );
    assert_eq!(
        Note::from_line("ASD 12 0 0 6 CHR five 384 0 3 5.0 DEF"),
        invalid(Field::Param1)
    );
    assert_eq!(
        Note::from_line("ASD 12 0 0 6 CHR 5.0 3.5 0 3 5.0 DEF"),
        invalid(Field::Duration)
    );
    assert_eq!(
        Note::from_line("ASD 12 0 0 6 CHR 5.0 384 0.5 3 5.0 DEF"),
        invalid(Field::EndCell)
    );
    assert_eq!(
        Note::from_line("ASD 12 0 0 6 CHR 5.0 384 0 3.5 5.0 DEF"),
        invalid(Field::EndWidth)
    );
    assert_eq!(
        Note::from_line("ASD 12 0 0 6 CHR 5.0 384 0 3 five DEF"),
        invalid(Field::Param2)
    );
    assert_eq!(
        Note::from_asd_line("TAP 12 0 0 6 CHR 5.0 384 0 3 5.0 DEF"),
        invalid(Field::Tag)
    );
    assert_eq!(
        Note::from_asd_line("TAP 12 0 0 6 CHR five 384 0 3 5.0 DEF"),
        invalid(Field::Param1)
    );
}

#[test]
fn wrapper_needs_twelve_fields() {
    assert_eq!(
        Note::from_asd_line("ASD 12 0 0 6 CHR 5.0 384 0 3 5.0"),
        Err(C2sError::StructuralMismatch { found: 11 })
    );
    assert_eq!(
        Note::from_asd_line("ASD 12 0 0 6 CHR 5.0 384 0 3 5.0 DEF more"),
        Err(C2sError::StructuralMismatch { found: 13 })
    );
    assert_eq!(
        Note::from_asd_line(""),
        Err(C2sError::StructuralMismatch { found: 0 })
    );
    let note = Note::from_asd_line("ASD 12 0 0 6 CHR 5.0 384 0 3 5.0 DEF").unwrap();
    assert_eq!(note.note_type, ChuniNoteType::ExTap);
}

#[test]
fn wrapper_tag_with_another_count_is_ordinary() {
    // ASC is also the tag of a kind, with the fields of a slide
    let note = Note::from_line("ASC 8 96 10 4 96 8 4 3.0 DEF").unwrap();
    assert_eq!(note.note_type, ChuniNoteType::AirSlideControlPoint);
    assert_eq!(note.duration, Some(96));
    assert_eq!(note.end_cell.as_ref().unwrap().as_str(), "8");
    assert!(note.wrapped_note_info.is_none());
    assert!(!note.is_wrapped_note());
    // ASD names no kind
    let note = Note::from_line("ASD 8 96 10 4").unwrap();
    assert_eq!(note.note_type, ChuniNoteType::Unknown("ASD".to_string()));
    assert_eq!(note.get_original_format(), None);
    assert_eq!(note.get_wrapped_type(), None);
}

#[test]
fn records_may_stop_early() {
    let note = Note::from_line("SLD 1 0 0 4").unwrap();
    assert_eq!(note.duration, None);
    assert_eq!(note.end_cell, None);
    let note = Note::from_line("SLD 1 0 0 4 96").unwrap();
    assert_eq!(note.duration, Some(96));
    assert_eq!(note.end_cell, None);
    let note = Note::from_line("SLD 1 0 0 4 96 2.5").unwrap();
    assert_eq!(opt_float(&note.end_cell), Some(2.5));
    assert_eq!(note.end_width, None);
    let note = Note::from_line("AHD 1 0 0 4 TAP").unwrap();
    assert_eq!(note.target_note, Some("TAP".to_string()));
    assert_eq!(note.duration, None);
    let note = Note::from_line("CHR 1 0 0 4").unwrap();
    assert_eq!(note.chr_modifier, None);
    let note = Note::from_line("FLK 1 0 0 4").unwrap();
    assert_eq!(note.flick_modifier, Some("L".to_string()));
}

#[test]
fn further_fields_of_other_kinds_are_not_read() {
    let note = Note::from_line("TAP 1 0 0 4 x y z").unwrap();
    assert_eq!(note, Note::tap(1, 0, 0, 4));
    let note = Note::from_line("MNE 1 0 0 4 x").unwrap();
    assert_eq!(note, Note::mine(1, 0, 0, 4));
    let note = Note::from_line("QQQ 1 0 0 4 x y z").unwrap();
    assert_eq!(note.note_type, ChuniNoteType::Unknown("QQQ".to_string()));
    assert_eq!(note.duration, None);
}

#[test]
fn builders_agree_with_records() {
    let number = |t: &str| NumberText::parse(t).unwrap();
    assert_eq!(
        Note::from_line("CHR 9 0 4 8 CE"),
        Ok(Note::chr(9, 0, 4, 8, "CE".to_string()))
    );
    assert_eq!(
        Note::from_line("HLD 1 0 0 4 192"),
        Ok(Note::hold(1, 0, 0, 4, 192))
    );
    assert_eq!(
        Note::from_line("SLD 3 0 4 4 192 8 4"),
        Ok(Note::slide(3, 0, 4, 4, 192, number("8"), number("4")))
    );
    assert_eq!(
        Note::from_line("SLC 4 96 8 4 96 12 4"),
        Ok(Note::slide_control(4, 96, 8, 4, 96, number("12"), number("4")))
    );
    assert_eq!(Note::from_line("FLK 4 0 0 2"), Ok(Note::flick(4, 0, 0, 2)));
    assert_eq!(
        Note::from_line("AIR 4 0 0 2 FLK"),
        Ok(Note::air(4, 0, 0, 2, "FLK".to_string()))
    );
    assert_eq!(
        Note::from_line("AUR 7 96 14 2 TAP"),
        Ok(Note::air_directional(
            7,
            96,
            14,
            2,
            "TAP".to_string(),
            AirDirection::UpRight
        ))
    );
    assert_eq!(
        Note::from_line("AHD 5 0 4 4 SLD 192"),
        Ok(Note::air_hold(5, 0, 4, 4, "SLD".to_string(), 192))
    );
}

#[test]
fn air_action_needs_wrapper_and_mode() {
    let note = Note::from_line("ASD 6 96 4 8 ALD 5.0 1 4 8 5.0 NON").unwrap();
    assert_eq!(note.note_type, ChuniNoteType::AirSlide);
    assert!(note.is_air_action());
    let note = Note::from_line("ASC 6 96 4 8 ASC 5.0 1 4 8 5.0 NON").unwrap();
    assert!(note.is_air_action());
    let note = Note::from_line("ASD 6 96 4 8 ALD 5.0 1 4 8 5.0 DEF").unwrap();
    assert!(!note.is_air_action());
    let note = Note::from_line("ASD 6 96 4 8 SLD 5.0 1 4 8 5.0 NON").unwrap();
    assert!(!note.is_air_action());
    let note = Note::from_line("ALD 6 96 4 8 38400 5.0 1 4 8 5.0 NON").unwrap();
    assert!(!note.is_air_action());
}

#[test]
fn default_metadata() {
    let m = C2SMetadata::default();
    assert_eq!(m.version[0], "1.00.00");
    assert_eq!(m.version[1], "1.00.00");
    assert_eq!(m.music, 0);
    assert_eq!(m.sequence_id, 0);
    assert_eq!(m.difficulty, 0);
    assert_eq!(float(&m.level), 0.0);
    assert_eq!(m.creator, "Unknown");
    assert_eq!(m.bpm_default.each_ref().map(float), [120.0, 120.0, 120.0, 120.0]);
    assert_eq!(m.metronome_def, Some([4, 4, 0, 0]));
    assert_eq!(m.resolution, 384);
    assert_eq!(float(&m.clock_default), 384.0);
    assert_eq!(float(&m.progjudge_bpm), 240.0);
    assert_eq!(float(&m.progjudge_aer), 0.999);
    assert!(!m.tutorial);
    assert!(m.bpm.is_empty());
    assert!(m.time_signatures.is_empty());
    assert!(m.sfl.is_empty());
    assert_eq!(C2SChart::from_string("").unwrap().metadata, m);
    assert_eq!(C2SChart::new().metadata, m);
}

#[test]
fn command_fields_fall_back() {
    let chart = C2SChart::from_string(
        "MUSIC many\nRESOLUTION fine\nLEVEL high\nBPM_DEF a 1.5 c 2\nMET_DEF x 8\nCLK_DEF x\n\
         PROGJUDGE_BPM x\nPROGJUDGE_AER x\nTUTORIAL yes\nBPM a b c\nMET a b c d\nSFL a b c d\n",
    )
    .unwrap();
    let m = &chart.metadata;
    assert_eq!(m.music, 0);
    assert_eq!(m.resolution, 384);
    assert_eq!(float(&m.level), 0.0);
    assert_eq!(m.bpm_default.each_ref().map(float), [120.0, 1.5, 120.0, 2.0]);
    assert_eq!(m.metronome_def, Some([4, 8, 0, 0]));
    assert_eq!(float(&m.clock_default), 384.0);
    assert_eq!(float(&m.progjudge_bpm), 240.0);
    assert_eq!(float(&m.progjudge_aer), 0.999);
    assert!(!m.tutorial);
    assert_eq!(m.bpm.len(), 1);
    assert_eq!((m.bpm[0].measure, m.bpm[0].offset), (0, 0));
    assert_eq!(float(&m.bpm[0].bpm), 120.0);
    assert_eq!(m.time_signatures.len(), 1);
    assert_eq!(m.time_signatures[0].numerator, 4);
    assert_eq!(m.time_signatures[0].denominator, 4);
    assert_eq!(m.sfl.len(), 1);
    assert_eq!(m.sfl[0].duration, 0);
    assert_eq!(float(&m.sfl[0].multiplier), 1.0);
    assert!(chart.notes.is_empty());
}

#[test]
fn short_commands_change_nothing() {
    let chart = C2SChart::from_string(
        "VERSION 2.00.00\nMUSIC\nCREATOR\nBPM_DEF 1 2 3\nMET_DEF 3\nBPM 1 2\nMET 1 2 3\nSFL 1 2 3\nTUTORIAL\n",
    )
    .unwrap();
    assert_eq!(chart.metadata, C2SMetadata::default());
    assert!(chart.notes.is_empty());
}

#[test]
fn later_commands_replace_earlier_ones() {
    let chart = C2SChart::from_string(
        "MUSIC 1\nCREATOR first  one\nTUTORIAL 1\nMUSIC 2\nCREATOR  the   second one \nBPM 1 0 100\nBPM 0 0 90\n",
    )
    .unwrap();
    assert_eq!(chart.metadata.music, 2);
    assert_eq!(chart.metadata.creator, "the second one");
    assert!(chart.metadata.tutorial);
    assert_eq!(chart.metadata.bpm.len(), 2);
    assert_eq!(chart.metadata.bpm[0].measure, 1);
    assert_eq!(chart.metadata.bpm[1].measure, 0);
}

#[test]
fn command_keywords_are_read_as_written() {
    // in lower case the keyword is no command, and the line is a record
    let chart = C2SChart::from_string("music 7 0 0 4\nMUSIC 7\n").unwrap();
    assert_eq!(chart.metadata.music, 7);
    assert_eq!(chart.notes.len(), 1);
    assert_eq!(
        chart.notes[0].note_type,
        ChuniNoteType::Unknown("MUSIC".to_string())
    );
}

#[test]
fn crush_of_three_control_points_keeps_line_order() {
    let chart = C2SChart::from_string(
        "ASC 6 192 5 6 96 5 6\nASC 6 192 6 4 96 6 4\nASC 6 192 7 2 96 7 2\n",
    )
    .unwrap();
    assert_eq!(chart.notes.len(), 3);
    let cells: Vec<(u32, u32)> = chart.notes.iter().map(|n| (n.cell, n.width)).collect();
    assert_eq!(cells, vec![(5, 6), (6, 4), (7, 2)]);
    for note in &chart.notes {
        assert_eq!(note.note_type, ChuniNoteType::AirSlideControlPoint);
        assert_eq!(note.measure, 6);
        assert_eq!(note.offset, 192);
        assert_eq!(note.duration, Some(96));
    }
    assert_ne!(chart.notes[0], chart.notes[1]);
    assert_ne!(chart.notes[1], chart.notes[2]);
    assert_ne!(chart.notes[0], chart.notes[2]);
}

#[test]
fn chart_line_by_line() {
    let mut chart = C2SChart::new();
    chart.apply_line("RESOLUTION 480");
    chart.apply_line("  ");
    chart.apply_line("TAP 1 0 0 4");
    chart.apply_line("this is no record");
    chart.apply_line("HLD 2 0 0 4 96\r");
    assert_eq!(chart.metadata.resolution, 480);
    assert_eq!(chart.notes, vec![Note::tap(1, 0, 0, 4), Note::hold(2, 0, 0, 4, 96)]);
}

#[test]
fn records_from_fields() {
    let parts: Vec<String> = ["hld", "1", "0", "0", "4", "192"]
        .iter()
        .map(|t| t.to_string())
        .collect();
    assert_eq!(Note::from_fields(&parts), Ok(Note::hold(1, 0, 0, 4, 192)));
    assert_eq!(
        Note::from_record("HLD", &parts),
        Ok(Note::hold(1, 0, 0, 4, 192))
    );
    assert_eq!(
        Note::from_record("TAP", &parts),
        Ok(Note::tap(1, 0, 0, 4))
    );
    assert_eq!(
        Note::from_wrapper_record("ASD", "TAP", &parts),
        Err(C2sError::StructuralMismatch { found: 6 })
    );
    assert_eq!(
        Note::from_fields(&Vec::new()),
        Err(C2sError::MissingFields { found: 0 })
    );
}
