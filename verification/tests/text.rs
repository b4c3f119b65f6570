use chuni_chart::metadata::MetadataMap;
use chuni_chart::number::{
    digit, is_number, parse_u32, parse_u64, parse_unsigned, push_numeral, NumberText,
};
use chuni_chart::text::{
    is_whitespace, join_fields, split_fields, split_lines, text_eq, to_chars, CharClass,
};

#[test]
fn fields_are_runs_of_visible_characters() {
    assert_eq!(split_fields("TAP 8 0 6 4"), vec!["TAP", "8", "0", "6", "4"]);
    assert_eq!(split_fields("  a\t\tb \r\n"), vec!["a", "b"]);
    assert_eq!(split_fields("a\u{3000}b\u{a0}c\u{2003}d"), vec!["a", "b", "c", "d"]);
    assert_eq!(split_fields("みぞれ ヤナギ"), vec!["みぞれ", "ヤナギ"]);
    assert_eq!(split_fields("one"), vec!["one"]);
    assert!(split_fields("").is_empty());
    assert!(split_fields(" \t ").is_empty());
    for line in ["", " a  b ", "a\u{85}b\u{1680}c", "x\u{200b}y", "\u{feff}z"] {
        let expected: Vec<&str> = line.split_whitespace().collect();
        assert_eq!(split_fields(line), expected);
    }
}

#[test]
fn white_space_is_the_unicode_property() {
    for code in 0..0x3100u32 {
        if let Some(c) = char::from_u32(code) {
            assert_eq!(is_whitespace(c), c.is_whitespace(), "U+{:04X}", code);
        }
    }
    assert!(!is_whitespace('\u{feff}'));
    assert!(!is_whitespace('\u{10ffff}'));
}

#[test]
fn character_classes() {
    assert!(CharClass::Space.contains(' '));
    assert!(!CharClass::Space.contains('a'));
    assert!(CharClass::Visible.contains('a'));
    assert!(!CharClass::Visible.contains('\t'));
    assert!(CharClass::Digit.contains('0'));
    assert!(CharClass::Digit.contains('9'));
    assert!(!CharClass::Digit.contains('a'));
    assert!(!CharClass::Digit.contains('/'));
    assert!(!CharClass::Digit.contains(':'));
    assert!(CharClass::Is('#').contains('#'));
    assert!(!CharClass::Is('#').contains('@'));
    assert!(CharClass::Not(':').contains('@'));
    assert!(!CharClass::Not(':').contains(':'));
}

#[test]
fn lines_end_at_line_feeds() {
    assert!(split_lines("").is_empty());
    assert_eq!(split_lines("a"), vec!["a"]);
    assert_eq!(split_lines("a\n"), vec!["a"]);
    assert_eq!(split_lines("a\nb"), vec!["a", "b"]);
    assert_eq!(split_lines("a\n\nb\n"), vec!["a", "", "b"]);
    assert_eq!(split_lines("\n"), vec![""]);
    assert_eq!(split_lines("\n\n"), vec!["", ""]);
    assert_eq!(split_lines("a\r\nb"), vec!["a\r", "b"]);
}

#[test]
fn joining_and_comparing() {
    let parts: Vec<String> = ["CREATOR", "a", "b", "c"].iter().map(|t| t.to_string()).collect();
    assert_eq!(join_fields(&parts, 1), "a b c");
    assert_eq!(join_fields(&parts, 0), "CREATOR a b c");
    assert_eq!(join_fields(&parts, 3), "c");
    assert_eq!(join_fields(&parts, 4), "");
    assert_eq!(join_fields(&parts, 9), "");
    assert!(text_eq("abc", "abc"));
    assert!(!text_eq("abc", "abd"));
    assert!(!text_eq("abc", "ab"));
    assert!(text_eq("", ""));
    assert_eq!(to_chars("aé字"), vec!['a', 'é', '字']);
}

#[test]
fn unsigned_literals() {
    assert_eq!(parse_u32("0"), Some(0));
    assert_eq!(parse_u32("384"), Some(384));
    assert_eq!(parse_u32("+384"), Some(384));
    assert_eq!(parse_u32("00384"), Some(384));
    assert_eq!(parse_u32("4294967295"), Some(4294967295));
    assert_eq!(parse_u32("4294967296"), None);
    assert_eq!(parse_u32("99999999999999999999999999"), None);
    assert_eq!(parse_u32(""), None);
    assert_eq!(parse_u32("+"), None);
    assert_eq!(parse_u32("-1"), None);
    assert_eq!(parse_u32("-0"), None);
    assert_eq!(parse_u32("++1"), None);
    assert_eq!(parse_u32("1+"), None);
    assert_eq!(parse_u32(" 1"), None);
    assert_eq!(parse_u32("1 "), None);
    assert_eq!(parse_u32("1.0"), None);
    assert_eq!(parse_u32("1a"), None);
    assert_eq!(parse_u32("٣"), None);
    assert_eq!(parse_u64("18446744073709551615"), Some(u64::MAX));
    assert_eq!(parse_u64("18446744073709551616"), None);
    assert_eq!(parse_unsigned("zz", 36, 65535), Some(1295));
    assert_eq!(parse_unsigned("+z", 36, 255), Some(35));
    assert_eq!(parse_unsigned("zz", 36, 255), None);
    assert_eq!(parse_unsigned("ff", 16, 255), Some(255));
    assert_eq!(parse_unsigned("fg", 16, 255), None);
    assert_eq!(parse_unsigned("102", 2, 255), None);
    for t in ["7", "+7", "-7", "", "+", "0007", "4294967295", "4294967296", "12x"] {
        assert_eq!(parse_u32(t), t.parse::<u32>().ok(), "{:?}", t);
        assert_eq!(parse_u64(t), t.parse::<u64>().ok(), "{:?}", t);
        assert_eq!(
            parse_unsigned(t, 36, 255).map(|v| v as u8),
            u8::from_str_radix(t, 36).ok(),
            "{:?}",
            t
        );
    }
    assert_eq!(digit('7'), Some(7));
    assert_eq!(digit('k'), Some(20));
    assert_eq!(digit('K'), Some(20));
    assert_eq!(digit('_'), None);
}

#[test]
fn number_texts_follow_the_float_grammar() {
    let accepted = [
        "0", "5.0", "135.000", "0.999", "  0.999".trim(), "1.", ".5", "+1.5", "-1.5", "1e5",
        "1E5", "1e+5", "1e-5", "1.e5", ".5e5", "1.5e05", "inf", "+inf", "-inf", "INF", "Inf",
        "infinity", "-Infinity", "INFINITY", "nan", "NaN", "-nan", "+NAN", "007", "1e0000",
    ];
    let refused = [
        "", "+", "-", ".", "+.", "e5", ".e5", "1e", "1e+", "1e-", "1e5.0", "1.5.5", "1..5",
        "1,5", " 1", "1 ", "1f", "0x10", "1_000", "++1", "+-1", "in", "infinit", "infinityy",
        "na", "nane", "i", "1einf", "١", "1e٣", "--inf", "+ 1",
    ];
    for t in accepted {
        assert!(is_number(t), "{:?}", t);
        assert!(t.parse::<f32>().is_ok(), "{:?}", t);
        assert_eq!(NumberText::parse(t).unwrap().as_str(), t);
    }
    for t in refused {
        assert!(!is_number(t), "{:?}", t);
        assert!(t.parse::<f64>().is_err(), "{:?}", t);
        assert_eq!(NumberText::parse(t), None);
    }
    let chars: Vec<char> = "2.50".chars().collect();
    assert_eq!(NumberText::from_chars(&chars).unwrap().as_str(), "2.50");
    let chars: Vec<char> = "2,50".chars().collect();
    assert_eq!(NumberText::from_chars(&chars), None);
}

#[test]
fn numerals() {
    assert_eq!(NumberText::from_u32(0).as_str(), "0");
    assert_eq!(NumberText::from_u32(7).as_str(), "7");
    assert_eq!(NumberText::from_u32(10).as_str(), "10");
    assert_eq!(NumberText::from_u32(384).as_str(), "384");
    assert_eq!(NumberText::from_u32(4294967295).as_str(), "4294967295");
    assert_eq!(
        NumberText::from_u32(4294967295).as_str().parse::<f32>().unwrap(),
        4294967295u32 as f32
    );
    assert_eq!(NumberText::from_u32(120).clone(), NumberText::from_u32(120));
    let mut t = String::from("x");
    push_numeral(&mut t, 255, 16);
    push_numeral(&mut t, 35, 36);
    push_numeral(&mut t, 5, 2);
    push_numeral(&mut t, 0, 10);
    assert_eq!(t, "xFFZ1010");
}

#[test]
fn metadata_map() {
    let mut m = MetadataMap::new();
    assert_eq!(m.get("a"), None);
    assert!(!m.contains_key("a"));
    m.insert("a".to_string(), "1".to_string());
    m.insert("b".to_string(), "2".to_string());
    assert_eq!(m.get("a"), Some(&"1".to_string()));
    assert_eq!(m.get("b"), Some(&"2".to_string()));
    m.insert("a".to_string(), "3".to_string());
    assert_eq!(m.get("a"), Some(&"3".to_string()));
    assert_eq!(m.get("b"), Some(&"2".to_string()));
    assert_eq!(m.get("A"), None);
    assert_eq!(m.get(""), None);
    m.insert(String::new(), "empty".to_string());
    assert_eq!(m.get(""), Some(&"empty".to_string()));
    assert!(m.contains_key("b"));
}

fn words(alphabet: &[char], longest: usize) -> Vec<String> {
    let mut all = vec![String::new()];
    let mut last = vec![String::new()];
    for _ in 0..longest {
        let mut next = Vec::new();
        for word in &last {
            for c in alphabet {
                let mut longer = word.clone();
                longer.push(*c);
                next.push(longer);
            }
        }
        all.extend(next.iter().cloned());
        last = next;
    }
    all
}

#[test]
fn number_texts_are_what_the_standard_library_reads() {
    let alphabet = ['+', '-', '.', 'e', 'E', '0', '7', 'i', 'n', 'f', 'a', ' '];
    for word in words(&alphabet, 4) {
        assert_eq!(is_number(&word), word.parse::<f32>().is_ok(), "{:?}", word);
        assert_eq!(is_number(&word), word.parse::<f64>().is_ok(), "{:?}", word);
    }
    let alphabet = ['I', 'n', 'F', 'i', 't', 'y', 'N', 'a', '-'];
    for word in words(&alphabet, 4) {
        assert_eq!(is_number(&word), word.parse::<f32>().is_ok(), "{:?}", word);
    }
    for tail in ["", "y", "Y", "ty", "ity", "nity", "inity", "INITY", "initY", "inityy"] {
        let word = format!("inf{}", tail);
        assert_eq!(is_number(&word), word.parse::<f32>().is_ok(), "{:?}", word);
    }
}

#[test]
fn unsigned_literals_are_what_the_standard_library_reads() {
    let alphabet = ['+', '-', '0', '4', '9', 'a', 'Z', ' '];
    for word in words(&alphabet, 4) {
        assert_eq!(parse_u32(&word), word.parse::<u32>().ok(), "{:?}", word);
        assert_eq!(
            parse_unsigned(&word, 36, 65535).map(|v| v as u16),
            u16::from_str_radix(&word, 36).ok(),
            "{:?}",
            word
        );
        assert_eq!(
            parse_unsigned(&word, 36, 255).map(|v| v as u8),
            u8::from_str_radix(&word, 36).ok(),
            "{:?}",
            word
        );
    }
    for n in [0u64, 1, 9, 10, 255, 256, 4294967294, 4294967295, 4294967296, u64::MAX] {
        let word = n.to_string();
        assert_eq!(parse_u32(&word), word.parse::<u32>().ok());
        assert_eq!(parse_u64(&word), Some(n));
        assert_eq!(parse_unsigned(&word, 10, 255), if n <= 255 { Some(n) } else { None });
    }
}

#[test]
fn fields_and_lines_are_what_the_standard_library_splits() {
    let alphabet = ['a', 'b', ' ', '\t', '\n', '\u{3000}'];
    for text in words(&alphabet, 6) {
        let expected: Vec<&str> = text.split_whitespace().collect();
        assert_eq!(split_fields(&text), expected, "{:?}", text);
        let expected: Vec<&str> = text.lines().collect();
        assert_eq!(split_lines(&text), expected, "{:?}", text);
        assert_eq!(split_fields(text.trim()), split_fields(&text), "{:?}", text);
    }
}
