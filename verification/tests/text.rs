use cnpj_import::text::{chars_of, decode_text, find, has_substring, matches_at, text_from_utf8};

fn chars(s: &str) -> Vec<char> {
    s.chars().collect()
}

#[test]
fn chars_of_a_string() {
    assert_eq!(chars_of("aço"), vec!['a', 'ç', 'o']);
    assert_eq!(chars_of(""), Vec::<char>::new());
}

#[test]
fn finds_the_leftmost_occurrence() {
    assert_eq!(find(&chars("abcabc"), &chars("bc")), Some(1));
    assert_eq!(find(&chars("abcabc"), &chars("abc")), Some(0));
    assert_eq!(find(&chars("abcabc"), &chars("cab")), Some(2));
    assert_eq!(find(&chars("abcabc"), &chars("c")), Some(2));
}

#[test]
fn finds_nothing_where_nothing_is() {
    assert_eq!(find(&chars("abcabc"), &chars("cb")), None);
    assert_eq!(find(&chars("ab"), &chars("abc")), None);
    assert_eq!(find(&chars(""), &chars("a")), None);
}

#[test]
fn the_empty_pattern_stands_at_the_start() {
    assert_eq!(find(&chars("abc"), &chars("")), Some(0));
    assert_eq!(find(&chars(""), &chars("")), Some(0));
}

#[test]
fn finds_a_pattern_at_the_very_end() {
    assert_eq!(find(&chars("xxabc"), &chars("abc")), Some(2));
}

#[test]
fn matches_at_a_place() {
    assert!(matches_at(&chars("abcabc"), &chars("bc"), 1));
    assert!(matches_at(&chars("abcabc"), &chars("bc"), 4));
    assert!(!matches_at(&chars("abcabc"), &chars("bc"), 2));
    assert!(!matches_at(&chars("abcabc"), &chars("bc"), 5));
    assert!(!matches_at(&chars("abcabc"), &chars("bc"), 100));
}

#[test]
fn has_substring_counts_characters_not_bytes() {
    assert!(has_substring(&chars("ação.csv"), ".csv"));
    assert!(has_substring(&chars("ação.csv"), "ção"));
    assert!(!has_substring(&chars("ação.csv"), "cao"));
}

#[test]
fn decodes_the_legacy_encoding() {
    assert_eq!(decode_text(b"EMPRESA").ok().unwrap(), "EMPRESA");
    assert_eq!(decode_text(&[0x41, 0xC7, 0xC3, 0x4F]).ok().unwrap(), "AÇÃO");
    assert_eq!(decode_text(&[]).ok().unwrap(), "");
}

#[test]
fn decodes_the_places_that_differ_from_latin_1() {
    let bytes = [0xA4, 0xA6, 0xA8, 0xB4, 0xB8, 0xBC, 0xBD, 0xBE];
    assert_eq!(decode_text(&bytes).ok().unwrap(), "€ŠšŽžŒœŸ");
}

#[test]
fn decodes_every_byte() {
    for b in 0u8..=255 {
        let text = decode_text(&[b]).ok().unwrap();
        assert_eq!(text.chars().count(), 1);
        let c = text.chars().next().unwrap();
        let expected = match b {
            0xA4 => '\u{20AC}',
            0xA6 => '\u{0160}',
            0xA8 => '\u{0161}',
            0xB4 => '\u{017D}',
            0xB8 => '\u{017E}',
            0xBC => '\u{0152}',
            0xBD => '\u{0153}',
            0xBE => '\u{0178}',
            other => other as char,
        };
        assert_eq!(c, expected, "byte {:#x}", b);
    }
}

#[test]
fn reads_utf8() {
    assert_eq!(text_from_utf8("São Paulo".as_bytes()), Some(String::from("São Paulo")));
    assert_eq!(text_from_utf8(b""), Some(String::new()));
}

#[test]
fn rejects_what_is_not_utf8() {
    assert_eq!(text_from_utf8(&[0x53, 0xE3, 0x6F]), None);
    assert_eq!(text_from_utf8(&[0xFF]), None);
    assert_eq!(text_from_utf8(&[0xC3]), None);
}
