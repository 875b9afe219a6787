use track_dependencies::json_deps::{dependencies_from_document, structured_dependencies};
use track_dependencies::make_deps::{
    chars_of, is_white_space_char, make_dependencies, remove_escapes, split_into_words,
};

fn strings(v: &[&str]) -> Vec<String> {
    v.iter().map(|s| s.to_string()).collect()
}

#[test]
fn make_record_with_continuations() {
    let text = "build/out.o: src/main.c \\\n  include/a.h \\\n  include/b.h\n";
    assert_eq!(
        make_dependencies(text),
        strings(&["src/main.c", "include/a.h", "include/b.h"])
    );
}

#[test]
fn make_record_escape_inside_word_is_dropped() {
    assert_eq!(make_dependencies("t: dir\\ name x\\y"), strings(&["dir", "name", "xy"]));
}

#[test]
fn make_record_only_target() {
    assert!(make_dependencies("out.o:").is_empty());
    assert!(make_dependencies("   \n\t ").is_empty());
    assert!(make_dependencies("\\\\").is_empty());
}

#[test]
fn make_record_matches_std_split() {
    let samples = [
        "o: a\u{3000}b\u{85}c\u{a0}d\u{2009}e\r\nf\u{b}g\u{c}h",
        "x.o :  y.c\tz.h  ",
        "é: ü ß",
        "a\u{200b}b: c",
    ];
    for s in samples.iter() {
        let expected: Vec<String> = s
            .replace("\\", "")
            .split_whitespace()
            .skip(1)
            .map(|w| w.to_string())
            .collect();
        assert_eq!(make_dependencies(s), expected);
    }
}

#[test]
fn white_space_set() {
    for c in ['\t', '\n', '\u{b}', '\u{c}', '\r', ' ', '\u{85}', '\u{a0}', '\u{1680}', '\u{2000}', '\u{200a}', '\u{2028}', '\u{2029}', '\u{202f}', '\u{205f}', '\u{3000}'] {
        assert!(is_white_space_char(c));
    }
    for c in ['a', '\u{0}', '\u{8}', '\u{e}', '\u{200b}', '\u{feff}', '\\', ':'] {
        assert!(!is_white_space_char(c));
    }
    for n in 0u32..0x3100 {
        if let Some(c) = char::from_u32(n) {
            assert_eq!(is_white_space_char(c), c.is_whitespace());
        }
    }
}

#[test]
fn chars_and_escapes() {
    let cs = chars_of("a\\bé");
    assert_eq!(cs, vec!['a', '\\', 'b', 'é']);
    assert_eq!(remove_escapes(&cs), vec!['a', 'b', 'é']);
    assert_eq!(split_into_words(&vec![' ', 'a', 'b', ' ', ' ', 'c']), strings(&["ab", "c"]));
    assert!(split_into_words(&vec![]).is_empty());
}

#[test]
fn structured_text_parsed() {
    let r = structured_dependencies(r#"{"Data":{"Includes":["x.h"]}}"#, Some("m.c"));
    assert_eq!(r, Some(strings(&["x.h", "m.c"])));
    assert_eq!(structured_dependencies("", Some("m.c")), None);
    assert_eq!(structured_dependencies(r#"{"Data":[]}"#, Some("m.c")), None);
    assert_eq!(structured_dependencies(r#"{"Data":{"Includes":"x.h"}}"#, Some("m.c")), Some(strings(&["m.c"])));
}

#[test]
fn document_includes_read() {
    let doc = json::parse(r#"{"Data":{"Includes":[null,"p.h",{"a":1},"q.h"]}}"#).unwrap();
    assert_eq!(dependencies_from_document(&doc, Some("s.c")), Some(strings(&["p.h", "q.h", "s.c"])));
    let other = json::parse(r#"{"Data":{"Include":["p.h"]}}"#).unwrap();
    assert_eq!(dependencies_from_document(&other, Some("s.c")), None);
    assert_eq!(dependencies_from_document(&doc, None), None);
}
