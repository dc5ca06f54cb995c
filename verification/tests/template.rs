use bot_utils::template::{next_token, uses_timestamp, Field, Token};
use bot_utils::text::{chars_of, push_range, range_spells};

fn chars(s: &str) -> Vec<char> {
    s.chars().collect()
}

#[test]
fn chars_of_gives_the_characters() {
    assert_eq!(chars_of(""), Vec::<char>::new());
    assert_eq!(chars_of("a\u{e9}\u{1f600}"), vec!['a', '\u{e9}', '\u{1f600}']);
}

#[test]
fn range_spells_compares_a_range() {
    let t = chars("{{level}}");
    assert!(range_spells(&t, 2, 7, "level"));
    assert!(!range_spells(&t, 2, 7, "levelc"));
    assert!(!range_spells(&t, 2, 6, "level"));
    assert!(!range_spells(&t, 1, 6, "level"));
    assert!(range_spells(&t, 3, 3, ""));
}

#[test]
fn push_range_appends_a_range() {
    let t = chars("ab\u{e9}cd");
    let mut out = String::from("x");
    push_range(&mut out, &t, 1, 4);
    assert_eq!(out, "xb\u{e9}c");
    push_range(&mut out, &t, 2, 2);
    assert_eq!(out, "xb\u{e9}c");
}

#[test]
fn tokens_of_placeholders() {
    let names = [
        ("timestamp", Field::Timestamp, false),
        ("timestampc", Field::Timestamp, true),
        ("level", Field::Level, false),
        ("levelc", Field::Level, true),
        ("message", Field::Message, false),
        ("messagec", Field::Message, true),
    ];
    for (name, field, colored) in names {
        let t = chars(&format!("{{{{{}}}}}x", name));
        assert_eq!(
            next_token(&t, 0, false),
            Some((Token::Field { field, colored }, name.len() + 4))
        );
    }
    assert_eq!(next_token(&chars("{{Level}}"), 0, false), Some((Token::Unknown, 9)));
    assert_eq!(next_token(&chars("{{ level }}"), 0, true), Some((Token::Unknown, 11)));
    assert_eq!(next_token(&chars("{{}}"), 0, false), Some((Token::Unknown, 4)));
}

#[test]
fn tokens_of_braces_that_open_nothing() {
    assert_eq!(next_token(&chars("{"), 0, false), Some((Token::Literal { c: '{' }, 1)));
    assert_eq!(next_token(&chars("{a}}"), 0, false), Some((Token::Literal { c: '{' }, 1)));
    assert_eq!(next_token(&chars("{{a}"), 0, false), Some((Token::Literal { c: '{' }, 1)));
    assert_eq!(next_token(&chars("{{}"), 0, false), Some((Token::Literal { c: '{' }, 1)));
    assert_eq!(next_token(&chars("{{"), 0, false), Some((Token::Literal { c: '{' }, 1)));
    assert_eq!(next_token(&chars("}}"), 0, false), Some((Token::Literal { c: '}' }, 1)));
}

#[test]
fn tokens_of_style_markers() {
    let t = chars("*_~x");
    assert_eq!(next_token(&t, 0, false), Some((Token::Bold, 1)));
    assert_eq!(next_token(&t, 1, false), Some((Token::Italic, 2)));
    assert_eq!(next_token(&t, 2, false), Some((Token::Literal { c: '~' }, 3)));
    assert_eq!(next_token(&t, 2, true), Some((Token::ColorClose, 3)));
    assert_eq!(next_token(&t, 3, true), Some((Token::Literal { c: 'x' }, 4)));
    assert_eq!(next_token(&t, 4, false), None);
    assert_eq!(next_token(&t, 9, false), None);
}

#[test]
fn tokens_of_color_tags() {
    let t = chars("~#0a0B0cx");
    assert_eq!(next_token(&t, 0, false), Some((Token::ColorOpen { rgb: (10, 11, 12) }, 8)));
    assert_eq!(next_token(&t, 0, true), Some((Token::ColorClose, 1)));
    assert_eq!(
        next_token(&chars("~#ffffff"), 0, false),
        Some((Token::ColorOpen { rgb: (255, 255, 255) }, 8))
    );
    for other in ["~#fffff", "~#abc", "~ffffff0", "~#fffffg", "~#+1+2+3", "~"] {
        assert_eq!(next_token(&chars(other), 0, false), Some((Token::Literal { c: '~' }, 1)));
    }
}

#[test]
fn uses_timestamp_follows_the_scan() {
    assert!(uses_timestamp(&chars("{{timestamp}}")));
    assert!(uses_timestamp(&chars("a *b* {{level}} {{timestampc}}")));
    assert!(uses_timestamp(&chars("~#000000{{timestamp}}")));
    assert!(!uses_timestamp(&chars("")));
    assert!(!uses_timestamp(&chars("{{level}} {{message}}")));
    assert!(!uses_timestamp(&chars("{{timestamp")));
    assert!(!uses_timestamp(&chars("{timestamp}")));
    assert!(!uses_timestamp(&chars("{{x{{timestamp}}")));
    assert!(uses_timestamp(&chars("~#00000{{timestamp}}")));
}
