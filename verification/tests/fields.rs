use bot_utils::fields::parse_fields;

fn field(name: &str, value: &str, inline: bool) -> (String, String, bool) {
    (name.to_string(), value.to_string(), inline)
}

fn parse(input: &str) -> Vec<(String, String, bool)> {
    parse_fields(input.to_string())
}

#[test]
fn one_field() {
    assert_eq!(parse("Name|Value|true"), vec![field("Name", "Value", true)]);
    assert_eq!(parse("Name|Value|false"), vec![field("Name", "Value", false)]);
}

#[test]
fn several_fields_in_order() {
    assert_eq!(
        parse("a|b|false;c|d|TRUE;e|f|no"),
        vec![field("a", "b", false), field("c", "d", true), field("e", "f", false)]
    );
}

#[test]
fn cells_are_trimmed() {
    assert_eq!(parse("  a  |\tb c\n| True "), vec![field("a", "b c", true)]);
    assert_eq!(parse("\u{a0}a\u{3000}|\u{2003}b|\u{2028}tRuE\u{85}"), vec![field("a", "b", true)]);
    assert_eq!(parse(" | | "), vec![field("", "", false)]);
    assert_eq!(parse("||"), vec![field("", "", false)]);
}

#[test]
fn inline_is_true_only_for_the_word() {
    for word in ["true", "TRUE", "True", "tRuE"] {
        assert_eq!(parse(&format!("a|b|{}", word)), vec![field("a", "b", true)]);
    }
    for word in ["", "yes", "1", "truee", "tru", "t rue", r"tr\;ue", "\u{ff54}rue", "false"] {
        assert_eq!(parse(&format!("a|b|{}", word)), vec![field("a", "b", false)]);
    }
}

#[test]
fn escaped_separators_are_text() {
    assert_eq!(parse(r"a\|b|c\;d|true"), vec![field("a|b", "c;d", true)]);
    assert_eq!(parse(r"\;|\||x;y|z|true"), vec![field(";", "|", false), field("y", "z", true)]);
    assert_eq!(parse(r"a\\;b|c|d"), vec![field(r"a\;b", "c", false)]);
    assert_eq!(parse(r"a\;b|c|d"), vec![field("a;b", "c", false)]);
    assert_eq!(parse(r"a\b|c\|d"), Vec::new());
    assert_eq!(parse(r"a\b|c\n|d\"), vec![field(r"a\b", r"c\n", false)]);
}

#[test]
fn other_cell_counts_are_left_out() {
    assert_eq!(parse(""), Vec::new());
    assert_eq!(parse(";"), Vec::new());
    assert_eq!(parse(";;;"), Vec::new());
    assert_eq!(parse("a"), Vec::new());
    assert_eq!(parse("a|b"), Vec::new());
    assert_eq!(parse("a|b|c|d"), Vec::new());
    assert_eq!(parse("a|b;c|d|e;f|g|h|i;|"), vec![field("c", "d", false)]);
}

#[test]
fn separator_at_the_ends() {
    assert_eq!(parse("a|b|true;"), vec![field("a", "b", true)]);
    assert_eq!(parse(";a|b|true"), vec![field("a", "b", true)]);
    assert_eq!(parse("a|b|true;;c|d|true"), vec![field("a", "b", true), field("c", "d", true)]);
}

#[test]
fn multi_byte_text() {
    assert_eq!(
        parse("\u{e9}t\u{e9}|\u{4e16}\u{754c} \u{1f600}|true"),
        vec![field("\u{e9}t\u{e9}", "\u{4e16}\u{754c} \u{1f600}", true)]
    );
}
