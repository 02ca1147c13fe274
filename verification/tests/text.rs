use gearsfn::qna::text::{
    clone_optional_text, clone_texts, decimal_string, push_decimal, push_escaped_char,
    push_quoted, push_string_array,
};

#[test]
fn decimal_of_small_numbers() {
    assert_eq!(decimal_string(0), "0");
    assert_eq!(decimal_string(7), "7");
    assert_eq!(decimal_string(10), "10");
    assert_eq!(decimal_string(222), "222");
    assert_eq!(decimal_string(1000), "1000");
}

#[test]
fn decimal_of_negative_numbers() {
    assert_eq!(decimal_string(-1), "-1");
    assert_eq!(decimal_string(-90), "-90");
}

#[test]
fn decimal_of_the_limits() {
    assert_eq!(decimal_string(i32::MAX), "2147483647");
    assert_eq!(decimal_string(i32::MIN), "-2147483648");
}

#[test]
fn decimal_agrees_with_std() {
    for i in [-100_000, -11, -10, -9, 0, 9, 10, 11, 99, 100, 101, 65_536] {
        assert_eq!(decimal_string(i), i.to_string());
    }
}

#[test]
fn decimal_is_appended() {
    let mut out = "id=".to_string();
    push_decimal(&mut out, 42);
    assert_eq!(out, "id=42");
}

#[test]
fn plain_characters_stand_for_themselves() {
    let mut out = String::new();
    push_escaped_char(&mut out, 'a');
    push_escaped_char(&mut out, ' ');
    push_escaped_char(&mut out, '/');
    push_escaped_char(&mut out, '\u{7f}');
    push_escaped_char(&mut out, 'é');
    assert_eq!(out, "a /\u{7f}é");
}

#[test]
fn quotes_and_backslashes_are_escaped() {
    let mut out = String::new();
    push_escaped_char(&mut out, '"');
    push_escaped_char(&mut out, '\\');
    assert_eq!(out, "\\\"\\\\");
}

#[test]
fn control_characters_are_escaped() {
    let mut out = String::new();
    for c in ['\n', '\r', '\t', '\u{8}', '\u{c}'] {
        push_escaped_char(&mut out, c);
    }
    assert_eq!(out, "\\n\\r\\t\\b\\f");
    let mut out = String::new();
    push_escaped_char(&mut out, '\u{0}');
    push_escaped_char(&mut out, '\u{1f}');
    push_escaped_char(&mut out, '\u{1b}');
    assert_eq!(out, "\\u0000\\u001f\\u001b");
}

#[test]
fn quoted_text_is_what_serde_json_writes() {
    let samples = [
        "",
        "plain",
        "with \"quotes\" and \\ backslash",
        "line\nbreak\ttab\rreturn",
        "bell\u{7}null\u{0}escape\u{1b}",
        "ünïcödé ✓ 日本語",
    ];
    for sample in samples {
        let mut out = String::new();
        push_quoted(&mut out, sample);
        assert_eq!(out, serde_json::to_string(sample).unwrap());
        let back: String = serde_json::from_str(&out).unwrap();
        assert_eq!(back, sample);
    }
}

#[test]
fn string_arrays_are_joined_with_commas() {
    let mut out = String::new();
    push_string_array(&mut out, &vec![]);
    assert_eq!(out, "[]");
    let mut out = String::new();
    push_string_array(&mut out, &vec!["zork".to_string()]);
    assert_eq!(out, "[\"zork\"]");
    let mut out = String::new();
    push_string_array(&mut out, &vec!["zork".to_string(), "b\"rk".to_string(), "".to_string()]);
    assert_eq!(out, "[\"zork\",\"b\\\"rk\",\"\"]");
}

#[test]
fn texts_are_copied() {
    assert_eq!(clone_optional_text(&None), None);
    assert_eq!(clone_optional_text(&Some("Ice".to_string())), Some("Ice".to_string()));
    let texts = vec!["zork".to_string(), "bork".to_string()];
    assert_eq!(clone_texts(&texts), texts);
    assert_eq!(clone_texts(&vec![]), Vec::<String>::new());
}
