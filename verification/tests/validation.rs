use gearsfn::qna::questiondto::ObjectNode;
use gearsfn::qna::questionlist::question::{FreeText, Integer, TrueOrFalse};
use gearsfn::qna::questionlist::{sample_string_questions, Question, QuestionList};
use gearsfn::qna::validator::{classify, describe, validate, Finding, Validation};

fn free_text(id: i32, required: bool) -> Question {
    Question::FreeText(FreeText {
        id,
        title: "What is your favourite food?".to_string(),
        description: "Tell me about \"food\"\n".to_string(),
        default: None,
        required,
        min_length: None,
        max_length: None,
    })
}

fn truth(id: i32, required: bool) -> Question {
    Question::TrueOrFalse(TrueOrFalse {
        id,
        title: "Some T/F 1".to_string(),
        description: "Some T/f".to_string(),
        default: Some(false),
        required,
        ui: None,
    })
}

fn number(id: i32, step: Option<i32>) -> Question {
    Question::Integer(Integer {
        id,
        title: "n".to_string(),
        description: "d".to_string(),
        required: false,
        default: None,
        step,
        min: Some(0),
        max: Some(100),
    })
}

fn list_of(questions: Vec<Question>) -> QuestionList {
    QuestionList { title: "Zork".to_string(), description: "D".to_string(), questions }
}

fn zork() -> ObjectNode {
    ObjectNode::from(list_of(vec![free_text(1, true), truth(222, true)]))
}

fn sample() -> ObjectNode {
    ObjectNode::from(sample_string_questions())
}

fn violations(messages: &[&str]) -> Validation {
    Validation::Violations(messages.iter().map(|m| m.to_string()).collect())
}

fn messages(outcome: Validation) -> Vec<String> {
    match outcome {
        Validation::Violations(messages) => messages,
        other => panic!("expected violations, got {:?}", other),
    }
}

#[test]
fn zork_compiles_with_both_questions_required() {
    let schema = zork();
    assert_eq!(schema.title, "Zork");
    assert_eq!(schema.required, vec!["1".to_string(), "222".to_string()]);
    assert_eq!(schema.properties.len(), 2);
    assert!(!schema.additional_properties);
}

#[test]
fn zork_accepts_a_complete_answer() {
    assert_eq!(validate(&zork(), br#"{"1": "pizza", "222": true}"#), Validation::Conformant);
}

#[test]
fn zork_reports_a_missing_answer() {
    let outcome = validate(&zork(), br#"{"222": true}"#);
    assert_eq!(outcome, violations(&["\"1\" is a required property"]));
}

#[test]
fn zork_reports_an_unlisted_answer() {
    let outcome = validate(&zork(), br#"{"1": "pizza", "222": true, "999": "x"}"#);
    assert_eq!(
        outcome,
        violations(&["Additional properties are not allowed ('999' was unexpected)"])
    );
}

#[test]
fn two_violations_give_two_messages() {
    let found = messages(validate(&zork(), br#"{"222": "yes"}"#));
    assert_eq!(found.len(), 2);
    assert_ne!(found[0], found[1]);
    assert!(found.contains(&"\"1\" is a required property".to_string()));
    assert!(found.contains(&"/222: \"yes\" is not of type \"boolean\"".to_string()));
}

#[test]
fn every_violation_is_reported() {
    let candidate =
        br#"{"222": "yes", "999": 1, "88": 7, "24": "nork", "8": [1, "a"], "3": "x"}"#;
    let found = messages(validate(&sample(), candidate));
    for expected in [
        "\"1\" is a required property",
        "\"899\" is a required property",
        "/222: \"yes\" is not of type \"boolean\"",
        "/24: \"nork\" is not one of \"zork\" or \"bork\"",
        "/8/0: 1 is not of type \"string\"",
        "/88: 7 is not a multiple of 10",
        "Additional properties are not allowed ('999' was unexpected)",
    ] {
        assert!(found.contains(&expected.to_string()), "{} is not among {:?}", expected, found);
    }
    assert_eq!(found.len(), 7);
}

#[test]
fn the_sample_accepts_an_answer_to_every_question() {
    let candidate =
        br#"{"1":"a","8":["b","c"],"88":10,"222":true,"24":"zork","3":"x","899":false}"#;
    assert_eq!(validate(&sample(), candidate), Validation::Conformant);
}

#[test]
fn answers_that_are_not_required_may_be_missing() {
    let schema = ObjectNode::from(list_of(vec![free_text(1, false), truth(2, true)]));
    assert_eq!(validate(&schema, br#"{"2": false}"#), Validation::Conformant);
    assert_eq!(validate(&schema, br#"{"1": "x", "2": false}"#), Validation::Conformant);
}

#[test]
fn numbers_are_held_to_their_bounds() {
    let schema = ObjectNode::from(list_of(vec![number(88, Some(10))]));
    assert_eq!(validate(&schema, br#"{"88": 0}"#), Validation::Conformant);
    assert_eq!(validate(&schema, br#"{"88": 100}"#), Validation::Conformant);
    assert_eq!(
        validate(&schema, br#"{"88": 110}"#),
        violations(&["/88: 110 is greater than the maximum of 100"])
    );
    assert_eq!(
        validate(&schema, br#"{"88": -10}"#),
        violations(&["/88: -10 is less than the minimum of 0"])
    );
    assert_eq!(
        validate(&schema, br#"{"88": 7}"#),
        violations(&["/88: 7 is not a multiple of 10"])
    );
    assert_eq!(
        validate(&schema, br#"{"88": "ten"}"#),
        violations(&["/88: \"ten\" is not of type \"integer\""])
    );
}

#[test]
fn a_candidate_that_is_no_object_is_in_violation() {
    assert_eq!(
        validate(&zork(), b"[1,2]"),
        violations(&["[1,2] is not of type \"object\""])
    );
    assert!(matches!(validate(&zork(), b"null"), Validation::Violations(_)));
    assert!(matches!(validate(&zork(), b"\"pizza\""), Validation::Violations(_)));
}

#[test]
fn text_that_is_not_json_is_malformed() {
    for candidate in [&b""[..], b"{", b"{\"1\": ", b"{\"1\": pizza}", b"{} {}", b"\xff\xfe"] {
        assert_eq!(validate(&zork(), candidate), Validation::Malformed);
        assert_eq!(validate(&sample(), candidate), Validation::Malformed);
    }
}

#[test]
fn malformed_text_is_malformed_against_any_document() {
    let unusable = ObjectNode::from(list_of(vec![number(1, Some(0))]));
    assert_eq!(validate(&unusable, b"{"), Validation::Malformed);
}

#[test]
fn a_document_with_a_step_of_zero_is_rejected() {
    let schema = ObjectNode::from(list_of(vec![number(1, Some(0))]));
    assert_eq!(validate(&schema, b"{}"), Validation::SchemaRejected);
}

#[test]
fn a_document_that_requires_a_name_twice_is_rejected() {
    let schema = ObjectNode::from(list_of(vec![free_text(1, true), truth(1, true)]));
    assert_eq!(schema.required, vec!["1".to_string(), "1".to_string()]);
    assert_eq!(validate(&schema, br#"{"1": true}"#), Validation::SchemaRejected);
}

#[test]
fn a_shared_number_that_is_required_once_is_validated_by_the_later_question() {
    let schema = ObjectNode::from(list_of(vec![free_text(1, false), truth(1, true)]));
    assert_eq!(validate(&schema, br#"{"1": true}"#), Validation::Conformant);
    assert_eq!(
        validate(&schema, br#"{"1": "pizza"}"#),
        violations(&["/1: \"pizza\" is not of type \"boolean\""])
    );
}

#[test]
fn a_finding_at_the_root_is_described_by_its_message() {
    let finding = Finding { path: "".to_string(), message: "\"1\" is a required property".to_string() };
    assert_eq!(describe(&finding), "\"1\" is a required property");
}

#[test]
fn a_finding_below_the_root_is_described_with_its_place() {
    let finding = Finding { path: "/8/0".to_string(), message: "1 is not a text".to_string() };
    assert_eq!(describe(&finding), "/8/0: 1 is not a text");
}

#[test]
fn no_report_means_that_the_schema_was_rejected() {
    assert_eq!(classify(None), Validation::SchemaRejected);
}

#[test]
fn a_report_without_findings_means_conformance() {
    assert_eq!(classify(Some(vec![])), Validation::Conformant);
}

#[test]
fn every_finding_of_a_report_is_kept_in_order() {
    let report = vec![
        Finding { path: "".to_string(), message: "first".to_string() },
        Finding { path: "/2".to_string(), message: "second".to_string() },
        Finding { path: "".to_string(), message: "first".to_string() },
    ];
    assert_eq!(classify(Some(report)), violations(&["first", "/2: second", "first"]));
}

fn bounded_text(id: i32, min_length: Option<i32>, max_length: Option<i32>) -> Question {
    Question::FreeText(FreeText {
        id,
        title: "t".to_string(),
        description: "d".to_string(),
        default: None,
        required: true,
        min_length,
        max_length,
    })
}

#[test]
fn a_text_is_held_to_the_bounds_on_its_length() {
    let schema = ObjectNode::from(list_of(vec![bounded_text(1, Some(2), Some(4))]));
    assert_eq!(validate(&schema, br#"{"1": "ab"}"#), Validation::Conformant);
    assert_eq!(validate(&schema, br#"{"1": "abcd"}"#), Validation::Conformant);
    assert_eq!(
        validate(&schema, br#"{"1": "abcde"}"#),
        violations(&["/1: \"abcde\" is longer than 4 characters"])
    );
    assert_eq!(
        validate(&schema, br#"{"1": "a"}"#),
        violations(&["/1: \"a\" is shorter than 2 characters"])
    );
}

#[test]
fn a_text_of_sixty_five_characters_is_too_long_for_the_sample() {
    let long = "x".repeat(65);
    let candidate = format!(
        "{{\"1\":\"{}\",\"8\":[],\"88\":10,\"222\":true,\"24\":\"zork\",\"3\":\"x\",\"899\":false}}",
        long
    );
    let found = messages(validate(&sample(), candidate.as_bytes()));
    assert_eq!(found, vec![format!("/1: \"{}\" is longer than 64 characters", long)]);
    let fits = candidate.replacen("x", "", 1);
    assert_eq!(validate(&sample(), fits.as_bytes()), Validation::Conformant);
}

#[test]
fn a_text_without_bounds_may_have_any_length() {
    let schema = ObjectNode::from(list_of(vec![bounded_text(1, None, None)]));
    let long = format!("{{\"1\":\"{}\"}}", "y".repeat(10_000));
    assert_eq!(validate(&schema, long.as_bytes()), Validation::Conformant);
    assert_eq!(validate(&schema, br#"{"1": ""}"#), Validation::Conformant);
}

#[test]
fn a_document_with_a_negative_length_bound_is_rejected() {
    let schema = ObjectNode::from(list_of(vec![bounded_text(1, Some(-1), None)]));
    assert_eq!(validate(&schema, br#"{"1": "a"}"#), Validation::SchemaRejected);
}

#[test]
fn validating_twice_gives_the_same_outcome() {
    let candidate = br#"{"222": "yes", "999": 1, "88": 7, "24": "nork", "8": [1, "a"]}"#;
    let first = validate(&sample(), candidate);
    let second = validate(&sample(), candidate);
    assert!(matches!(first, Validation::Violations(_)));
    assert_eq!(first, second);
}
