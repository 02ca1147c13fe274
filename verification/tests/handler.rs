use gearsfn::handler::taker::{
    get_question, post_answer, respond, route, router, ApiResponse, Route,
};
use gearsfn::handler::world::{build_sample, world};
use gearsfn::qna::questiondto::{Node, ObjectNode};
use gearsfn::qna::questionlist::question::Integer;
use gearsfn::qna::questionlist::{sample_string_questions, Question, QuestionList};
use gearsfn::qna::validator::Validation;
use serde_json::Value;

fn parsed(json: &str) -> Value {
    serde_json::from_str(json).unwrap()
}

#[test]
fn post_answer_handles_empty_request() {
    let expected = build_sample().to_json();
    let response = router("GET", sample_string_questions(), b"").expect("expected Ok(_) value");
    assert_eq!(response.body, expected);
}

#[test]
fn get_question_handles() {
    let expected = build_sample().to_json();
    let response = router("GET", sample_string_questions(), b"").expect("expected Ok(_) value");
    assert_eq!(response.status, 200);
    assert_eq!(response.body, expected);
    assert_eq!(get_question(sample_string_questions()), response);
}

#[test]
fn world_handles() {
    let expected = build_sample().to_json();
    assert_eq!(world(), expected);
    assert_eq!(parsed(&world())["title"], Value::String("Zork".to_string()));
}

#[test]
fn build_sample_wraps_the_compiled_sample() {
    assert_eq!(build_sample(), Node::Object(ObjectNode::from(sample_string_questions())));
}

#[test]
fn the_ok_response_is_an_empty_object() {
    assert_eq!(ApiResponse::ok(), ApiResponse { status: 200, body: "{}".to_string() });
    assert_eq!(ApiResponse::default(), ApiResponse::ok());
}

#[test]
fn the_error_response_says_bad_input() {
    let response = ApiResponse::error();
    assert_eq!(response.status, 400);
    assert_eq!(response.body, "{\"message\":\"bad input\"}");
}

#[test]
fn each_outcome_has_its_response() {
    assert_eq!(respond(Validation::Conformant), Some(ApiResponse::ok()));
    assert_eq!(respond(Validation::Malformed), Some(ApiResponse::error()));
    assert_eq!(respond(Validation::SchemaRejected), None);
    let violations =
        Validation::Violations(vec!["\"1\" is a required property".to_string(), "b".to_string()]);
    let response = respond(violations).unwrap();
    assert_eq!(response.status, 400);
    assert_eq!(
        response.body,
        "{\"message\":\"input does not validate\",\
         \"errors\":[\"\\\"1\\\" is a required property\",\"b\"]}"
    );
    let body = parsed(&response.body);
    assert_eq!(body["message"], Value::String("input does not validate".to_string()));
    assert_eq!(body["errors"][0], Value::String("\"1\" is a required property".to_string()));
    assert_eq!(body["errors"][1], Value::String("b".to_string()));
}

#[test]
fn only_post_and_get_are_served() {
    assert_eq!(route("POST"), Route::Post);
    assert_eq!(route("GET"), Route::Get);
    for method in ["PUT", "DELETE", "get", "post", "", "GETS", " POST"] {
        assert_eq!(route(method), Route::NotAllowed);
        let response = router(method, sample_string_questions(), b"{}").unwrap();
        assert_eq!(response, ApiResponse { status: 405, body: "{}".to_string() });
    }
}

#[test]
fn a_conformant_answer_is_posted() {
    let body = br#"{"1":"a","8":[],"88":10,"222":true,"24":"bork","3":"x","899":false}"#;
    assert_eq!(post_answer(sample_string_questions(), body), Some(ApiResponse::ok()));
    assert_eq!(router("POST", sample_string_questions(), body), Some(ApiResponse::ok()));
}

#[test]
fn an_answer_in_violation_is_refused_with_every_message() {
    let body = br#"{"1":"a","8":[],"88":10,"222":true,"24":"bork","3":"x","899":false,"7":1}"#;
    let response = post_answer(sample_string_questions(), body).unwrap();
    assert_eq!(response.status, 400);
    assert_eq!(
        response.body,
        "{\"message\":\"input does not validate\",\"errors\":\
         [\"Additional properties are not allowed ('7' was unexpected)\"]}"
    );
}

#[test]
fn a_body_that_is_not_json_is_bad_input() {
    assert_eq!(post_answer(sample_string_questions(), b"pizza"), Some(ApiResponse::error()));
    assert_eq!(router("POST", sample_string_questions(), b""), Some(ApiResponse::error()));
}

#[test]
fn there_is_no_response_where_the_document_is_rejected() {
    let questions = QuestionList {
        title: "T".to_string(),
        description: "D".to_string(),
        questions: vec![Question::Integer(Integer {
            id: 1,
            title: "n".to_string(),
            description: "d".to_string(),
            required: false,
            default: None,
            step: Some(-3),
            min: None,
            max: None,
        })],
    };
    assert_eq!(post_answer(questions.clone(), b"{}"), None);
    assert_eq!(post_answer(questions, b"{"), Some(ApiResponse::error()));
}

#[test]
fn a_text_over_its_length_bound_is_refused_with_a_message_on_the_bound() {
    let body = format!(
        "{{\"1\":\"{}\",\"8\":[],\"88\":10,\"222\":true,\"24\":\"zork\",\"3\":\"x\",\"899\":false}}",
        "x".repeat(65)
    );
    let response = post_answer(sample_string_questions(), body.as_bytes()).unwrap();
    assert_eq!(response.status, 400);
    let parsed_body = parsed(&response.body);
    let errors = parsed_body["errors"].as_array().unwrap();
    assert!(errors.iter().any(|e| {
        let message = e.as_str().unwrap();
        message.starts_with("/1: ") && message.ends_with("is longer than 64 characters")
    }));
    assert_eq!(router("POST", sample_string_questions(), body.as_bytes()), Some(response));
}
