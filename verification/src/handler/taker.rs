//! The questionnaire service: `GET` hands out the schema document of a
//! questionnaire, `POST` holds an answer against it.

use vstd::prelude::*;
use vstd::string::StringExecFns;
use vstd::utf8::encode_utf8;
use crate::qna::questiondto::{compile_list, ObjectNode};
use crate::qna::questionlist::{QuestionList, QuestionListView};
use crate::qna::schema_json::object_json;
use crate::qna::text::{push_string_array, string_array};
use crate::qna::validator::{
    json_well_formed, validate, validation_of, Validation, ValidationView,
};

verus! {

/// A response: its status code and its body, which is JSON text.
#[derive(Debug, Clone, PartialEq)]
pub struct ApiResponse {
    pub status: u16,
    pub body: String,
}

/// What an `ApiResponse` holds, as mathematical values.
pub ghost struct ApiResponseView {
    pub status: int,
    pub body: Seq<char>,
}

impl View for ApiResponse {
    type V = ApiResponseView;

    open spec fn view(&self) -> ApiResponseView {
        ApiResponseView { status: self.status as int, body: self.body@ }
    }
}

/// A response, where there is one, by its view.
pub open spec fn response_view(response: Option<ApiResponse>) -> Option<ApiResponseView> {
    match response {
        Some(r) => Some(r@),
        None => None,
    }
}

/// The response to what went well: status 200 and an empty object.
pub open spec fn ok_response() -> ApiResponseView {
    ApiResponseView { status: 200, body: "{}"@ }
}

/// The response to a body that is not JSON: status 400 and a message.
pub open spec fn bad_input_response() -> ApiResponseView {
    ApiResponseView { status: 400, body: "{\"message\":\"bad input\"}"@ }
}

/// The response to an answer in violation: status 400, a message and every
/// violation's message, in order.
pub open spec fn violations_response(messages: Seq<Seq<char>>) -> ApiResponseView {
    ApiResponseView {
        status: 400,
        body: "{\"message\":\"input does not validate\",\"errors\":"@ + string_array(messages)
            + "}"@,
    }
}

/// The response to a method that is not served: status 405 and an empty
/// object.
pub open spec fn not_allowed_response() -> ApiResponseView {
    ApiResponseView { status: 405, body: "{}"@ }
}

/// The response that hands out the schema document of a questionnaire.
pub open spec fn schema_response(document: Seq<char>) -> ApiResponseView {
    ApiResponseView { status: 200, body: document }
}

/// The response to each outcome of a validation; there is none where the
/// schema document was rejected.
pub open spec fn response_to(outcome: ValidationView) -> Option<ApiResponseView> {
    match outcome {
        ValidationView::Conformant => Some(ok_response()),
        ValidationView::Violations(messages) => Some(violations_response(messages)),
        ValidationView::Malformed => Some(bad_input_response()),
        ValidationView::SchemaRejected => None,
    }
}

impl ApiResponse {
    /// The response to what went well.
    pub fn ok() -> (response: Self)
        ensures
            response@ == ok_response(),
    {
        Self::default()
    }

    /// The response to a body that is not JSON.
    pub fn error() -> (response: Self)
        ensures
            response@ == bad_input_response(),
    {
        Self { status: 400, body: String::from_str("{\"message\":\"bad input\"}") }
    }
}

impl Default for ApiResponse {
    fn default() -> (response: Self)
        ensures
            response@ == ok_response(),
    {
        Self { status: 200, body: String::from_str("{}") }
    }
}

/// The response to each outcome of a validation.
pub fn respond(outcome: Validation) -> (response: Option<ApiResponse>)
    ensures
        response_view(response) == response_to(outcome@),
{
    match outcome {
        Validation::Conformant => Some(ApiResponse::ok()),
        Validation::Violations(messages) => {
            let mut body = String::from_str("{\"message\":\"input does not validate\",\"errors\":");
            push_string_array(&mut body, &messages);
            body.append("}");
            Some(ApiResponse { status: 400, body })
        },
        Validation::Malformed => Some(ApiResponse::error()),
        Validation::SchemaRejected => None,
    }
}

/// Answers a `GET`: the schema document of the questionnaire.
pub fn get_question(questions: QuestionList) -> (response: ApiResponse)
    ensures
        response@ == schema_response(object_json(compile_list(questions@))),
{
    ApiResponse { status: 200, body: ObjectNode::from(questions).to_json() }
}

/// The response to a body held against the schema document of a
/// questionnaire.
pub open spec fn answer_to(questions: QuestionListView, body: Seq<u8>) -> Option<
    ApiResponseView,
> {
    response_to(validation_of(encode_utf8(object_json(compile_list(questions))), body))
}

/// Answers a `POST`: the body, held against the schema document of the
/// questionnaire. There is no response where that document was rejected.
pub fn post_answer(questions: QuestionList, body: &[u8]) -> (response: Option<ApiResponse>)
    ensures
        response_view(response) == answer_to(questions@, body@),
        !json_well_formed(body@) ==> response_view(response) == Some(bad_input_response()),
{
    let schema = ObjectNode::from(questions);
    respond(validate(&schema, body))
}

/// What is done for a method.
#[derive(Debug, Clone, Copy, PartialEq, Eq, Structural)]
pub enum Route {
    Post,
    Get,
    NotAllowed,
}

/// What is done for each method: `POST` and `GET` are served, in exactly
/// that spelling, and nothing else.
pub open spec fn route_of(method: Seq<char>) -> Route {
    if method == "POST"@ {
        Route::Post
    } else if method == "GET"@ {
        Route::Get
    } else {
        Route::NotAllowed
    }
}

/// Chooses what is done for a method.
pub fn route(method: &str) -> (r: Route)
    ensures
        r == route_of(method@),
{
    let name = String::from_str(method);
    if name == String::from_str("POST") {
        Route::Post
    } else if name == String::from_str("GET") {
        Route::Get
    } else {
        Route::NotAllowed
    }
}

/// Answers a request by its method: `GET` with the schema document of the
/// questionnaire, `POST` with what came of holding the body against it, and
/// any other method with status 405. There is no response only where a
/// `POST` met a schema document that was rejected.
pub fn router(method: &str, questions: QuestionList, body: &[u8]) -> (response: Option<
    ApiResponse,
>)
    ensures
        route_of(method@) is Get ==> response_view(response) == Some(
            schema_response(object_json(compile_list(questions@))),
        ),
        route_of(method@) is NotAllowed ==> response_view(response) == Some(
            not_allowed_response(),
        ),
        route_of(method@) is Post ==> response_view(response) == answer_to(questions@, body@),
        route_of(method@) is Post && !json_well_formed(body@) ==> response_view(response)
            == Some(bad_input_response()),
{
    match route(method) {
        Route::Post => post_answer(questions, body),
        Route::Get => Some(get_question(questions)),
        Route::NotAllowed => Some(ApiResponse { status: 405, body: String::from_str("{}") }),
    }
}

} // verus!
