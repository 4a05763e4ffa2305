//! Response normalisation: from what a backend answered to what the caller
//! receives. Whatever the backend sends, the caller gets a JSON document
//! under one of four statuses, or the gateway's generic failure.

use vstd::prelude::*;
use vstd::string::*;
use crate::json::{json_parse_error, json_string_literal, parse_error, string_literal};
use crate::response::{
    BodyView,
    ContentType,
    ErrorView,
    GatewayError,
    OutboundResponse,
    ResponseBody,
    ResponseView,
    STATUS_BAD_REQUEST,
    STATUS_CREATED,
    STATUS_NOT_FOUND,
    STATUS_OK,
};
use crate::text::{contains, occurs_in, option_text};

verus! {

/// The words in a content type by which a backend announces JSON.
pub const JSON_MEDIA_TYPE: &'static str = "application/json";

/// What a backend answered, as far as the gateway looks at it.
#[derive(Debug, Clone, PartialEq, Eq)]
pub struct BackendResponse {
    pub status: u16,
    /// The value of the content-type header; empty where the backend sent
    /// none or one that is not text.
    pub content_type: String,
    pub body: String,
}

/// The call to the backend failed below HTTP: no connection, no answer in
/// time, no such host.
#[derive(Debug, Clone, Copy, PartialEq, Eq, Structural)]
pub struct BackendUnreachable;

/// The statuses that are passed on to the caller, each as itself.
pub open spec fn is_passed_on(status: u16) -> bool {
    status == STATUS_OK || status == STATUS_CREATED || status == STATUS_BAD_REQUEST || status
        == STATUS_NOT_FOUND
}

/// The backend announces its body as JSON.
pub open spec fn announces_json(content_type: Seq<char>) -> bool {
    occurs_in(JSON_MEDIA_TYPE@, content_type)
}

/// A JSON document under a backend's status, where that status is passed on.
pub open spec fn passed_on(status: u16, document: Seq<char>) -> Result<ResponseView, ErrorView> {
    if is_passed_on(status) {
        Ok(ResponseView { status_code: status, body: BodyView::Json(document) })
    } else {
        Err(ErrorView::BackendStatusUnmapped)
    }
}

/// The outcome for a body announced as JSON, given what the parser said of
/// it. The body is judged before the status.
pub open spec fn normalized_json(status: u16, body: Seq<char>, fault: Option<Seq<char>>) -> Result<
    ResponseView,
    ErrorView,
> {
    match fault {
        Some(message) => Err(ErrorView::BackendBodyParseError(message)),
        None => passed_on(status, body),
    }
}

/// The outcome for a backend's answer.
pub open spec fn normalized(status: u16, content_type: Seq<char>, body: Seq<char>) -> Result<
    ResponseView,
    ErrorView,
> {
    if announces_json(content_type) {
        normalized_json(status, body, json_parse_error(body))
    } else {
        passed_on(status, json_string_literal(body))
    }
}

/// The response in which an outcome reaches the caller.
pub open spec fn delivered(outcome: Result<ResponseView, ErrorView>) -> ResponseView {
    match outcome {
        Ok(response) => response,
        Err(e) => e.response(),
    }
}

/// An outcome as a mathematical value.
pub open spec fn outcome_view(outcome: Result<OutboundResponse, GatewayError>) -> Result<
    ResponseView,
    ErrorView,
> {
    match outcome {
        Ok(response) => Ok(response@),
        Err(e) => Err(e@),
    }
}

/// Whether a backend's status is passed on to the caller.
pub fn status_is_passed_on(status: u16) -> (r: bool)
    ensures
        r == is_passed_on(status),
{
    status == STATUS_OK || status == STATUS_CREATED || status == STATUS_BAD_REQUEST || status
        == STATUS_NOT_FOUND
}

/// Puts a JSON document under a backend's status.
pub fn pass_on(status: u16, document: String) -> (r: Result<OutboundResponse, GatewayError>)
    ensures
        outcome_view(r) == passed_on(status, document@),
{
    if status_is_passed_on(status) {
        Ok(OutboundResponse { status_code: status, body: ResponseBody::Json(document) })
    } else {
        Err(GatewayError::BackendStatusUnmapped)
    }
}

/// The outcome for a body announced as JSON, given the parser's message of
/// it, if it had one.
pub fn normalize_json(status: u16, body: String, fault: Option<String>) -> (r: Result<
    OutboundResponse,
    GatewayError,
>)
    ensures
        outcome_view(r) == normalized_json(status, body@, option_text(fault)),
{
    match fault {
        Some(message) => Err(GatewayError::BackendBodyParseError(message)),
        None => pass_on(status, body),
    }
}

/// The outcome for a backend's answer: a body announced as JSON is parsed and
/// passed on as it came; any other body is passed on as a JSON string value.
pub fn normalize(response: BackendResponse) -> (r: Result<OutboundResponse, GatewayError>)
    ensures
        outcome_view(r) == normalized(response.status, response.content_type@, response.body@),
{
    if contains(response.content_type.as_str(), JSON_MEDIA_TYPE) {
        let fault = parse_error(response.body.as_str());
        normalize_json(response.status, response.body, fault)
    } else {
        pass_on(response.status, string_literal(response.body.as_str()))
    }
}

/// Turns the result of the call to the backend into the caller's response.
///
/// A call that failed gives the generic failure. An answer whose content type
/// names JSON must parse as JSON, else the generic failure; one that parses
/// goes through with its body untouched. Any other answer has its body
/// wrapped as a JSON string value. In both cases only the statuses 200, 201,
/// 400 and 404 are passed on; any other becomes the generic failure.
pub fn handle_service_response(response: Result<BackendResponse, BackendUnreachable>) -> (r:
    OutboundResponse)
    ensures
        r@ == match response {
            Ok(answer) => delivered(normalized(answer.status, answer.content_type@, answer.body@)),
            Err(_) => ErrorView::BackendUnreachable.response(),
        },
{
    match response {
        Ok(answer) => match normalize(answer) {
            Ok(response) => response,
            Err(e) => e.response(),
        },
        Err(_) => GatewayError::BackendUnreachable.response(),
    }
}

/// A status outside the four that are passed on always ends in the generic
/// failure, whatever the backend's content type and body.
pub proof fn unmapped_status_is_generic_failure(
    status: u16,
    content_type: Seq<char>,
    body: Seq<char>,
)
    requires
        !is_passed_on(status),
    ensures
        delivered(normalized(status, content_type, body)).is_generic_failure(),
{
}

/// A body that is announced as JSON and is JSON reaches the caller unchanged,
/// under the backend's status, for each status that is passed on.
pub proof fn json_body_passes_through(status: u16, content_type: Seq<char>, body: Seq<char>)
    requires
        is_passed_on(status),
        announces_json(content_type),
        json_parse_error(body) is None,
    ensures
        delivered(normalized(status, content_type, body)) == (ResponseView {
            status_code: status,
            body: BodyView::Json(body),
        }),
{
}

/// A body that is not announced as JSON reaches the caller as the JSON string
/// value of its text, for each status that is passed on.
pub proof fn other_body_is_wrapped(status: u16, content_type: Seq<char>, body: Seq<char>)
    requires
        is_passed_on(status),
        !announces_json(content_type),
    ensures
        delivered(normalized(status, content_type, body)) == (ResponseView {
            status_code: status,
            body: BodyView::Json(json_string_literal(body)),
        }),
{
}

/// Whatever the backend answers, the caller's response is labelled JSON, and
/// its status is one of the four that are passed on or 500.
pub proof fn response_is_always_json(status: u16, content_type: Seq<char>, body: Seq<char>)
    ensures
        delivered(normalized(status, content_type, body)).body.content_type() == ContentType::Json,
        is_passed_on(delivered(normalized(status, content_type, body)).status_code) || delivered(
            normalized(status, content_type, body),
        ).is_generic_failure(),
{
}

} // verus!
