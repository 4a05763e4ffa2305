use api_gateway::normalizer::{
    handle_service_response, normalize, normalize_json, pass_on, status_is_passed_on,
    BackendResponse, BackendUnreachable,
};
use api_gateway::response::{ContentType, GatewayError, OutboundResponse, ResponseBody};
use api_gateway::services::friendship_service::ApiResponse;
use api_gateway::text::{chars_of, joined, contains, same_text};

fn answer(status: u16, content_type: &str, body: &str) -> Result<BackendResponse, BackendUnreachable> {
    Ok(BackendResponse {
        status,
        content_type: content_type.to_string(),
        body: body.to_string(),
    })
}

fn json(status_code: u16, document: &str) -> OutboundResponse {
    OutboundResponse { status_code, body: ResponseBody::Json(document.to_string()) }
}

fn failure(message: &str) -> OutboundResponse {
    OutboundResponse {
        status_code: 500,
        body: ResponseBody::Envelope(ApiResponse { message: message.to_string() }),
    }
}

#[test]
fn json_200_passes_through_with_identical_body() {
    let body = "{\"id\": 42, \"name\": \"Ada\",\n  \"tags\": [\"a\", \"b\"]}";
    assert_eq!(handle_service_response(answer(200, "application/json", body)), json(200, body));
}

#[test]
fn json_keeps_each_status_that_is_passed_on() {
    for status in [200u16, 201, 400, 404] {
        assert_eq!(
            handle_service_response(answer(status, "application/json", "{\"ok\":true}")),
            json(status, "{\"ok\":true}")
        );
    }
}

#[test]
fn json_content_type_may_carry_parameters() {
    assert_eq!(
        handle_service_response(answer(200, "application/json; charset=utf-8", "[1,2,3]")),
        json(200, "[1,2,3]")
    );
}

#[test]
fn status_418_is_the_generic_failure_whatever_the_body() {
    let expected = failure("Unhandled HTTP status code");
    assert_eq!(handle_service_response(answer(418, "application/json", "{\"tea\":true}")), expected);
    assert_eq!(handle_service_response(answer(418, "application/json", "[]")), expected);
    assert_eq!(handle_service_response(answer(418, "text/plain", "I'm a teapot")), expected);
    assert_eq!(handle_service_response(answer(418, "", "")), expected);
}

#[test]
fn status_418_with_a_broken_json_body_is_still_a_failure() {
    let response = handle_service_response(answer(418, "application/json", "{"));
    assert_eq!(response.status_code, 500);
    assert!(matches!(response.body, ResponseBody::Envelope(_)));
}

#[test]
fn other_statuses_are_not_passed_on() {
    for status in [100u16, 204, 301, 401, 403, 409, 500, 502, 503] {
        assert_eq!(
            handle_service_response(answer(status, "application/json", "{}")),
            failure("Unhandled HTTP status code")
        );
        assert_eq!(
            handle_service_response(answer(status, "text/html", "<p>x</p>")),
            failure("Unhandled HTTP status code")
        );
    }
}

#[test]
fn the_four_statuses_that_are_passed_on() {
    for status in 0u16..1000 {
        assert_eq!(
            status_is_passed_on(status),
            status == 200 || status == 201 || status == 400 || status == 404
        );
    }
}

#[test]
fn broken_json_is_a_failure_with_the_parser_message() {
    assert_eq!(
        handle_service_response(answer(200, "application/json", "<html>")),
        failure("expected value at line 1 column 1")
    );
}

#[test]
fn json_followed_by_more_is_a_failure() {
    assert_eq!(
        handle_service_response(answer(200, "application/json", "{\"a\":1} x")),
        failure("trailing characters at line 1 column 9")
    );
}

#[test]
fn empty_body_announced_as_json_is_a_failure() {
    assert_eq!(
        handle_service_response(answer(200, "application/json", "")),
        failure("EOF while parsing a value at line 1 column 0")
    );
}

#[test]
fn text_body_is_wrapped_as_json_string() {
    assert_eq!(
        handle_service_response(answer(200, "text/plain", "hello")),
        json(200, "\"hello\"")
    );
}

#[test]
fn wrapped_text_has_its_quotes_and_breaks_escaped() {
    assert_eq!(
        handle_service_response(answer(200, "text/plain", "she said \"hi\"\nback\\slash\ttab")),
        json(200, "\"she said \\\"hi\\\"\\nback\\\\slash\\ttab\"")
    );
}

#[test]
fn wrapped_text_keeps_letters_beyond_ascii() {
    assert_eq!(
        handle_service_response(answer(201, "text/plain; charset=utf-8", "gr\u{fc}\u{df}e")),
        json(201, "\"gr\u{fc}\u{df}e\"")
    );
}

#[test]
fn empty_text_body_is_the_empty_json_string() {
    assert_eq!(handle_service_response(answer(404, "text/html", "")), json(404, "\"\""));
}

#[test]
fn body_without_content_type_is_wrapped() {
    assert_eq!(handle_service_response(answer(400, "", "{\"a\":1}")), json(400, "\"{\\\"a\\\":1}\""));
}

#[test]
fn content_type_is_matched_by_case() {
    assert_eq!(
        handle_service_response(answer(200, "Application/JSON", "{}")),
        json(200, "\"{}\"")
    );
}

#[test]
fn every_answer_reaches_the_caller_as_json() {
    let answers = [
        answer(200, "application/json", "{}"),
        answer(200, "application/json", "{"),
        answer(200, "text/plain", "x"),
        answer(302, "text/plain", "x"),
        answer(500, "application/json", "{}"),
        Err(BackendUnreachable),
    ];
    for one in answers {
        assert_eq!(handle_service_response(one).content_type(), ContentType::Json);
    }
}

#[test]
fn unreachable_backend_is_the_generic_failure() {
    assert_eq!(handle_service_response(Err(BackendUnreachable)), failure("Failed to reach service"));
}

#[test]
fn normalize_names_the_condition() {
    let broken = BackendResponse {
        status: 200,
        content_type: "application/json".to_string(),
        body: "nope".to_string(),
    };
    assert_eq!(
        normalize(broken),
        Err(GatewayError::BackendBodyParseError("expected ident at line 1 column 2".to_string()))
    );
    let unmapped = BackendResponse {
        status: 503,
        content_type: "application/json".to_string(),
        body: "{}".to_string(),
    };
    assert_eq!(normalize(unmapped), Err(GatewayError::BackendStatusUnmapped));
}

#[test]
fn parser_fault_comes_before_the_status() {
    assert_eq!(
        normalize_json(418, "{".to_string(), Some("fault".to_string())),
        Err(GatewayError::BackendBodyParseError("fault".to_string()))
    );
    assert_eq!(
        normalize_json(418, "{}".to_string(), None),
        Err(GatewayError::BackendStatusUnmapped)
    );
    assert_eq!(normalize_json(201, "{}".to_string(), None), Ok(json(201, "{}")));
}

#[test]
fn pass_on_keeps_document_and_status() {
    assert_eq!(pass_on(404, "null".to_string()), Ok(json(404, "null")));
    assert_eq!(pass_on(405, "null".to_string()), Err(GatewayError::BackendStatusUnmapped));
}

#[test]
fn bare_text_travels_without_a_label() {
    let response =
        OutboundResponse { status_code: 405, body: ResponseBody::Text("no".to_string()) };
    assert_eq!(response.content_type(), ContentType::Text);
    assert_eq!(OutboundResponse::envelope(500, "m".to_string()).content_type(), ContentType::Json);
}

#[test]
fn contains_finds_a_run_of_characters() {
    assert!(contains("application/json", "application/json"));
    assert!(contains("text/plain, application/json;q=0.9", "application/json"));
    assert!(contains("anything", ""));
    assert!(contains("", ""));
    assert!(!contains("", "a"));
    assert!(!contains("application/jso", "application/json"));
    assert!(!contains("application/xml", "application/json"));
    assert!(!contains("application /json", "application/json"));
    assert!(contains("aab", "ab"));
    assert!(contains("\u{e9}t\u{e9}", "t\u{e9}"));
}

#[test]
fn text_helpers_agree_with_std() {
    assert_eq!(chars_of("a\u{e9}z"), vec!['a', '\u{e9}', 'z']);
    assert_eq!(chars_of(""), Vec::<char>::new());
    assert_eq!(joined("ab", "cd"), "abcd");
    assert_eq!(joined("", ""), "");
    assert!(same_text("GET", "GET"));
    assert!(!same_text("GET", "GET "));
}
