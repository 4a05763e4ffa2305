//! The friendship backend: two fixed operations, each forwarded with the
//! caller's request as its body.

use vstd::prelude::*;
use vstd::string::*;
use crate::normalizer::{
    normalize,
    normalized,
    outcome_view,
    BackendResponse,
    BackendUnreachable,
};
use crate::response::{
    ContentType,
    ErrorView,
    GatewayError,
    OutboundResponse,
    ResponseView,
    STATUS_BAD_REQUEST,
    STATUS_INTERNAL_SERVER_ERROR,
    STATUS_NOT_FOUND,
    STATUS_OK,
};
use crate::router::{ForwardRequest, Method, RouteDecision, ServiceTable, FRIENDSHIP_SERVICE};
use crate::text::joined;

verus! {

/// The body of a friendship operation, forwarded to the backend as it came.
#[derive(Debug, Clone, PartialEq, Eq)]
pub struct FriendshipRequest {
    pub initiator_id: String,
    pub recipient_id: String,
    pub status: String,
}

/// The envelope in which the gateway reports an outcome of its own: an object
/// with the single field `message`.
#[derive(Debug, Clone, PartialEq, Eq)]
pub struct ApiResponse {
    pub message: String,
}

impl View for ApiResponse {
    type V = Seq<char>;

    /// An envelope is its message.
    open spec fn view(&self) -> Seq<char> {
        self.message@
    }
}

/// The operation that opens a friendship.
pub const INITIATE_PATH: &'static str = "initiate";

/// The operation that answers a friendship.
pub const RESPOND_PATH: &'static str = "respond";

/// What a friendship operation under another method than POST or PUT is told.
pub const UNSUPPORTED_METHOD_MESSAGE: &'static str = "Unsupported HTTP method";

/// What the caller of a friendship operation is told when it failed.
pub const FRIENDSHIP_FAILURE_MESSAGE: &'static str = "Failed to reach Friendship Service";

/// The address of a friendship operation: the backend's URL, the service's
/// name and the operation, each set off by one slash.
pub open spec fn friendship_endpoint(base_url: Seq<char>, path: Seq<char>) -> Seq<char> {
    base_url + seq!['/'] + FRIENDSHIP_SERVICE@ + seq!['/'] + path
}

/// The failure with which the friendship handlers answer for every outcome
/// that they do not tell apart.
pub open spec fn friendship_failure() -> ResponseView {
    ResponseView::envelope(STATUS_INTERNAL_SERVER_ERROR, FRIENDSHIP_FAILURE_MESSAGE@)
}

/// The statuses that the friendship handlers tell apart, each passed on as
/// itself.
pub open spec fn is_told_apart(status: u16) -> bool {
    status == STATUS_OK || status == STATUS_BAD_REQUEST || status == STATUS_NOT_FOUND
}

/// The caller's response to a friendship operation, from what the normaliser
/// made of the backend's answer: a response under one of the statuses that
/// are told apart goes through; every other outcome is the one failure.
pub open spec fn friendship_delivered(outcome: Result<ResponseView, ErrorView>) -> ResponseView {
    match outcome {
        Ok(response) => if is_told_apart(response.status_code) {
            response
        } else {
            friendship_failure()
        },
        Err(_) => friendship_failure(),
    }
}

/// Plans one friendship operation: `data` goes to `path` under the friendship
/// backend with the given method.
///
/// Only POST and PUT are operations; any other method ends the request with
/// status 500 and no call going out. So does, with status 404, a table that
/// does not list the friendship backend.
pub fn make_friendship_request(
    table: &ServiceTable,
    path: &str,
    method: Method,
    data: FriendshipRequest,
) -> (decision: RouteDecision<FriendshipRequest>)
    ensures
        !method.carries_body() ==> (decision matches RouteDecision::Respond(response) && response@
            == ResponseView::envelope(STATUS_INTERNAL_SERVER_ERROR, UNSUPPORTED_METHOD_MESSAGE@)),
        method.carries_body() && !table@.contains_key(FRIENDSHIP_SERVICE@) ==> (
        decision matches RouteDecision::Respond(response) && response@
            == ErrorView::RouteNotFound.response()),
        method.carries_body() && table@.contains_key(FRIENDSHIP_SERVICE@) ==> ({
            &&& decision matches RouteDecision::Forward(request)
            &&& request.method == method
            &&& request.url@ == friendship_endpoint(table@[FRIENDSHIP_SERVICE@], path@)
            &&& request.body == Some(data)
        }),
{
    if !method.forwards_body() {
        return RouteDecision::Respond(
            OutboundResponse::envelope(
                STATUS_INTERNAL_SERVER_ERROR,
                String::from_str(UNSUPPORTED_METHOD_MESSAGE),
            ),
        );
    }
    let base_url = match table.resolve(FRIENDSHIP_SERVICE) {
        Ok(base_url) => base_url,
        Err(e) => {
            return RouteDecision::Respond(e.response());
        },
    };
    proof {
        reveal_strlit("/");
    }
    assert("/"@ =~= seq!['/']);
    let service = joined(joined(base_url.as_str(), "/").as_str(), FRIENDSHIP_SERVICE);
    let url = joined(joined(service.as_str(), "/").as_str(), path);
    RouteDecision::Forward(ForwardRequest { method, url, body: Some(data) })
}

/// Plans the opening of a friendship: `data` goes out by POST to `initiate`.
pub fn initiate_friendship(table: &ServiceTable, data: FriendshipRequest) -> (decision:
    RouteDecision<FriendshipRequest>)
    ensures
        !table@.contains_key(FRIENDSHIP_SERVICE@) ==> (decision matches RouteDecision::Respond(
            response,
        ) && response@ == ErrorView::RouteNotFound.response()),
        table@.contains_key(FRIENDSHIP_SERVICE@) ==> ({
            &&& decision matches RouteDecision::Forward(request)
            &&& request.method == Method::Post
            &&& request.url@ == friendship_endpoint(table@[FRIENDSHIP_SERVICE@], INITIATE_PATH@)
            &&& request.body == Some(data)
        }),
{
    make_friendship_request(table, INITIATE_PATH, Method::Post, data)
}

/// Plans the answer to a friendship: `data` goes out by PUT to `respond`.
pub fn respond_to_friendship(table: &ServiceTable, data: FriendshipRequest) -> (decision:
    RouteDecision<FriendshipRequest>)
    ensures
        !table@.contains_key(FRIENDSHIP_SERVICE@) ==> (decision matches RouteDecision::Respond(
            response,
        ) && response@ == ErrorView::RouteNotFound.response()),
        table@.contains_key(FRIENDSHIP_SERVICE@) ==> ({
            &&& decision matches RouteDecision::Forward(request)
            &&& request.method == Method::Put
            &&& request.url@ == friendship_endpoint(table@[FRIENDSHIP_SERVICE@], RESPOND_PATH@)
            &&& request.body == Some(data)
        }),
{
    make_friendship_request(table, RESPOND_PATH, Method::Put, data)
}

/// The failure with which the friendship handlers answer.
fn failure() -> (r: OutboundResponse)
    ensures
        r@ == friendship_failure(),
{
    OutboundResponse::envelope(
        STATUS_INTERNAL_SERVER_ERROR,
        String::from_str(FRIENDSHIP_FAILURE_MESSAGE),
    )
}

/// The caller's response to a friendship operation, from what the normaliser
/// made of the backend's answer.
pub fn friendship_outcome(outcome: Result<OutboundResponse, GatewayError>) -> (r: OutboundResponse)
    ensures
        r@ == friendship_delivered(outcome_view(outcome)),
{
    match outcome {
        Ok(response) => {
            if response.status_code == STATUS_OK || response.status_code == STATUS_BAD_REQUEST
                || response.status_code == STATUS_NOT_FOUND {
                response
            } else {
                failure()
            }
        },
        Err(_) => failure(),
    }
}

/// Turns the result of a friendship operation's call into the caller's
/// response.
///
/// The backend's answer is normalised as every backend's is, but of the
/// statuses only 200, 400 and 404 are told apart. Every other status, a body
/// that is announced as JSON and is none, and a call that failed all end in
/// the same failure.
pub fn handle_friendship_response(response: Result<BackendResponse, BackendUnreachable>) -> (r:
    OutboundResponse)
    ensures
        r@ == match response {
            Ok(answer) => friendship_delivered(
                normalized(answer.status, answer.content_type@, answer.body@),
            ),
            Err(_) => friendship_failure(),
        },
{
    match response {
        Ok(answer) => friendship_outcome(normalize(answer)),
        Err(_) => failure(),
    }
}

/// Whatever the backend answers to a friendship operation, the caller's
/// response is labelled JSON, and its status is 200, 400, 404 or 500.
pub proof fn friendship_response_is_always_json(
    status: u16,
    content_type: Seq<char>,
    body: Seq<char>,
)
    ensures
        friendship_delivered(normalized(status, content_type, body)).body.content_type()
            == ContentType::Json,
        is_told_apart(friendship_delivered(normalized(status, content_type, body)).status_code)
            || friendship_delivered(normalized(status, content_type, body))
            == friendship_failure(),
{
}

} // verus!
