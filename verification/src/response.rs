//! What the gateway hands back to a caller, and the conditions under which it
//! answers by itself instead of passing a backend's answer on.

use vstd::prelude::*;
use vstd::string::*;
use crate::services::friendship_service::ApiResponse;

verus! {

pub const STATUS_OK: u16 = 200;

pub const STATUS_CREATED: u16 = 201;

pub const STATUS_BAD_REQUEST: u16 = 400;

pub const STATUS_NOT_FOUND: u16 = 404;

pub const STATUS_METHOD_NOT_ALLOWED: u16 = 405;

pub const STATUS_TOO_MANY_REQUESTS: u16 = 429;

pub const STATUS_INTERNAL_SERVER_ERROR: u16 = 500;

/// How a response body is labelled on the wire.
#[derive(Debug, Clone, Copy, PartialEq, Eq, Structural)]
pub enum ContentType {
    /// A JSON document.
    Json,
    /// Bare text, sent without a declared type.
    Text,
}

/// The body of a response.
#[derive(Debug, Clone, PartialEq, Eq)]
pub enum ResponseBody {
    /// The text of a JSON document, delivered as it stands.
    Json(String),
    /// A message of the gateway's own, delivered as a JSON object.
    Envelope(ApiResponse),
    /// Bare text.
    Text(String),
}

/// A response body as a mathematical value.
pub enum BodyView {
    Json(Seq<char>),
    Envelope(Seq<char>),
    Text(Seq<char>),
}

impl View for ResponseBody {
    type V = BodyView;

    open spec fn view(&self) -> BodyView {
        match self {
            ResponseBody::Json(text) => BodyView::Json(text@),
            ResponseBody::Envelope(envelope) => BodyView::Envelope(envelope@),
            ResponseBody::Text(text) => BodyView::Text(text@),
        }
    }
}

impl BodyView {
    /// The label under which the body travels.
    pub open spec fn content_type(self) -> ContentType {
        match self {
            BodyView::Json(_) => ContentType::Json,
            BodyView::Envelope(_) => ContentType::Json,
            BodyView::Text(_) => ContentType::Text,
        }
    }
}

/// The response the caller receives.
#[derive(Debug, Clone, PartialEq, Eq)]
pub struct OutboundResponse {
    pub status_code: u16,
    pub body: ResponseBody,
}

/// A response as a mathematical value.
pub struct ResponseView {
    pub status_code: u16,
    pub body: BodyView,
}

impl View for OutboundResponse {
    type V = ResponseView;

    open spec fn view(&self) -> ResponseView {
        ResponseView { status_code: self.status_code, body: self.body@ }
    }
}

impl ResponseView {
    /// A message of the gateway's own under the given status.
    pub open spec fn envelope(status_code: u16, message: Seq<char>) -> ResponseView {
        ResponseView { status_code, body: BodyView::Envelope(message) }
    }

    /// The response is the gateway's generic failure: status 500 and an
    /// envelope, whatever the message.
    pub open spec fn is_generic_failure(self) -> bool {
        self.status_code == STATUS_INTERNAL_SERVER_ERROR && self.body is Envelope
    }
}

impl OutboundResponse {
    /// A message of the gateway's own under the given status.
    pub fn envelope(status_code: u16, message: String) -> (r: OutboundResponse)
        ensures
            r@ == ResponseView::envelope(status_code, message@),
    {
        OutboundResponse { status_code, body: ResponseBody::Envelope(ApiResponse { message }) }
    }

    /// The label under which the body travels: JSON for a document and for an
    /// envelope, none for bare text.
    pub fn content_type(&self) -> (r: ContentType)
        ensures
            r == self@.body.content_type(),
    {
        match &self.body {
            ResponseBody::Json(_) => ContentType::Json,
            ResponseBody::Envelope(_) => ContentType::Json,
            ResponseBody::Text(_) => ContentType::Text,
        }
    }
}

/// Every condition under which a request ends without a backend's answer
/// being passed on. Each is final for its request.
#[derive(Debug, Clone, PartialEq, Eq)]
pub enum GatewayError {
    /// The service name is not in the table.
    RouteNotFound,
    /// The method is none of GET, POST, PUT, DELETE.
    MethodNotSupported,
    /// The client's bucket holds less than one token.
    RateLimited,
    /// The request does not say who the client is.
    MissingRateLimitKey,
    /// The backend could not be reached.
    BackendUnreachable,
    /// The backend announced JSON and sent something else; the parser's
    /// message is kept.
    BackendBodyParseError(String),
    /// The backend answered with a status that is not passed on.
    BackendStatusUnmapped,
}

/// A [`GatewayError`] as a mathematical value.
pub enum ErrorView {
    RouteNotFound,
    MethodNotSupported,
    RateLimited,
    MissingRateLimitKey,
    BackendUnreachable,
    BackendBodyParseError(Seq<char>),
    BackendStatusUnmapped,
}

impl View for GatewayError {
    type V = ErrorView;

    open spec fn view(&self) -> ErrorView {
        match self {
            GatewayError::RouteNotFound => ErrorView::RouteNotFound,
            GatewayError::MethodNotSupported => ErrorView::MethodNotSupported,
            GatewayError::RateLimited => ErrorView::RateLimited,
            GatewayError::MissingRateLimitKey => ErrorView::MissingRateLimitKey,
            GatewayError::BackendUnreachable => ErrorView::BackendUnreachable,
            GatewayError::BackendBodyParseError(message) => ErrorView::BackendBodyParseError(
                message@,
            ),
            GatewayError::BackendStatusUnmapped => ErrorView::BackendStatusUnmapped,
        }
    }
}

impl ErrorView {
    /// The status under which the condition is reported.
    pub open spec fn status_code(self) -> u16 {
        match self {
            ErrorView::RouteNotFound => STATUS_NOT_FOUND,
            ErrorView::MethodNotSupported => STATUS_METHOD_NOT_ALLOWED,
            ErrorView::RateLimited => STATUS_TOO_MANY_REQUESTS,
            ErrorView::MissingRateLimitKey => STATUS_INTERNAL_SERVER_ERROR,
            ErrorView::BackendUnreachable => STATUS_INTERNAL_SERVER_ERROR,
            ErrorView::BackendBodyParseError(_) => STATUS_INTERNAL_SERVER_ERROR,
            ErrorView::BackendStatusUnmapped => STATUS_INTERNAL_SERVER_ERROR,
        }
    }

    /// The words in which the condition is reported. A bucket gains a token
    /// within a fifth of a second, so a client over the limit is always told
    /// to wait no whole second.
    pub open spec fn message(self) -> Seq<char> {
        match self {
            ErrorView::RouteNotFound => "Service not found"@,
            ErrorView::MethodNotSupported => "Unsupported HTTP method"@,
            ErrorView::RateLimited => "Too many requests, retry in 0s"@,
            ErrorView::MissingRateLimitKey => "Can not find any token"@,
            ErrorView::BackendUnreachable => "Failed to reach service"@,
            ErrorView::BackendBodyParseError(message) => message,
            ErrorView::BackendStatusUnmapped => "Unhandled HTTP status code"@,
        }
    }

    /// The response that reports the condition: bare text for an unsupported
    /// method, an envelope for every other.
    pub open spec fn response(self) -> ResponseView {
        ResponseView {
            status_code: self.status_code(),
            body: if self is MethodNotSupported {
                BodyView::Text(self.message())
            } else {
                BodyView::Envelope(self.message())
            },
        }
    }
}

/// Of all conditions only the unsupported method is reported in bare text;
/// every other is reported in an envelope, which travels as JSON.
pub proof fn only_unsupported_method_is_bare_text(condition: ErrorView)
    ensures
        condition is MethodNotSupported <==> condition.response().body.content_type()
            == ContentType::Text,
        !(condition is MethodNotSupported) ==> condition.response().body is Envelope,
{
}

impl GatewayError {
    /// The status under which the condition is reported.
    pub fn status_code(&self) -> (r: u16)
        ensures
            r == self@.status_code(),
    {
        match self {
            GatewayError::RouteNotFound => STATUS_NOT_FOUND,
            GatewayError::MethodNotSupported => STATUS_METHOD_NOT_ALLOWED,
            GatewayError::RateLimited => STATUS_TOO_MANY_REQUESTS,
            _ => STATUS_INTERNAL_SERVER_ERROR,
        }
    }

    /// The words in which the condition is reported.
    pub fn message(&self) -> (r: String)
        ensures
            r@ == self@.message(),
    {
        match self {
            GatewayError::RouteNotFound => String::from_str("Service not found"),
            GatewayError::MethodNotSupported => String::from_str("Unsupported HTTP method"),
            GatewayError::RateLimited => String::from_str("Too many requests, retry in 0s"),
            GatewayError::MissingRateLimitKey => String::from_str("Can not find any token"),
            GatewayError::BackendUnreachable => String::from_str("Failed to reach service"),
            GatewayError::BackendBodyParseError(message) => message.clone(),
            GatewayError::BackendStatusUnmapped => String::from_str("Unhandled HTTP status code"),
        }
    }

    /// The response that reports the condition.
    pub fn response(&self) -> (r: OutboundResponse)
        ensures
            r@ == self@.response(),
    {
        let status_code = self.status_code();
        let message = self.message();
        match self {
            GatewayError::MethodNotSupported => OutboundResponse {
                status_code,
                body: ResponseBody::Text(message),
            },
            _ => OutboundResponse::envelope(status_code, message),
        }
    }
}

} // verus!
