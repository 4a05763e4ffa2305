//! The decisions of a reverse-proxy gateway, on plain values.
//!
//! A request passes the rate limiter ([`rate_limit`]), is resolved to a
//! backend by the router ([`router`]), goes out, and the backend's answer is
//! brought into the gateway's own shape by the normaliser ([`normalizer`]).
//! [`gateway`] joins limiter and router; [`services`] holds the handlers that
//! are bound to one backend. Nothing here performs I/O or reads a clock: the
//! caller makes the outbound call and hands in the time.

pub mod gateway;
pub mod json;
pub mod normalizer;
pub mod rate_limit;
pub mod response;
pub mod router;
pub mod services;
pub mod text;

pub use gateway::{receive, InboundRequest};
pub use normalizer::{handle_service_response, BackendResponse, BackendUnreachable};
pub use rate_limit::{RateBucket, RateLimiter, _KeyExtactor};
pub use response::{ContentType, GatewayError, OutboundResponse, ResponseBody};
pub use router::{
    build_url, route_to_service, ForwardRequest, Method, RouteDecision, ServiceRoute,
    ServiceTable,
};
pub use services::friendship_service::{
    initiate_friendship, respond_to_friendship, ApiResponse, FriendshipRequest,
};
