//! The way of a request through the gateway: past the rate limiter, then to
//! the router. What the router sends out comes back through the normaliser.

use vstd::prelude::*;
use crate::rate_limit::{bucket_for, buckets_after, RateLimiter};
use crate::response::ErrorView;
use crate::router::{is_routed, path_remainder, route_to_service, RouteDecision, ServiceTable};

verus! {

/// A request as it reaches the gateway.
#[derive(Debug, Clone, PartialEq, Eq)]
pub struct InboundRequest<B> {
    /// The method's name as it stands in the request line.
    pub method: String,
    /// The first segment of the path.
    pub service_name: String,
    /// What follows the first segment, if anything does.
    pub extra_path: Option<String>,
    /// The value of the header that says who the client is, if it is there.
    pub authorization: Option<String>,
    /// The JSON body, if the request has one.
    pub body: Option<B>,
}

/// Takes one request, arriving at `now`, through the rate limiter and the
/// router.
///
/// The limiter comes first. A request that it turns away, for want of a key
/// or of a token, ends with the response of that condition and is never
/// routed, so no call goes out for it. A request without a key touches no
/// bucket; every other touches its client's bucket and no other. A request
/// that the limiter lets through is routed.
pub fn receive<B>(
    limiter: &mut RateLimiter,
    table: &ServiceTable,
    request: InboundRequest<B>,
    now: u64,
) -> (decision: RouteDecision<B>)
    requires
        old(limiter).wf(),
    ensures
        final(limiter).wf(),
        match request.authorization {
            None => {
                &&& final(limiter)@ == old(limiter)@
                &&& decision matches RouteDecision::Respond(response)
                &&& response@ == ErrorView::MissingRateLimitKey.response()
            },
            Some(key) => {
                &&& final(limiter)@ == buckets_after(old(limiter)@, key@, now as int)
                &&& if bucket_for(old(limiter)@, key@, now as int).admits(now as int) {
                    is_routed(
                        decision,
                        table@,
                        request.method@,
                        request.service_name@,
                        path_remainder(request.extra_path),
                        request.body,
                    )
                } else {
                    decision matches RouteDecision::Respond(response) && response@
                        == ErrorView::RateLimited.response()
                }
            },
        },
{
    let screened = match &request.authorization {
        Some(key) => limiter.screen(Some(key.as_str()), now),
        None => limiter.screen(None, now),
    };
    match screened {
        Ok(_) => route_to_service(
            table,
            request.method.as_str(),
            request.service_name.as_str(),
            request.extra_path,
            request.body,
        ),
        Err(e) => RouteDecision::Respond(e.response()),
    }
}

} // verus!
