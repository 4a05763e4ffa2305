//! Route resolution: from a service name, a path remainder and a method to
//! the request that goes out to a backend, or to the response that ends the
//! request at the gateway.

use vstd::prelude::*;
use vstd::string::*;
use crate::response::{
    ErrorView,
    GatewayError,
    OutboundResponse,
    STATUS_METHOD_NOT_ALLOWED,
    STATUS_NOT_FOUND,
};
use crate::text::{joined, option_text, same_text};

verus! {

/// The name under which the profile backend is addressed.
pub const PROFILE_SERVICE: &'static str = "profiles";

/// The name under which the friendship backend is addressed.
pub const FRIENDSHIP_SERVICE: &'static str = "friendships";

/// Where the profile backend is reached when the environment does not say.
pub const DEFAULT_PROFILE_SERVICE_URL: &'static str = "http://localhost:8082";

/// Where the friendship backend is reached when the environment does not say.
pub const DEFAULT_FRIENDSHIP_SERVICE_URL: &'static str = "http://localhost:8086";

/// The methods that the gateway forwards.
#[derive(Debug, Clone, Copy, PartialEq, Eq, Structural)]
pub enum Method {
    Get,
    Post,
    Put,
    Delete,
}

impl Method {
    /// The method that a request line names, if the gateway forwards it.
    /// Method names are matched letter for letter.
    pub open spec fn named(name: Seq<char>) -> Option<Method> {
        if name == "GET"@ {
            Some(Method::Get)
        } else if name == "POST"@ {
            Some(Method::Post)
        } else if name == "PUT"@ {
            Some(Method::Put)
        } else if name == "DELETE"@ {
            Some(Method::Delete)
        } else {
            None
        }
    }

    /// Whether a request with this method takes the inbound body along.
    pub open spec fn carries_body(self) -> bool {
        self is Post || self is Put
    }

    /// Reads a method name; any name but the four forwarded ones is
    /// [`GatewayError::MethodNotSupported`].
    pub fn from_name(name: &str) -> (r: Result<Method, GatewayError>)
        ensures
            match r {
                Ok(method) => Method::named(name@) == Some(method),
                Err(e) => Method::named(name@) is None && e@ == ErrorView::MethodNotSupported,
            },
    {
        if same_text(name, "GET") {
            Ok(Method::Get)
        } else if same_text(name, "POST") {
            Ok(Method::Post)
        } else if same_text(name, "PUT") {
            Ok(Method::Put)
        } else if same_text(name, "DELETE") {
            Ok(Method::Delete)
        } else {
            Err(GatewayError::MethodNotSupported)
        }
    }

    /// Whether a request with this method takes the inbound body along.
    pub fn forwards_body(&self) -> (r: bool)
        ensures
            r == self.carries_body(),
    {
        match self {
            Method::Post => true,
            Method::Put => true,
            _ => false,
        }
    }
}

/// One backend: the name under which callers address it and the URL under
/// which it is reached.
#[derive(Debug, Clone, PartialEq, Eq)]
pub struct ServiceRoute {
    pub name: String,
    pub base_url: String,
}

/// The first URL listed under `name` in `routes`, if there is one.
pub open spec fn lookup(routes: Seq<ServiceRoute>, name: Seq<char>) -> Option<Seq<char>>
    decreases routes.len(),
{
    if routes.len() == 0 {
        None
    } else if routes[0].name@ == name {
        Some(routes[0].base_url@)
    } else {
        lookup(routes.drop_first(), name)
    }
}

/// No two of `routes` carry the same name.
pub open spec fn distinct_names(routes: Seq<ServiceRoute>) -> bool {
    forall|i: int, j: int|
        0 <= i < j < routes.len() ==> routes[i].name@ != routes[j].name@
}

/// The URL that the environment gives for a backend, or the one it has when
/// the environment is silent.
pub open spec fn url_or(configured: Option<Seq<char>>, fallback: Seq<char>) -> Seq<char> {
    match configured {
        Some(url) => url,
        None => fallback,
    }
}

/// The table that a process has when its environment gives these URLs for the
/// profile and the friendship backend.
pub open spec fn environment_table(
    profile_service_url: Option<Seq<char>>,
    friendship_service_url: Option<Seq<char>>,
) -> Map<Seq<char>, Seq<char>> {
    Map::empty().insert(
        PROFILE_SERVICE@,
        url_or(profile_service_url, DEFAULT_PROFILE_SERVICE_URL@),
    ).insert(FRIENDSHIP_SERVICE@, url_or(friendship_service_url, DEFAULT_FRIENDSHIP_SERVICE_URL@))
}

/// The table of backends. It is built once and has no operation that changes
/// it; no name stands in it twice.
#[derive(Debug, PartialEq, Eq)]
pub struct ServiceTable {
    routes: Vec<ServiceRoute>,
}

impl View for ServiceTable {
    type V = Map<Seq<char>, Seq<char>>;

    /// The table as a map from service name to base URL.
    closed spec fn view(&self) -> Map<Seq<char>, Seq<char>> {
        Map::new(
            |name: Seq<char>| lookup(self.routes@, name) is Some,
            |name: Seq<char>| lookup(self.routes@, name)->0,
        )
    }
}

impl ServiceTable {
    #[verifier::type_invariant]
    spec fn names_are_unique(&self) -> bool {
        distinct_names(self.routes@)
    }

    /// Builds the table from what the environment holds under
    /// `PROFILE_SERVICE_URL` and `FRIENDSHIP_SERVICE_URL`, each `None` when
    /// unset. An unset variable leaves its backend at a local default.
    pub fn from_environment(
        profile_service_url: Option<String>,
        friendship_service_url: Option<String>,
    ) -> (table: ServiceTable)
        ensures
            table@ == environment_table(
                option_text(profile_service_url),
                option_text(friendship_service_url),
            ),
    {
        let profile = ServiceRoute {
            name: String::from_str(PROFILE_SERVICE),
            base_url: match profile_service_url {
                Some(url) => url,
                None => String::from_str(DEFAULT_PROFILE_SERVICE_URL),
            },
        };
        let friendship = ServiceRoute {
            name: String::from_str(FRIENDSHIP_SERVICE),
            base_url: match friendship_service_url {
                Some(url) => url,
                None => String::from_str(DEFAULT_FRIENDSHIP_SERVICE_URL),
            },
        };
        let mut routes: Vec<ServiceRoute> = Vec::new();
        routes.push(profile);
        routes.push(friendship);
        proof {
            reveal_strlit("profiles");
            reveal_strlit("friendships");
            assert(PROFILE_SERVICE@.len() != FRIENDSHIP_SERVICE@.len());
            let rest = routes@.drop_first();
            assert(rest.len() == 1 && rest[0] == routes@[1]);
            assert(rest.drop_first().len() == 0);
            assert forall|name: Seq<char>|
                lookup(routes@, name) == (if name == PROFILE_SERVICE@ {
                    Some(routes@[0].base_url@)
                } else if name == FRIENDSHIP_SERVICE@ {
                    Some(routes@[1].base_url@)
                } else {
                    None
                }) by {
                reveal_with_fuel(lookup, 3);
            }
        }
        let table = ServiceTable { routes };
        assert(table@ =~= environment_table(
            option_text(profile_service_url),
            option_text(friendship_service_url),
        ));
        table
    }

    /// The base URL of the backend called `service_name`;
    /// [`GatewayError::RouteNotFound`] where the table has no such name.
    pub fn resolve(&self, service_name: &str) -> (r: Result<String, GatewayError>)
        ensures
            match r {
                Ok(base_url) => self@.contains_key(service_name@) && base_url@
                    == self@[service_name@],
                Err(e) => !self@.contains_key(service_name@) && e@ == ErrorView::RouteNotFound,
            },
    {
        let mut i: usize = 0;
        assert(self.routes@.skip(0) =~= self.routes@);
        while i < self.routes.len()
            invariant
                i <= self.routes.len(),
                lookup(self.routes@, service_name@) == lookup(
                    self.routes@.skip(i as int),
                    service_name@,
                ),
            decreases self.routes.len() - i,
        {
            let ghost rest = self.routes@.skip(i as int);
            assert(rest[0] == self.routes@[i as int]);
            assert(rest.drop_first() =~= self.routes@.skip(i + 1));
            if same_text(self.routes[i].name.as_str(), service_name) {
                return Ok(self.routes[i].base_url.clone());
            }
            i += 1;
        }
        Err(GatewayError::RouteNotFound)
    }
}

/// The address of a resource at a backend: the base URL, the service name and,
/// where there is one, the remainder of the inbound path, each set off by one
/// slash. The remainder is taken as it is, slashes included.
pub open spec fn url_of(base_url: Seq<char>, service_name: Seq<char>, extra_path: Seq<char>) -> Seq<
    char,
> {
    if extra_path.len() == 0 {
        base_url + seq!['/'] + service_name
    } else {
        base_url + seq!['/'] + service_name + seq!['/'] + extra_path
    }
}

/// Builds the address of a resource at a backend.
pub fn build_url(base_url: &str, service_name: &str, extra_path: &str) -> (url: String)
    ensures
        url@ == url_of(base_url@, service_name@, extra_path@),
{
    proof {
        reveal_strlit("/");
    }
    assert("/"@ =~= seq!['/']);
    let stem = joined(joined(base_url, "/").as_str(), service_name);
    if extra_path.is_empty() {
        stem
    } else {
        joined(joined(stem.as_str(), "/").as_str(), extra_path)
    }
}

/// The request that goes out to a backend.
#[derive(Debug, Clone, PartialEq, Eq)]
pub struct ForwardRequest<B> {
    pub method: Method,
    pub url: String,
    /// The inbound body, where the method takes one along.
    pub body: Option<B>,
}

/// What becomes of an inbound request at the router.
#[derive(Debug, Clone, PartialEq, Eq)]
pub enum RouteDecision<B> {
    /// One call goes out to a backend.
    Forward(ForwardRequest<B>),
    /// The request ends here with this response; no call goes out.
    Respond(OutboundResponse),
}

/// The body that travels with a forwarded request: the inbound one under POST
/// and PUT, none under GET and DELETE, whatever came in.
pub open spec fn forwarded_body<B>(method: Method, body: Option<B>) -> Option<B> {
    if method.carries_body() {
        body
    } else {
        None
    }
}

/// The remainder of the inbound path as text; an absent one is empty.
pub open spec fn path_remainder(extra_path: Option<String>) -> Seq<char> {
    match extra_path {
        Some(path) => path@,
        None => Seq::empty(),
    }
}

/// `decision` is what becomes of a request for `service_name` with the path
/// remainder `extra_path`, made with the method that `method` names and
/// carrying `body`, under the table `table`.
///
/// A service that the table does not list ends the request with status 404,
/// whatever the method. For a listed service, a method that is not forwarded
/// ends it with status 405. Otherwise one call goes out: same method, the
/// address built from the table's URL, and the body only under POST and PUT.
pub open spec fn is_routed<B>(
    decision: RouteDecision<B>,
    table: Map<Seq<char>, Seq<char>>,
    method: Seq<char>,
    service_name: Seq<char>,
    extra_path: Seq<char>,
    body: Option<B>,
) -> bool {
    if !table.contains_key(service_name) {
        decision matches RouteDecision::Respond(response) && response@
            == ErrorView::RouteNotFound.response()
    } else {
        match Method::named(method) {
            None => decision matches RouteDecision::Respond(response) && response@
                == ErrorView::MethodNotSupported.response(),
            Some(forwarded) => {
                &&& decision matches RouteDecision::Forward(request)
                &&& request.method == forwarded
                &&& request.url@ == url_of(table[service_name], service_name, extra_path)
                &&& request.body == forwarded_body(forwarded, body)
            },
        }
    }
}

/// Decides what becomes of a request: the response that ends it at the
/// gateway, with no call going out, or the one call that goes out to a
/// backend.
pub fn route_to_service<B>(
    table: &ServiceTable,
    method: &str,
    service_name: &str,
    extra_path: Option<String>,
    body: Option<B>,
) -> (decision: RouteDecision<B>)
    ensures
        is_routed(decision, table@, method@, service_name@, path_remainder(extra_path), body),
{
    let base_url = match table.resolve(service_name) {
        Ok(base_url) => base_url,
        Err(e) => {
            return RouteDecision::Respond(e.response());
        },
    };
    let url = match &extra_path {
        Some(path) => build_url(base_url.as_str(), service_name, path.as_str()),
        None => build_url(base_url.as_str(), service_name, ""),
    };
    proof {
        reveal_strlit("");
    }
    match Method::from_name(method) {
        Ok(method) => {
            let body = if method.forwards_body() {
                body
            } else {
                None
            };
            RouteDecision::Forward(ForwardRequest { method, url, body })
        },
        Err(e) => RouteDecision::Respond(e.response()),
    }
}

/// A request for a service that the table does not list ends at the gateway
/// with status 404, and no call goes out, whatever its method, path and body.
pub proof fn unknown_service_is_not_found<B>(
    decision: RouteDecision<B>,
    table: Map<Seq<char>, Seq<char>>,
    method: Seq<char>,
    service_name: Seq<char>,
    extra_path: Seq<char>,
    body: Option<B>,
)
    requires
        is_routed(decision, table, method, service_name, extra_path, body),
        !table.contains_key(service_name),
    ensures
        decision matches RouteDecision::Respond(response) && response@.status_code
            == STATUS_NOT_FOUND,
{
}

/// A request with a method that is not forwarded ends at the gateway, and no
/// call goes out; where its service is listed, it ends with status 405.
pub proof fn unsupported_method_is_not_allowed<B>(
    decision: RouteDecision<B>,
    table: Map<Seq<char>, Seq<char>>,
    method: Seq<char>,
    service_name: Seq<char>,
    extra_path: Seq<char>,
    body: Option<B>,
)
    requires
        is_routed(decision, table, method, service_name, extra_path, body),
        Method::named(method) is None,
    ensures
        decision is Respond,
        table.contains_key(service_name) ==> decision->Respond_0@.status_code
            == STATUS_METHOD_NOT_ALLOWED,
{
}

/// A request for a listed service with a forwarded method goes out to the
/// address made of the service's base URL, its name and the path remainder.
pub proof fn forwarded_request_goes_to_built_url<B>(
    decision: RouteDecision<B>,
    table: Map<Seq<char>, Seq<char>>,
    method: Seq<char>,
    service_name: Seq<char>,
    extra_path: Seq<char>,
    body: Option<B>,
)
    requires
        is_routed(decision, table, method, service_name, extra_path, body),
        table.contains_key(service_name),
        Method::named(method) is Some,
    ensures
        decision matches RouteDecision::Forward(request) && request.url@ == url_of(
            table[service_name],
            service_name,
            extra_path,
        ),
        extra_path.len() == 0 ==> decision->Forward_0.url@ == table[service_name] + seq!['/']
            + service_name,
        extra_path.len() > 0 ==> decision->Forward_0.url@ == table[service_name] + seq!['/']
            + service_name + seq!['/'] + extra_path,
{
}

} // verus!
