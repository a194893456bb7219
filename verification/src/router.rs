//! The routing table: registration, lookup and dispatch.

use crate::message::{is_fallback, method_name, method_of, not_found, target, target_of};
use crate::verb::{lemma_named_name, lemma_named_only_by_name, Verb};
use http::{Request, Response};
use hyper::Body;
use vstd::hash_map::StringHashMap;
use vstd::prelude::*;

verus! {

/// The key of the routing table: a method and an exact target string.
pub struct Route {
    pub verb: Verb,
    pub path: Seq<char>,
}

/// A handler that may be registered: one that can be called on every request.
pub open spec fn accepts_all<H: Fn(Request<Body>) -> Result<Response<Body>, http::Error>>(
    handler: H,
) -> bool {
    forall|request: Request<Body>| call_requires(handler, (request,))
}

/// The handler that `routes` holds for a method token and a target, if any.
/// A token that names no verb finds nothing, and so does a target that
/// differs from every registered path in any character.
pub open spec fn resolve<H>(routes: Map<Route, H>, method: Seq<char>, target: Seq<char>) -> Option<
    H,
> {
    match Verb::named(method) {
        Some(verb) => {
            let route = Route { verb, path: target };
            if routes.contains_key(route) {
                Some(routes[route])
            } else {
                None
            }
        },
        None => None,
    }
}

/// What dispatch owes for a request with the given method token and target:
/// an outcome of the handler found for them, called on that request, or the
/// fallback where none is found.
pub open spec fn answers<H: Fn(Request<Body>) -> Result<Response<Body>, http::Error>>(
    routes: Map<Route, H>,
    method: Seq<char>,
    target: Seq<char>,
    request: Request<Body>,
    out: Result<Response<Body>, http::Error>,
) -> bool {
    match resolve(routes, method, target) {
        Some(handler) => call_ensures(handler, (request,), out),
        None => is_fallback(out),
    }
}

/// A routing table from `(method, path)` to handlers of type `H`.
///
/// One table per verb, each keyed by the exact path.
#[verifier::reject_recursive_types(H)]
pub struct Router<H> {
    get: StringHashMap<H>,
    put: StringHashMap<H>,
    post: StringHashMap<H>,
    delete: StringHashMap<H>,
}

impl<H> Router<H> {
    /// The paths registered under one verb, with their handlers.
    spec fn table(&self, verb: Verb) -> Map<Seq<char>, H> {
        match verb {
            Verb::Get => self.get@,
            Verb::Put => self.put@,
            Verb::Post => self.post@,
            Verb::Delete => self.delete@,
        }
    }
}

impl<H> View for Router<H> {
    type V = Map<Route, H>;

    /// The routing table as one map: a route is in it when its path is in
    /// the table of its verb.
    closed spec fn view(&self) -> Map<Route, H> {
        Map::new(
            |route: Route| self.table(route.verb).contains_key(route.path),
            |route: Route| self.table(route.verb)[route.path],
        )
    }
}

impl<H: Fn(Request<Body>) -> Result<Response<Body>, http::Error>> Router<H> {
    /// Every registered handler can be called on every request.
    pub open spec fn wf(&self) -> bool {
        forall|route: Route| #[trigger] self@.contains_key(route) ==> accepts_all(self@[route])
    }

    /// An empty table.
    pub fn new() -> (router: Self)
        ensures
            router@ == Map::<Route, H>::empty(),
            router.wf(),
    {
        let router = Router {
            get: StringHashMap::new(),
            put: StringHashMap::new(),
            post: StringHashMap::new(),
            delete: StringHashMap::new(),
        };
        assert(router@ =~= Map::<Route, H>::empty());
        router
    }

    /// Registers `handler` for `verb` and `path`, in place of any handler
    /// registered for the pair before.
    fn route(&mut self, verb: Verb, path: String, handler: H)
        requires
            old(self).wf(),
            accepts_all(handler),
        ensures
            final(self)@ == old(self)@.insert(Route { verb, path: path@ }, handler),
            final(self).wf(),
    {
        match verb {
            Verb::Get => self.get.insert(path, handler),
            Verb::Put => self.put.insert(path, handler),
            Verb::Post => self.post.insert(path, handler),
            Verb::Delete => self.delete.insert(path, handler),
        }
        assert(self@ =~= old(self)@.insert(Route { verb, path: path@ }, handler));
    }

    /// Registers `handler` for GET requests to exactly `path`.
    pub fn get(&mut self, path: String, handler: H)
        requires
            old(self).wf(),
            accepts_all(handler),
        ensures
            final(self)@ == old(self)@.insert(Route { verb: Verb::Get, path: path@ }, handler),
            final(self).wf(),
    {
        self.route(Verb::Get, path, handler);
    }

    /// Registers `handler` for PUT requests to exactly `path`.
    pub fn put(&mut self, path: String, handler: H)
        requires
            old(self).wf(),
            accepts_all(handler),
        ensures
            final(self)@ == old(self)@.insert(Route { verb: Verb::Put, path: path@ }, handler),
            final(self).wf(),
    {
        self.route(Verb::Put, path, handler);
    }

    /// Registers `handler` for POST requests to exactly `path`.
    pub fn post(&mut self, path: String, handler: H)
        requires
            old(self).wf(),
            accepts_all(handler),
        ensures
            final(self)@ == old(self)@.insert(Route { verb: Verb::Post, path: path@ }, handler),
            final(self).wf(),
    {
        self.route(Verb::Post, path, handler);
    }

    /// Registers `handler` for DELETE requests to exactly `path`.
    pub fn delete(&mut self, path: String, handler: H)
        requires
            old(self).wf(),
            accepts_all(handler),
        ensures
            final(self)@ == old(self)@.insert(Route { verb: Verb::Delete, path: path@ }, handler),
            final(self).wf(),
    {
        self.route(Verb::Delete, path, handler);
    }

    /// The handler registered for a method token and a target, if any.
    pub fn find(&self, method: &str, target: &str) -> (found: Option<&H>)
        ensures
            match found {
                Some(handler) => resolve(self@, method@, target@) == Some(*handler),
                None => resolve(self@, method@, target@) is None,
            },
    {
        match Verb::from_name(method) {
            Some(Verb::Get) => self.get.get(target),
            Some(Verb::Put) => self.put.get(target),
            Some(Verb::Post) => self.post.get(target),
            Some(Verb::Delete) => self.delete.get(target),
            None => None,
        }
    }

    /// Answers `request` as one with the given method token and target: with
    /// the outcome of the handler registered for them, passed on as it is, or
    /// with the fallback response where there is none.
    pub fn dispatch(&self, method: &str, target: &str, request: Request<Body>) -> (out: Result<
        Response<Body>,
        http::Error,
    >)
        requires
            self.wf(),
        ensures
            answers(self@, method@, target@, request, out),
    {
        match self.find(method, target) {
            Some(handler) => {
                assert(self@.contains_key(Route { verb: Verb::named(method@).unwrap(), path: target@ }));
                handler(request)
            },
            None => not_found(),
        }
    }

    /// Answers `request`: reads its method and its target, and dispatches on
    /// them.
    pub fn handle(&self, request: Request<Body>) -> (out: Result<Response<Body>, http::Error>)
        requires
            self.wf(),
        ensures
            answers(self@, method_of(request), target_of(request), request, out),
    {
        let method = method_name(&request);
        let target = target(&request);
        self.dispatch(method.as_str(), target.as_str(), request)
    }
}

/// A request whose method and target are those of a registered route is
/// answered by the handler registered for that route, and by nothing else:
/// the outcomes of dispatch are exactly the outcomes of that handler on the
/// request.
pub proof fn law_registered_route_is_served<
    H: Fn(Request<Body>) -> Result<Response<Body>, http::Error>,
>(
    routes: Map<Route, H>,
    route: Route,
    request: Request<Body>,
    out: Result<Response<Body>, http::Error>,
)
    requires
        routes.contains_key(route),
    ensures
        resolve(routes, route.verb.name(), route.path) == Some(routes[route]),
        answers(routes, route.verb.name(), route.path, request, out) <==> call_ensures(
            routes[route],
            (request,),
            out,
        ),
{
    lemma_named_name(route.verb);
}

/// A request for which no route is registered is answered by the fallback:
/// status 404, no headers, an empty body.
pub proof fn law_unregistered_gets_fallback<
    H: Fn(Request<Body>) -> Result<Response<Body>, http::Error>,
>(
    routes: Map<Route, H>,
    method: Seq<char>,
    target: Seq<char>,
    request: Request<Body>,
    out: Result<Response<Body>, http::Error>,
)
    requires
        forall|verb: Verb| verb.name() == method ==> !routes.contains_key(Route { verb, path: target }),
    ensures
        resolve(routes, method, target) is None,
        answers(routes, method, target, request, out) <==> is_fallback(out),
{
    if let Some(verb) = Verb::named(method) {
        lemma_named_only_by_name(method, verb);
    }
}

/// Registering twice under one route leaves the table as if only the second
/// registration had been made, and the route then resolves to the second
/// handler.
pub proof fn law_second_registration_replaces<H>(
    routes: Map<Route, H>,
    route: Route,
    first: H,
    second: H,
)
    ensures
        routes.insert(route, first).insert(route, second) == routes.insert(route, second),
        resolve(routes.insert(route, first).insert(route, second), route.verb.name(), route.path)
            == Some(second),
{
    lemma_named_name(route.verb);
    assert(routes.insert(route, first).insert(route, second) =~= routes.insert(route, second));
}

/// Paths match only as a whole: registering a route changes nothing for a
/// target that differs from the route's path anywhere, be it in the case of a
/// letter, a trailing slash or a query string.
pub proof fn law_other_target_unaffected<H>(
    routes: Map<Route, H>,
    route: Route,
    handler: H,
    method: Seq<char>,
    target: Seq<char>,
)
    requires
        target != route.path,
    ensures
        resolve(routes.insert(route, handler), method, target) == resolve(routes, method, target),
{
}

/// Methods match only as a whole: registering a route changes nothing for a
/// request with another method token, whatever its target.
pub proof fn law_other_method_unaffected<H>(
    routes: Map<Route, H>,
    route: Route,
    handler: H,
    method: Seq<char>,
    target: Seq<char>,
)
    requires
        method != route.verb.name(),
    ensures
        resolve(routes.insert(route, handler), method, target) == resolve(routes, method, target),
{
    if let Some(verb) = Verb::named(method) {
        lemma_named_only_by_name(method, verb);
    }
}

} // verus!
