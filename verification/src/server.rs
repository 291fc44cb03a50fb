//! Routing of requests to the chains that serve them.

use vstd::prelude::*;
use crate::auth::{answers, token_of, AuthenticatedAgent, Chain};
use crate::http::{turned_away, HttpError, Item, Reply, Request, STATUS_NOT_FOUND};

verus! {

/// A handler that knows the route it serves.
pub trait RouteProvider {
    /// The route.
    spec fn route(&self) -> Seq<char>;

    fn get_route(&self) -> (route: &str)
        ensures
            route@ == self.route(),
    ;
}

/// The position of the route that serves `path`: the last one added under
/// that path, since a route added later replaces an earlier one.
pub open spec fn serving(routes: Seq<(String, Chain)>, path: Seq<char>) -> Option<int>
    decreases routes.len(),
{
    if routes.len() == 0 {
        None
    } else if routes.last().0@ == path {
        Some(routes.len() - 1)
    } else {
        serving(routes.drop_last(), path)
    }
}

/// A request router that matches the whole path of the URL.
pub struct Router {
    routes: Vec<(String, Chain)>,
}

impl Router {
    /// The routes in the order they were added.
    pub closed spec fn routes(self) -> Seq<(String, Chain)> {
        self.routes@
    }

    pub fn new() -> (router: Router)
        ensures
            router.routes() == Seq::<(String, Chain)>::empty(),
    {
        Router { routes: Vec::new() }
    }

    /// Serves `route` with `handler` from now on.
    pub fn add_route(&mut self, route: String, handler: Chain)
        ensures
            final(self).routes() == old(self).routes().push((route, handler)),
    {
        self.routes.push((route, handler));
    }

    /// The chain that serves `path`, if there is one.
    pub fn find(&self, path: &String) -> (chain: Option<&Chain>)
        ensures
            match serving(self.routes(), path@) {
                Some(i) => chain == Some(&self.routes()[i].1),
                None => chain is None,
            },
    {
        let mut i: usize = self.routes.len();
        assert(self.routes@.take(i as int) == self.routes@);
        while i > 0
            invariant
                i <= self.routes@.len(),
                serving(self.routes@, path@) == serving(self.routes@.take(i as int), path@),
            decreases i,
        {
            assert(self.routes@.take(i as int).drop_last() == self.routes@.take(i - 1));
            if self.routes[i - 1].0 == *path {
                return Some(&self.routes[i - 1].1);
            }
            i = i - 1;
        }
        None
    }

    /// Hands a request to the chain that serves its path. A path that
    /// nothing serves is answered with "not found", and nothing goes to the
    /// channel.
    pub fn handle(&self, request: Request) -> (result: Result<Reply, HttpError>)
        ensures
            match serving(self.routes(), request.path@) {
                Some(i) => {
                    &&& exists|agent: Result<AuthenticatedAgent, HttpError>|
                        self.routes()[i].1.middleware().guards(token_of(request.bearer), agent)
                            && answers(agent, request.method, request.body, result)
                    &&& request.bearer is None ==> turned_away(result)
                },
                None => {
                    &&& result matches Ok(reply)
                    &&& reply.status == STATUS_NOT_FOUND
                    &&& reply.body@ == Seq::<char>::empty()
                    &&& reply.enqueue@ == Seq::<Item>::empty()
                },
            },
    {
        match self.find(&request.path) {
            Some(chain) => chain.handle(request),
            None => Ok(Reply { status: STATUS_NOT_FOUND, body: String::new(), enqueue: Vec::new() }),
        }
    }
}

/// The web server: a router to listen with.
pub struct EdenServer {
    router: Router,
}

impl EdenServer {
    /// The routes that the server serves.
    pub closed spec fn routes(self) -> Seq<(String, Chain)> {
        self.router.routes()
    }

    pub fn new(router: Router) -> (server: EdenServer)
        ensures
            server.routes() == router.routes(),
    {
        EdenServer { router: router }
    }

    /// The router, for the listener to hand requests to.
    pub fn router(&self) -> (router: &Router)
        ensures
            router.routes() == self.routes(),
    {
        &self.router
    }
}

} // verus!
