//! The route table: which handler answers which method and path, and which
//! handlers sit behind the authentication gate.

use vstd::prelude::*;
use vstd::string::StringExecFns;

verus! {

/// The request methods that the service routes.
#[derive(Clone, Copy, Debug, PartialEq, Eq)]
pub enum Method {
    Get,
    Post,
    Patch,
    Delete,
}

/// The entry points of the two front doors.
#[derive(Clone, Copy, Debug, PartialEq, Eq)]
pub enum Handler {
    ApiListSamples,
    ApiCreateSample,
    ApiGetSample,
    ApiUpdateSample,
    ApiDeleteSample,
    LoginGet,
    LoginPost,
    Logout,
    AuthCheck,
    IndexPage,
    SamplesPage,
    CreatePage,
    CreateSample,
    EditPage,
    UpdateSample,
    DeleteSample,
}

impl Handler {
    /// Whether the handler is reached only through the authentication
    /// gate. Everything is, except the login form, its submission, logout
    /// and the session check.
    pub open spec fn protected(self) -> bool {
        !(self is LoginGet || self is LoginPost || self is Logout || self is AuthCheck)
    }

    /// Whether the handler is reached only through the authentication gate.
    pub fn is_protected(&self) -> (p: bool)
        ensures
            p == self.protected(),
    {
        match self {
            Handler::LoginGet | Handler::LoginPost | Handler::Logout | Handler::AuthCheck => false,
            _ => true,
        }
    }
}

/// One line of the route table.
#[derive(Debug, PartialEq, Eq)]
pub struct Route {
    pub method: Method,
    pub path: String,
    pub handler: Handler,
}

/// Mathematical value of a [`Route`].
pub ghost struct RouteView {
    pub method: Method,
    pub path: Seq<char>,
    pub handler: Handler,
}

impl View for Route {
    type V = RouteView;

    open spec fn view(&self) -> RouteView {
        RouteView { method: self.method, path: self.path@, handler: self.handler }
    }
}

/// Mathematical value of a route table.
pub open spec fn route_views(routes: Seq<Route>) -> Seq<RouteView> {
    Seq::new(routes.len(), |i: int| routes[i]@)
}

/// A line of the route table.
pub open spec fn line(method: Method, path: Seq<char>, handler: Handler) -> RouteView {
    RouteView { method, path, handler }
}

/// Builds a line of the route table.
pub fn route(method: Method, path: &str, handler: Handler) -> (r: Route)
    ensures
        r@ == line(method, path@, handler),
{
    Route { method, path: path.to_owned(), handler }
}

/// The table with every path of `routes` put below `prefix`.
pub open spec fn nested(prefix: Seq<char>, routes: Seq<RouteView>) -> Seq<RouteView> {
    Seq::new(routes.len(), |i: int| RouteView { path: prefix + routes[i].path, ..routes[i] })
}

/// Puts every path of `routes` below `prefix`.
pub fn nest(prefix: &str, routes: Vec<Route>) -> (out: Vec<Route>)
    ensures
        route_views(out@) == nested(prefix@, route_views(routes@)),
{
    let mut out: Vec<Route> = Vec::new();
    let mut i: usize = 0;
    while i < routes.len()
        invariant
            i <= routes.len(),
            out.len() == i,
            forall|k: int|
                0 <= k < i ==> (#[trigger] out[k])@ == (RouteView {
                    path: prefix@ + routes[k].path@,
                    ..routes[k]@
                }),
        decreases routes.len() - i,
    {
        let path = prefix.to_owned().concat(routes[i].path.as_str());
        out.push(Route { method: routes[i].method, path, handler: routes[i].handler });
        i += 1;
    }
    assert(route_views(out@) =~= nested(prefix@, route_views(routes@)));
    out
}

} // verus!
