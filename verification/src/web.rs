//! The HTML front door.

use vstd::prelude::*;
use crate::router::{route_views, Route};

pub mod auth;
pub mod sample;

verus! {

/// The routes of the HTML front door: those of login and session first,
/// then those of the sample pages.
pub fn router() -> (routes: Vec<Route>)
    ensures
        route_views(routes@) == auth::routes() + sample::routes(),
{
    let mut routes = auth::router();
    let mut rest = sample::router();
    let ghost first = route_views(routes@);
    let ghost second = route_views(rest@);
    routes.append(&mut rest);
    assert(route_views(routes@) =~= first + second);
    routes
}

} // verus!
