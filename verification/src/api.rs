//! The JSON front door.

use vstd::prelude::*;
use crate::router::{route_views, Route};

pub mod sample;

verus! {

/// The routes of the JSON front door, relative to where it is mounted.
pub fn router() -> (routes: Vec<Route>)
    ensures
        route_views(routes@) == sample::routes(),
{
    sample::router()
}

} // verus!
