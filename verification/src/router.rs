//! The router: holds the application state and the routing tree, and
//! grows the tree one registration at a time. Each registration wraps the
//! previous tree in a fallback, so later routes are tried first, and the
//! tree is rooted at the `NotFound` terminal.

use vstd::prelude::*;

verus! {

use vstd::string::StringSliceAdditionalSpecFns;
use crate::route::{Fallback, NotFound, Path, Route};

/// A router: application state plus the routing tree built so far.
pub struct Router<R, S> {
    pub state: S,
    pub route: R,
}

impl Router<NotFound, ()> {
    /// A router with no routes: every request falls through to the 404
    /// terminal.
    pub fn new() -> (r: Router<NotFound, ()>)
        ensures
            r.state == (),
            r.route == NotFound,
    {
        Router { state: (), route: NotFound }
    }
}

impl Default for Router<NotFound, ()> {
    /// The default router is the empty one.
    fn default() -> (r: Router<NotFound, ()>)
        ensures
            r.state == (),
            r.route == NotFound,
    {
        Router::new()
    }
}

impl<R, S> Router<R, S> {
    /// Replaces the application state handed to handlers.
    pub fn with_state<S2>(self, state: S2) -> (r: Router<R, S2>)
        ensures
            r.route == self.route,
            r.state == state,
    {
        Router { route: self.route, state }
    }

    /// Registers a route under a literal path. The new route is wrapped
    /// around the previous tree, so it is tried first.
    pub fn route<T: Route<S, ()>>(self, path: &str, route: T) -> (r: Router<
        Fallback<Path<String, T>, R>,
        S,
    >)
        ensures
            r.state == self.state,
            r.route.route.path@ == path@,
            r.route.route.route == route,
            r.route.fallback == self.route,
    {
        Router {
            route: Fallback { route: Path { path: path.to_owned(), route }, fallback: self.route },
            state: self.state,
        }
    }
}

} // verus!
