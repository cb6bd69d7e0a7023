//! The routing tree: composable matchers that either handle a request or
//! hand it back unconsumed for the next alternative. Registration wraps
//! each new route around the previous tree, so later routes are tried
//! first, and the `NotFound` terminal always answers.

use vstd::prelude::*;

verus! {

use core::marker::PhantomData;
use vstd::string::StringSliceAdditionalSpecFns;
use crate::handler::{HandlerFunction, HandlerFunctionHandlerAdapter};
use crate::path::PathSegments;
use crate::request::{Parts, Request};
use crate::response::{IntoResponse, Response};
use crate::status::StatusCode;

/// The outcome of offering a request to a matcher: a response, or the
/// request handed back unchanged.
#[derive(Debug)]
pub enum Decision<P> {
    Match(Response),
    NoMatch(Request<P>),
}

impl<P> Decision<P> {
    /// Drops the extracted-path payload of a handed-back request.
    pub fn erase(self) -> (r: Decision<()>)
        ensures
            (match self {
                Decision::Match(t) => r matches Decision::Match(t2) && t2 == t,
                Decision::NoMatch(req) => r matches Decision::NoMatch(r2) && r2.parts.method
                    == req.parts.method && r2.parts.path == req.parts.path && r2.parts.query
                    == req.parts.query && r2.parts.headers == req.parts.headers && r2.body
                    == req.body,
            }),
    {
        match self {
            Decision::Match(t) => Decision::Match(t),
            Decision::NoMatch(req) => Decision::NoMatch(req.with_extracted_path(())),
        }
    }

    /// Applies a function to the response of a match; a handed-back
    /// request passes through unchanged.
    pub fn map<F: FnOnce(Response) -> Response>(self, f: F) -> (r: Decision<P>)
        requires
            forall|t: Response| #[trigger] call_requires(f, (t,)),
        ensures
            (match self {
                Decision::Match(t) => r matches Decision::Match(t2) && call_ensures(f, (t,), t2),
                Decision::NoMatch(req) => r matches Decision::NoMatch(r2) && r2 == req,
            }),
    {
        match self {
            Decision::Match(t) => Decision::Match(f(t)),
            Decision::NoMatch(req) => Decision::NoMatch(req),
        }
    }

    /// The response of a decision known to be a match.
    pub fn unwrap(self) -> (r: Response)
        requires
            self is Match,
        ensures
            self matches Decision::Match(t) && r == t,
    {
        match self {
            Decision::Match(t) => t,
            Decision::NoMatch(_) => {
                // dead: the precondition rules this arm out
                Response { status_code: StatusCode::not_found(), body: Vec::new() }
            },
        }
    }
}

/// A matcher: it deterministically decides whether it handles a request —
/// from the method token and path alone — and, when it does, answers with
/// a response; otherwise it hands the request back exactly as received.
pub trait Route<S, P> {
    /// Whether this matcher handles a request with the given method token
    /// and path.
    spec fn matches(&self, method: Seq<char>, path: Seq<char>) -> bool;

    /// What holds of the response to a matched request.
    spec fn response_post(&self, req: &Request<P>, state: &S, resp: &Response) -> bool;

    /// Whether the handlers in this tree may be invoked on any request.
    spec fn wf(&self) -> bool;

    /// Offers the request to this matcher.
    fn match_request(&self, req: Request<P>, state: &S) -> (d: Decision<P>)
        requires
            self.wf(),
        ensures
            self.matches(req.parts.method.token(), req.parts.path@) ==> (d matches Decision::Match(
                resp,
            ) && self.response_post(&req, state, &resp)),
            !self.matches(req.parts.method.token(), req.parts.path@) ==> (d
                matches Decision::NoMatch(r2) && r2 == req),
    ;
}

/// The terminal matcher: handles every request with 404 Not Found.
#[derive(Clone, Copy, Debug)]
pub struct NotFound;

impl<S, P> Route<S, P> for NotFound {
    open spec fn matches(&self, method: Seq<char>, path: Seq<char>) -> bool {
        true
    }

    open spec fn response_post(&self, req: &Request<P>, state: &S, resp: &Response) -> bool {
        resp.status_code.code == 404 && resp.body@ == "Not Found".spec_bytes()
    }

    open spec fn wf(&self) -> bool {
        true
    }

    fn match_request(&self, req: Request<P>, state: &S) -> (d: Decision<P>) {
        Decision::Match((StatusCode::not_found(), "Not Found").into_response())
    }
}

/// Matches when the path pattern accepts the request's path; on success
/// the extracted payload is narrowed to the pattern's output and the
/// inner route decides; on failure the request is handed back untouched.
pub struct Path<Pat, R> {
    pub path: Pat,
    pub route: R,
}

impl<S, Pat: PathSegments, R: Route<S, Pat::Output>> Route<S, ()> for Path<Pat, R> {
    open spec fn matches(&self, method: Seq<char>, path: Seq<char>) -> bool {
        self.path.spec_matches(path) && self.route.matches(method, path)
    }

    open spec fn response_post(&self, req: &Request<()>, state: &S, resp: &Response) -> bool {
        exists|out: Pat::Output|
            {
                &&& #[trigger] self.path.output_outcome(req.parts.path@, &out)
                &&& self.route.response_post(
                    &Request {
                        parts: Parts {
                            method: req.parts.method,
                            path: req.parts.path,
                            query: req.parts.query,
                            headers: req.parts.headers,
                            extracted_path: out,
                        },
                        body: req.body,
                    },
                    state,
                    resp,
                )
            }
    }

    open spec fn wf(&self) -> bool {
        self.route.wf()
    }

    fn match_request(&self, req: Request<()>, state: &S) -> (d: Decision<()>) {
        let ghost req0 = req;
        match self.path.parse(req.path()) {
            Some(out) => {
                let ghost out0 = out;
                let narrowed = req.with_extracted_path(out);
                proof {
                    assert(narrowed == Request {
                        parts: Parts {
                            method: req0.parts.method,
                            path: req0.parts.path,
                            query: req0.parts.query,
                            headers: req0.parts.headers,
                            extracted_path: out0,
                        },
                        body: req0.body,
                    });
                }
                let d = self.route.match_request(narrowed, state);
                match d {
                    Decision::Match(t) => Decision::Match(t),
                    Decision::NoMatch(r) => {
                        let back = r.with_extracted_path(());
                        proof {
                            assert(r == narrowed);
                            assert(back.parts.method == req0.parts.method);
                            assert(back.parts.path == req0.parts.path);
                            assert(back.parts.query == req0.parts.query);
                            assert(back.parts.headers == req0.parts.headers);
                            assert(back.parts.extracted_path == req0.parts.extracted_path);
                            assert(back.parts == req0.parts);
                            assert(back.body == req0.body);
                            assert(back == req0);
                        }
                        Decision::NoMatch(back)
                    },
                }
            },
            None => Decision::NoMatch(req),
        }
    }
}

/// Matches when the request's method equals the configured one; otherwise
/// hands the request back unchanged.
pub struct Method<R> {
    pub method: crate::method::Method,
    pub route: R,
}

impl<S, P, R: Route<S, P>> Route<S, P> for Method<R> {
    open spec fn matches(&self, method: Seq<char>, path: Seq<char>) -> bool {
        method == self.method.token() && self.route.matches(method, path)
    }

    open spec fn response_post(&self, req: &Request<P>, state: &S, resp: &Response) -> bool {
        self.route.response_post(req, state, resp)
    }

    open spec fn wf(&self) -> bool {
        self.route.wf()
    }

    fn match_request(&self, req: Request<P>, state: &S) -> (d: Decision<P>) {
        if self.method.matches_token(req.method()) {
            self.route.match_request(req, state)
        } else {
            Decision::NoMatch(req)
        }
    }
}

/// Tries a primary matcher and, if it declines, offers the handed-back
/// request to the fallback. The primary is always tried first: this is
/// what makes later-registered routes win.
pub struct Fallback<T, F> {
    pub route: T,
    pub fallback: F,
}

impl<S, P, R1: Route<S, P>, R2: Route<S, P>> Route<S, P> for Fallback<R1, R2> {
    open spec fn matches(&self, method: Seq<char>, path: Seq<char>) -> bool {
        self.route.matches(method, path) || self.fallback.matches(method, path)
    }

    open spec fn response_post(&self, req: &Request<P>, state: &S, resp: &Response) -> bool {
        if self.route.matches(req.parts.method.token(), req.parts.path@) {
            self.route.response_post(req, state, resp)
        } else {
            self.fallback.response_post(req, state, resp)
        }
    }

    open spec fn wf(&self) -> bool {
        self.route.wf() && self.fallback.wf()
    }

    fn match_request(&self, req: Request<P>, state: &S) -> (d: Decision<P>) {
        match self.route.match_request(req, state) {
            Decision::Match(t) => Decision::Match(t),
            Decision::NoMatch(r) => self.fallback.match_request(r, state),
        }
    }
}

/// A handler behind a guard for the given verb.
pub fn get<X, H>(handler: H) -> (r: Method<
    HandlerFunctionHandlerAdapter<X, H>,
>)
    ensures
        r.method.kind is Get,
        r.route.handler == handler,
{
    Method {
        method: crate::method::Method::get(),
        route: HandlerFunctionHandlerAdapter { handler, params: PhantomData },
    }
}

/// A handler behind a guard for the given verb.
pub fn post<X, H>(handler: H) -> (r: Method<
    HandlerFunctionHandlerAdapter<X, H>,
>)
    ensures
        r.method.kind is Post,
        r.route.handler == handler,
{
    Method {
        method: crate::method::Method::post(),
        route: HandlerFunctionHandlerAdapter { handler, params: PhantomData },
    }
}

/// A handler behind a guard for the given verb.
pub fn put<X, H>(handler: H) -> (r: Method<
    HandlerFunctionHandlerAdapter<X, H>,
>)
    ensures
        r.method.kind is Put,
        r.route.handler == handler,
{
    Method {
        method: crate::method::Method::put(),
        route: HandlerFunctionHandlerAdapter { handler, params: PhantomData },
    }
}

/// A handler behind a guard for the given verb.
pub fn delete<X, H>(handler: H) -> (r: Method<
    HandlerFunctionHandlerAdapter<X, H>,
>)
    ensures
        r.method.kind is Delete,
        r.route.handler == handler,
{
    Method {
        method: crate::method::Method::delete(),
        route: HandlerFunctionHandlerAdapter { handler, params: PhantomData },
    }
}

/// A handler behind a guard for the given verb.
pub fn head<X, H>(handler: H) -> (r: Method<
    HandlerFunctionHandlerAdapter<X, H>,
>)
    ensures
        r.method.kind is Head,
        r.route.handler == handler,
{
    Method {
        method: crate::method::Method::head(),
        route: HandlerFunctionHandlerAdapter { handler, params: PhantomData },
    }
}

/// A handler behind a guard for the given verb.
pub fn options<X, H>(handler: H) -> (r: Method<
    HandlerFunctionHandlerAdapter<X, H>,
>)
    ensures
        r.method.kind is Options,
        r.route.handler == handler,
{
    Method {
        method: crate::method::Method::options(),
        route: HandlerFunctionHandlerAdapter { handler, params: PhantomData },
    }
}

/// A handler behind a guard for the given verb.
pub fn connect<X, H>(handler: H) -> (r: Method<
    HandlerFunctionHandlerAdapter<X, H>,
>)
    ensures
        r.method.kind is Connect,
        r.route.handler == handler,
{
    Method {
        method: crate::method::Method::connect(),
        route: HandlerFunctionHandlerAdapter { handler, params: PhantomData },
    }
}

/// A handler behind a guard for the given verb.
pub fn patch<X, H>(handler: H) -> (r: Method<
    HandlerFunctionHandlerAdapter<X, H>,
>)
    ensures
        r.method.kind is Patch,
        r.route.handler == handler,
{
    Method {
        method: crate::method::Method::patch(),
        route: HandlerFunctionHandlerAdapter { handler, params: PhantomData },
    }
}

/// A handler behind a guard for the given verb.
pub fn trace<X, H>(handler: H) -> (r: Method<
    HandlerFunctionHandlerAdapter<X, H>,
>)
    ensures
        r.method.kind is Trace,
        r.route.handler == handler,
{
    Method {
        method: crate::method::Method::trace(),
        route: HandlerFunctionHandlerAdapter { handler, params: PhantomData },
    }
}

/// A route tree is total when it matches every request; a tree rooted at
/// `NotFound` always is.
pub open spec fn total_route<S, P, R: Route<S, P>>(r: &R) -> bool {
    forall|m: Seq<char>, p: Seq<char>| r.matches(m, p)
}

/// Routing precedence: registration wraps the tree as
/// `Fallback { route: new, fallback: previous }`, so the primary side is
/// the route registered later. Whenever it matches the request, the
/// composed tree's response is the primary's — the later registration
/// wins.
pub proof fn lemma_later_route_wins<S, P, R1: Route<S, P>, R2: Route<S, P>>(
    tree: &Fallback<R1, R2>,
    req: &Request<P>,
    state: &S,
    resp: &Response,
)
    requires
        tree.route.matches(req.parts.method.token(), req.parts.path@),
        tree.response_post(req, state, resp),
    ensures
        tree.route.response_post(req, state, resp),
{
}

/// A method mismatch on an otherwise-matching path is no partial match:
/// the route declines the request entirely, and the composed tree's
/// response is the fallback's.
pub proof fn lemma_method_mismatch_falls_through<
    S,
    Pat: PathSegments,
    R: Route<S, Pat::Output>,
    F2: Route<S, ()>,
>(
    tree: &Fallback<Path<Pat, Method<R>>, F2>,
    req: &Request<()>,
    state: &S,
    resp: &Response,
)
    requires
        req.parts.method.token() != tree.route.route.method.token(),
    ensures
        !tree.route.matches(req.parts.method.token(), req.parts.path@),
        tree.response_post(req, state, resp) <==> tree.fallback.response_post(req, state, resp),
{
}

/// A method mismatch against a single-route tree ends at the `NotFound`
/// terminal: the response is 404 with body `Not Found`.
pub proof fn lemma_method_mismatch_yields_not_found<S, Pat: PathSegments, R: Route<S, Pat::Output>>(
    tree: &Fallback<Path<Pat, Method<R>>, NotFound>,
    req: &Request<()>,
    state: &S,
    resp: &Response,
)
    requires
        req.parts.method.token() != tree.route.route.method.token(),
        tree.response_post(req, state, resp),
    ensures
        resp.status_code.code == 404,
        resp.body@ == "Not Found".spec_bytes(),
{
    lemma_method_mismatch_falls_through(tree, req, state, resp);
}

} // verus!
