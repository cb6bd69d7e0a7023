//! Handler adaptation: ordinary functions become routes. Metadata
//! extractors run first, left to right; the first failure short-circuits
//! and its rejection becomes the response; the body extractor runs last,
//! on the reassembled request; only then does the handler body run.

use vstd::prelude::*;

verus! {

use core::marker::PhantomData;
use crate::extract::{FromRequest, FromRequestParts};
use crate::request::{Parts, Request};
use crate::response::{IntoResponse, Response};
use crate::route::{Decision, Route};

/// A function of extractable arguments, together with what may be assumed
/// before calling it and what holds of its response.
pub trait HandlerFunction<S, P, Args> {
    /// What must hold of the request and state for the call to be allowed.
    spec fn callable(&self, req: &Request<P>, state: &S) -> bool;

    /// What holds of the response.
    spec fn call_post(&self, req: &Request<P>, state: &S, resp: &Response) -> bool;

    /// Runs the extractors and, if they all succeed, the handler.
    fn call(&self, req: Request<P>, state: &S) -> (r: Response)
        requires
            self.callable(&req, state),
        ensures
            self.call_post(&req, state, &r),
    ;
}

impl<S, P, F, Ret> HandlerFunction<S, P, ()> for F where F: Fn() -> Ret, Ret: IntoResponse {
    open spec fn callable(&self, req: &Request<P>, state: &S) -> bool {
        call_requires(*self, ())
    }

    open spec fn call_post(&self, req: &Request<P>, state: &S, resp: &Response) -> bool {
        exists|ret: Ret|
            {
                &&& #[trigger] call_ensures(*self, (), ret)
                &&& ret.response_outcome(resp)
            }
    }

    fn call(&self, req: Request<P>, state: &S) -> (r: Response) {
        let ret = (self)();
        ret.into_response()
    }
}

impl<S, P, F, Ret, M, T1> HandlerFunction<S, P, (M, T1)> for F where
    F: Fn(T1) -> Ret,
    Ret: IntoResponse,
    T1: FromRequest<S, P, M>,
    T1::Rejection: IntoResponse,
 {
    open spec fn callable(&self, req: &Request<P>, state: &S) -> bool {
        forall|t1: T1| T1::request_outcome(&Ok(t1), req, state) ==> call_requires(*self, (t1,))
    }

    open spec fn call_post(&self, req: &Request<P>, state: &S, resp: &Response) -> bool {
        ||| exists|t1: T1, ret: Ret|
            {
                &&& T1::request_outcome(&Ok(t1), req, state)
                &&& #[trigger] call_ensures(*self, (t1,), ret)
                &&& ret.response_outcome(resp)
            }
        ||| exists|e: T1::Rejection|
            {
                &&& T1::request_outcome(&Err(e), req, state)
                &&& e.response_outcome(resp)
            }
    }

    fn call(&self, req: Request<P>, state: &S) -> (r: Response) {
        match T1::from_request(req, state) {
            Ok(t1) => (self)(t1).into_response(),
            Err(e) => e.into_response(),
        }
    }
}

impl<S, P, F, Ret, M, T1, T2> HandlerFunction<S, P, (M, T1, T2)> for F where
    F: Fn(T1, T2) -> Ret,
    Ret: IntoResponse,
    T1: FromRequestParts<S, P>,
    T1::Rejection: IntoResponse,
    T2: FromRequest<S, P, M>,
    T2::Rejection: IntoResponse,
 {
    open spec fn callable(&self, req: &Request<P>, state: &S) -> bool {
        forall|t1: T1, t2: T2|
            (T1::parts_outcome(&Ok(t1), &req.parts, state) && T2::request_outcome(
                &Ok(t2),
                req,
                state,
            )) ==> call_requires(*self, (t1, t2))
    }

    open spec fn call_post(&self, req: &Request<P>, state: &S, resp: &Response) -> bool {
        ||| exists|e1: T1::Rejection|
            {
                &&& T1::parts_outcome(&Err(e1), &req.parts, state)
                &&& e1.response_outcome(resp)
            }
        ||| exists|t1: T1, e2: T2::Rejection|
            {
                &&& T1::parts_outcome(&Ok(t1), &req.parts, state)
                &&& T2::request_outcome(&Err(e2), req, state)
                &&& e2.response_outcome(resp)
            }
        ||| exists|t1: T1, t2: T2, ret: Ret|
            {
                &&& T1::parts_outcome(&Ok(t1), &req.parts, state)
                &&& T2::request_outcome(&Ok(t2), req, state)
                &&& #[trigger] call_ensures(*self, (t1, t2), ret)
                &&& ret.response_outcome(resp)
            }
    }

    fn call(&self, req: Request<P>, state: &S) -> (r: Response) {
        let ghost req0 = req;
        let (parts, body) = req.into_parts();
        let t1 = match T1::from_request_parts(&parts, state) {
            Ok(v) => v,
            Err(e) => {
                return e.into_response();
            },
        };
        let reassembled = Request::from_parts(parts, body);
        proof {
            assert(reassembled.parts == req0.parts);
            assert(reassembled == req0);
        }
        match T2::from_request(reassembled, state) {
            Ok(t2) => (self)(t1, t2).into_response(),
            Err(e) => e.into_response(),
        }
    }
}

impl<S, P, F, Ret, M, T1, T2, T3> HandlerFunction<S, P, (M, T1, T2, T3)> for F where
    F: Fn(T1, T2, T3) -> Ret,
    Ret: IntoResponse,
    T1: FromRequestParts<S, P>,
    T1::Rejection: IntoResponse,
    T2: FromRequestParts<S, P>,
    T2::Rejection: IntoResponse,
    T3: FromRequest<S, P, M>,
    T3::Rejection: IntoResponse,
 {
    open spec fn callable(&self, req: &Request<P>, state: &S) -> bool {
        forall|t1: T1, t2: T2, t3: T3|
            (T1::parts_outcome(&Ok(t1), &req.parts, state) && T2::parts_outcome(
                &Ok(t2),
                &req.parts,
                state,
            ) && T3::request_outcome(&Ok(t3), req, state)) ==> call_requires(*self, (t1, t2, t3))
    }

    open spec fn call_post(&self, req: &Request<P>, state: &S, resp: &Response) -> bool {
        ||| exists|e1: T1::Rejection|
            {
                &&& T1::parts_outcome(&Err(e1), &req.parts, state)
                &&& e1.response_outcome(resp)
            }
        ||| exists|t1: T1, e2: T2::Rejection|
            {
                &&& T1::parts_outcome(&Ok(t1), &req.parts, state)
                &&& T2::parts_outcome(&Err(e2), &req.parts, state)
                &&& e2.response_outcome(resp)
            }
        ||| exists|t1: T1, t2: T2, e3: T3::Rejection|
            {
                &&& T1::parts_outcome(&Ok(t1), &req.parts, state)
                &&& T2::parts_outcome(&Ok(t2), &req.parts, state)
                &&& T3::request_outcome(&Err(e3), req, state)
                &&& e3.response_outcome(resp)
            }
        ||| exists|t1: T1, t2: T2, t3: T3, ret: Ret|
            {
                &&& T1::parts_outcome(&Ok(t1), &req.parts, state)
                &&& T2::parts_outcome(&Ok(t2), &req.parts, state)
                &&& T3::request_outcome(&Ok(t3), req, state)
                &&& #[trigger] call_ensures(*self, (t1, t2, t3), ret)
                &&& ret.response_outcome(resp)
            }
    }

    fn call(&self, req: Request<P>, state: &S) -> (r: Response) {
        let ghost req0 = req;
        let (parts, body) = req.into_parts();
        let t1 = match T1::from_request_parts(&parts, state) {
            Ok(v) => v,
            Err(e) => {
                return e.into_response();
            },
        };
        let t2 = match T2::from_request_parts(&parts, state) {
            Ok(v) => v,
            Err(e) => {
                return e.into_response();
            },
        };
        let reassembled = Request::from_parts(parts, body);
        proof {
            assert(reassembled.parts == req0.parts);
            assert(reassembled == req0);
        }
        match T3::from_request(reassembled, state) {
            Ok(t3) => (self)(t1, t2, t3).into_response(),
            Err(e) => e.into_response(),
        }
    }
}

impl<S, P, F, Ret, M, T1, T2, T3, T4> HandlerFunction<S, P, (M, T1, T2, T3, T4)> for F where
    F: Fn(T1, T2, T3, T4) -> Ret,
    Ret: IntoResponse,
    T1: FromRequestParts<S, P>,
    T1::Rejection: IntoResponse,
    T2: FromRequestParts<S, P>,
    T2::Rejection: IntoResponse,
    T3: FromRequestParts<S, P>,
    T3::Rejection: IntoResponse,
    T4: FromRequest<S, P, M>,
    T4::Rejection: IntoResponse,
 {
    open spec fn callable(&self, req: &Request<P>, state: &S) -> bool {
        forall|t1: T1, t2: T2, t3: T3, t4: T4|
            (T1::parts_outcome(&Ok(t1), &req.parts, state) && T2::parts_outcome(
                &Ok(t2),
                &req.parts,
                state,
            ) && T3::parts_outcome(&Ok(t3), &req.parts, state) && T4::request_outcome(
                &Ok(t4),
                req,
                state,
            )) ==> call_requires(*self, (t1, t2, t3, t4))
    }

    open spec fn call_post(&self, req: &Request<P>, state: &S, resp: &Response) -> bool {
        ||| exists|e1: T1::Rejection|
            {
                &&& T1::parts_outcome(&Err(e1), &req.parts, state)
                &&& e1.response_outcome(resp)
            }
        ||| exists|t1: T1, e2: T2::Rejection|
            {
                &&& T1::parts_outcome(&Ok(t1), &req.parts, state)
                &&& T2::parts_outcome(&Err(e2), &req.parts, state)
                &&& e2.response_outcome(resp)
            }
        ||| exists|t1: T1, t2: T2, e3: T3::Rejection|
            {
                &&& T1::parts_outcome(&Ok(t1), &req.parts, state)
                &&& T2::parts_outcome(&Ok(t2), &req.parts, state)
                &&& T3::parts_outcome(&Err(e3), &req.parts, state)
                &&& e3.response_outcome(resp)
            }
        ||| exists|t1: T1, t2: T2, t3: T3, e4: T4::Rejection|
            {
                &&& T1::parts_outcome(&Ok(t1), &req.parts, state)
                &&& T2::parts_outcome(&Ok(t2), &req.parts, state)
                &&& T3::parts_outcome(&Ok(t3), &req.parts, state)
                &&& T4::request_outcome(&Err(e4), req, state)
                &&& e4.response_outcome(resp)
            }
        ||| exists|t1: T1, t2: T2, t3: T3, t4: T4, ret: Ret|
            {
                &&& T1::parts_outcome(&Ok(t1), &req.parts, state)
                &&& T2::parts_outcome(&Ok(t2), &req.parts, state)
                &&& T3::parts_outcome(&Ok(t3), &req.parts, state)
                &&& T4::request_outcome(&Ok(t4), req, state)
                &&& #[trigger] call_ensures(*self, (t1, t2, t3, t4), ret)
                &&& ret.response_outcome(resp)
            }
    }

    fn call(&self, req: Request<P>, state: &S) -> (r: Response) {
        let ghost req0 = req;
        let (parts, body) = req.into_parts();
        let t1 = match T1::from_request_parts(&parts, state) {
            Ok(v) => v,
            Err(e) => {
                return e.into_response();
            },
        };
        let t2 = match T2::from_request_parts(&parts, state) {
            Ok(v) => v,
            Err(e) => {
                return e.into_response();
            },
        };
        let t3 = match T3::from_request_parts(&parts, state) {
            Ok(v) => v,
            Err(e) => {
                return e.into_response();
            },
        };
        let reassembled = Request::from_parts(parts, body);
        proof {
            assert(reassembled.parts == req0.parts);
            assert(reassembled == req0);
        }
        match T4::from_request(reassembled, state) {
            Ok(t4) => (self)(t1, t2, t3, t4).into_response(),
            Err(e) => e.into_response(),
        }
    }
}

impl<S, P, F, Ret, M, T1, T2, T3, T4, T5> HandlerFunction<S, P, (M, T1, T2, T3, T4, T5)> for F where
    F: Fn(T1, T2, T3, T4, T5) -> Ret,
    Ret: IntoResponse,
    T1: FromRequestParts<S, P>,
    T1::Rejection: IntoResponse,
    T2: FromRequestParts<S, P>,
    T2::Rejection: IntoResponse,
    T3: FromRequestParts<S, P>,
    T3::Rejection: IntoResponse,
    T4: FromRequestParts<S, P>,
    T4::Rejection: IntoResponse,
    T5: FromRequest<S, P, M>,
    T5::Rejection: IntoResponse,
 {
    open spec fn callable(&self, req: &Request<P>, state: &S) -> bool {
        forall|t1: T1, t2: T2, t3: T3, t4: T4, t5: T5|
            (T1::parts_outcome(&Ok(t1), &req.parts, state)
                && T2::parts_outcome(&Ok(t2), &req.parts, state)
                && T3::parts_outcome(&Ok(t3), &req.parts, state)
                && T4::parts_outcome(&Ok(t4), &req.parts, state)
                && T5::request_outcome(&Ok(t5), req, state)) ==> call_requires(*self, (t1, t2, t3, t4, t5))
    }

    open spec fn call_post(&self, req: &Request<P>, state: &S, resp: &Response) -> bool {
        ||| exists|e1: T1::Rejection|
            {
                &&& T1::parts_outcome(&Err(e1), &req.parts, state)
                &&& e1.response_outcome(resp)
            }
        ||| exists|t1: T1, e2: T2::Rejection|
            {
                &&& T1::parts_outcome(&Ok(t1), &req.parts, state)
                &&& T2::parts_outcome(&Err(e2), &req.parts, state)
                &&& e2.response_outcome(resp)
            }
        ||| exists|t1: T1, t2: T2, e3: T3::Rejection|
            {
                &&& T1::parts_outcome(&Ok(t1), &req.parts, state)
                &&& T2::parts_outcome(&Ok(t2), &req.parts, state)
                &&& T3::parts_outcome(&Err(e3), &req.parts, state)
                &&& e3.response_outcome(resp)
            }
        ||| exists|t1: T1, t2: T2, t3: T3, e4: T4::Rejection|
            {
                &&& T1::parts_outcome(&Ok(t1), &req.parts, state)
                &&& T2::parts_outcome(&Ok(t2), &req.parts, state)
                &&& T3::parts_outcome(&Ok(t3), &req.parts, state)
                &&& T4::parts_outcome(&Err(e4), &req.parts, state)
                &&& e4.response_outcome(resp)
            }
        ||| exists|t1: T1, t2: T2, t3: T3, t4: T4, e5: T5::Rejection|
            {
                &&& T1::parts_outcome(&Ok(t1), &req.parts, state)
                &&& T2::parts_outcome(&Ok(t2), &req.parts, state)
                &&& T3::parts_outcome(&Ok(t3), &req.parts, state)
                &&& T4::parts_outcome(&Ok(t4), &req.parts, state)
                &&& T5::request_outcome(&Err(e5), req, state)
                &&& e5.response_outcome(resp)
            }
        ||| exists|t1: T1, t2: T2, t3: T3, t4: T4, t5: T5, ret: Ret|
            {
                &&& T1::parts_outcome(&Ok(t1), &req.parts, state)
                &&& T2::parts_outcome(&Ok(t2), &req.parts, state)
                &&& T3::parts_outcome(&Ok(t3), &req.parts, state)
                &&& T4::parts_outcome(&Ok(t4), &req.parts, state)
                &&& T5::request_outcome(&Ok(t5), req, state)
                &&& #[trigger] call_ensures(*self, (t1, t2, t3, t4, t5), ret)
                &&& ret.response_outcome(resp)
            }
    }

    fn call(&self, req: Request<P>, state: &S) -> (r: Response) {
        let ghost req0 = req;
        let (parts, body) = req.into_parts();
        let t1 = match T1::from_request_parts(&parts, state) {
            Ok(v) => v,
            Err(e) => {
                return e.into_response();
            },
        };
        let t2 = match T2::from_request_parts(&parts, state) {
            Ok(v) => v,
            Err(e) => {
                return e.into_response();
            },
        };
        let t3 = match T3::from_request_parts(&parts, state) {
            Ok(v) => v,
            Err(e) => {
                return e.into_response();
            },
        };
        let t4 = match T4::from_request_parts(&parts, state) {
            Ok(v) => v,
            Err(e) => {
                return e.into_response();
            },
        };
        let reassembled = Request::from_parts(parts, body);
        proof {
            assert(reassembled.parts == req0.parts);
            assert(reassembled == req0);
        }
        match T5::from_request(reassembled, state) {
            Ok(t5) => (self)(t1, t2, t3, t4, t5).into_response(),
            Err(e) => e.into_response(),
        }
    }
}

impl<S, P, F, Ret, M, T1, T2, T3, T4, T5, T6> HandlerFunction<S, P, (M, T1, T2, T3, T4, T5, T6)> for F where
    F: Fn(T1, T2, T3, T4, T5, T6) -> Ret,
    Ret: IntoResponse,
    T1: FromRequestParts<S, P>,
    T1::Rejection: IntoResponse,
    T2: FromRequestParts<S, P>,
    T2::Rejection: IntoResponse,
    T3: FromRequestParts<S, P>,
    T3::Rejection: IntoResponse,
    T4: FromRequestParts<S, P>,
    T4::Rejection: IntoResponse,
    T5: FromRequestParts<S, P>,
    T5::Rejection: IntoResponse,
    T6: FromRequest<S, P, M>,
    T6::Rejection: IntoResponse,
 {
    open spec fn callable(&self, req: &Request<P>, state: &S) -> bool {
        forall|t1: T1, t2: T2, t3: T3, t4: T4, t5: T5, t6: T6|
            (T1::parts_outcome(&Ok(t1), &req.parts, state)
                && T2::parts_outcome(&Ok(t2), &req.parts, state)
                && T3::parts_outcome(&Ok(t3), &req.parts, state)
                && T4::parts_outcome(&Ok(t4), &req.parts, state)
                && T5::parts_outcome(&Ok(t5), &req.parts, state)
                && T6::request_outcome(&Ok(t6), req, state)) ==> call_requires(*self, (t1, t2, t3, t4, t5, t6))
    }

    open spec fn call_post(&self, req: &Request<P>, state: &S, resp: &Response) -> bool {
        ||| exists|e1: T1::Rejection|
            {
                &&& T1::parts_outcome(&Err(e1), &req.parts, state)
                &&& e1.response_outcome(resp)
            }
        ||| exists|t1: T1, e2: T2::Rejection|
            {
                &&& T1::parts_outcome(&Ok(t1), &req.parts, state)
                &&& T2::parts_outcome(&Err(e2), &req.parts, state)
                &&& e2.response_outcome(resp)
            }
        ||| exists|t1: T1, t2: T2, e3: T3::Rejection|
            {
                &&& T1::parts_outcome(&Ok(t1), &req.parts, state)
                &&& T2::parts_outcome(&Ok(t2), &req.parts, state)
                &&& T3::parts_outcome(&Err(e3), &req.parts, state)
                &&& e3.response_outcome(resp)
            }
        ||| exists|t1: T1, t2: T2, t3: T3, e4: T4::Rejection|
            {
                &&& T1::parts_outcome(&Ok(t1), &req.parts, state)
                &&& T2::parts_outcome(&Ok(t2), &req.parts, state)
                &&& T3::parts_outcome(&Ok(t3), &req.parts, state)
                &&& T4::parts_outcome(&Err(e4), &req.parts, state)
                &&& e4.response_outcome(resp)
            }
        ||| exists|t1: T1, t2: T2, t3: T3, t4: T4, e5: T5::Rejection|
            {
                &&& T1::parts_outcome(&Ok(t1), &req.parts, state)
                &&& T2::parts_outcome(&Ok(t2), &req.parts, state)
                &&& T3::parts_outcome(&Ok(t3), &req.parts, state)
                &&& T4::parts_outcome(&Ok(t4), &req.parts, state)
                &&& T5::parts_outcome(&Err(e5), &req.parts, state)
                &&& e5.response_outcome(resp)
            }
        ||| exists|t1: T1, t2: T2, t3: T3, t4: T4, t5: T5, e6: T6::Rejection|
            {
                &&& T1::parts_outcome(&Ok(t1), &req.parts, state)
                &&& T2::parts_outcome(&Ok(t2), &req.parts, state)
                &&& T3::parts_outcome(&Ok(t3), &req.parts, state)
                &&& T4::parts_outcome(&Ok(t4), &req.parts, state)
                &&& T5::parts_outcome(&Ok(t5), &req.parts, state)
                &&& T6::request_outcome(&Err(e6), req, state)
                &&& e6.response_outcome(resp)
            }
        ||| exists|t1: T1, t2: T2, t3: T3, t4: T4, t5: T5, t6: T6, ret: Ret|
            {
                &&& T1::parts_outcome(&Ok(t1), &req.parts, state)
                &&& T2::parts_outcome(&Ok(t2), &req.parts, state)
                &&& T3::parts_outcome(&Ok(t3), &req.parts, state)
                &&& T4::parts_outcome(&Ok(t4), &req.parts, state)
                &&& T5::parts_outcome(&Ok(t5), &req.parts, state)
                &&& T6::request_outcome(&Ok(t6), req, state)
                &&& #[trigger] call_ensures(*self, (t1, t2, t3, t4, t5, t6), ret)
                &&& ret.response_outcome(resp)
            }
    }

    fn call(&self, req: Request<P>, state: &S) -> (r: Response) {
        let ghost req0 = req;
        let (parts, body) = req.into_parts();
        let t1 = match T1::from_request_parts(&parts, state) {
            Ok(v) => v,
            Err(e) => {
                return e.into_response();
            },
        };
        let t2 = match T2::from_request_parts(&parts, state) {
            Ok(v) => v,
            Err(e) => {
                return e.into_response();
            },
        };
        let t3 = match T3::from_request_parts(&parts, state) {
            Ok(v) => v,
            Err(e) => {
                return e.into_response();
            },
        };
        let t4 = match T4::from_request_parts(&parts, state) {
            Ok(v) => v,
            Err(e) => {
                return e.into_response();
            },
        };
        let t5 = match T5::from_request_parts(&parts, state) {
            Ok(v) => v,
            Err(e) => {
                return e.into_response();
            },
        };
        let reassembled = Request::from_parts(parts, body);
        proof {
            assert(reassembled.parts == req0.parts);
            assert(reassembled == req0);
        }
        match T6::from_request(reassembled, state) {
            Ok(t6) => (self)(t1, t2, t3, t4, t5, t6).into_response(),
            Err(e) => e.into_response(),
        }
    }
}

impl<S, P, F, Ret, M, T1, T2, T3, T4, T5, T6, T7> HandlerFunction<S, P, (M, T1, T2, T3, T4, T5, T6, T7)> for F where
    F: Fn(T1, T2, T3, T4, T5, T6, T7) -> Ret,
    Ret: IntoResponse,
    T1: FromRequestParts<S, P>,
    T1::Rejection: IntoResponse,
    T2: FromRequestParts<S, P>,
    T2::Rejection: IntoResponse,
    T3: FromRequestParts<S, P>,
    T3::Rejection: IntoResponse,
    T4: FromRequestParts<S, P>,
    T4::Rejection: IntoResponse,
    T5: FromRequestParts<S, P>,
    T5::Rejection: IntoResponse,
    T6: FromRequestParts<S, P>,
    T6::Rejection: IntoResponse,
    T7: FromRequest<S, P, M>,
    T7::Rejection: IntoResponse,
 {
    open spec fn callable(&self, req: &Request<P>, state: &S) -> bool {
        forall|t1: T1, t2: T2, t3: T3, t4: T4, t5: T5, t6: T6, t7: T7|
            (T1::parts_outcome(&Ok(t1), &req.parts, state)
                && T2::parts_outcome(&Ok(t2), &req.parts, state)
                && T3::parts_outcome(&Ok(t3), &req.parts, state)
                && T4::parts_outcome(&Ok(t4), &req.parts, state)
                && T5::parts_outcome(&Ok(t5), &req.parts, state)
                && T6::parts_outcome(&Ok(t6), &req.parts, state)
                && T7::request_outcome(&Ok(t7), req, state)) ==> call_requires(*self, (t1, t2, t3, t4, t5, t6, t7))
    }

    open spec fn call_post(&self, req: &Request<P>, state: &S, resp: &Response) -> bool {
        ||| exists|e1: T1::Rejection|
            {
                &&& T1::parts_outcome(&Err(e1), &req.parts, state)
                &&& e1.response_outcome(resp)
            }
        ||| exists|t1: T1, e2: T2::Rejection|
            {
                &&& T1::parts_outcome(&Ok(t1), &req.parts, state)
                &&& T2::parts_outcome(&Err(e2), &req.parts, state)
                &&& e2.response_outcome(resp)
            }
        ||| exists|t1: T1, t2: T2, e3: T3::Rejection|
            {
                &&& T1::parts_outcome(&Ok(t1), &req.parts, state)
                &&& T2::parts_outcome(&Ok(t2), &req.parts, state)
                &&& T3::parts_outcome(&Err(e3), &req.parts, state)
                &&& e3.response_outcome(resp)
            }
        ||| exists|t1: T1, t2: T2, t3: T3, e4: T4::Rejection|
            {
                &&& T1::parts_outcome(&Ok(t1), &req.parts, state)
                &&& T2::parts_outcome(&Ok(t2), &req.parts, state)
                &&& T3::parts_outcome(&Ok(t3), &req.parts, state)
                &&& T4::parts_outcome(&Err(e4), &req.parts, state)
                &&& e4.response_outcome(resp)
            }
        ||| exists|t1: T1, t2: T2, t3: T3, t4: T4, e5: T5::Rejection|
            {
                &&& T1::parts_outcome(&Ok(t1), &req.parts, state)
                &&& T2::parts_outcome(&Ok(t2), &req.parts, state)
                &&& T3::parts_outcome(&Ok(t3), &req.parts, state)
                &&& T4::parts_outcome(&Ok(t4), &req.parts, state)
                &&& T5::parts_outcome(&Err(e5), &req.parts, state)
                &&& e5.response_outcome(resp)
            }
        ||| exists|t1: T1, t2: T2, t3: T3, t4: T4, t5: T5, e6: T6::Rejection|
            {
                &&& T1::parts_outcome(&Ok(t1), &req.parts, state)
                &&& T2::parts_outcome(&Ok(t2), &req.parts, state)
                &&& T3::parts_outcome(&Ok(t3), &req.parts, state)
                &&& T4::parts_outcome(&Ok(t4), &req.parts, state)
                &&& T5::parts_outcome(&Ok(t5), &req.parts, state)
                &&& T6::parts_outcome(&Err(e6), &req.parts, state)
                &&& e6.response_outcome(resp)
            }
        ||| exists|t1: T1, t2: T2, t3: T3, t4: T4, t5: T5, t6: T6, e7: T7::Rejection|
            {
                &&& T1::parts_outcome(&Ok(t1), &req.parts, state)
                &&& T2::parts_outcome(&Ok(t2), &req.parts, state)
                &&& T3::parts_outcome(&Ok(t3), &req.parts, state)
                &&& T4::parts_outcome(&Ok(t4), &req.parts, state)
                &&& T5::parts_outcome(&Ok(t5), &req.parts, state)
                &&& T6::parts_outcome(&Ok(t6), &req.parts, state)
                &&& T7::request_outcome(&Err(e7), req, state)
                &&& e7.response_outcome(resp)
            }
        ||| exists|t1: T1, t2: T2, t3: T3, t4: T4, t5: T5, t6: T6, t7: T7, ret: Ret|
            {
                &&& T1::parts_outcome(&Ok(t1), &req.parts, state)
                &&& T2::parts_outcome(&Ok(t2), &req.parts, state)
                &&& T3::parts_outcome(&Ok(t3), &req.parts, state)
                &&& T4::parts_outcome(&Ok(t4), &req.parts, state)
                &&& T5::parts_outcome(&Ok(t5), &req.parts, state)
                &&& T6::parts_outcome(&Ok(t6), &req.parts, state)
                &&& T7::request_outcome(&Ok(t7), req, state)
                &&& #[trigger] call_ensures(*self, (t1, t2, t3, t4, t5, t6, t7), ret)
                &&& ret.response_outcome(resp)
            }
    }

    fn call(&self, req: Request<P>, state: &S) -> (r: Response) {
        let ghost req0 = req;
        let (parts, body) = req.into_parts();
        let t1 = match T1::from_request_parts(&parts, state) {
            Ok(v) => v,
            Err(e) => {
                return e.into_response();
            },
        };
        let t2 = match T2::from_request_parts(&parts, state) {
            Ok(v) => v,
            Err(e) => {
                return e.into_response();
            },
        };
        let t3 = match T3::from_request_parts(&parts, state) {
            Ok(v) => v,
            Err(e) => {
                return e.into_response();
            },
        };
        let t4 = match T4::from_request_parts(&parts, state) {
            Ok(v) => v,
            Err(e) => {
                return e.into_response();
            },
        };
        let t5 = match T5::from_request_parts(&parts, state) {
            Ok(v) => v,
            Err(e) => {
                return e.into_response();
            },
        };
        let t6 = match T6::from_request_parts(&parts, state) {
            Ok(v) => v,
            Err(e) => {
                return e.into_response();
            },
        };
        let reassembled = Request::from_parts(parts, body);
        proof {
            assert(reassembled.parts == req0.parts);
            assert(reassembled == req0);
        }
        match T7::from_request(reassembled, state) {
            Ok(t7) => (self)(t1, t2, t3, t4, t5, t6, t7).into_response(),
            Err(e) => e.into_response(),
        }
    }
}

impl<S, P, F, Ret, M, T1, T2, T3, T4, T5, T6, T7, T8> HandlerFunction<S, P, (M, T1, T2, T3, T4, T5, T6, T7, T8)> for F where
    F: Fn(T1, T2, T3, T4, T5, T6, T7, T8) -> Ret,
    Ret: IntoResponse,
    T1: FromRequestParts<S, P>,
    T1::Rejection: IntoResponse,
    T2: FromRequestParts<S, P>,
    T2::Rejection: IntoResponse,
    T3: FromRequestParts<S, P>,
    T3::Rejection: IntoResponse,
    T4: FromRequestParts<S, P>,
    T4::Rejection: IntoResponse,
    T5: FromRequestParts<S, P>,
    T5::Rejection: IntoResponse,
    T6: FromRequestParts<S, P>,
    T6::Rejection: IntoResponse,
    T7: FromRequestParts<S, P>,
    T7::Rejection: IntoResponse,
    T8: FromRequest<S, P, M>,
    T8::Rejection: IntoResponse,
 {
    open spec fn callable(&self, req: &Request<P>, state: &S) -> bool {
        forall|t1: T1, t2: T2, t3: T3, t4: T4, t5: T5, t6: T6, t7: T7, t8: T8|
            (T1::parts_outcome(&Ok(t1), &req.parts, state)
                && T2::parts_outcome(&Ok(t2), &req.parts, state)
                && T3::parts_outcome(&Ok(t3), &req.parts, state)
                && T4::parts_outcome(&Ok(t4), &req.parts, state)
                && T5::parts_outcome(&Ok(t5), &req.parts, state)
                && T6::parts_outcome(&Ok(t6), &req.parts, state)
                && T7::parts_outcome(&Ok(t7), &req.parts, state)
                && T8::request_outcome(&Ok(t8), req, state)) ==> call_requires(*self, (t1, t2, t3, t4, t5, t6, t7, t8))
    }

    open spec fn call_post(&self, req: &Request<P>, state: &S, resp: &Response) -> bool {
        ||| exists|e1: T1::Rejection|
            {
                &&& T1::parts_outcome(&Err(e1), &req.parts, state)
                &&& e1.response_outcome(resp)
            }
        ||| exists|t1: T1, e2: T2::Rejection|
            {
                &&& T1::parts_outcome(&Ok(t1), &req.parts, state)
                &&& T2::parts_outcome(&Err(e2), &req.parts, state)
                &&& e2.response_outcome(resp)
            }
        ||| exists|t1: T1, t2: T2, e3: T3::Rejection|
            {
                &&& T1::parts_outcome(&Ok(t1), &req.parts, state)
                &&& T2::parts_outcome(&Ok(t2), &req.parts, state)
                &&& T3::parts_outcome(&Err(e3), &req.parts, state)
                &&& e3.response_outcome(resp)
            }
        ||| exists|t1: T1, t2: T2, t3: T3, e4: T4::Rejection|
            {
                &&& T1::parts_outcome(&Ok(t1), &req.parts, state)
                &&& T2::parts_outcome(&Ok(t2), &req.parts, state)
                &&& T3::parts_outcome(&Ok(t3), &req.parts, state)
                &&& T4::parts_outcome(&Err(e4), &req.parts, state)
                &&& e4.response_outcome(resp)
            }
        ||| exists|t1: T1, t2: T2, t3: T3, t4: T4, e5: T5::Rejection|
            {
                &&& T1::parts_outcome(&Ok(t1), &req.parts, state)
                &&& T2::parts_outcome(&Ok(t2), &req.parts, state)
                &&& T3::parts_outcome(&Ok(t3), &req.parts, state)
                &&& T4::parts_outcome(&Ok(t4), &req.parts, state)
                &&& T5::parts_outcome(&Err(e5), &req.parts, state)
                &&& e5.response_outcome(resp)
            }
        ||| exists|t1: T1, t2: T2, t3: T3, t4: T4, t5: T5, e6: T6::Rejection|
            {
                &&& T1::parts_outcome(&Ok(t1), &req.parts, state)
                &&& T2::parts_outcome(&Ok(t2), &req.parts, state)
                &&& T3::parts_outcome(&Ok(t3), &req.parts, state)
                &&& T4::parts_outcome(&Ok(t4), &req.parts, state)
                &&& T5::parts_outcome(&Ok(t5), &req.parts, state)
                &&& T6::parts_outcome(&Err(e6), &req.parts, state)
                &&& e6.response_outcome(resp)
            }
        ||| exists|t1: T1, t2: T2, t3: T3, t4: T4, t5: T5, t6: T6, e7: T7::Rejection|
            {
                &&& T1::parts_outcome(&Ok(t1), &req.parts, state)
                &&& T2::parts_outcome(&Ok(t2), &req.parts, state)
                &&& T3::parts_outcome(&Ok(t3), &req.parts, state)
                &&& T4::parts_outcome(&Ok(t4), &req.parts, state)
                &&& T5::parts_outcome(&Ok(t5), &req.parts, state)
                &&& T6::parts_outcome(&Ok(t6), &req.parts, state)
                &&& T7::parts_outcome(&Err(e7), &req.parts, state)
                &&& e7.response_outcome(resp)
            }
        ||| exists|t1: T1, t2: T2, t3: T3, t4: T4, t5: T5, t6: T6, t7: T7, e8: T8::Rejection|
            {
                &&& T1::parts_outcome(&Ok(t1), &req.parts, state)
                &&& T2::parts_outcome(&Ok(t2), &req.parts, state)
                &&& T3::parts_outcome(&Ok(t3), &req.parts, state)
                &&& T4::parts_outcome(&Ok(t4), &req.parts, state)
                &&& T5::parts_outcome(&Ok(t5), &req.parts, state)
                &&& T6::parts_outcome(&Ok(t6), &req.parts, state)
                &&& T7::parts_outcome(&Ok(t7), &req.parts, state)
                &&& T8::request_outcome(&Err(e8), req, state)
                &&& e8.response_outcome(resp)
            }
        ||| exists|t1: T1, t2: T2, t3: T3, t4: T4, t5: T5, t6: T6, t7: T7, t8: T8, ret: Ret|
            {
                &&& T1::parts_outcome(&Ok(t1), &req.parts, state)
                &&& T2::parts_outcome(&Ok(t2), &req.parts, state)
                &&& T3::parts_outcome(&Ok(t3), &req.parts, state)
                &&& T4::parts_outcome(&Ok(t4), &req.parts, state)
                &&& T5::parts_outcome(&Ok(t5), &req.parts, state)
                &&& T6::parts_outcome(&Ok(t6), &req.parts, state)
                &&& T7::parts_outcome(&Ok(t7), &req.parts, state)
                &&& T8::request_outcome(&Ok(t8), req, state)
                &&& #[trigger] call_ensures(*self, (t1, t2, t3, t4, t5, t6, t7, t8), ret)
                &&& ret.response_outcome(resp)
            }
    }

    fn call(&self, req: Request<P>, state: &S) -> (r: Response) {
        let ghost req0 = req;
        let (parts, body) = req.into_parts();
        let t1 = match T1::from_request_parts(&parts, state) {
            Ok(v) => v,
            Err(e) => {
                return e.into_response();
            },
        };
        let t2 = match T2::from_request_parts(&parts, state) {
            Ok(v) => v,
            Err(e) => {
                return e.into_response();
            },
        };
        let t3 = match T3::from_request_parts(&parts, state) {
            Ok(v) => v,
            Err(e) => {
                return e.into_response();
            },
        };
        let t4 = match T4::from_request_parts(&parts, state) {
            Ok(v) => v,
            Err(e) => {
                return e.into_response();
            },
        };
        let t5 = match T5::from_request_parts(&parts, state) {
            Ok(v) => v,
            Err(e) => {
                return e.into_response();
            },
        };
        let t6 = match T6::from_request_parts(&parts, state) {
            Ok(v) => v,
            Err(e) => {
                return e.into_response();
            },
        };
        let t7 = match T7::from_request_parts(&parts, state) {
            Ok(v) => v,
            Err(e) => {
                return e.into_response();
            },
        };
        let reassembled = Request::from_parts(parts, body);
        proof {
            assert(reassembled.parts == req0.parts);
            assert(reassembled == req0);
        }
        match T8::from_request(reassembled, state) {
            Ok(t8) => (self)(t1, t2, t3, t4, t5, t6, t7, t8).into_response(),
            Err(e) => e.into_response(),
        }
    }
}

/// Adapts a handler function to the routing tree: it matches every
/// request.
pub struct HandlerFunctionHandlerAdapter<FuncParams, H> {
    pub handler: H,
    pub params: PhantomData<FuncParams>,
}

impl<S, P, FuncParams, H: HandlerFunction<S, P, FuncParams>> Route<S, P>
    for HandlerFunctionHandlerAdapter<FuncParams, H> {
    open spec fn matches(&self, method: Seq<char>, path: Seq<char>) -> bool {
        true
    }

    open spec fn response_post(&self, req: &Request<P>, state: &S, resp: &Response) -> bool {
        self.handler.call_post(req, state, resp)
    }

    open spec fn wf(&self) -> bool {
        forall|req: Request<P>, s: S| self.handler.callable(&req, &s)
    }

    fn match_request(&self, req: Request<P>, state: &S) -> (d: Decision<P>) {
        proof {
            assert(self.handler.callable(&req, state));
        }
        Decision::Match(self.handler.call(req, state))
    }
}

} // verus!
