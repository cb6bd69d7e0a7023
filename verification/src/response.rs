//! Responses and the conversion of handler outputs into them. A response
//! is a status code plus owned body bytes; response headers are not
//! modeled.

use vstd::prelude::*;

verus! {

use vstd::slice::slice_to_vec;
use vstd::string::StringSliceAdditionalSpecFns;
use crate::status::StatusCode;

/// A response: a status code and the body bytes to send.
#[derive(Debug)]
pub struct Response {
    pub status_code: StatusCode,
    pub body: Vec<u8>,
}

impl Response {
    /// The status code of this response.
    pub fn status_code(&self) -> (r: StatusCode)
        ensures
            r == self.status_code,
    {
        self.status_code
    }

    /// Consumes the response, yielding its body.
    pub fn into_body(self) -> (r: Vec<u8>)
        ensures
            r@ == self.body@,
    {
        self.body
    }
}

/// Conversion of a value into a response. The spec function pins, per
/// implementation, what responses the conversion can produce.
pub trait IntoResponse: Sized {
    /// What holds of the response this value converts into.
    spec fn response_outcome(&self, resp: &Response) -> bool;

    /// Converts the value into a response.
    fn into_response(self) -> (r: Response)
        ensures
            self.response_outcome(&r),
    ;
}

impl IntoResponse for Response {
    open spec fn response_outcome(&self, resp: &Response) -> bool {
        resp.status_code == self.status_code && resp.body@ == self.body@
    }

    fn into_response(self) -> (r: Response) {
        self
    }
}

impl IntoResponse for &'static str {
    open spec fn response_outcome(&self, resp: &Response) -> bool {
        resp.status_code.code == 200 && resp.body@ == self.spec_bytes()
    }

    fn into_response(self) -> (r: Response) {
        Response { status_code: StatusCode::ok(), body: slice_to_vec(self.as_bytes()) }
    }
}

impl<T: IntoResponse> IntoResponse for (StatusCode, T) {
    open spec fn response_outcome(&self, resp: &Response) -> bool {
        exists|inner: Response|
            {
                &&& #[trigger] self.1.response_outcome(&inner)
                &&& resp.status_code == self.0
                &&& resp.body@ == inner.body@
            }
    }

    fn into_response(self) -> (r: Response) {
        let (status, inner) = self;
        proof {
            assert(status == self.0 && inner == self.1);
        }
        let inner_response = inner.into_response();
        let ghost witness = inner_response;
        let r = Response { status_code: status, body: inner_response.into_body() };
        proof {
            assert(self.1.response_outcome(&witness));
            assert(r.status_code == self.0);
            assert(r.body@ == witness.body@);
            assert(self.response_outcome(&r));
        }
        r
    }
}

impl IntoResponse for () {
    open spec fn response_outcome(&self, resp: &Response) -> bool {
        resp.status_code.code == 200 && resp.body@ == Seq::<u8>::empty()
    }

    fn into_response(self) -> (r: Response) {
        let r = Response { status_code: StatusCode::ok(), body: Vec::new() };
        proof {
            assert(r.body@ =~= Seq::<u8>::empty());
        }
        r
    }
}

impl IntoResponse for Vec<u8> {
    open spec fn response_outcome(&self, resp: &Response) -> bool {
        resp.status_code.code == 200 && resp.body@ == self@
    }

    fn into_response(self) -> (r: Response) {
        Response { status_code: StatusCode::ok(), body: self }
    }
}

impl IntoResponse for String {
    open spec fn response_outcome(&self, resp: &Response) -> bool {
        resp.status_code.code == 200 && resp.body@ == vstd::utf8::encode_utf8(self@)
    }

    fn into_response(self) -> (r: Response) {
        Response { status_code: StatusCode::ok(), body: self.as_str().as_bytes_vec() }
    }
}

} // verus!
