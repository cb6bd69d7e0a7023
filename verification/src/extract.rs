//! The extraction layer: the two capability traits — build a value from
//! the request metadata only, or from the full request — the bridging rule
//! between them, and the concrete extractors.
//!
//! Each extractor has a rejection type of its own, convertible into a
//! response; composite rejections keep which step failed.

use vstd::prelude::*;

verus! {

use vstd::string::StringSliceAdditionalSpecFns;
use vstd::utf8::{valid_utf8, decode_utf8};
use crate::headers::Headers;
use crate::request::{Parts, Request};
use crate::response::{IntoResponse, Response};
use crate::status::StatusCode;
use crate::strutil::bytes_to_string;

/// Marker for extractors that reach the body through the bridging rule:
/// any metadata-only extractor also works on a full request.
pub enum ViaParts {
    Marker,
}

/// Marker for extractors that consume the body themselves.
pub enum ViaRequest {
    Marker,
}

/// Builds a value from the metadata-only view of a request and the shared
/// application state. The spec function `parts_outcome` pins what each
/// implementation returns.
pub trait FromRequestParts<S, P>: Sized {
    /// The error value carried when this extraction fails.
    type Rejection;

    /// What holds of the result of the extraction.
    spec fn parts_outcome(r: &Result<Self, Self::Rejection>, parts: &Parts<P>, state: &S) -> bool;

    /// Extracts the value from the metadata.
    fn from_request_parts(parts: &Parts<P>, state: &S) -> (r: Result<Self, Self::Rejection>)
        ensures
            Self::parts_outcome(&r, parts, state),
    ;
}

/// Builds a value from the full request, consuming the body. Exactly one
/// such extractor runs per handler, last.
pub trait FromRequest<S, P, M>: Sized {
    /// The error value carried when this extraction fails.
    type Rejection;

    /// What holds of the result of the extraction.
    spec fn request_outcome(r: &Result<Self, Self::Rejection>, req: &Request<P>, state: &S) -> bool;

    /// Extracts the value from the request.
    fn from_request(req: Request<P>, state: &S) -> (r: Result<Self, Self::Rejection>)
        ensures
            Self::request_outcome(&r, &req, state),
    ;
}

/// The bridging rule: a metadata-only extractor satisfies the full-request
/// contract by splitting off the parts and discarding the body.
impl<S, P, T: FromRequestParts<S, P>> FromRequest<S, P, ViaParts> for T {
    type Rejection = T::Rejection;

    open spec fn request_outcome(
        r: &Result<Self, Self::Rejection>,
        req: &Request<P>,
        state: &S,
    ) -> bool {
        T::parts_outcome(r, &req.parts, state)
    }

    fn from_request(req: Request<P>, state: &S) -> (r: Result<Self, Self::Rejection>) {
        let (parts, _) = req.into_parts();
        T::from_request_parts(&parts, state)
    }
}

/// A rejection that is never produced; its conversion is a defensive
/// empty 500 response.
#[derive(Clone, Copy, Debug)]
pub enum NoRejection {
    Marker,
}

impl IntoResponse for NoRejection {
    open spec fn response_outcome(&self, resp: &Response) -> bool {
        resp.status_code.code == 500 && resp.body@ == Seq::<u8>::empty()
    }

    fn into_response(self) -> (r: Response) {
        let r = Response { status_code: StatusCode::internal_server_error(), body: Vec::new() };
        proof {
            assert(r.body@ =~= Seq::<u8>::empty());
        }
        r
    }
}

impl<S, P> FromRequestParts<S, P> for Headers {
    type Rejection = NoRejection;

    open spec fn parts_outcome(
        r: &Result<Self, Self::Rejection>,
        parts: &Parts<P>,
        state: &S,
    ) -> bool {
        match r {
            Ok(h) => h.buf@ == parts.headers.buf@ && h.entries@ == parts.headers.entries@,
            Err(_) => false,
        }
    }

    fn from_request_parts(parts: &Parts<P>, _state: &S) -> (r: Result<Self, Self::Rejection>) {
        Ok(parts.headers.duplicate())
    }
}

/// Derivation of a value from the application state.
pub trait FromRef<T>: Sized {
    /// What holds of the derived value.
    spec fn ref_outcome(r: &Self, input: &T) -> bool;

    /// Derives the value from a reference to the state.
    fn from_ref(input: &T) -> (r: Self)
        ensures
            Self::ref_outcome(&r, input),
    ;
}

impl<T: Clone> FromRef<T> for T {
    /// The derived value is a clone of the state.
    open spec fn ref_outcome(r: &T, input: &T) -> bool {
        vstd::pervasive::cloned::<T>(*input, *r)
    }

    fn from_ref(input: &T) -> (r: Self) {
        input.clone()
    }
}

/// Extractor for a value derived from the shared application state; never
/// fails.
pub struct State<S>(pub S);

impl<S, P, T: FromRef<S>> FromRequestParts<S, P> for State<T> {
    type Rejection = NoRejection;

    open spec fn parts_outcome(
        r: &Result<Self, Self::Rejection>,
        parts: &Parts<P>,
        state: &S,
    ) -> bool {
        match r {
            Ok(s) => T::ref_outcome(&s.0, state),
            Err(_) => false,
        }
    }

    fn from_request_parts(_parts: &Parts<P>, state: &S) -> (r: Result<Self, Self::Rejection>) {
        Ok(State(T::from_ref(state)))
    }
}

/// Rejection: the body could not be buffered.
#[derive(Clone, Copy, Debug)]
pub struct UnknownBodyError;

impl UnknownBodyError {
    /// The status code of this rejection.
    pub fn status(&self) -> (r: StatusCode)
        ensures
            r.code == 500,
    {
        StatusCode::internal_server_error()
    }
}

impl IntoResponse for UnknownBodyError {
    open spec fn response_outcome(&self, resp: &Response) -> bool {
        resp.status_code.code == 500 && resp.body@ == "Failed to buffer the request body".spec_bytes()
    }

    fn into_response(self) -> (r: Response) {
        (self.status(), "Failed to buffer the request body").into_response()
    }
}

/// Rejection: the body exceeds the buffer capacity.
#[derive(Clone, Copy, Debug)]
pub struct BodyTooLarge;

impl BodyTooLarge {
    /// The status code of this rejection.
    pub fn status(&self) -> (r: StatusCode)
        ensures
            r.code == 413,
    {
        StatusCode::payload_too_large()
    }
}

impl IntoResponse for BodyTooLarge {
    open spec fn response_outcome(&self, resp: &Response) -> bool {
        resp.status_code.code == 413 && resp.body@ == "Failed to buffer the request body".spec_bytes()
    }

    fn into_response(self) -> (r: Response) {
        (self.status(), "Failed to buffer the request body").into_response()
    }
}

/// Rejection: the body is not valid UTF-8.
#[derive(Clone, Copy, Debug)]
pub struct InvalidUtf8;

impl InvalidUtf8 {
    /// The status code of this rejection.
    pub fn status(&self) -> (r: StatusCode)
        ensures
            r.code == 400,
    {
        StatusCode::bad_request()
    }
}

impl IntoResponse for InvalidUtf8 {
    open spec fn response_outcome(&self, resp: &Response) -> bool {
        resp.status_code.code == 400 && resp.body@ == "Failed to read request body, invalid UTF-8".spec_bytes()
    }

    fn into_response(self) -> (r: Response) {
        (self.status(), "Failed to read request body, invalid UTF-8").into_response()
    }
}

/// Rejection: the body is not the JSON encoding of the expected type.
#[derive(Clone, Copy, Debug)]
pub struct JsonError;

impl JsonError {
    /// The status code of this rejection.
    pub fn status(&self) -> (r: StatusCode)
        ensures
            r.code == 400,
    {
        StatusCode::bad_request()
    }
}

impl IntoResponse for JsonError {
    open spec fn response_outcome(&self, resp: &Response) -> bool {
        resp.status_code.code == 400 && resp.body@ == "Invalid JSON".spec_bytes()
    }

    fn into_response(self) -> (r: Response) {
        (self.status(), "Invalid JSON").into_response()
    }
}

/// Rejection of the byte-buffer extractors, keeping which step failed.
#[derive(Clone, Copy, Debug)]
pub enum VecRejection {
    UnknownBodyError(UnknownBodyError),
    BodyTooLarge(BodyTooLarge),
}

impl IntoResponse for VecRejection {
    open spec fn response_outcome(&self, resp: &Response) -> bool {
        match self {
            VecRejection::UnknownBodyError(inner) => inner.response_outcome(resp),
            VecRejection::BodyTooLarge(inner) => inner.response_outcome(resp),
        }
    }

    fn into_response(self) -> (r: Response) {
        match self {
            VecRejection::UnknownBodyError(inner) => inner.into_response(),
            VecRejection::BodyTooLarge(inner) => inner.into_response(),
        }
    }
}

/// Rejection of the string extractors, keeping which step failed.
#[derive(Clone, Copy, Debug)]
pub enum StringRejection {
    VecRejection(VecRejection),
    InvalidUtf8(InvalidUtf8),
}

impl IntoResponse for StringRejection {
    open spec fn response_outcome(&self, resp: &Response) -> bool {
        match self {
            StringRejection::VecRejection(inner) => inner.response_outcome(resp),
            StringRejection::InvalidUtf8(inner) => inner.response_outcome(resp),
        }
    }

    fn into_response(self) -> (r: Response) {
        match self {
            StringRejection::VecRejection(inner) => inner.into_response(),
            StringRejection::InvalidUtf8(inner) => inner.into_response(),
        }
    }
}

/// Rejection of the JSON extractor, keeping which step failed.
#[derive(Clone, Copy, Debug)]
pub enum JsonRejection {
    VecRejection(VecRejection),
    JsonError(JsonError),
}

impl IntoResponse for JsonRejection {
    open spec fn response_outcome(&self, resp: &Response) -> bool {
        match self {
            JsonRejection::VecRejection(inner) => inner.response_outcome(resp),
            JsonRejection::JsonError(inner) => inner.response_outcome(resp),
        }
    }

    fn into_response(self) -> (r: Response) {
        match self {
            JsonRejection::VecRejection(inner) => inner.into_response(),
            JsonRejection::JsonError(inner) => inner.into_response(),
        }
    }
}

/// A byte buffer of fixed capacity `N`, filled from the body without
/// dynamic growth.
#[derive(Debug)]
pub struct BoundedBytes<const N: usize> {
    pub data: Vec<u8>,
}

/// Reads the whole body, failing if it does not fit in `limit` bytes. On
/// success the returned buffer holds exactly the body bytes; a body one
/// byte over the limit is detected by a probe read.
fn read_body_bounded(body: &mut crate::io::Body, limit: usize) -> (r: Result<Vec<u8>, VecRejection>)
    ensures
        (match r {
            Ok(v) => old(body).spec_remaining().len() <= limit && v@ == old(body).spec_remaining(),
            Err(VecRejection::BodyTooLarge(_)) => old(body).spec_remaining().len() > limit,
            Err(VecRejection::UnknownBodyError(_)) => false,
        }),
{
    let ghost orig = body.spec_remaining();
    let mut data: Vec<u8> = Vec::new();
    let mut done = false;
    let mut too_large = false;
    while !done
        invariant
            data@.len() <= limit,
            !done ==> data@ + body.spec_remaining() == orig,
            !done ==> !too_large,
            done ==> (too_large ==> orig.len() > limit),
            done ==> (!too_large ==> orig == data@ && orig.len() <= limit),
        decreases body.spec_remaining().len() + (if done {
            0int
        } else {
            1int
        }),
    {
        if data.len() == limit {
            let ghost rem0 = body.spec_remaining();
            let probe = body.read(1);
            if probe.len() > 0 {
                proof {
                    assert(orig == data@ + rem0);
                    assert(probe@ == rem0.subrange(0, probe@.len() as int));
                    assert(probe@.len() <= rem0.len());
                    assert(orig.len() > limit);
                }
                too_large = true;
                done = true;
            } else {
                proof {
                    lemma_read_zero_means_empty(&*body, 1);
                    assert(orig =~= data@);
                }
                done = true;
            }
        } else {
            let mut chunk = body.read(limit - data.len());
            if chunk.len() == 0 {
                proof {
                    lemma_read_zero_means_empty(&*body, limit - data@.len());
                    assert(orig =~= data@);
                }
                done = true;
            } else {
                proof {
                    assert(data@ + chunk@ + body.spec_remaining() =~= orig);
                }
                data.append(&mut chunk);
            }
        }
    }
    if too_large {
        Err(VecRejection::BodyTooLarge(BodyTooLarge))
    } else {
        Ok(data)
    }
}

/// A read that yielded nothing, though bytes were requested, means the
/// body has nothing left.
proof fn lemma_read_zero_means_empty(body: &crate::io::Body, n: int)
    requires
        n > 0,
        body.spec_read_len(n) == 0,
    ensures
        body.spec_remaining().len() == 0,
{
}

impl<S, P, const N: usize> FromRequest<S, P, ViaRequest> for BoundedBytes<N> {
    type Rejection = VecRejection;

    open spec fn request_outcome(
        r: &Result<Self, Self::Rejection>,
        req: &Request<P>,
        state: &S,
    ) -> bool {
        match r {
            Ok(v) => req.body.spec_remaining().len() <= N && v.data@
                == req.body.spec_remaining(),
            Err(VecRejection::BodyTooLarge(_)) => req.body.spec_remaining().len() > N,
            Err(VecRejection::UnknownBodyError(_)) => false,
        }
    }

    fn from_request(req: Request<P>, _state: &S) -> (r: Result<Self, Self::Rejection>) {
        let (_, mut body) = req.into_parts();
        match read_body_bounded(&mut body, N) {
            Ok(data) => Ok(BoundedBytes { data }),
            Err(e) => Err(e),
        }
    }
}

/// A string of bounded byte length `N`, read from the body and validated
/// as UTF-8.
#[derive(Debug)]
pub struct BoundedString<const N: usize> {
    pub data: String,
}

impl<S, P, const N: usize> FromRequest<S, P, ViaRequest> for BoundedString<N> {
    type Rejection = StringRejection;

    open spec fn request_outcome(
        r: &Result<Self, Self::Rejection>,
        req: &Request<P>,
        state: &S,
    ) -> bool {
        let rem = req.body.spec_remaining();
        match r {
            Ok(s) => rem.len() <= N && valid_utf8(rem) && s.data@ == decode_utf8(rem),
            Err(StringRejection::VecRejection(VecRejection::BodyTooLarge(_))) => rem.len() > N,
            Err(StringRejection::InvalidUtf8(_)) => rem.len() <= N && !valid_utf8(rem),
            Err(_) => false,
        }
    }

    fn from_request(req: Request<P>, _state: &S) -> (r: Result<Self, Self::Rejection>) {
        let (_, mut body) = req.into_parts();
        match read_body_bounded(&mut body, N) {
            Ok(data) => match bytes_to_string(data.as_slice()) {
                Some(s) => Ok(BoundedString { data: s }),
                None => Err(StringRejection::InvalidUtf8(InvalidUtf8)),
            },
            Err(e) => Err(StringRejection::VecRejection(e)),
        }
    }
}

/// How many bytes one growable read requests at a time.
pub const READ_CHUNK: usize = 1024;

/// Reads the whole body into a growing buffer, until a read yields
/// nothing.
pub(crate) fn read_body_to_end(body: &mut crate::io::Body) -> (r: Vec<u8>)
    ensures
        r@ == old(body).spec_remaining(),
{
    let ghost orig = body.spec_remaining();
    let mut data: Vec<u8> = Vec::new();
    let mut done = false;
    while !done
        invariant
            !done ==> data@ + body.spec_remaining() == orig,
            done ==> orig == data@,
        decreases body.spec_remaining().len() + (if done {
            0int
        } else {
            1int
        }),
    {
        let mut chunk = body.read(READ_CHUNK);
        if chunk.len() == 0 {
            proof {
                lemma_read_zero_means_empty(&*body, READ_CHUNK as int);
                assert(orig =~= data@);
            }
            done = true;
        } else {
            proof {
                assert(data@ + chunk@ + body.spec_remaining() =~= orig);
            }
            data.append(&mut chunk);
        }
    }
    data
}

impl<S, P> FromRequest<S, P, ViaRequest> for Vec<u8> {
    type Rejection = VecRejection;

    open spec fn request_outcome(
        r: &Result<Self, Self::Rejection>,
        req: &Request<P>,
        state: &S,
    ) -> bool {
        match r {
            Ok(v) => v@ == req.body.spec_remaining(),
            Err(_) => false,
        }
    }

    fn from_request(req: Request<P>, _state: &S) -> (r: Result<Self, Self::Rejection>) {
        let (_, mut body) = req.into_parts();
        Ok(read_body_to_end(&mut body))
    }
}

impl<S, P> FromRequest<S, P, ViaRequest> for String {
    type Rejection = StringRejection;

    open spec fn request_outcome(
        r: &Result<Self, Self::Rejection>,
        req: &Request<P>,
        state: &S,
    ) -> bool {
        let rem = req.body.spec_remaining();
        match r {
            Ok(s) => valid_utf8(rem) && s@ == decode_utf8(rem),
            Err(StringRejection::InvalidUtf8(_)) => !valid_utf8(rem),
            Err(_) => false,
        }
    }

    fn from_request(req: Request<P>, _state: &S) -> (r: Result<Self, Self::Rejection>) {
        let (_, mut body) = req.into_parts();
        let data = read_body_to_end(&mut body);
        match bytes_to_string(data.as_slice()) {
            Some(s) => Ok(s),
            None => Err(StringRejection::InvalidUtf8(InvalidUtf8)),
        }
    }
}

/// The bounded-buffer law: a body of exactly the capacity succeeds and
/// returns all its bytes; a body over the capacity is rejected as too
/// large; an empty body succeeds with an empty result.
pub proof fn lemma_bounded_capacity<S, P, const N: usize>(
    r: &Result<BoundedBytes<N>, VecRejection>,
    req: &Request<P>,
    state: &S,
)
    requires
        <BoundedBytes<N> as FromRequest<S, P, ViaRequest>>::request_outcome(r, req, state),
    ensures
        req.body.spec_remaining().len() == N ==> (match r {
            Ok(v) => v.data@ == req.body.spec_remaining(),
            Err(_) => false,
        }),
        req.body.spec_remaining().len() > N ==> (match r {
            Err(VecRejection::BodyTooLarge(_)) => true,
            _ => false,
        }),
        req.body.spec_remaining().len() == 0 ==> (match r {
            Ok(v) => v.data@.len() == 0,
            Err(_) => false,
        }),
{
}

/// Extractor for the payload the routing tree parsed out of the path;
/// never fails.
pub struct Path<P>(pub P);

impl<S, P: Clone> FromRequestParts<S, P> for Path<P> {
    type Rejection = NoRejection;

    /// Never fails; the payload is a clone of what the routing tree parsed
    /// out of the path.
    open spec fn parts_outcome(
        r: &Result<Self, Self::Rejection>,
        parts: &Parts<P>,
        state: &S,
    ) -> bool {
        match r {
            Ok(p) => vstd::pervasive::cloned::<P>(parts.extracted_path, p.0),
            Err(_) => false,
        }
    }

    fn from_request_parts(parts: &Parts<P>, _state: &S) -> (r: Result<Self, Self::Rejection>) {
        Ok(Path(parts.extracted_path.clone()))
    }
}

} // verus!
