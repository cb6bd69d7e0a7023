//! JSON request and response bodies. The codec itself — turning bytes
//! into a value and back — is a pluggable capability the application
//! supplies; the extractor buffers the body, hands the bytes to the
//! codec, and maps its verdict; the response side degrades an encoding
//! failure to a 500 with a fixed message, never a panic.

use vstd::prelude::*;

verus! {

use vstd::string::StringSliceAdditionalSpecFns;
use crate::extract::{read_body_to_end, FromRequest, JsonError, JsonRejection, ViaRequest};
use crate::request::Request;
use crate::response::{IntoResponse, Response};
use crate::status::StatusCode;

/// The JSON capability: parse bytes into a value, or serialize a value
/// into bytes. Implementations are supplied by the application; nothing
/// is assumed of them here.
pub trait JsonCodec: Sized {
    /// Parses JSON bytes into a value; `None` when the bytes are not the
    /// encoding of one.
    fn from_json(bytes: &[u8]) -> Option<Self>;

    /// Serializes the value into JSON bytes; `None` when the value cannot
    /// be encoded.
    fn to_json(&self) -> Option<Vec<u8>>;
}

/// A JSON-encoded request or response body.
#[derive(Debug)]
pub struct Json<T>(pub T);

impl<T> Json<T> {
    /// Wraps a value for JSON encoding.
    pub fn new(value: T) -> (r: Json<T>)
        ensures
            r.0 == value,
    {
        Json(value)
    }
}

/// Maps the codec's verdict on the buffered body bytes to the extractor's
/// result: a decoded value is wrapped; a declined body is the
/// invalid-JSON rejection.
pub fn json_decoded<T>(d: Option<T>) -> (r: Result<Json<T>, JsonRejection>)
    ensures
        (match d {
            Some(v) => r matches Ok(j) && j.0 == v,
            None => r matches Err(e) && (e matches JsonRejection::JsonError(_)),
        }),
{
    match d {
        Some(v) => Ok(Json(v)),
        None => Err(JsonRejection::JsonError(JsonError)),
    }
}

impl<S, P, T: JsonCodec> FromRequest<S, P, ViaRequest> for Json<T> {
    type Rejection = JsonRejection;

    /// The whole body is buffered and handed to the codec: the result is
    /// a decoded value, or the invalid-JSON rejection when the codec
    /// declined; buffering itself cannot fail here.
    open spec fn request_outcome(
        r: &Result<Self, Self::Rejection>,
        req: &Request<P>,
        state: &S,
    ) -> bool {
        match r {
            Ok(_) => true,
            Err(JsonRejection::JsonError(_)) => true,
            Err(JsonRejection::VecRejection(_)) => false,
        }
    }

    fn from_request(req: Request<P>, _state: &S) -> (r: Result<Self, Self::Rejection>) {
        let (_, mut body) = req.into_parts();
        let data = read_body_to_end(&mut body);
        json_decoded(T::from_json(data.as_slice()))
    }
}

/// The success response around encoded JSON bytes.
pub fn json_body_response(buf: Vec<u8>) -> (r: Response)
    ensures
        r.status_code.code == 200,
        r.body@ == buf@,
{
    Response { status_code: StatusCode::ok(), body: buf }
}

/// The fixed response sent when a value cannot be encoded as JSON.
pub fn json_failure_response() -> (r: Response)
    ensures
        r.status_code.code == 500,
        r.body@ == "Failed to serialize JSON".spec_bytes(),
{
    (StatusCode::internal_server_error(), "Failed to serialize JSON").into_response()
}

impl<T: JsonCodec> IntoResponse for Json<T> {
    /// Either the encoded bytes under 200, or — when the codec declines
    /// the value — the fixed failure message under 500.
    open spec fn response_outcome(&self, resp: &Response) -> bool {
        ||| resp.status_code.code == 200
        ||| (resp.status_code.code == 500 && resp.body@ == "Failed to serialize JSON".spec_bytes())
    }

    fn into_response(self) -> (r: Response) {
        match self.0.to_json() {
            Some(buf) => json_body_response(buf),
            None => json_failure_response(),
        }
    }
}

} // verus!
