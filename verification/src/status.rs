//! HTTP status codes in the range 100..=999, with the canonical reason
//! phrases of the IANA-registered set.

use vstd::prelude::*;

verus! {

use vstd::slice::slice_index_get;

/// An HTTP status code. Valid codes lie in 100..=999; constructors reject
/// everything else.
#[derive(Clone, Copy, Debug, PartialEq, Eq, Structural, Hash)]
pub struct StatusCode {
    pub code: u16,
}

/// Error for a status-code conversion whose input was not a number in
/// 100..=999.
#[derive(Clone, Copy, Debug)]
pub struct InvalidStatusCode {
    dummy: (),
}

impl InvalidStatusCode {
    fn new() -> InvalidStatusCode {
        InvalidStatusCode { dummy: () }
    }
}

/// A status code is valid when it lies in the supported range.
pub open spec fn valid_status(code: int) -> bool {
    100 <= code <= 999
}

impl StatusCode {
    /// Converts a u16 to a status code; fails unless 100 <= src <= 999.
    pub fn from_u16(src: u16) -> (r: Result<StatusCode, InvalidStatusCode>)
        ensures
            valid_status(src as int) ==> (r matches Ok(s) && s.code == src),
            !valid_status(src as int) ==> r is Err,
    {
        if src < 100 || src >= 1000 {
            return Err(InvalidStatusCode::new());
        }
        Ok(StatusCode { code: src })
    }

    /// Converts three ASCII digits to a status code; the first digit must be
    /// non-zero.
    pub fn from_bytes(src: &[u8]) -> (r: Result<StatusCode, InvalidStatusCode>)
        ensures
            spec_code_of_bytes(src@) matches Some(code) ==> (r matches Ok(s) && s.code == code),
            spec_code_of_bytes(src@) is None ==> r is Err,
    {
        if src.len() != 3 {
            return Err(InvalidStatusCode::new());
        }
        let a = (*slice_index_get(src, 0)).wrapping_sub(48) as u16;
        let b = (*slice_index_get(src, 1)).wrapping_sub(48) as u16;
        let c = (*slice_index_get(src, 2)).wrapping_sub(48) as u16;

        if a == 0 || a > 9 || b > 9 || c > 9 {
            return Err(InvalidStatusCode::new());
        }

        let status = (a * 100) + (b * 10) + c;
        Ok(StatusCode { code: status })
    }

    /// Returns the `u16` corresponding to this status code.
    pub fn as_u16(&self) -> (r: u16)
        ensures
            r == self.code,
    {
        self.code
    }

    /// The standardised reason phrase for this status code, if the code is
    /// registered.
    pub fn canonical_reason(&self) -> (r: Option<&'static str>)
        ensures
            (match r {
                Some(s) => spec_reason(self.code as int) == Some(s@),
                None => spec_reason(self.code as int) is None,
            }),
    {
        canonical_reason_of(self.code)
    }

    /// Check if status is within 100-199.
    pub fn is_informational(&self) -> (r: bool)
        ensures
            r == (100 <= self.code < 200),
    {
        200 > self.code && self.code >= 100
    }

    /// Check if status is within 200-299.
    pub fn is_success(&self) -> (r: bool)
        ensures
            r == (200 <= self.code < 300),
    {
        300 > self.code && self.code >= 200
    }

    /// Check if status is within 300-399.
    pub fn is_redirection(&self) -> (r: bool)
        ensures
            r == (300 <= self.code < 400),
    {
        400 > self.code && self.code >= 300
    }

    /// Check if status is within 400-499.
    pub fn is_client_error(&self) -> (r: bool)
        ensures
            r == (400 <= self.code < 500),
    {
        500 > self.code && self.code >= 400
    }

    /// Check if status is within 500-599.
    pub fn is_server_error(&self) -> (r: bool)
        ensures
            r == (500 <= self.code < 600),
    {
        600 > self.code && self.code >= 500
    }

    /// 200 OK
    pub fn ok() -> (r: StatusCode)
        ensures
            r.code == 200,
    {
        StatusCode { code: 200 }
    }

    /// 400 Bad Request
    pub fn bad_request() -> (r: StatusCode)
        ensures
            r.code == 400,
    {
        StatusCode { code: 400 }
    }

    /// 404 Not Found
    pub fn not_found() -> (r: StatusCode)
        ensures
            r.code == 404,
    {
        StatusCode { code: 404 }
    }

    /// 413 Payload Too Large
    pub fn payload_too_large() -> (r: StatusCode)
        ensures
            r.code == 413,
    {
        StatusCode { code: 413 }
    }

    /// 500 Internal Server Error
    pub fn internal_server_error() -> (r: StatusCode)
        ensures
            r.code == 500,
    {
        StatusCode { code: 500 }
    }
}

impl Default for StatusCode {
    /// The default status code is 200 OK.
    fn default() -> (r: StatusCode)
        ensures
            r.code == 200,
    {
        StatusCode { code: 200 }
    }
}

/// The value denoted by three decimal digit bytes `d1 d2 d3` with `d1 != 0`,
/// or `None` if the bytes are not of that shape.
pub open spec fn spec_code_of_bytes(src: Seq<u8>) -> Option<u16> {
    if src.len() == 3 {
        let a = (src[0] - 48) as u16;
        let b = (src[1] - 48) as u16;
        let c = (src[2] - 48) as u16;
        if 49 <= src[0] <= 57 && 48 <= src[1] <= 57 && 48 <= src[2] <= 57 {
            Some((a * 100 + b * 10 + c) as u16)
        } else {
            None
        }
    } else {
        None
    }
}

/// The canonical reason phrase of each IANA-registered status code.
pub open spec fn spec_reason(code: int) -> Option<Seq<char>> {
    if code == 100 { Some("Continue"@) }
    else if code == 101 { Some("Switching Protocols"@) }
    else if code == 102 { Some("Processing"@) }
    else if code == 200 { Some("OK"@) }
    else if code == 201 { Some("Created"@) }
    else if code == 202 { Some("Accepted"@) }
    else if code == 203 { Some("Non Authoritative Information"@) }
    else if code == 204 { Some("No Content"@) }
    else if code == 205 { Some("Reset Content"@) }
    else if code == 206 { Some("Partial Content"@) }
    else if code == 207 { Some("Multi-Status"@) }
    else if code == 208 { Some("Already Reported"@) }
    else if code == 226 { Some("IM Used"@) }
    else if code == 300 { Some("Multiple Choices"@) }
    else if code == 301 { Some("Moved Permanently"@) }
    else if code == 302 { Some("Found"@) }
    else if code == 303 { Some("See Other"@) }
    else if code == 304 { Some("Not Modified"@) }
    else if code == 305 { Some("Use Proxy"@) }
    else if code == 307 { Some("Temporary Redirect"@) }
    else if code == 308 { Some("Permanent Redirect"@) }
    else if code == 400 { Some("Bad Request"@) }
    else if code == 401 { Some("Unauthorized"@) }
    else if code == 402 { Some("Payment Required"@) }
    else if code == 403 { Some("Forbidden"@) }
    else if code == 404 { Some("Not Found"@) }
    else if code == 405 { Some("Method Not Allowed"@) }
    else if code == 406 { Some("Not Acceptable"@) }
    else if code == 407 { Some("Proxy Authentication Required"@) }
    else if code == 408 { Some("Request Timeout"@) }
    else if code == 409 { Some("Conflict"@) }
    else if code == 410 { Some("Gone"@) }
    else if code == 411 { Some("Length Required"@) }
    else if code == 412 { Some("Precondition Failed"@) }
    else if code == 413 { Some("Payload Too Large"@) }
    else if code == 414 { Some("URI Too Long"@) }
    else if code == 415 { Some("Unsupported Media Type"@) }
    else if code == 416 { Some("Range Not Satisfiable"@) }
    else if code == 417 { Some("Expectation Failed"@) }
    else if code == 418 { Some("I'm a teapot"@) }
    else if code == 421 { Some("Misdirected Request"@) }
    else if code == 422 { Some("Unprocessable Entity"@) }
    else if code == 423 { Some("Locked"@) }
    else if code == 424 { Some("Failed Dependency"@) }
    else if code == 426 { Some("Upgrade Required"@) }
    else if code == 428 { Some("Precondition Required"@) }
    else if code == 429 { Some("Too Many Requests"@) }
    else if code == 431 { Some("Request Header Fields Too Large"@) }
    else if code == 451 { Some("Unavailable For Legal Reasons"@) }
    else if code == 500 { Some("Internal Server Error"@) }
    else if code == 501 { Some("Not Implemented"@) }
    else if code == 502 { Some("Bad Gateway"@) }
    else if code == 503 { Some("Service Unavailable"@) }
    else if code == 504 { Some("Gateway Timeout"@) }
    else if code == 505 { Some("HTTP Version Not Supported"@) }
    else if code == 506 { Some("Variant Also Negotiates"@) }
    else if code == 507 { Some("Insufficient Storage"@) }
    else if code == 508 { Some("Loop Detected"@) }
    else if code == 510 { Some("Not Extended"@) }
    else if code == 511 { Some("Network Authentication Required"@) }
    else { None }
}

#[verifier::rlimit(40)]
fn canonical_reason_of(num: u16) -> (r: Option<&'static str>)
    ensures
        (match r {
            Some(s) => spec_reason(num as int) == Some(s@),
            None => spec_reason(num as int) is None,
        }),
{
    match num {
        100 => Some("Continue"),
        101 => Some("Switching Protocols"),
        102 => Some("Processing"),
        200 => Some("OK"),
        201 => Some("Created"),
        202 => Some("Accepted"),
        203 => Some("Non Authoritative Information"),
        204 => Some("No Content"),
        205 => Some("Reset Content"),
        206 => Some("Partial Content"),
        207 => Some("Multi-Status"),
        208 => Some("Already Reported"),
        226 => Some("IM Used"),
        300 => Some("Multiple Choices"),
        301 => Some("Moved Permanently"),
        302 => Some("Found"),
        303 => Some("See Other"),
        304 => Some("Not Modified"),
        305 => Some("Use Proxy"),
        307 => Some("Temporary Redirect"),
        308 => Some("Permanent Redirect"),
        400 => Some("Bad Request"),
        401 => Some("Unauthorized"),
        402 => Some("Payment Required"),
        403 => Some("Forbidden"),
        404 => Some("Not Found"),
        405 => Some("Method Not Allowed"),
        406 => Some("Not Acceptable"),
        407 => Some("Proxy Authentication Required"),
        408 => Some("Request Timeout"),
        409 => Some("Conflict"),
        410 => Some("Gone"),
        411 => Some("Length Required"),
        412 => Some("Precondition Failed"),
        413 => Some("Payload Too Large"),
        414 => Some("URI Too Long"),
        415 => Some("Unsupported Media Type"),
        416 => Some("Range Not Satisfiable"),
        417 => Some("Expectation Failed"),
        418 => Some("I'm a teapot"),
        421 => Some("Misdirected Request"),
        422 => Some("Unprocessable Entity"),
        423 => Some("Locked"),
        424 => Some("Failed Dependency"),
        426 => Some("Upgrade Required"),
        428 => Some("Precondition Required"),
        429 => Some("Too Many Requests"),
        431 => Some("Request Header Fields Too Large"),
        451 => Some("Unavailable For Legal Reasons"),
        500 => Some("Internal Server Error"),
        501 => Some("Not Implemented"),
        502 => Some("Bad Gateway"),
        503 => Some("Service Unavailable"),
        504 => Some("Gateway Timeout"),
        505 => Some("HTTP Version Not Supported"),
        506 => Some("Variant Also Negotiates"),
        507 => Some("Insufficient Storage"),
        508 => Some("Loop Detected"),
        510 => Some("Not Extended"),
        511 => Some("Network Authentication Required"),
        _ => None,
    }
}

} // verus!
