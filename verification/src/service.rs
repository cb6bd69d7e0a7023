//! The per-request service pipeline: parse one buffered request head,
//! build the request model, dispatch it through the routing tree, and
//! render the response bytes. Reading from and writing to the transport
//! is the caller's job; `Incomplete` tells it to read more.

use vstd::prelude::*;

verus! {

use vstd::slice::{slice_subrange, slice_to_vec};
use vstd::string::StringSliceAdditionalSpecFns;
use vstd::utf8::{decode_utf8_encode_utf8, encode_utf8};
use crate::error::{InvalidUrl, ProtocolError};
use crate::headers::{lemma_find_valid, pairs_view, spec_find, Headers};
use crate::io::{Body, Cursor};
use crate::method::Method;
use crate::request::{Parts, Request};
use crate::response::Response;
use crate::route::{total_route, Route};
use crate::router::Router;
use crate::status::{spec_reason, valid_status};
use crate::strutil::{all_digits, dec_value, parse_usize_dec};
use crate::target::{spec_scan, spec_target_path, spec_target_query, PathAndQuery};

/// Why one service turn could not produce a response.
#[derive(Clone, Copy, Debug)]
pub enum ServiceError {
    /// The request head was malformed.
    Protocol(ProtocolError),
    /// The buffered bytes do not yet hold a complete request head; the
    /// caller should read more and try again.
    Incomplete,
}

/// A parsed request head: the method token, the raw target, the header
/// name/value pairs, and where the body begins in the buffer.
#[derive(Debug)]
pub struct RequestHead {
    pub method: String,
    pub target: String,
    pub headers: Vec<(Vec<u8>, Vec<u8>)>,
    pub body_start: usize,
}

/// The outcome of offering buffered bytes to the head parser.
#[derive(Debug)]
pub enum HeadParse {
    Complete(RequestHead),
    Partial,
    Malformed,
}

/// What the head parser yields for given buffered bytes; a function of
/// the bytes alone.
pub uninterp spec fn head_of(buf: Seq<u8>) -> HeadParse;

/// Relies on `httparse::Request::parse`: its result depends on the buffer
/// alone; on `Status::Complete(n)`, `n` is the number of head bytes
/// consumed, so it never exceeds the buffer length, and the method and
/// target tokens are present. The head is rejected when the request line
/// or a header line is malformed, or when more headers arrive than the
/// fixed maximum of 100.
#[verifier::external_body]
fn parse_head(buf: &[u8]) -> (r: HeadParse)
    ensures
        r == head_of(buf@),
        (match r {
            HeadParse::Complete(h) => h.body_start <= buf@.len(),
            _ => true,
        }),
{
    let mut headers = [httparse::EMPTY_HEADER; 100];
    let mut req = httparse::Request::new(&mut headers);
    match req.parse(buf) {
        Ok(httparse::Status::Complete(n)) => HeadParse::Complete(RequestHead {
            method: req.method.unwrap_or("").to_string(),
            target: req.path.unwrap_or("").to_string(),
            headers: req.headers.iter().map(
                |h| (h.name.as_bytes().to_vec(), h.value.to_vec()),
            ).collect(),
            body_start: n,
        }),
        Ok(httparse::Status::Partial) => HeadParse::Partial,
        Err(_) => HeadParse::Malformed,
    }
}

/// What `respond` guarantees of a successful dispatch: the routed request
/// carries the given method token; its path and query come from splitting
/// the target bytes; its header view records exactly the given pairs; its
/// body serves the given bytes, capped by the content length those pairs
/// declare; and the routing tree's response contract ties `resp` to it.
pub open spec fn routed_outcome<R: Route<S, ()>, S>(
    route: &R,
    state: &S,
    req: Request<()>,
    method_token: Seq<char>,
    target_bytes: Seq<u8>,
    pairs: Seq<(Seq<u8>, Seq<u8>)>,
    body_bytes: Seq<u8>,
    resp: Response,
) -> bool {
    &&& req.parts.method.token() == method_token
    &&& req.parts.path@ == spec_target_path(target_bytes)
    &&& (match (req.parts.query, spec_target_query(target_bytes)) {
        (Some(a), Some(b)) => a@ == b,
        (None, None) => true,
        _ => false,
    })
    &&& req.parts.headers.wf()
    &&& req.parts.headers.spec_pairs() == pairs
    &&& req.body.content_length == spec_content_length(pairs)
    &&& req.body.prefix@ == body_bytes
    &&& req.body.prefix_pos == 0
    &&& req.body.stream.spec_remaining().len() == 0
    &&& route.response_post(&req, state, &resp)
}

/// The content length a header list declares: the value of the first
/// `Content-Length` header when it is a plain decimal number that fits,
/// and 0 when the header is absent or unparseable.
pub open spec fn spec_content_length(pairs: Seq<(Seq<u8>, Seq<u8>)>) -> int {
    match spec_find(pairs, "Content-Length".spec_bytes()) {
        Some(vb) => if vb.len() > 0 && all_digits(vb) && dec_value(vb) <= usize::MAX {
            dec_value(vb)
        } else {
            0
        },
        None => 0,
    }
}

/// Builds the request from an already-parsed head and the buffered body
/// bytes, dispatches it through the routing tree, and returns the
/// response.
///
/// The target is validated first: an invalid target is rejected exactly
/// as `PathAndQuery::parse` rejects it. Then the method token: only the
/// empty token is rejected. Otherwise some request — whose method token,
/// path, query, headers and body are pinned below — is routed, and the
/// tree's response contract holds of the result.
pub fn respond<R: Route<S, ()>, S>(
    route: &R,
    state: &S,
    method_token: &str,
    target: &str,
    header_pairs: &Vec<(Vec<u8>, Vec<u8>)>,
    body_bytes: Vec<u8>,
) -> (r: Result<Response, ProtocolError>)
    requires
        route.wf(),
        total_route(route),
    ensures
        (match r {
            Err(ProtocolError::InvalidUrl(e)) => e is TooLong,
            _ => false,
        }) <==> target.spec_bytes().len() >= 65535,
        target.spec_bytes().len() < 65535 ==> ((match r {
            Err(ProtocolError::InvalidUrl(e)) => e is InvalidUrlCodePoint,
            _ => false,
        }) <==> spec_scan(target.spec_bytes(), 0, None) is None),
        (target.spec_bytes().len() < 65535 && spec_scan(target.spec_bytes(), 0, None) is Some)
            ==> ((r matches Err(ProtocolError::InvalidMethod)) <==> method_token@.len() == 0),
        (match r {
            Err(ProtocolError::Parser) => false,
            _ => true,
        }),
        (match r {
            Ok(resp) => exists|req: Request<()>|
                #[trigger] routed_outcome(
                    route,
                    state,
                    req,
                    method_token@,
                    target.spec_bytes(),
                    pairs_view(header_pairs@),
                    body_bytes@,
                    resp,
                ),
            Err(_) => true,
        }),
{
    let paq = match PathAndQuery::parse(target) {
        Ok(p) => p,
        Err(e) => {
            return Err(ProtocolError::InvalidUrl(e));
        },
    };
    let method = match Method::new(method_token) {
        Ok(m) => m,
        Err(_) => {
            return Err(ProtocolError::InvalidMethod);
        },
    };
    let headers = Headers::record(header_pairs);
    let content_length = match headers.get_first("Content-Length") {
        Some(v) => {
            proof {
                lemma_find_valid(headers.spec_pairs(), "Content-Length".spec_bytes());
                let vb = spec_find(
                    headers.spec_pairs(),
                    "Content-Length".spec_bytes(),
                )->Some_0;
                decode_utf8_encode_utf8(vb);
            }
            match parse_usize_dec(v.as_str().as_bytes()) {
                Some(n) => n,
                None => 0,
            }
        },
        None => 0,
    };
    let query = match paq.query() {
        Some(q) => Some(q.to_owned()),
        None => None,
    };
    let path = paq.path().to_owned();
    let body = Body::new(content_length, body_bytes, Cursor::new(Vec::new()));
    let req = Request {
        parts: Parts { method, path, query, headers, extracted_path: () },
        body,
    };
    let ghost greq = req;
    proof {
        assert(route.matches(greq.parts.method.token(), greq.parts.path@));
        assert(greq.parts.path@ == spec_target_path(target.spec_bytes()));
    }
    match route.match_request(req, state) {
        crate::route::Decision::Match(resp) => {
            let ghost gresp = resp;
            let out: Result<Response, ProtocolError> = Ok(resp);
            proof {
                assert(out matches Ok(r2) && r2 == gresp);
                assert(greq.body.stream.spec_remaining() =~= Seq::<u8>::empty());
                assert(routed_outcome(
                    route,
                    state,
                    greq,
                    method_token@,
                    target.spec_bytes(),
                    pairs_view(header_pairs@),
                    body_bytes@,
                    gresp,
                ));
                assert(exists|rq: Request<()>|
                    #[trigger] routed_outcome(
                        route,
                        state,
                        rq,
                        method_token@,
                        target.spec_bytes(),
                        pairs_view(header_pairs@),
                        body_bytes@,
                        gresp,
                    ));
            }
            out
        },
        crate::route::Decision::NoMatch(_) => {
            proof {
                assert(false);
            }
            Err(ProtocolError::Parser)
        },
    }
}

/// The bytes a response with the given status code and body is sent as:
/// the status line with the canonical reason phrase, an empty header
/// block, then the body.
pub open spec fn spec_rendered_bytes(code: int, body: Seq<u8>) -> Seq<u8> {
    "HTTP/1.1 ".spec_bytes() + dec3_bytes(code) + seq![32u8] + reason_bytes(code)
        + "\r\n\r\n".spec_bytes() + body
}

/// The bytes a response is sent as.
pub open spec fn spec_rendered(resp: &Response) -> Seq<u8> {
    spec_rendered_bytes(resp.status_code.code as int, resp.body@)
}

/// The three decimal digits of a status code.
pub open spec fn dec3_bytes(code: int) -> Seq<u8> {
    seq![(48 + code / 100) as u8, (48 + (code / 10) % 10) as u8, (48 + code % 10) as u8]
}

/// The reason phrase sent with a status code: the canonical one, or a
/// fixed placeholder for unregistered codes.
pub open spec fn reason_bytes(code: int) -> Seq<u8> {
    match spec_reason(code) {
        Some(ph) => encode_utf8(ph),
        None => "<unknown status code>".spec_bytes(),
    }
}

/// Serializes a response: `HTTP/1.1 <code> <reason>\r\n\r\n` followed by
/// the body bytes.
pub fn render_response(resp: Response) -> (out: Vec<u8>)
    requires
        valid_status(resp.status_code.code as int),
    ensures
        out@ == spec_rendered(&resp),
{
    let mut out: Vec<u8> = Vec::new();
    out.extend_from_slice("HTTP/1.1 ".as_bytes());
    let code = resp.status_code.as_u16();
    out.push((48 + code / 100) as u8);
    out.push((48 + (code / 10) % 10) as u8);
    out.push((48 + code % 10) as u8);
    out.push(32);
    match resp.status_code.canonical_reason() {
        Some(s) => out.extend_from_slice(s.as_bytes()),
        None => out.extend_from_slice("<unknown status code>".as_bytes()),
    }
    out.extend_from_slice("\r\n\r\n".as_bytes());
    out.extend_from_slice(resp.body.as_slice());
    proof {
        assert(out@ =~= spec_rendered(&resp));
    }
    out
}

impl<R: Route<S, ()>, S> Router<R, S> {
    /// One service turn over already-buffered input: parses the head,
    /// routes the request, and returns the bytes to write back.
    ///
    /// The outcome follows the parsed head exactly: `Incomplete` asks the
    /// caller to read more input and try again; a malformed head is a
    /// parser error; on a complete head, the target and method are
    /// rejected exactly as `respond` rejects them, and otherwise the
    /// output renders the response the routing tree gave to the request
    /// `respond` pins — with a response whose status code was forced
    /// outside the valid range sent as a 500.
    pub fn serve(&self, input: &[u8]) -> (r: Result<Vec<u8>, ServiceError>)
        requires
            self.route.wf(),
            total_route(&self.route),
        ensures
            (match r {
                Err(ServiceError::Incomplete) => true,
                _ => false,
            }) <==> head_of(input@) is Partial,
            (match r {
                Err(ServiceError::Protocol(ProtocolError::Parser)) => true,
                _ => false,
            }) <==> head_of(input@) is Malformed,
            head_of(input@) matches HeadParse::Complete(h) ==> ({
                let tb = encode_utf8(h.target@);
                let pairs = pairs_view(h.headers@);
                let body = input@.subrange(h.body_start as int, input@.len() as int);
                &&& ((match r {
                    Err(ServiceError::Protocol(ProtocolError::InvalidUrl(InvalidUrl::TooLong))) => true,
                    _ => false,
                }) <==> tb.len() >= 65535)
                &&& (tb.len() < 65535 ==> ((match r {
                    Err(
                        ServiceError::Protocol(
                            ProtocolError::InvalidUrl(InvalidUrl::InvalidUrlCodePoint),
                        ),
                    ) => true,
                    _ => false,
                }) <==> spec_scan(tb, 0, None) is None))
                &&& ((tb.len() < 65535 && spec_scan(tb, 0, None) is Some) ==> ((match r {
                    Err(ServiceError::Protocol(ProtocolError::InvalidMethod)) => true,
                    _ => false,
                }) <==> h.method@.len() == 0))
                &&& (match r {
                    Ok(out) => exists|req: Request<()>, resp: Response|
                        {
                            &&& #[trigger] routed_outcome(
                                &self.route,
                                &self.state,
                                req,
                                h.method@,
                                tb,
                                pairs,
                                body,
                                resp,
                            )
                            &&& out@ == spec_rendered_bytes(
                                if valid_status(resp.status_code.code as int) {
                                    resp.status_code.code as int
                                } else {
                                    500
                                },
                                resp.body@,
                            )
                        },
                    Err(_) => true,
                })
            }),
    {
        match parse_head(input) {
            HeadParse::Partial => Err(ServiceError::Incomplete),
            HeadParse::Malformed => Err(ServiceError::Protocol(ProtocolError::Parser)),
            HeadParse::Complete(h) => {
                let body_bytes = slice_to_vec(
                    slice_subrange(input, h.body_start, input.len()),
                );
                let ghost gbody = body_bytes@;
                let m = h.method.as_str();
                let tgt = h.target.as_str();
                proof {
                    assert(m@ == h.method@);
                    assert(tgt.spec_bytes() == encode_utf8(h.target@));
                    assert(gbody == input@.subrange(h.body_start as int, input@.len() as int));
                }
                match respond(&self.route, &self.state, m, tgt, &h.headers, body_bytes) {
                    Ok(mut resp) => {
                        let ghost routed = resp;
                        let code = resp.status_code.as_u16();
                        if code < 100 || code > 999 {
                            resp.status_code = crate::status::StatusCode::internal_server_error();
                        }
                        proof {
                            assert(resp.body@ == routed.body@);
                        }
                        let ghost sent = resp;
                        let out = render_response(resp);
                        proof {
                            let rq = choose|rq: Request<()>|
                                routed_outcome(
                                    &self.route,
                                    &self.state,
                                    rq,
                                    m@,
                                    tgt.spec_bytes(),
                                    pairs_view(h.headers@),
                                    gbody,
                                    routed,
                                );
                            assert(routed_outcome(
                                &self.route,
                                &self.state,
                                rq,
                                h.method@,
                                encode_utf8(h.target@),
                                pairs_view(h.headers@),
                                input@.subrange(h.body_start as int, input@.len() as int),
                                routed,
                            ));
                            assert(out@ == spec_rendered(&sent));
                            assert(sent.status_code.code as int == (if valid_status(
                                routed.status_code.code as int,
                            ) {
                                routed.status_code.code as int
                            } else {
                                500
                            }));
                            assert(exists|req: Request<()>, resp2: Response|
                                {
                                    &&& #[trigger] routed_outcome(
                                        &self.route,
                                        &self.state,
                                        req,
                                        h.method@,
                                        encode_utf8(h.target@),
                                        pairs_view(h.headers@),
                                        input@.subrange(h.body_start as int, input@.len() as int),
                                        resp2,
                                    )
                                    &&& out@ == spec_rendered_bytes(
                                        if valid_status(resp2.status_code.code as int) {
                                            resp2.status_code.code as int
                                        } else {
                                            500
                                        },
                                        resp2.body@,
                                    )
                                });
                        }
                        Ok(out)
                    },
                    Err(e) => Err(ServiceError::Protocol(e)),
                }
            },
        }
    }
}

} // verus!
