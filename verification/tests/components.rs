use httproute::extract::{
    BodyTooLarge, FromRequestParts, InvalidUtf8, JsonError, Path, UnknownBodyError,
};
use httproute::io::{Body, Cursor};
use httproute::path::{ParseSegment, PathSegments, SegPart, SegPattern, Segment, UintSegment};
use httproute::request::{Parts, Request};
use httproute::route::{get, Decision, Fallback, NotFound, Path as RoutePath, Route};
use httproute::service::render_response;
use httproute::{Either, Headers, IntoResponse, Method, Response, Router, StatusCode};

fn plain_request(path: &str) -> Request<()> {
    Request {
        parts: Parts {
            method: Method::new("GET").unwrap(),
            path: path.to_string(),
            query: None,
            headers: Headers::empty(),
            extracted_path: (),
        },
        body: Body::new(0, Vec::new(), Cursor::new(Vec::new())),
    }
}

#[test]
fn literal_pattern_matches_itself_only() {
    let pat = "/a/b".to_string();
    assert_eq!(pat.parse("/a/b"), Some(()));
    assert_eq!(pat.parse("/a"), None);
    assert_eq!(pat.parse("/a/b/c"), None);
}

#[test]
fn single_segment_pattern_captures_the_segment() {
    assert_eq!(ParseSegment.parse("/abc"), Some("abc".to_string()));
    assert_eq!(ParseSegment.parse("/"), Some("".to_string()));
    assert_eq!(ParseSegment.parse("/a/b"), None);
    assert_eq!(ParseSegment.parse(""), None);
    assert_eq!(ParseSegment.parse("abc"), None);
}

#[test]
fn multi_segment_pattern_matches_and_captures() {
    let pat = SegPattern {
        parts: vec![
            SegPart::Literal("users".to_string()),
            SegPart::Capture,
            SegPart::Literal("posts".to_string()),
            SegPart::Capture,
        ],
    };
    assert_eq!(
        pat.parse("/users/42/posts/7"),
        Some(vec!["42".to_string(), "7".to_string()])
    );
    assert_eq!(pat.parse("/users/42/posts"), None);
    assert_eq!(pat.parse("/users/42/posts/7/extra"), None);
    assert_eq!(pat.parse("/users/42/wrong/7"), None);
    assert_eq!(pat.parse("users/42/posts/7"), None);

    let one = SegPattern { parts: vec![SegPart::Capture] };
    assert_eq!(one.parse("/abc"), Some(vec!["abc".to_string()]));
    assert_eq!(one.parse("/a/b"), None);

    let none = SegPattern { parts: Vec::new() };
    assert_eq!(none.parse("/"), None);
}

#[test]
fn captured_segment_reaches_the_handler() {
    let tree = Fallback {
        route: RoutePath {
            path: SegPattern {
                parts: vec![SegPart::Literal("greet".to_string()), SegPart::Capture],
            },
            route: get(|Path(caps): Path<Vec<String>>| {
                caps.first().cloned().unwrap_or_default()
            }),
        },
        fallback: NotFound,
    };
    let router = Router::new();
    let router = Router { state: router.state, route: tree };
    let out = router.serve(b"GET /greet/world HTTP/1.1\r\n\r\n").unwrap();
    assert_eq!(out, b"HTTP/1.1 200 OK\r\n\r\nworld".to_vec());
    let out = router.serve(b"GET /greet/a/b HTTP/1.1\r\n\r\n").unwrap();
    assert_eq!(out, b"HTTP/1.1 404 Not Found\r\n\r\nNot Found".to_vec());
}

#[test]
fn segment_names_its_pattern() {
    let pat = <String as Segment>::segment();
    assert_eq!(pat.parse("/xyz"), Some("xyz".to_string()));
    let pat = <usize as Segment>::segment();
    assert_eq!(pat.parse("/17"), Some(17));
}

#[test]
fn numeric_segment_pattern_parses_decimals() {
    assert_eq!(UintSegment.parse("/42"), Some(42));
    assert_eq!(UintSegment.parse("/0"), Some(0));
    assert_eq!(UintSegment.parse("/"), None);
    assert_eq!(UintSegment.parse("/4x2"), None);
    assert_eq!(UintSegment.parse("/4/2"), None);
    assert_eq!(UintSegment.parse("42"), None);
    assert_eq!(UintSegment.parse("/99999999999999999999999999"), None);
}

#[test]
fn decision_map_transforms_only_matches() {
    let d: Decision<()> = Decision::Match(Response {
        status_code: StatusCode::from_u16(200).unwrap(),
        body: b"a".to_vec(),
    });
    match d.map(|mut resp: Response| {
        resp.body.push(b'b');
        resp
    }) {
        Decision::Match(t) => assert_eq!(t.into_body(), b"ab".to_vec()),
        Decision::NoMatch(_) => panic!("expected a match"),
    }
}

#[test]
fn not_found_always_answers_404() {
    let d = <NotFound as Route<(), ()>>::match_request(&NotFound, plain_request("/x"), &());
    let resp = d.unwrap();
    assert_eq!(resp.status_code().as_u16(), 404);
    assert_eq!(resp.into_body(), b"Not Found".to_vec());
}

#[test]
fn decision_erase_keeps_the_handed_back_request() {
    let req = plain_request("/keep").with_extracted_path("payload".to_string());
    let d: Decision<String> = Decision::NoMatch(req);
    match d.erase() {
        Decision::NoMatch(r) => assert_eq!(r.path(), "/keep"),
        Decision::Match(_) => panic!("expected the request back"),
    }
}

#[test]
fn headers_extractor_copies_the_view() {
    let mut req = plain_request("/");
    req.parts.headers =
        Headers::record(&vec![(b"K".to_vec(), b"v".to_vec())]);
    let h =
        <Headers as FromRequestParts<(), ()>>::from_request_parts(&req.parts, &()).unwrap();
    assert_eq!(h.get_first("k"), Some("v".to_string()));
}

#[test]
fn path_extractor_clones_the_payload() {
    let parts = plain_request("/").with_extracted_path("seg".to_string()).into_parts().0;
    let p =
        <Path<String> as FromRequestParts<(), String>>::from_request_parts(&parts, &()).unwrap();
    assert_eq!(p.0, "seg".to_string());
}

#[test]
fn rejections_map_to_their_responses() {
    let r = UnknownBodyError.into_response();
    assert_eq!(r.status_code().as_u16(), 500);
    let r = BodyTooLarge.into_response();
    assert_eq!(r.status_code().as_u16(), 413);
    assert_eq!(r.into_body(), b"Failed to buffer the request body".to_vec());
    let r = InvalidUtf8.into_response();
    assert_eq!(r.status_code().as_u16(), 400);
    let r = JsonError.into_response();
    assert_eq!(r.status_code().as_u16(), 400);
    assert_eq!(r.into_body(), b"Invalid JSON".to_vec());
}

#[test]
fn either_response_delegates() {
    let left: Either<&'static str, Vec<u8>> = Either::Left("hi");
    assert_eq!(left.into_response().into_body(), b"hi".to_vec());
    let right: Either<&'static str, Vec<u8>> = Either::Right(b"raw".to_vec());
    assert_eq!(right.into_response().into_body(), b"raw".to_vec());
}

#[test]
fn tuple_response_overrides_the_status() {
    let r = (StatusCode::from_u16(201).unwrap(), "made").into_response();
    assert_eq!(r.status_code().as_u16(), 201);
    assert_eq!(r.into_body(), b"made".to_vec());
}

#[test]
fn rendering_includes_the_reason_phrase() {
    let out = render_response(Response {
        status_code: StatusCode::from_u16(200).unwrap(),
        body: b"x".to_vec(),
    });
    assert_eq!(out, b"HTTP/1.1 200 OK\r\n\r\nx".to_vec());
    let out = render_response(Response {
        status_code: StatusCode::from_u16(299).unwrap(),
        body: Vec::new(),
    });
    assert_eq!(out, b"HTTP/1.1 299 <unknown status code>\r\n\r\n".to_vec());
}
