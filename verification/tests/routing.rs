use httproute::extract::{Path, State};
use httproute::route::{get, post};
use httproute::Router;

#[test]
fn hello_world_end_to_end() {
    let router = Router::new().route("/", get(|| "Hello World"));
    let out = router.serve(b"GET / HTTP/1.1\r\n\r\n").unwrap();
    assert_eq!(out, b"HTTP/1.1 200 OK\r\n\r\nHello World".to_vec());
}

#[test]
fn unregistered_path_yields_not_found() {
    let router = Router::new().route("/", get(|| "Hello World"));
    let out = router.serve(b"GET /missing HTTP/1.1\r\n\r\n").unwrap();
    assert_eq!(out, b"HTTP/1.1 404 Not Found\r\n\r\nNot Found".to_vec());
}

#[test]
fn later_registration_wins() {
    let router = Router::new()
        .route("/dup", get(|| "first"))
        .route("/dup", get(|| "second"));
    let out = router.serve(b"GET /dup HTTP/1.1\r\n\r\n").unwrap();
    assert_eq!(out, b"HTTP/1.1 200 OK\r\n\r\nsecond".to_vec());
}

#[test]
fn method_mismatch_falls_through_to_not_found() {
    let router = Router::new().route("/only", get(|| "got it"));
    let out = router.serve(b"POST /only HTTP/1.1\r\n\r\n").unwrap();
    assert_eq!(out, b"HTTP/1.1 404 Not Found\r\n\r\nNot Found".to_vec());
}

#[test]
fn query_does_not_take_part_in_path_matching() {
    let router = Router::new().route("/q", get(|| "matched"));
    let out = router.serve(b"GET /q?a=1 HTTP/1.1\r\n\r\n").unwrap();
    assert_eq!(out, b"HTTP/1.1 200 OK\r\n\r\nmatched".to_vec());
}

#[test]
fn body_extractor_handler_echoes() {
    let router = Router::new().route("/echo", post(|body: String| body));
    let out = router
        .serve(b"POST /echo HTTP/1.1\r\nContent-Length: 5\r\n\r\nhello")
        .unwrap();
    assert_eq!(out, b"HTTP/1.1 200 OK\r\n\r\nhello".to_vec());
}

#[test]
fn invalid_body_utf8_becomes_a_rejection_response() {
    let router = Router::new().route("/echo", post(|body: String| body));
    let out = router
        .serve(b"POST /echo HTTP/1.1\r\nContent-Length: 2\r\n\r\n\xff\xfe")
        .unwrap();
    assert_eq!(
        out,
        b"HTTP/1.1 400 Bad Request\r\n\r\nFailed to read request body, invalid UTF-8".to_vec()
    );
}

#[test]
fn state_and_body_extractors_run_in_order() {
    let router = Router::new()
        .with_state(40u32)
        .route("/add", post(|State(n): State<u32>, body: String| {
            let parsed: u32 = body.parse().unwrap_or(0);
            format!("{}", n + parsed)
        }));
    let out = router
        .serve(b"POST /add HTTP/1.1\r\nContent-Length: 1\r\n\r\n2")
        .unwrap();
    assert_eq!(out, b"HTTP/1.1 200 OK\r\n\r\n42".to_vec());
}

#[test]
fn three_extractors_run_left_to_right() {
    let router = Router::new()
        .with_state(2u32)
        .route("/calc", post(|State(n): State<u32>, headers: httproute::Headers, body: String| {
            let factor: u32 = headers
                .get_first("X-Factor")
                .and_then(|v| v.parse().ok())
                .unwrap_or(1);
            let base: u32 = body.parse().unwrap_or(0);
            format!("{}", n + factor * base)
        }));
    let out = router
        .serve(b"POST /calc HTTP/1.1\r\nX-Factor: 10\r\nContent-Length: 1\r\n\r\n4")
        .unwrap();
    assert_eq!(out, b"HTTP/1.1 200 OK\r\n\r\n42".to_vec());
}

#[test]
fn four_extractors_supported() {
    let router = Router::new()
        .with_state(1u32)
        .route(
            "/all",
            post(
                |State(n): State<u32>,
                 headers: httproute::Headers,
                 Path(_unit): Path<()>,
                 body: String| {
                    let h: u32 = headers
                        .get_first("X-Plus")
                        .and_then(|v| v.parse().ok())
                        .unwrap_or(0);
                    let b: u32 = body.parse().unwrap_or(0);
                    format!("{}", n + h + b)
                },
            ),
        );
    let out = router
        .serve(b"POST /all HTTP/1.1\r\nX-Plus: 2\r\nContent-Length: 1\r\n\r\n3")
        .unwrap();
    assert_eq!(out, b"HTTP/1.1 200 OK\r\n\r\n6".to_vec());
}

#[test]
fn five_extractors_supported() {
    let router = Router::new()
        .with_state(1u32)
        .route(
            "/five",
            post(
                |State(a): State<u32>,
                 State(b): State<u32>,
                 headers: httproute::Headers,
                 Path(_unit): Path<()>,
                 body: String| {
                    let h: u32 = headers
                        .get_first("X-Plus")
                        .and_then(|v| v.parse().ok())
                        .unwrap_or(0);
                    let t: u32 = body.parse().unwrap_or(0);
                    format!("{}", a + b + h + t)
                },
            ),
        );
    let out = router
        .serve(b"POST /five HTTP/1.1\r\nX-Plus: 30\r\nContent-Length: 2\r\n\r\n10")
        .unwrap();
    assert_eq!(out, b"HTTP/1.1 200 OK\r\n\r\n42".to_vec());
}

#[test]
fn missing_content_length_means_empty_body() {
    let router = Router::new().route("/echo", post(|body: String| body));
    let out = router.serve(b"POST /echo HTTP/1.1\r\n\r\nignored").unwrap();
    assert_eq!(out, b"HTTP/1.1 200 OK\r\n\r\n".to_vec());
}

#[test]
fn incomplete_head_asks_for_more_input() {
    let router = Router::new().route("/", get(|| "hi"));
    let r = router.serve(b"GET / HTT");
    assert!(matches!(r, Err(httproute::ServiceError::Incomplete)));
}

#[test]
fn malformed_head_is_a_protocol_error() {
    let router = Router::new().route("/", get(|| "hi"));
    let r = router.serve(b"GET\0/ oops\r\n\r\n");
    assert!(matches!(r, Err(httproute::ServiceError::Protocol(_))));
}
