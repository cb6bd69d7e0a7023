use httproute::extract::{BoundedBytes, BoundedString, FromRequest, StringRejection, VecRejection, ViaRequest};
use httproute::io::{Body, Cursor};
use httproute::request::{Parts, Request};
use httproute::Headers;
use httproute::Method;

fn request_with_body(content_length: usize, buffered: &[u8], streamed: &[u8]) -> Request<()> {
    Request {
        parts: Parts {
            method: Method::new("POST").unwrap(),
            path: "/".to_string(),
            query: None,
            headers: Headers::empty(),
            extracted_path: (),
        },
        body: Body::new(content_length, buffered.to_vec(), Cursor::new(streamed.to_vec())),
    }
}

#[test]
fn cursor_reads_and_remembers_position() {
    let mut c = Cursor::new(b"abcdef".to_vec());
    assert_eq!(c.remaining_slice(), b"abcdef");
    assert_eq!(c.read(2), b"ab".to_vec());
    assert_eq!(c.remaining_slice(), b"cdef");
    assert_eq!(c.read(10), b"cdef".to_vec());
    assert_eq!(c.read(1), Vec::<u8>::new());
}

#[test]
fn body_serves_prefix_then_stream_up_to_content_length() {
    let mut body = Body::new(5, b"abc".to_vec(), Cursor::new(b"defgh".to_vec()));
    assert_eq!(body.read(10), b"abc".to_vec());
    assert_eq!(body.read(10), b"de".to_vec());
    assert_eq!(body.read(10), Vec::<u8>::new());
}

#[test]
fn body_never_reads_past_content_length() {
    let mut body = Body::new(2, b"abcdef".to_vec(), Cursor::new(Vec::new()));
    assert_eq!(body.read(100), b"ab".to_vec());
    assert_eq!(body.read(1), Vec::<u8>::new());
}

#[test]
fn spent_body_leaves_the_stream_untouched() {
    // The declared length ends inside the prefix: the stream holds the
    // next exchange's bytes and must stay exactly as it was.
    let mut body = Body::new(3, b"abc".to_vec(), Cursor::new(b"NEXT".to_vec()));
    assert_eq!(body.read(100), b"abc".to_vec());
    assert_eq!(body.read(100), Vec::<u8>::new());
    assert_eq!(body.stream.remaining_slice(), b"NEXT");
    assert_eq!(body.stream.pos, 0);
}

#[test]
fn bounded_buffer_takes_exactly_full_bodies() {
    let req = request_with_body(4, b"abcd", b"");
    let got = <BoundedBytes<4> as FromRequest<(), (), ViaRequest>>::from_request(req, &()).unwrap();
    assert_eq!(got.data, b"abcd".to_vec());
}

#[test]
fn bounded_buffer_rejects_one_byte_over() {
    let req = request_with_body(5, b"abcde", b"");
    let r = <BoundedBytes<4> as FromRequest<(), (), ViaRequest>>::from_request(req, &());
    assert!(matches!(r, Err(VecRejection::BodyTooLarge(_))));
}

#[test]
fn bounded_buffer_accepts_the_empty_body() {
    let req = request_with_body(0, b"", b"");
    let got = <BoundedBytes<4> as FromRequest<(), (), ViaRequest>>::from_request(req, &()).unwrap();
    assert_eq!(got.data, Vec::<u8>::new());
}

#[test]
fn bounded_buffer_reads_across_prefix_and_stream() {
    let req = request_with_body(6, b"abc", b"def");
    let got = <BoundedBytes<8> as FromRequest<(), (), ViaRequest>>::from_request(req, &()).unwrap();
    assert_eq!(got.data, b"abcdef".to_vec());
}

#[test]
fn bounded_string_validates_utf8() {
    let req = request_with_body(5, b"hello", b"");
    let got =
        <BoundedString<8> as FromRequest<(), (), ViaRequest>>::from_request(req, &()).unwrap();
    assert_eq!(got.data, "hello".to_string());

    let req = request_with_body(2, b"\xff\xfe", b"");
    let r = <BoundedString<8> as FromRequest<(), (), ViaRequest>>::from_request(req, &());
    assert!(matches!(r, Err(StringRejection::InvalidUtf8(_))));

    let req = request_with_body(3, b"abc", b"");
    let r = <BoundedString<2> as FromRequest<(), (), ViaRequest>>::from_request(req, &());
    assert!(matches!(r, Err(StringRejection::VecRejection(VecRejection::BodyTooLarge(_)))));
}

#[test]
fn growable_buffer_reads_to_end() {
    let req = request_with_body(6, b"abc", b"def");
    let got = <Vec<u8> as FromRequest<(), (), ViaRequest>>::from_request(req, &()).unwrap();
    assert_eq!(got, b"abcdef".to_vec());
}

#[test]
fn growable_string_validates_utf8() {
    let req = request_with_body(5, b"hello", b"");
    let got = <String as FromRequest<(), (), ViaRequest>>::from_request(req, &()).unwrap();
    assert_eq!(got, "hello".to_string());

    let req = request_with_body(2, b"\xff\xfe", b"");
    let r = <String as FromRequest<(), (), ViaRequest>>::from_request(req, &());
    assert!(matches!(r, Err(StringRejection::InvalidUtf8(_))));
}

#[test]
fn truncated_body_yields_what_arrived() {
    // Content-Length promises more than the transport delivers.
    let req = request_with_body(10, b"abc", b"");
    let got = <Vec<u8> as FromRequest<(), (), ViaRequest>>::from_request(req, &()).unwrap();
    assert_eq!(got, b"abc".to_vec());
}
