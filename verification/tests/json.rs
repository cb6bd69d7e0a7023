use httproute::io::{Body, Cursor};
use httproute::request::{Parts, Request};
use httproute::route::post;
use httproute::extract::{FromRequest, ViaRequest};
use httproute::{Headers, IntoResponse, Json, JsonCodec, Method, Router};
use serde_json::Value;

#[derive(Clone, Debug, PartialEq)]
struct Message {
    content: String,
}

impl JsonCodec for Message {
    fn from_json(bytes: &[u8]) -> Option<Self> {
        let v: Value = serde_json::from_slice(bytes).ok()?;
        Some(Message { content: v.get("content")?.as_str()?.to_string() })
    }

    fn to_json(&self) -> Option<Vec<u8>> {
        let mut map = serde_json::Map::new();
        map.insert("content".to_string(), Value::String(self.content.clone()));
        serde_json::to_vec(&Value::Object(map)).ok()
    }
}

#[derive(Clone, Debug)]
struct Reply {
    response: String,
}

impl JsonCodec for Reply {
    fn from_json(bytes: &[u8]) -> Option<Self> {
        let v: Value = serde_json::from_slice(bytes).ok()?;
        Some(Reply { response: v.get("response")?.as_str()?.to_string() })
    }

    fn to_json(&self) -> Option<Vec<u8>> {
        let mut map = serde_json::Map::new();
        map.insert("response".to_string(), Value::String(self.response.clone()));
        serde_json::to_vec(&Value::Object(map)).ok()
    }
}

fn json_request(body: &[u8]) -> Request<()> {
    Request {
        parts: Parts {
            method: Method::new("POST").unwrap(),
            path: "/".to_string(),
            query: None,
            headers: Headers::empty(),
            extracted_path: (),
        },
        body: Body::new(body.len(), body.to_vec(), Cursor::new(Vec::new())),
    }
}

#[test]
fn json_round_trip() {
    let original = Message { content: "some text".to_string() };
    let response = Json::new(original.clone()).into_response();
    assert_eq!(response.status_code().as_u16(), 200);
    let body = response.into_body();
    let req = json_request(&body);
    let decoded =
        <Json<Message> as FromRequest<(), (), ViaRequest>>::from_request(req, &()).unwrap();
    assert_eq!(decoded.0, original);
}

#[test]
fn invalid_json_is_rejected() {
    let req = json_request(b"{not json");
    let r = <Json<Message> as FromRequest<(), (), ViaRequest>>::from_request(req, &());
    assert!(r.is_err());
}

#[test]
fn json_echo_end_to_end() {
    let router = Router::new().route(
        "/json",
        post(|Json(m): Json<Message>| Json::new(Reply { response: m.content })),
    );
    let out = router
        .serve(b"POST /json HTTP/1.1\r\nContent-Length: 20\r\n\r\n{\"content\":\"abc\"}")
        .unwrap();
    assert_eq!(out, b"HTTP/1.1 200 OK\r\n\r\n{\"response\":\"abc\"}".to_vec());
}

#[test]
fn bad_json_body_end_to_end() {
    let router = Router::new().route(
        "/json",
        post(|Json(m): Json<Message>| Json::new(Reply { response: m.content })),
    );
    let out = router
        .serve(b"POST /json HTTP/1.1\r\nContent-Length: 3\r\n\r\nnop")
        .unwrap();
    assert_eq!(out, b"HTTP/1.1 400 Bad Request\r\n\r\nInvalid JSON".to_vec());
}
