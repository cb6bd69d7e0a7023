//! A small, verified HTTP/1.1 request router and extraction pipeline.
//!
//! The crate parses one buffered request, routes it through a composable
//! matcher tree, runs typed extractors against the request, and renders
//! the response bytes. Transport I/O is left to the caller, which feeds
//! buffered input to the service and writes the rendered response back.

pub mod either;
pub mod error;
pub mod extract;
pub mod handler;
pub mod headers;
pub mod io;
pub mod json;
pub mod method;
pub mod path;
pub mod request;
pub mod response;
pub mod route;
pub mod router;
pub mod service;
pub mod status;
pub mod strutil;
pub mod target;

pub use either::Either;
pub use error::InvalidUrl;
pub use error::ProtocolError;
pub use extract::FromRef;
pub use extract::FromRequest;
pub use extract::FromRequestParts;
pub use extract::State;
pub use headers::Headers;
pub use json::Json;
pub use json::JsonCodec;
pub use method::InvalidMethod;
pub use method::Method;
pub use path::ParseSegment;
pub use path::PathSegments;
pub use request::Parts;
pub use request::Request;
pub use response::IntoResponse;
pub use response::Response;
pub use route::connect;
pub use route::delete;
pub use route::get;
pub use route::head;
pub use route::options;
pub use route::patch;
pub use route::post;
pub use route::put;
pub use route::trace;
pub use router::Router;
pub use service::ServiceError;
pub use status::InvalidStatusCode;
pub use status::StatusCode;
pub use target::PathAndQuery;
