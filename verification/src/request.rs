//! The request model: `Parts` is the metadata half (method, path, query,
//! headers, and the payload extracted from the path so far); `Request`
//! owns `Parts` plus the body reader. Splitting and recombining them lets
//! metadata extraction run before the body is consumed.

use vstd::prelude::*;

verus! {

use crate::headers::Headers;
use crate::io::Body;
use crate::method::Method;

/// The metadata of a request, always available without touching the body.
#[derive(Debug)]
pub struct Parts<P> {
    pub method: Method,
    pub path: String,
    pub query: Option<String>,
    pub headers: Headers,
    pub extracted_path: P,
}

impl<P> Parts<P> {
    /// Replaces the extracted-path payload, keeping everything else.
    pub fn with_extracted_path<P2>(self, extracted_path: P2) -> (r: Parts<P2>)
        ensures
            r.method == self.method,
            r.path == self.path,
            r.query == self.query,
            r.headers == self.headers,
            r.extracted_path == extracted_path,
    {
        Parts {
            method: self.method,
            path: self.path,
            query: self.query,
            headers: self.headers,
            extracted_path,
        }
    }
}

/// A request: metadata plus the body reader. The body is consumed, not
/// copied, when handed to a body extractor.
#[derive(Debug)]
pub struct Request<P> {
    pub parts: Parts<P>,
    pub body: Body,
}

impl<P> Request<P> {
    /// Rebuilds a request from its two halves.
    pub fn from_parts(parts: Parts<P>, body: Body) -> (r: Request<P>)
        ensures
            r.parts == parts,
            r.body == body,
    {
        Request { parts, body }
    }

    /// Splits the request into metadata and body; a one-way move.
    pub fn into_parts(self) -> (r: (Parts<P>, Body))
        ensures
            r.0 == self.parts,
            r.1 == self.body,
    {
        (self.parts, self.body)
    }

    /// The request method.
    pub fn method(&self) -> (r: &Method)
        ensures
            r == &self.parts.method,
    {
        &self.parts.method
    }

    /// The request path.
    pub fn path(&self) -> (r: &str)
        ensures
            r@ == self.parts.path@,
    {
        self.parts.path.as_str()
    }

    /// The body reader.
    pub fn body(&self) -> (r: &Body)
        ensures
            r == &self.body,
    {
        &self.body
    }

    /// The body reader, for reading.
    pub fn body_mut(&mut self) -> (r: &mut Body)
        ensures
            *r == old(self).body,
            final(self).parts == old(self).parts,
            final(self).body == *final(r),
    {
        &mut self.body
    }

    /// Replaces the extracted-path payload, keeping everything else.
    pub fn with_extracted_path<P2>(self, extracted_path: P2) -> (r: Request<P2>)
        ensures
            r.parts.method == self.parts.method,
            r.parts.path == self.parts.path,
            r.parts.query == self.parts.query,
            r.parts.headers == self.parts.headers,
            r.parts.extracted_path == extracted_path,
            r.body == self.body,
    {
        Request { parts: self.parts.with_extracted_path(extracted_path), body: self.body }
    }
}

} // verus!
