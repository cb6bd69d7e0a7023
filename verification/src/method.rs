//! HTTP request methods: the nine standard verbs plus an extension variant
//! carrying an arbitrary non-empty token.

use vstd::prelude::*;

verus! {

use crate::strutil::str_eq;

/// The closed set of standard verbs, or an extension token.
#[derive(Debug)]
pub enum MethodKind {
    Options,
    Get,
    Post,
    Put,
    Delete,
    Head,
    Trace,
    Connect,
    Patch,
    Extension(String),
}

/// An HTTP request method. Equality for routing purposes is by canonical
/// token (the spelling `as_str` returns).
#[derive(Debug)]
pub struct Method {
    pub kind: MethodKind,
}

/// Error for a method token that is rejected (the empty token).
#[derive(Clone, Copy, Debug)]
pub struct InvalidMethod {
    dummy: (),
}

impl InvalidMethod {
    fn new() -> InvalidMethod {
        InvalidMethod { dummy: () }
    }
}

/// True when the token is the canonical spelling of a standard verb.
pub open spec fn is_standard_token(s: Seq<char>) -> bool {
    ||| s == "GET"@
    ||| s == "PUT"@
    ||| s == "POST"@
    ||| s == "HEAD"@
    ||| s == "PATCH"@
    ||| s == "TRACE"@
    ||| s == "DELETE"@
    ||| s == "OPTIONS"@
    ||| s == "CONNECT"@
}

impl Method {
    /// The canonical token of this method: the standard spelling for a
    /// standard verb, the stored token for an extension.
    pub open spec fn token(&self) -> Seq<char> {
        match self.kind {
            MethodKind::Options => "OPTIONS"@,
            MethodKind::Get => "GET"@,
            MethodKind::Post => "POST"@,
            MethodKind::Put => "PUT"@,
            MethodKind::Delete => "DELETE"@,
            MethodKind::Head => "HEAD"@,
            MethodKind::Trace => "TRACE"@,
            MethodKind::Connect => "CONNECT"@,
            MethodKind::Patch => "PATCH"@,
            MethodKind::Extension(ref s) => s@,
        }
    }

    /// Converts a token to an HTTP method. The empty token is rejected; the
    /// nine standard spellings map to their verbs; any other token becomes an
    /// extension method.
    pub fn new(src: &str) -> (r: Result<Method, InvalidMethod>)
        ensures
            r is Err <==> src@.len() == 0,
            r matches Ok(m) ==> m.token() == src@,
            r matches Ok(m) ==> ((m.kind matches MethodKind::Extension(_)) <==> !is_standard_token(
                src@,
            )),
    {
        if src.is_empty() {
            Err(InvalidMethod::new())
        } else if str_eq(src, "GET") {
            Ok(Method { kind: MethodKind::Get })
        } else if str_eq(src, "PUT") {
            Ok(Method { kind: MethodKind::Put })
        } else if str_eq(src, "POST") {
            Ok(Method { kind: MethodKind::Post })
        } else if str_eq(src, "HEAD") {
            Ok(Method { kind: MethodKind::Head })
        } else if str_eq(src, "PATCH") {
            Ok(Method { kind: MethodKind::Patch })
        } else if str_eq(src, "TRACE") {
            Ok(Method { kind: MethodKind::Trace })
        } else if str_eq(src, "DELETE") {
            Ok(Method { kind: MethodKind::Delete })
        } else if str_eq(src, "OPTIONS") {
            Ok(Method { kind: MethodKind::Options })
        } else if str_eq(src, "CONNECT") {
            Ok(Method { kind: MethodKind::Connect })
        } else {
            Ok(Method { kind: MethodKind::Extension(src.to_owned()) })
        }
    }

    /// The canonical spelling of this method.
    pub fn as_str(&self) -> (r: &str)
        ensures
            r@ == self.token(),
    {
        match &self.kind {
            MethodKind::Options => "OPTIONS",
            MethodKind::Get => "GET",
            MethodKind::Post => "POST",
            MethodKind::Put => "PUT",
            MethodKind::Delete => "DELETE",
            MethodKind::Head => "HEAD",
            MethodKind::Trace => "TRACE",
            MethodKind::Connect => "CONNECT",
            MethodKind::Patch => "PATCH",
            MethodKind::Extension(s) => s.as_str(),
        }
    }

    /// Equality by canonical token, as routing compares methods.
    pub fn matches_token(&self, other: &Method) -> (r: bool)
        ensures
            r == (self.token() == other.token()),
    {
        str_eq(self.as_str(), other.as_str())
    }

    /// GET
    pub fn get() -> (r: Method)
        ensures
            r.kind is Get,
    {
        Method { kind: MethodKind::Get }
    }

    /// POST
    pub fn post() -> (r: Method)
        ensures
            r.kind is Post,
    {
        Method { kind: MethodKind::Post }
    }

    /// PUT
    pub fn put() -> (r: Method)
        ensures
            r.kind is Put,
    {
        Method { kind: MethodKind::Put }
    }

    /// DELETE
    pub fn delete() -> (r: Method)
        ensures
            r.kind is Delete,
    {
        Method { kind: MethodKind::Delete }
    }

    /// HEAD
    pub fn head() -> (r: Method)
        ensures
            r.kind is Head,
    {
        Method { kind: MethodKind::Head }
    }

    /// OPTIONS
    pub fn options() -> (r: Method)
        ensures
            r.kind is Options,
    {
        Method { kind: MethodKind::Options }
    }

    /// CONNECT
    pub fn connect() -> (r: Method)
        ensures
            r.kind is Connect,
    {
        Method { kind: MethodKind::Connect }
    }

    /// PATCH
    pub fn patch() -> (r: Method)
        ensures
            r.kind is Patch,
    {
        Method { kind: MethodKind::Patch }
    }

    /// TRACE
    pub fn trace() -> (r: Method)
        ensures
            r.kind is Trace,
    {
        Method { kind: MethodKind::Trace }
    }
}

impl Default for Method {
    /// The default method is GET.
    fn default() -> (r: Method)
        ensures
            r.kind is Get,
    {
        Method { kind: MethodKind::Get }
    }
}

} // verus!
