//! Validation and splitting of a raw request-target into path and query.
//!
//! A single left-to-right scan accepts an allow-list of bytes before the
//! first `?`, a looser allow-list after it, and truncates the target at a
//! `#`. Targets of 65535 bytes or more are rejected before any byte is
//! examined.

use vstd::prelude::*;

verus! {

use vstd::slice::slice_index_get;
use vstd::string::StringSliceAdditionalSpecFns;
use vstd::string::StrSliceExecFns;
use vstd::string::StringExecFnsIsAscii;
use crate::error::InvalidUrl;
use crate::strutil::{as_chars, lemma_ascii_bytes_decode, lemma_encode_decode};

/// Bytes accepted in the path part of a request-target: the RFC 3986
/// pchar-like ranges plus `"`, `{` and `}`, which occur in real traffic.
pub open spec fn path_byte_ok(b: u8) -> bool {
    ||| b == 0x21
    ||| 0x24 <= b <= 0x3b
    ||| b == 0x3d
    ||| 0x40 <= b <= 0x5f
    ||| 0x61 <= b <= 0x7a
    ||| b == 0x7c
    ||| b == 0x7e
    ||| b == 0x22
    ||| b == 0x7b
    ||| b == 0x7d
}

/// Bytes accepted in the query part, which also permits `?` itself.
pub open spec fn query_byte_ok(b: u8) -> bool {
    ||| b == 0x21
    ||| 0x24 <= b <= 0x3b
    ||| b == 0x3d
    ||| 0x3f <= b <= 0x7e
}

fn path_byte_ok_exec(b: u8) -> (r: bool)
    ensures
        r == path_byte_ok(b),
{
    b == 0x21 || (0x24 <= b && b <= 0x3b) || b == 0x3d || (0x40 <= b && b <= 0x5f) || (0x61 <= b
        && b <= 0x7a) || b == 0x7c || b == 0x7e || b == 0x22 || b == 0x7b || b == 0x7d
}

fn query_byte_ok_exec(b: u8) -> (r: bool)
    ensures
        r == query_byte_ok(b),
{
    b == 0x21 || (0x24 <= b && b <= 0x3b) || b == 0x3d || (0x3f <= b && b <= 0x7e)
}

/// The left-to-right scan of the target bytes, starting at position `i`
/// with `q` the position of the `?` seen so far, if any. Yields the `?`
/// position and the truncation point (the first `#`, or the end), or `None`
/// on the first byte outside the accepted set.
pub open spec fn spec_scan(s: Seq<u8>, i: int, q: Option<int>) -> Option<(Option<int>, int)>
    decreases s.len() - i,
    when 0 <= i <= s.len()
{
    if i >= s.len() {
        Some((q, i))
    } else {
        let c = s[i];
        if c == 35 {
            Some((q, i))
        } else if q is None && c == 63 {
            spec_scan(s, i + 1, Some(i))
        } else if (q is None && path_byte_ok(c)) || (q is Some && query_byte_ok(c)) {
            spec_scan(s, i + 1, q)
        } else {
            None
        }
    }
}

/// A request-target split into its path and optional query, truncated at
/// any fragment; borrows nothing and stores the `?` position.
pub struct PathAndQuery {
    pub data: String,
    pub query: Option<u16>,
}

impl PathAndQuery {
    /// Well-formedness: the kept text is short, ASCII, and the stored `?`
    /// position points at a `?`.
    pub open spec fn wf(&self) -> bool {
        &&& self.data@.len() < 65535
        &&& vstd::utf8::is_ascii_chars(self.data@)
        &&& match self.query {
            Some(q) => q < self.data@.len() && self.data@[q as int] == '?',
            None => true,
        }
    }

    /// The path: the text before the `?`, or the whole kept text; an empty
    /// path normalizes to `/`.
    pub open spec fn spec_path(&self) -> Seq<char> {
        let p = match self.query {
            Some(q) => self.data@.subrange(0, q as int),
            None => self.data@,
        };
        if p.len() == 0 {
            "/"@
        } else {
            p
        }
    }

    /// The query: the text after the `?`, if one was seen.
    pub open spec fn spec_query(&self) -> Option<Seq<char>> {
        match self.query {
            Some(q) => Some(self.data@.subrange(q as int + 1, self.data@.len() as int)),
            None => None,
        }
    }

    /// Validates and splits a raw request-target.
    ///
    /// A target of 65535 bytes or more fails with `TooLong` before any byte
    /// is examined; a byte outside the accepted set fails with
    /// `InvalidUrlCodePoint`; otherwise the target is kept up to any `#`,
    /// and the position of the first `?` is recorded.
    pub fn parse(data: &str) -> (r: Result<PathAndQuery, InvalidUrl>)
        ensures
            (match r {
                Err(InvalidUrl::TooLong) => true,
                _ => false,
            }) <==> data.spec_bytes().len() >= 65535,
            data.spec_bytes().len() < 65535 ==> ((match r {
                Err(InvalidUrl::InvalidUrlCodePoint) => true,
                _ => false,
            }) <==> spec_scan(data.spec_bytes(), 0, None) is None),
            r matches Ok(p) ==> {
                let s = data.spec_bytes();
                &&& p.wf()
                &&& spec_scan(s, 0, None) matches Some(pair) && {
                    &&& p.data@ == as_chars(s.subrange(0, pair.1))
                    &&& match (p.query, pair.0) {
                        (Some(a), Some(b)) => a == b,
                        (None, None) => true,
                        _ => false,
                    }
                }
            },
    {
        let b = data.as_bytes();
        let ghost s = data.spec_bytes();
        if b.len() >= 65535 {
            return Err(InvalidUrl::TooLong);
        }
        let mut i: usize = 0;
        let mut query: Option<u16> = None;
        let mut done = false;
        while !done
            invariant
                0 <= i <= s.len(),
                s.len() < 65535,
                b@ == s,
                s == data.spec_bytes(),
                spec_scan(s, 0, None) == (if done {
                    Some((spec_q(query), i as int))
                } else {
                    spec_scan(s, i as int, spec_q(query))
                }),
                match query {
                    Some(q) => q < i && s[q as int] == 63,
                    None => true,
                },
                forall|j: int| 0 <= j < i ==> region_ok(s, spec_q(query), j),
                done ==> (i == s.len() || s[i as int] == 35),
            decreases s.len() - i + (if done {
                0int
            } else {
                1int
            }),
        {
            if i >= b.len() {
                done = true;
            } else {
                let c = *slice_index_get(b, i);
                if c == 35 {
                    done = true;
                } else if query.is_none() && c == 63 {
                    proof {
                        assert forall|j: int| 0 <= j < i + 1 implies region_ok(
                            s,
                            Some(i as int),
                            j,
                        ) by {
                            if j < i {
                                assert(region_ok(s, spec_q(query), j));
                            }
                        }
                    }
                    query = Some(i as u16);
                    i += 1;
                } else if (query.is_none() && path_byte_ok_exec(c)) || (query.is_some()
                    && query_byte_ok_exec(c)) {
                    proof {
                        assert forall|j: int| 0 <= j < i + 1 implies region_ok(
                            s,
                            spec_q(query),
                            j,
                        ) by {
                            if j < i {
                                assert(region_ok(s, spec_q(query), j));
                            }
                        }
                    }
                    i += 1;
                } else {
                    return Err(InvalidUrl::InvalidUrlCodePoint);
                }
            }
        }
        proof {
            vstd::utf8::encode_utf8_valid_utf8(data@);
            if i < s.len() {
                vstd::utf8::is_char_boundary_iff_not_is_continuation_byte(s, i as int);
            } else {
                vstd::utf8::is_char_boundary_start_end_of_seq(s);
            }
        }
        let (head, _) = data.split_at(i);
        proof {
            let kept = s.subrange(0, i as int);
            assert forall|j: int| 0 <= j < kept.len() implies kept[j] < 128 by {
                assert(region_ok(s, spec_q(query), j));
            }
            lemma_ascii_bytes_decode(kept);
            lemma_encode_decode(head@, kept);
            vstd::utf8::is_ascii_chars_nat_bound(head@);
        }
        Ok(PathAndQuery { data: head.to_owned(), query })
    }

    /// The path of this target; never empty.
    pub fn path(&self) -> (r: &str)
        requires
            self.wf(),
        ensures
            r@ == self.spec_path(),
    {
        let d = self.data.as_str();
        let r = match self.query {
            Some(q) => d.substring_ascii(0, q as usize),
            None => d,
        };
        if r.is_empty() {
            "/"
        } else {
            r
        }
    }

    /// The query of this target, if a `?` was seen.
    pub fn query(&self) -> (r: Option<&str>)
        requires
            self.wf(),
        ensures
            (match r {
                Some(s) => self.spec_query() == Some(s@),
                None => self.spec_query() is None,
            }),
    {
        match self.query {
            Some(q) => {
                let d = self.data.as_str();
                let n = d.unicode_len();
                Some(d.substring_ascii(q as usize + 1, n))
            },
            None => None,
        }
    }
}

/// What one scan establishes of each examined position: bytes before the
/// `?` satisfy the path allow-list, the `?` position holds a `?`, bytes
/// after it satisfy the query allow-list, and the scan stops at the end or
/// at a `#`.
proof fn lemma_scan_props(s: Seq<u8>, i: int, q: Option<int>)
    requires
        0 <= i <= s.len(),
        (match q {
            Some(x) => 0 <= x < i && s[x] == 63,
            None => true,
        }),
        spec_scan(s, i, q) is Some,
    ensures
        ({
            let (qo, end) = spec_scan(s, i, q)->Some_0;
            &&& i <= end <= s.len()
            &&& (end == s.len() || s[end] == 35)
            &&& (match (q, qo) {
                (Some(x), Some(y)) => x == y,
                (None, Some(y)) => i <= y < end && s[y] == 63,
                (None, None) => true,
                (Some(_), None) => false,
            })
            &&& forall|j: int| i <= j < end ==> region_ok(s, qo, j)
        }),
    decreases s.len() - i,
{
    let (qo, end) = spec_scan(s, i, q)->Some_0;
    if i >= s.len() {
    } else {
        let c = s[i];
        if c == 35 {
        } else if q is None && c == 63 {
            lemma_scan_props(s, i + 1, Some(i));
            assert forall|j: int| i <= j < end implies region_ok(s, qo, j) by {
                if j > i {
                    assert(region_ok(s, qo, j));
                }
            }
        } else {
            lemma_scan_props(s, i + 1, q);
            assert forall|j: int| i <= j < end implies region_ok(s, qo, j) by {
                if j > i {
                    assert(region_ok(s, qo, j));
                }
            }
        }
    }
}

/// For every accepted request-target: the path is never empty and contains
/// neither `?` nor `#` (so neither the query nor the fragment); when a `?`
/// was seen, the query is exactly the text after that `?` and before any
/// `#`; when none was seen there is no query.
pub proof fn lemma_path_and_query_split(s: Seq<u8>, p: PathAndQuery)
    requires
        p.wf(),
        spec_scan(s, 0, None) is Some,
        p.data@ == as_chars(s.subrange(0, spec_scan(s, 0, None)->Some_0.1)),
        spec_q(p.query) == spec_scan(s, 0, None)->Some_0.0,
    ensures
        p.spec_path().len() > 0,
        forall|k: int|
            0 <= k < p.spec_path().len() ==> #[trigger] p.spec_path()[k] != '?'
                && p.spec_path()[k] != '#',
        (match p.spec_query() {
            Some(qs) => qs == as_chars(
                s.subrange(
                    spec_scan(s, 0, None)->Some_0.0->Some_0 + 1,
                    spec_scan(s, 0, None)->Some_0.1,
                ),
            ),
            None => spec_scan(s, 0, None)->Some_0.0 is None,
        }),
{
    reveal_strlit("/");
    let (qo, end) = spec_scan(s, 0, None)->Some_0;
    lemma_scan_props(s, 0, None);
    let kept = s.subrange(0, end);
    assert(p.data@.len() == end);
    assert forall|k: int|
        0 <= k < p.spec_path().len() implies #[trigger] p.spec_path()[k] != '?'
        && p.spec_path()[k] != '#' by {
        let path = p.spec_path();
        if path == "/"@ && path[k] == '/' {
            assert('/' != '?' && '/' != '#');
        }
        match p.query {
            Some(qpos) => {
                if p.data@.subrange(0, qpos as int).len() > 0 {
                    assert(path[k] == p.data@[k]);
                    assert(p.data@[k] == kept[k] as char);
                    assert(region_ok(s, qo, k));
                    assert(path_byte_ok(s[k]));
                    assert(s[k] != 63 && s[k] != 35);
                    assert((s[k] as char) as u32 == s[k] as u32);
                }
            },
            None => {
                if p.data@.len() > 0 {
                    assert(path[k] == p.data@[k]);
                    assert(p.data@[k] == kept[k] as char);
                    assert(region_ok(s, qo, k));
                    assert(path_byte_ok(s[k]));
                    assert(s[k] != 63 && s[k] != 35);
                    assert((s[k] as char) as u32 == s[k] as u32);
                }
            },
        }
    }
    match p.query {
        Some(qpos) => {
            assert(p.spec_query()->Some_0 =~= as_chars(s.subrange(qpos as int + 1, end)));
        },
        None => {},
    }
}

/// The path that a successfully scanned target denotes: the text before
/// any `?`, with the empty path normalized to `/`.
pub open spec fn spec_target_path(s: Seq<u8>) -> Seq<char> {
    let pair = spec_scan(s, 0, None)->Some_0;
    let data = as_chars(s.subrange(0, pair.1));
    let p = match pair.0 {
        Some(q) => data.subrange(0, q),
        None => data,
    };
    if p.len() == 0 {
        "/"@
    } else {
        p
    }
}

/// The query that a successfully scanned target denotes: the text after
/// the `?`, if one was seen before the truncation point.
pub open spec fn spec_target_query(s: Seq<u8>) -> Option<Seq<char>> {
    let pair = spec_scan(s, 0, None)->Some_0;
    let data = as_chars(s.subrange(0, pair.1));
    match pair.0 {
        Some(q) => Some(data.subrange(q + 1, data.len() as int)),
        None => None,
    }
}

/// The stored `?` position as a mathematical option.
pub open spec fn spec_q(q: Option<u16>) -> Option<int> {
    match q {
        Some(v) => Some(v as int),
        None => None,
    }
}

/// What the scan has established about position `j`, given the position of
/// the `?` seen so far.
pub open spec fn region_ok(s: Seq<u8>, q: Option<int>, j: int) -> bool {
    match q {
        None => path_byte_ok(s[j]),
        Some(qq) => if j < qq {
            path_byte_ok(s[j])
        } else if j == qq {
            s[j] == 63
        } else {
            query_byte_ok(s[j])
        },
    }
}

} // verus!
