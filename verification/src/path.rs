//! Path-segment patterns: a pattern either accepts a request path and
//! yields a typed output, or declines, in which case the router tries the
//! next alternative.

use vstd::prelude::*;

verus! {

use vstd::string::StrSliceExecFns;
use crate::strutil::{all_digits, dec_value, is_digit, parse_usize_dec, str_eq, as_chars, lemma_ascii_bytes_decode};
use vstd::string::StringSliceAdditionalSpecFns;

/// A pattern over request paths. `spec_matches` decides acceptance;
/// `output_outcome` pins what the parsed output is.
pub trait PathSegments {
    /// What a successful parse yields.
    type Output;

    /// Whether this pattern accepts the path.
    spec fn spec_matches(&self, path: Seq<char>) -> bool;

    /// What holds of the output parsed from an accepted path.
    spec fn output_outcome(&self, path: Seq<char>, out: &Self::Output) -> bool;

    /// Parses the path; `None` means the pattern declines it.
    fn parse(&self, path: &str) -> (r: Option<Self::Output>)
        ensures
            r is Some <==> self.spec_matches(path@),
            (match r {
                Some(out) => self.output_outcome(path@, &out),
                None => true,
            }),
    ;
}

/// A literal pattern: accepts exactly its own text and extracts nothing.
impl PathSegments for String {
    type Output = ();

    open spec fn spec_matches(&self, path: Seq<char>) -> bool {
        self@ == path
    }

    open spec fn output_outcome(&self, path: Seq<char>, out: &()) -> bool {
        true
    }

    fn parse(&self, path: &str) -> (r: Option<()>) {
        if str_eq(self.as_str(), path) {
            Some(())
        } else {
            None
        }
    }
}

/// One element of a multi-segment pattern: match a fixed segment, or
/// capture whatever stands there.
#[derive(Debug)]
pub enum SegPart {
    Literal(String),
    Capture,
}

/// A multi-segment pattern: `/` followed by one `/`-separated segment per
/// part. Literal parts must match their segment exactly; capture parts
/// extract theirs. A path with a different number of segments does not
/// match.
#[derive(Debug)]
pub struct SegPattern {
    pub parts: Vec<SegPart>,
}

/// The text before the first `/`.
pub open spec fn seg_head(s: Seq<char>) -> Seq<char>
    decreases s.len(),
{
    if s.len() == 0 {
        Seq::empty()
    } else if s[0] == '/' {
        Seq::empty()
    } else {
        seq![s[0]] + seg_head(s.drop_first())
    }
}

/// The text after the first `/`, if the text has one.
pub open spec fn seg_tail(s: Seq<char>) -> Option<Seq<char>>
    decreases s.len(),
{
    if s.len() == 0 {
        None
    } else if s[0] == '/' {
        Some(s.drop_first())
    } else {
        seg_tail(s.drop_first())
    }
}

/// Whether the parts consume the text exactly, one `/`-separated segment
/// each. An empty part list matches nothing.
pub open spec fn parts_match(parts: Seq<SegPart>, s: Seq<char>) -> bool
    decreases parts.len(),
{
    if parts.len() == 0 {
        false
    } else {
        let ok = match parts[0] {
            SegPart::Literal(l) => l@ == seg_head(s),
            SegPart::Capture => true,
        };
        &&& ok
        &&& if parts.len() == 1 {
            seg_tail(s) is None
        } else {
            seg_tail(s) is Some && parts_match(parts.drop_first(), seg_tail(s)->Some_0)
        }
    }
}

/// The segments the capture parts extract, in order; meaningful when the
/// parts match the text.
pub open spec fn captures_of(parts: Seq<SegPart>, s: Seq<char>) -> Seq<Seq<char>>
    decreases parts.len(),
{
    if parts.len() == 0 {
        Seq::empty()
    } else {
        let rest = if parts.len() == 1 {
            Seq::empty()
        } else {
            captures_of(parts.drop_first(), seg_tail(s)->Some_0)
        };
        match parts[0] {
            SegPart::Capture => seq![seg_head(s)] + rest,
            SegPart::Literal(_) => rest,
        }
    }
}

/// The views of a vector of captured segments.
pub open spec fn strings_view(v: Seq<String>) -> Seq<Seq<char>> {
    v.map_values(|s: String| s@)
}

/// Splitting a text at its first `/`: before an occurrence at `d`, the
/// head is the text up to `d` and the tail starts after it; with no
/// occurrence, the head is the whole text and there is no tail.
proof fn lemma_seg_split(s: Seq<char>, d: int)
    requires
        0 <= d <= s.len(),
        forall|i: int| 0 <= i < d ==> s[i] != '/',
        d < s.len() ==> s[d] == '/',
    ensures
        seg_head(s) == s.subrange(0, d),
        seg_tail(s) == (if d == s.len() {
            Option::<Seq<char>>::None
        } else {
            Some(s.subrange(d + 1, s.len() as int))
        }),
    decreases d,
{
    if d == 0 {
        if s.len() == 0 {
            assert(seg_head(s) =~= s.subrange(0, 0));
        } else if s[0] == '/' {
            assert(seg_head(s) =~= s.subrange(0, 0));
            assert(s.drop_first() =~= s.subrange(1, s.len() as int));
        } else {
            assert(false);
        }
    } else {
        let rest = s.drop_first();
        assert forall|i: int| 0 <= i < d - 1 implies rest[i] != '/' by {
            assert(s[i + 1] != '/');
        }
        lemma_seg_split(rest, d - 1);
        assert(seg_head(s) =~= s.subrange(0, d));
        if d < s.len() {
            assert(rest.subrange(d, rest.len() as int) =~= s.subrange(d + 1, s.len() as int));
        }
    }
}

impl PathSegments for SegPattern {
    type Output = Vec<String>;

    open spec fn spec_matches(&self, path: Seq<char>) -> bool {
        &&& path.len() >= 1
        &&& path[0] == '/'
        &&& parts_match(self.parts@, path.subrange(1, path.len() as int))
    }

    open spec fn output_outcome(&self, path: Seq<char>, out: &Vec<String>) -> bool {
        strings_view(out@) == captures_of(self.parts@, path.subrange(1, path.len() as int))
    }

    fn parse(&self, path: &str) -> (r: Option<Vec<String>>) {
        let n = path.unicode_len();
        if n == 0 {
            return None;
        }
        if path.get_char(0) != '/' {
            return None;
        }
        let m = self.parts.len();
        let ghost full = path@.subrange(1, path@.len() as int);
        if m == 0 {
            return None;
        }
        let mut caps: Vec<String> = Vec::new();
        let mut pos: usize = 1;
        let mut k: usize = 0;
        proof {
            assert(self.parts@.subrange(0, m as int) =~= self.parts@);
            assert(path@.subrange(1, n as int) == full);
            assert(strings_view(caps@) =~= Seq::<Seq<char>>::empty());
            assert(Seq::<Seq<char>>::empty() + captures_of(self.parts@, full) =~= captures_of(
                self.parts@,
                full,
            ));
        }
        loop
            invariant
                1 <= pos <= n,
                0 <= k < m,
                m == self.parts@.len(),
                n == path@.len(),
                path@[0] == '/',
                full == path@.subrange(1, path@.len() as int),
                parts_match(self.parts@, full) <==> parts_match(
                    self.parts@.subrange(k as int, m as int),
                    path@.subrange(pos as int, n as int),
                ),
                parts_match(self.parts@, full) ==> captures_of(self.parts@, full) == strings_view(
                    caps@,
                ) + captures_of(
                    self.parts@.subrange(k as int, m as int),
                    path@.subrange(pos as int, n as int),
                ),
            decreases m - k,
        {
            let ghost rem = path@.subrange(pos as int, n as int);
            let ghost suffix = self.parts@.subrange(k as int, m as int);
            let mut d: usize = pos;
            let mut found = false;
            while d < n && !found
                invariant
                    pos <= d <= n,
                    n == path@.len(),
                    forall|j: int| pos <= j < d ==> path@[j] != '/',
                    found ==> (d < n && path@[d as int] == '/'),
                decreases n - d + (if found {
                    0int
                } else {
                    1int
                }),
            {
                if path.get_char(d) == '/' {
                    found = true;
                } else {
                    d += 1;
                }
            }
            proof {
                assert forall|i: int| 0 <= i < d - pos implies rem[i] != '/' by {
                    assert(path@[pos + i] != '/');
                }
                lemma_seg_split(rem, d - pos as int);
                assert(seg_head(rem) == rem.subrange(0, d - pos as int));
                assert(rem.subrange(0, d - pos as int) =~= path@.subrange(pos as int, d as int));
                assert(suffix[0] == self.parts@[k as int]);
            }
            let seg = path.substring_char(pos, d);
            let part_ok = match &self.parts[k] {
                SegPart::Literal(l) => str_eq(l.as_str(), seg),
                SegPart::Capture => true,
            };
            if !part_ok {
                return None;
            }
            let is_capture = match &self.parts[k] {
                SegPart::Literal(_) => false,
                SegPart::Capture => true,
            };
            let ghost old_caps = caps@;
            if is_capture {
                caps.push(seg.to_owned());
                proof {
                    assert(strings_view(caps@) =~= strings_view(old_caps) + seq![seg_head(rem)]);
                }
            }
            if k == m - 1 {
                if d == n {
                    proof {
                        assert(seg_tail(rem) is None);
                        assert(parts_match(suffix, rem));
                        assert(parts_match(self.parts@, full));
                        assert(captures_of(suffix, rem) == (match self.parts@[k as int] {
                            SegPart::Capture => seq![seg_head(rem)],
                            SegPart::Literal(_) => Seq::<Seq<char>>::empty(),
                        }));
                        assert(strings_view(caps@) =~= captures_of(self.parts@, full));
                    }
                    return Some(caps);
                } else {
                    proof {
                        assert(seg_tail(rem) is Some);
                        assert(!parts_match(suffix, rem));
                    }
                    return None;
                }
            } else {
                if d == n {
                    proof {
                        assert(seg_tail(rem) is None);
                        assert(!parts_match(suffix, rem));
                    }
                    return None;
                }
                proof {
                    let rem2 = path@.subrange(d + 1, n as int);
                    assert(seg_tail(rem) == Some(rem2)) by {
                        assert(rem.subrange(d - pos as int + 1, rem.len() as int) =~= rem2);
                    }
                    assert(suffix.drop_first() =~= self.parts@.subrange(k + 1, m as int));
                    assert(parts_match(suffix, rem) <==> parts_match(suffix.drop_first(), rem2));
                    if parts_match(self.parts@, full) {
                        assert(captures_of(suffix, rem) == (match self.parts@[k as int] {
                            SegPart::Capture => seq![seg_head(rem)] + captures_of(
                                suffix.drop_first(),
                                rem2,
                            ),
                            SegPart::Literal(_) => captures_of(suffix.drop_first(), rem2),
                        }));
                        assert(strings_view(caps@) + captures_of(suffix.drop_first(), rem2)
                            =~= strings_view(old_caps) + captures_of(suffix, rem));
                    }
                }
                pos = d + 1;
                k += 1;
            }
        }
    }
}

/// A single-capture pattern: accepts `/` followed by one slash-free
/// segment, and extracts that segment's text.
#[derive(Clone, Copy, Debug)]
pub struct ParseSegment;

impl PathSegments for ParseSegment {
    type Output = String;

    open spec fn spec_matches(&self, path: Seq<char>) -> bool {
        &&& path.len() >= 1
        &&& path[0] == '/'
        &&& forall|i: int| 1 <= i < path.len() ==> path[i] != '/'
    }

    open spec fn output_outcome(&self, path: Seq<char>, out: &String) -> bool {
        out@ == path.subrange(1, path.len() as int)
    }

    fn parse(&self, path: &str) -> (r: Option<String>) {
        let n = path.unicode_len();
        if n == 0 {
            return None;
        }
        if path.get_char(0) != '/' {
            return None;
        }
        let mut i: usize = 1;
        while i < n
            invariant
                1 <= i <= n,
                n == path@.len(),
                forall|j: int| 1 <= j < i ==> path@[j] != '/',
            decreases n - i,
        {
            if path.get_char(i) == '/' {
                return None;
            }
            i += 1;
        }
        Some(path.substring_char(1, n).to_owned())
    }
}

/// A numeric single-capture pattern: accepts `/` followed by one decimal
/// segment whose value fits in `usize`, and extracts that value.
#[derive(Clone, Copy, Debug)]
pub struct UintSegment;

/// The number a sequence of decimal digit characters denotes.
pub open spec fn dec_chars_value(s: Seq<char>) -> int {
    dec_value(s.map_values(|c: char| c as u8))
}

impl PathSegments for UintSegment {
    type Output = usize;

    open spec fn spec_matches(&self, path: Seq<char>) -> bool {
        &&& path.len() >= 2
        &&& path[0] == '/'
        &&& (forall|i: int| 1 <= i < path.len() ==> '0' <= #[trigger] path[i] <= '9')
        &&& dec_chars_value(path.subrange(1, path.len() as int)) <= usize::MAX
    }

    open spec fn output_outcome(&self, path: Seq<char>, out: &usize) -> bool {
        *out == dec_chars_value(path.subrange(1, path.len() as int))
    }

    fn parse(&self, path: &str) -> (r: Option<usize>) {
        let n = path.unicode_len();
        if n == 0 {
            return None;
        }
        if path.get_char(0) != '/' {
            return None;
        }
        let seg = path.substring_char(1, n);
        let ghost segc = path@.subrange(1, path@.len() as int);
        let r = parse_usize_dec(seg.as_bytes());
        proof {
            let b = seg.spec_bytes();
            match r {
                Some(v) => {
                    assert(forall|i: int| 0 <= i < b.len() ==> b[i] < 128);
                    lemma_ascii_bytes_decode(b);
                    vstd::utf8::encode_utf8_decode_utf8(segc);
                    assert(segc == as_chars(b));
                    assert forall|i: int| 1 <= i < path@.len() implies '0' <= #[trigger] path@[i]
                        <= '9' by {
                        assert(path@[i] == segc[i - 1]);
                        assert(segc[i - 1] == b[i - 1] as char);
                    }
                    assert(segc.map_values(|c: char| c as u8) =~= b);
                },
                None => {
                    if self.spec_matches(path@) {
                        assert forall|i: int|
                            0 <= i < segc.len() implies '\0' <= #[trigger] segc[i] <= '\u{7f}' by {
                            assert(segc[i] == path@[i + 1]);
                        }
                        assert(vstd::utf8::is_ascii_chars(segc));
                        vstd::utf8::is_ascii_chars_encode_utf8(segc);
                        assert(b =~= segc.map_values(|c: char| c as u8));
                        assert forall|i: int| 0 <= i < b.len() implies is_digit(#[trigger] b[i]) by {
                            assert(segc[i] == path@[i + 1]);
                            assert(b[i] == segc[i] as u8);
                        }
                        assert(all_digits(b));
                        assert(dec_value(b) == dec_chars_value(segc));
                        assert(false);
                    }
                },
            }
        }
        r
    }
}

/// Maps a type to the pattern that extracts it from one path segment.
pub trait Segment: Sized {
    /// The pattern that yields this type.
    type P: PathSegments<Output = Self>;

    /// The pattern value.
    fn segment() -> Self::P;
}

impl Segment for String {
    type P = ParseSegment;

    fn segment() -> (r: ParseSegment) {
        ParseSegment
    }
}

impl Segment for usize {
    type P = UintSegment;

    fn segment() -> (r: UintSegment) {
        UintSegment
    }
}

} // verus!
