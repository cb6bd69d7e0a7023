//! The header index model: one shared buffer and, for each header, byte
//! ranges locating its name and value in that buffer. The view is
//! order-preserving; lookup is ASCII case-insensitive; iteration skips any
//! header whose bytes are not valid UTF-8.

use vstd::prelude::*;

verus! {

use vstd::slice::{slice_subrange, slice_to_vec};
use vstd::string::StringSliceAdditionalSpecFns;
use vstd::utf8::{valid_utf8, decode_utf8};
use crate::strutil::{bytes_as_str, bytes_to_string, bytes_eq_ignore_case, lower_seq};

/// Byte ranges of one header's name and value, relative to the shared
/// buffer.
#[derive(Clone, Copy, Debug)]
pub struct HeaderIndices {
    pub name_start: usize,
    pub name_end: usize,
    pub value_start: usize,
    pub value_end: usize,
}

/// A read-only view of the parsed headers: the shared buffer plus one index
/// entry per header.
#[derive(Debug)]
pub struct Headers {
    pub buf: Vec<u8>,
    pub entries: Vec<HeaderIndices>,
}

impl Headers {
    /// Well-formedness: every recorded range lies inside the buffer.
    pub open spec fn wf(&self) -> bool {
        forall|i: int|
            0 <= i < self.entries@.len() ==> {
                let e = #[trigger] self.entries@[i];
                &&& e.name_start <= e.name_end <= self.buf@.len()
                &&& e.value_start <= e.value_end <= self.buf@.len()
            }
    }

    /// The bytes of the i-th header name.
    pub open spec fn name_bytes(&self, i: int) -> Seq<u8> {
        self.buf@.subrange(self.entries@[i].name_start as int, self.entries@[i].name_end as int)
    }

    /// The bytes of the i-th header value.
    pub open spec fn value_bytes(&self, i: int) -> Seq<u8> {
        self.buf@.subrange(self.entries@[i].value_start as int, self.entries@[i].value_end as int)
    }

    /// The recorded (name, value) byte pairs, in order.
    pub open spec fn spec_pairs(&self) -> Seq<(Seq<u8>, Seq<u8>)> {
        Seq::new(self.entries@.len(), |i: int| (self.name_bytes(i), self.value_bytes(i)))
    }

    /// An empty header view.
    pub fn empty() -> (h: Headers)
        ensures
            h.wf(),
            h.spec_pairs() == Seq::<(Seq<u8>, Seq<u8>)>::empty(),
    {
        let h = Headers { buf: Vec::new(), entries: Vec::new() };
        proof {
            assert(h.spec_pairs() =~= Seq::<(Seq<u8>, Seq<u8>)>::empty());
        }
        h
    }

    /// Records a list of (name, value) pairs as ranges into one shared
    /// buffer, in order.
    pub fn record(pairs: &Vec<(Vec<u8>, Vec<u8>)>) -> (h: Headers)
        ensures
            h.wf(),
            h.spec_pairs().len() == pairs@.len(),
            forall|i: int|
                0 <= i < pairs@.len() ==> #[trigger] h.spec_pairs()[i] == (
                pairs@[i].0@,
                pairs@[i].1@,
            ),
            h.spec_pairs() == pairs_view(pairs@),
    {
        let mut buf: Vec<u8> = Vec::new();
        let mut entries: Vec<HeaderIndices> = Vec::new();
        let n = pairs.len();
        let mut i: usize = 0;
        while i < n
            invariant
                0 <= i <= n,
                n == pairs@.len(),
                entries@.len() == i,
                forall|k: int|
                    0 <= k < i ==> {
                        let e = #[trigger] entries@[k];
                        &&& e.name_start <= e.name_end <= buf@.len()
                        &&& e.value_start <= e.value_end <= buf@.len()
                        &&& buf@.subrange(e.name_start as int, e.name_end as int) == pairs@[k].0@
                        &&& buf@.subrange(e.value_start as int, e.value_end as int) == pairs@[k].1@
                    },
            decreases n - i,
        {
            let p = &pairs[i];
            let ghost old_buf = buf@;
            let ghost old_entries = entries@;
            let name_start = buf.len();
            buf.extend_from_slice(p.0.as_slice());
            let name_end = buf.len();
            let value_start = buf.len();
            buf.extend_from_slice(p.1.as_slice());
            let value_end = buf.len();
            entries.push(
                HeaderIndices { name_start, name_end, value_start, value_end },
            );
            proof {
                assert(buf@.subrange(name_start as int, name_end as int) =~= pairs@[i as int].0@);
                assert(buf@.subrange(value_start as int, value_end as int) =~= pairs@[i as int].1@);
                assert forall|k: int| 0 <= k < i implies {
                    let e = #[trigger] entries@[k];
                    &&& e.name_start <= e.name_end <= buf@.len()
                    &&& e.value_start <= e.value_end <= buf@.len()
                    &&& buf@.subrange(e.name_start as int, e.name_end as int) == pairs@[k].0@
                    &&& buf@.subrange(e.value_start as int, e.value_end as int) == pairs@[k].1@
                } by {
                    let e = entries@[k];
                    assert(e == old_entries[k]);
                    assert(buf@.subrange(e.name_start as int, e.name_end as int) =~= old_buf.subrange(
                        e.name_start as int,
                        e.name_end as int,
                    ));
                    assert(buf@.subrange(e.value_start as int, e.value_end as int)
                        =~= old_buf.subrange(e.value_start as int, e.value_end as int));
                }
            }
            i += 1;
        }
        let h = Headers { buf, entries };
        proof {
            assert forall|i: int| 0 <= i < pairs@.len() implies #[trigger] h.spec_pairs()[i] == (
                pairs@[i].0@,
                pairs@[i].1@,
            ) by {
                assert(h.name_bytes(i) == pairs@[i].0@);
                assert(h.value_bytes(i) == pairs@[i].1@);
            }
            assert(h.spec_pairs() =~= pairs_view(pairs@));
        }
        h
    }

    /// An owned copy of this view.
    pub fn duplicate(&self) -> (h: Headers)
        ensures
            h.buf@ == self.buf@,
            h.entries@ == self.entries@,
    {
        Headers {
            buf: slice_to_vec(self.buf.as_slice()),
            entries: slice_to_vec(self.entries.as_slice()),
        }
    }

    /// Decodes the recorded pairs in order, skipping any pair whose name or
    /// value is not valid UTF-8.
    pub fn iter(&self) -> (r: Vec<(String, String)>)
        requires
            self.wf(),
        ensures
            deep_pairs(r@) == spec_iter_of(self.spec_pairs()),
    {
        let mut out: Vec<(String, String)> = Vec::new();
        let n = self.entries.len();
        let mut i: usize = 0;
        while i < n
            invariant
                0 <= i <= n,
                n == self.entries@.len(),
                self.wf(),
                deep_pairs(out@) == spec_iter_of(self.spec_pairs().subrange(0, i as int)),
            decreases n - i,
        {
            let e = &self.entries[i];
            let name = slice_subrange(self.buf.as_slice(), e.name_start, e.name_end);
            let value = slice_subrange(self.buf.as_slice(), e.value_start, e.value_end);
            let ghost prefix = self.spec_pairs().subrange(0, i as int);
            let ghost prefix1 = self.spec_pairs().subrange(0, i as int + 1);
            proof {
                assert(prefix1.drop_last() =~= prefix);
                assert(prefix1.last() == self.spec_pairs()[i as int]);
            }
            match (bytes_to_string(name), bytes_to_string(value)) {
                (Some(ns), Some(vs)) => {
                    out.push((ns, vs));
                    proof {
                        assert(deep_pairs(out@) =~= spec_iter_of(prefix1));
                    }
                },
                _ => {
                    proof {
                        assert(deep_pairs(out@) =~= spec_iter_of(prefix1));
                    }
                },
            }
            i += 1;
        }
        proof {
            assert(self.spec_pairs().subrange(0, self.spec_pairs().len() as int)
                =~= self.spec_pairs());
        }
        out
    }

    /// The value of the first header whose name matches `key` up to ASCII
    /// case, decoded; headers whose bytes are not valid UTF-8 are skipped.
    pub fn get_first(&self, key: &str) -> (r: Option<String>)
        requires
            self.wf(),
        ensures
            (match r {
                Some(v) => spec_find(self.spec_pairs(), key.spec_bytes()) matches Some(vb) && v@
                    == decode_utf8(vb),
                None => spec_find(self.spec_pairs(), key.spec_bytes()) is None,
            }),
    {
        let kb = key.as_bytes();
        let n = self.entries.len();
        proof {
            assert(self.spec_pairs().subrange(0, n as int) =~= self.spec_pairs());
        }
        let mut i: usize = 0;
        while i < n
            invariant
                0 <= i <= n,
                n == self.entries@.len(),
                self.wf(),
                kb@ == key.spec_bytes(),
                spec_find(self.spec_pairs(), kb@) == spec_find(
                    self.spec_pairs().subrange(i as int, n as int),
                    kb@,
                ),
            decreases n - i,
        {
            let e = &self.entries[i];
            let name = slice_subrange(self.buf.as_slice(), e.name_start, e.name_end);
            let value = slice_subrange(self.buf.as_slice(), e.value_start, e.value_end);
            let ghost rest = self.spec_pairs().subrange(i as int, n as int);
            proof {
                assert(rest.first() == self.spec_pairs()[i as int]);
                assert(rest.drop_first() =~= self.spec_pairs().subrange(i as int + 1, n as int));
            }
            let name_ok = bytes_as_str(name).is_some();
            let value_str = bytes_to_string(value);
            if name_ok && value_str.is_some() && bytes_eq_ignore_case(name, kb) {
                return value_str;
            }
            i += 1;
        }
        proof {
            assert(self.spec_pairs().subrange(n as int, n as int) =~= Seq::<(
                Seq<u8>,
                Seq<u8>,
            )>::empty());
        }
        None
    }
}

/// The views of a vector of (name, value) byte pairs.
pub open spec fn pairs_view(v: Seq<(Vec<u8>, Vec<u8>)>) -> Seq<(Seq<u8>, Seq<u8>)> {
    v.map_values(|p: (Vec<u8>, Vec<u8>)| (p.0@, p.1@))
}

/// A found value comes from a pair that decoded, so it is valid UTF-8.
pub proof fn lemma_find_valid(pairs: Seq<(Seq<u8>, Seq<u8>)>, key: Seq<u8>)
    ensures
        spec_find(pairs, key) matches Some(vb) ==> valid_utf8(vb),
    decreases pairs.len(),
{
    if pairs.len() > 0 {
        lemma_find_valid(pairs.drop_first(), key);
    }
}

/// The views of a vector of decoded pairs.
pub open spec fn deep_pairs(v: Seq<(String, String)>) -> Seq<(Seq<char>, Seq<char>)> {
    v.map_values(|p: (String, String)| (p.0@, p.1@))
}

/// The decoded pairs, in order, keeping only those whose name and value are
/// valid UTF-8.
pub open spec fn spec_iter_of(pairs: Seq<(Seq<u8>, Seq<u8>)>) -> Seq<(Seq<char>, Seq<char>)>
    decreases pairs.len(),
{
    if pairs.len() == 0 {
        Seq::empty()
    } else {
        let init = spec_iter_of(pairs.drop_last());
        let p = pairs.last();
        if valid_utf8(p.0) && valid_utf8(p.1) {
            init.push((decode_utf8(p.0), decode_utf8(p.1)))
        } else {
            init
        }
    }
}

/// The value bytes of the first pair that is valid UTF-8 and whose name
/// equals `key` up to ASCII case.
pub open spec fn spec_find(pairs: Seq<(Seq<u8>, Seq<u8>)>, key: Seq<u8>) -> Option<Seq<u8>>
    decreases pairs.len(),
{
    if pairs.len() == 0 {
        None
    } else {
        let p = pairs.first();
        if valid_utf8(p.0) && valid_utf8(p.1) && lower_seq(p.0) == lower_seq(key) {
            Some(p.1)
        } else {
            spec_find(pairs.drop_first(), key)
        }
    }
}

/// Iterating a header view built from valid UTF-8 pairs yields exactly
/// those pairs, decoded, in the order they were supplied.
pub proof fn lemma_iter_preserves_pairs(pairs: Seq<(Seq<u8>, Seq<u8>)>)
    requires
        forall|i: int|
            0 <= i < pairs.len() ==> valid_utf8(#[trigger] pairs[i].0) && valid_utf8(pairs[i].1),
    ensures
        spec_iter_of(pairs).len() == pairs.len(),
        forall|i: int|
            0 <= i < pairs.len() ==> #[trigger] spec_iter_of(pairs)[i] == (
                decode_utf8(pairs[i].0),
                decode_utf8(pairs[i].1),
            ),
    decreases pairs.len(),
{
    if pairs.len() > 0 {
        assert forall|i: int| 0 <= i < pairs.drop_last().len() implies valid_utf8(
            #[trigger] pairs.drop_last()[i].0,
        ) && valid_utf8(pairs.drop_last()[i].1) by {
            assert(pairs.drop_last()[i] == pairs[i]);
        }
        lemma_iter_preserves_pairs(pairs.drop_last());
        assert(valid_utf8(pairs.last().0) && valid_utf8(pairs.last().1)) by {
            assert(valid_utf8(pairs[pairs.len() - 1].0) && valid_utf8(pairs[pairs.len() - 1].1));
            assert(pairs.last() == pairs[pairs.len() - 1]);
        }
    }
}

/// Lookup is ASCII case-insensitive: two keys equal up to case find the
/// same header.
pub proof fn lemma_find_case_insensitive(
    pairs: Seq<(Seq<u8>, Seq<u8>)>,
    k1: Seq<u8>,
    k2: Seq<u8>,
)
    requires
        lower_seq(k1) == lower_seq(k2),
    ensures
        spec_find(pairs, k1) == spec_find(pairs, k2),
    decreases pairs.len(),
{
    if pairs.len() > 0 {
        lemma_find_case_insensitive(pairs.drop_first(), k1, k2);
    }
}

} // verus!
