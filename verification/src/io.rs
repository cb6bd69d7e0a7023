//! In-memory byte sources: a cursor over owned bytes, and the bounded body
//! reader that serves an already-buffered prefix first, then a stream
//! remainder, never more than the declared content length.

use vstd::prelude::*;

verus! {

use vstd::slice::{slice_subrange, slice_to_vec};

/// A reader over owned bytes, advancing a position.
#[derive(Debug)]
pub struct Cursor {
    pub inner: Vec<u8>,
    pub pos: usize,
}

impl Cursor {
    /// The bytes not yet read.
    pub open spec fn spec_remaining(&self) -> Seq<u8> {
        if self.pos <= self.inner@.len() {
            self.inner@.subrange(self.pos as int, self.inner@.len() as int)
        } else {
            Seq::empty()
        }
    }

    /// A cursor at the start of the given bytes.
    pub fn new(inner: Vec<u8>) -> (c: Cursor)
        ensures
            c.inner@ == inner@,
            c.pos == 0,
    {
        Cursor { inner, pos: 0 }
    }

    /// The bytes not yet read.
    pub fn remaining_slice(&self) -> (r: &[u8])
        ensures
            r@ == self.spec_remaining(),
    {
        let len = if self.pos < self.inner.len() {
            self.pos
        } else {
            self.inner.len()
        };
        let r = slice_subrange(self.inner.as_slice(), len, self.inner.len());
        proof {
            assert(r@ =~= self.spec_remaining());
        }
        r
    }

    /// Reads up to `n` bytes, advancing the cursor.
    pub fn read(&mut self, n: usize) -> (r: Vec<u8>)
        ensures
            r@ == old(self).spec_remaining().subrange(0, r@.len() as int),
            r@.len() == (if n <= old(self).spec_remaining().len() {
                n as int
            } else {
                old(self).spec_remaining().len() as int
            }),
            final(self).spec_remaining() == old(self).spec_remaining().subrange(
                r@.len() as int,
                old(self).spec_remaining().len() as int,
            ),
            final(self).inner@ == old(self).inner@,
    {
        let start = if self.pos < self.inner.len() {
            self.pos
        } else {
            self.inner.len()
        };
        let avail = self.inner.len() - start;
        let k = if n < avail {
            n
        } else {
            avail
        };
        let r = slice_to_vec(slice_subrange(self.inner.as_slice(), start, start + k));
        self.pos = start + k;
        proof {
            assert(r@ =~= old(self).spec_remaining().subrange(0, r@.len() as int));
            assert(self.spec_remaining() =~= old(self).spec_remaining().subrange(
                r@.len() as int,
                old(self).spec_remaining().len() as int,
            ));
        }
        r
    }
}

/// A bounded reader over a request body: an already-buffered prefix, then a
/// live-stream remainder, with a remaining-length counter that caps what
/// can ever be read.
#[derive(Debug)]
pub struct Body {
    pub content_length: usize,
    pub prefix: Vec<u8>,
    pub prefix_pos: usize,
    pub stream: Cursor,
}

impl Body {
    /// The unread part of the buffered prefix.
    pub open spec fn prefix_remaining(&self) -> Seq<u8> {
        if self.prefix_pos <= self.prefix@.len() {
            self.prefix@.subrange(self.prefix_pos as int, self.prefix@.len() as int)
        } else {
            Seq::empty()
        }
    }

    /// Every byte that could still arrive, prefix first.
    pub open spec fn spec_avail(&self) -> Seq<u8> {
        self.prefix_remaining() + self.stream.spec_remaining()
    }

    /// The bytes this body will still yield: what is available, capped at
    /// the remaining content length.
    pub open spec fn spec_remaining(&self) -> Seq<u8> {
        if self.content_length <= self.spec_avail().len() {
            self.spec_avail().subrange(0, self.content_length as int)
        } else {
            self.spec_avail()
        }
    }

    /// How many bytes one `read` of `n` yields: nothing once the length is
    /// spent; otherwise a chunk from the prefix, or from the stream once
    /// the prefix is consumed.
    pub open spec fn spec_read_len(&self, n: int) -> int {
        if self.content_length == 0 {
            0
        } else if self.prefix_remaining().len() > 0 {
            min3(n, self.prefix_remaining().len() as int, self.content_length as int)
        } else {
            min3(n, self.stream.spec_remaining().len() as int, self.content_length as int)
        }
    }

    /// A body over a declared content length, a buffered prefix and the
    /// rest of the stream.
    pub fn new(content_length: usize, buf: Vec<u8>, reader: Cursor) -> (b: Body)
        ensures
            b.content_length == content_length,
            b.prefix@ == buf@,
            b.prefix_pos == 0,
            b.stream == reader,
    {
        Body { content_length, prefix: buf, prefix_pos: 0, stream: reader }
    }

    /// Reads up to `n` bytes. The bytes returned are the next bytes of
    /// `spec_remaining`; the remaining-length counter drops by the amount
    /// read; reading past the declared content length yields nothing, and
    /// touches neither the buffered prefix nor the stream: once the length
    /// is spent the body is left exactly as it was, so stream bytes that
    /// belong to the next exchange are never consumed.
    pub fn read(&mut self, n: usize) -> (r: Vec<u8>)
        ensures
            r@.len() == old(self).spec_read_len(n as int),
            r@ == old(self).spec_remaining().subrange(0, r@.len() as int),
            final(self).spec_remaining() == old(self).spec_remaining().subrange(
                r@.len() as int,
                old(self).spec_remaining().len() as int,
            ),
            final(self).content_length == old(self).content_length - r@.len(),
            old(self).content_length == 0 ==> *final(self) == *old(self),
            final(self).prefix@ == old(self).prefix@,
            final(self).stream.inner@ == old(self).stream.inner@,
            old(self).prefix_remaining().len() > 0 ==> final(self).stream == old(self).stream,
            final(self).spec_avail() == old(self).spec_avail().subrange(
                r@.len() as int,
                old(self).spec_avail().len() as int,
            ),
    {
        if self.content_length == 0 {
            let r = Vec::new();
            proof {
                assert(r@ =~= old(self).spec_remaining().subrange(0, 0));
                assert(self.spec_remaining() =~= old(self).spec_remaining().subrange(
                    0,
                    old(self).spec_remaining().len() as int,
                ));
                assert(self.spec_avail() =~= old(self).spec_avail().subrange(
                    0,
                    old(self).spec_avail().len() as int,
                ));
            }
            return r;
        }
        let start = if self.prefix_pos < self.prefix.len() {
            self.prefix_pos
        } else {
            self.prefix.len()
        };
        let avail = self.prefix.len() - start;
        if avail > 0 {
            let k0 = if n < avail {
                n
            } else {
                avail
            };
            let k = if k0 < self.content_length {
                k0
            } else {
                self.content_length
            };
            let r = slice_to_vec(slice_subrange(self.prefix.as_slice(), start, start + k));
            self.prefix_pos = start + k;
            self.content_length = self.content_length - k;
            proof {
                assert(r@ =~= old(self).spec_remaining().subrange(0, r@.len() as int));
                assert(self.spec_remaining() =~= old(self).spec_remaining().subrange(
                    r@.len() as int,
                    old(self).spec_remaining().len() as int,
                ));
                assert(self.spec_avail() =~= old(self).spec_avail().subrange(
                    r@.len() as int,
                    old(self).spec_avail().len() as int,
                ));
            }
            r
        } else {
            let k0 = if n < self.content_length {
                n
            } else {
                self.content_length
            };
            let r = self.stream.read(k0);
            self.content_length = self.content_length - r.len();
            proof {
                assert(old(self).prefix_remaining().len() == 0);
                assert(r@ =~= old(self).spec_remaining().subrange(0, r@.len() as int));
                assert(self.spec_remaining() =~= old(self).spec_remaining().subrange(
                    r@.len() as int,
                    old(self).spec_remaining().len() as int,
                ));
                assert(self.spec_avail() =~= old(self).spec_avail().subrange(
                    r@.len() as int,
                    old(self).spec_avail().len() as int,
                ));
            }
            r
        }
    }
}

/// The least of three numbers.
pub open spec fn min3(a: int, b: int, c: int) -> int {
    if a <= b && a <= c {
        a
    } else if b <= c {
        b
    } else {
        c
    }
}

} // verus!
