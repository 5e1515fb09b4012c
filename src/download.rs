//! Chunked range downloads: the sequence of byte ranges of a resource, the
//! `Range` header text for each, and the decisions of one download session.
use vstd::prelude::*;
use crate::text::{decimal, push_decimal};
use vstd::arithmetic::div_mod::{lemma_basic_div_specific_divisor, lemma_div_plus_one};

verus! {

/// The inclusive byte spans that cover `[start, end]` in steps of `size`;
/// the last span may be shorter.
pub open spec fn chunk_ranges(start: int, end: int, size: int) -> Seq<(int, int)>
    decreases end - start + 1,
{
    if start > end || size <= 0 {
        Seq::empty()
    } else {
        let last = if start + size - 1 <= end { start + size - 1 } else { end };
        seq![(start, last)] + chunk_ranges(last + 1, end, size)
    }
}

/// The spans that cover a resource of `length` bytes: `[0, length - 1]`.
pub open spec fn length_ranges(length: int, size: int) -> Seq<(int, int)> {
    chunk_ranges(0, length - 1, size)
}

/// The value of a `Range` header for the inclusive span `[first, last]`.
pub open spec fn range_header_text(first: int, last: int) -> Seq<char> {
    seq!['b', 'y', 't', 'e', 's', '='] + decimal(first as nat) + seq!['-'] + decimal(last as nat)
}

/// Byte `b` lies in one of the spans.
pub open spec fn spans_cover(spans: Seq<(int, int)>, b: int) -> bool {
    exists|i: int| 0 <= i < spans.len() && (#[trigger] spans[i]).0 <= b <= spans[i].1
}

proof fn lemma_chunk_ranges_shape(s: int, e: int, c: int)
    requires
        c > 0,
        s <= e + 1,
    ensures
        chunk_ranges(s, e, c).len() == (e - s + 1 + c - 1) / c,
        forall|i: int|
            0 <= i < chunk_ranges(s, e, c).len() ==> s <= (#[trigger] chunk_ranges(s, e, c)[i]).0
                <= chunk_ranges(s, e, c)[i].1 <= e && chunk_ranges(s, e, c)[i].1 - chunk_ranges(
                s,
                e,
                c,
            )[i].0 + 1 <= c,
        forall|i: int|
            0 <= i < chunk_ranges(s, e, c).len() - 1 ==> (#[trigger] chunk_ranges(s, e, c)[i]).1
                - chunk_ranges(s, e, c)[i].0 + 1 == c && chunk_ranges(s, e, c)[i].1 + 1
                == chunk_ranges(s, e, c)[i + 1].0,
        chunk_ranges(s, e, c).len() > 0 ==> chunk_ranges(s, e, c)[0].0 == s && chunk_ranges(
            s,
            e,
            c,
        )[chunk_ranges(s, e, c).len() - 1].1 == e,
        forall|b: int| s <= b <= e ==> #[trigger] spans_cover(chunk_ranges(s, e, c), b),
    decreases e - s + 1,
{
    lemma_basic_div_specific_divisor(c);
    let r = chunk_ranges(s, e, c);
    if s > e {
        assert(r.len() == 0);
    } else {
        let last = if s + c - 1 <= e { s + c - 1 } else { e };
        let rest = chunk_ranges(last + 1, e, c);
        lemma_chunk_ranges_shape(last + 1, e, c);
        assert(r == seq![(s, last)] + rest);
        lemma_div_plus_one(e - s, c);
        if last == e {
            assert(rest.len() == 0);
        }
        assert forall|i: int| 0 <= i < r.len() - 1 implies (#[trigger] r[i]).1 - r[i].0 + 1 == c
            && r[i].1 + 1 == r[i + 1].0 by {
            if i > 0 {
                assert(r[i] == rest[i - 1]);
                assert(r[i + 1] == rest[i]);
            }
        }
        assert forall|i: int| 0 <= i < r.len() implies s <= (#[trigger] r[i]).0 <= r[i].1 <= e
            && r[i].1 - r[i].0 + 1 <= c by {
            if i > 0 {
                assert(r[i] == rest[i - 1]);
            }
        }
        assert forall|b: int| s <= b <= e implies #[trigger] spans_cover(r, b) by {
            if b <= last {
                assert(r[0].0 <= b <= r[0].1);
            } else {
                assert(spans_cover(rest, b));
                let j = choose|j: int| 0 <= j < rest.len() && (#[trigger] rest[j]).0 <= b <= rest[j].1;
                assert(r[j + 1] == rest[j]);
            }
        }
    }
}

/// The spans of a resource of `n` bytes in chunks of `c > 0` bytes: there are
/// `ceil(n / c)` of them; each lies in `[0, n - 1]` and holds at most `c`
/// bytes, all but the last exactly `c`; each begins one byte after its
/// predecessor ends, so that no two overlap; the first begins at byte 0, the
/// last ends at byte `n - 1`, and every byte of `[0, n - 1]` lies in one.
pub proof fn lemma_length_ranges_cover(n: nat, c: nat)
    requires
        c > 0,
    ensures
        length_ranges(n as int, c as int).len() == (n + c - 1) / (c as int),
        forall|i: int|
            0 <= i < length_ranges(n as int, c as int).len() ==> 0 <= (#[trigger] length_ranges(
                n as int,
                c as int,
            )[i]).0 <= length_ranges(n as int, c as int)[i].1 < n && length_ranges(n as int, c as int)[i].1
                - length_ranges(n as int, c as int)[i].0 + 1 <= c,
        forall|i: int|
            0 <= i < length_ranges(n as int, c as int).len() - 1 ==> (#[trigger] length_ranges(
                n as int,
                c as int,
            )[i]).1 - length_ranges(n as int, c as int)[i].0 + 1 == c && length_ranges(n as int, c as int)[i].1
                + 1 == length_ranges(n as int, c as int)[i + 1].0,
        n > 0 ==> length_ranges(n as int, c as int)[0].0 == 0 && length_ranges(n as int, c as int)[(n
            + c - 1) / (c as int) - 1].1 == n - 1,
        forall|b: int| 0 <= b < n ==> #[trigger] spans_cover(length_ranges(n as int, c as int), b),
{
    lemma_chunk_ranges_shape(0, n - 1, c as int);
    if n > 0 {
        assert(length_ranges(n as int, c as int).len() > 0) by {
            lemma_div_plus_one(n - 1, c as int);
        }
    }
}

/// Text of the header `Range: bytes=<first>-<last>`.
pub fn range_header(first: u64, last: u64) -> (r: String)
    ensures
        r@ == range_header_text(first as int, last as int),
{
    proof {
        reveal_strlit("bytes=");
        reveal_strlit("-");
    }
    let mut out = String::from_str("bytes=");
    push_decimal(&mut out, first);
    out.append("-");
    push_decimal(&mut out, last);
    assert(out@ =~= range_header_text(first as int, last as int));
    out
}

/// Error of a range iterator's construction.
#[derive(Debug, PartialEq, Eq, Structural, Clone, Copy)]
pub enum RangeError {
    /// A chunk size of zero would never advance.
    ZeroBufferSize,
}

/// Walks `[start, end]` in steps of `buffer_size` bytes, one span per call of
/// `next`.
#[derive(Debug, Clone, Copy, PartialEq, Eq, Structural)]
pub struct PartialRangeIter {
    start: u64,
    end: u64,
    buffer_size: u32,
    finished: bool,
}

impl PartialRangeIter {
    /// The spans that are still to come.
    pub closed spec fn pending(self) -> Seq<(int, int)> {
        if self.finished {
            Seq::empty()
        } else {
            chunk_ranges(self.start as int, self.end as int, self.buffer_size as int)
        }
    }

    /// The chunk size.
    pub closed spec fn chunk_size(self) -> nat {
        self.buffer_size as nat
    }

    /// An iterator over `[start, end]`; a zero chunk size is refused.
    pub fn new(start: u64, end: u64, buffer_size: u32) -> (r: Result<Self, RangeError>)
        ensures
            r is Err <==> buffer_size == 0,
            r is Err ==> r == Err::<Self, RangeError>(RangeError::ZeroBufferSize),
            r is Ok ==> r.unwrap().pending() == chunk_ranges(start as int, end as int, buffer_size as int),
            r is Ok ==> r.unwrap().chunk_size() == buffer_size,
    {
        if buffer_size == 0 {
            return Err(RangeError::ZeroBufferSize);
        }
        Ok(PartialRangeIter { start, end, buffer_size, finished: false })
    }

    /// The iterator over the `length` bytes of a resource.
    pub closed spec fn spec_for_length(length: u64, buffer_size: u32) -> Self {
        if length == 0 {
            PartialRangeIter { start: 0, end: 0, buffer_size, finished: true }
        } else {
            PartialRangeIter { start: 0, end: (length - 1) as u64, buffer_size, finished: false }
        }
    }

    /// The iterator over the `length` bytes of a resource covers `[0, length - 1]`.
    pub proof fn lemma_spec_for_length(length: u64, buffer_size: u32)
        ensures
            Self::spec_for_length(length, buffer_size).pending() == length_ranges(
                length as int,
                buffer_size as int,
            ),
            Self::spec_for_length(length, buffer_size).chunk_size() == buffer_size,
    {
    }

    /// An iterator over the `length` bytes of a resource, `[0, length - 1]`;
    /// a zero chunk size is refused.
    pub fn for_length(length: u64, buffer_size: u32) -> (r: Result<Self, RangeError>)
        ensures
            r is Err <==> buffer_size == 0,
            r is Ok ==> r.unwrap() == Self::spec_for_length(length, buffer_size),
            r is Err ==> r == Err::<Self, RangeError>(RangeError::ZeroBufferSize),
            r is Ok ==> r.unwrap().pending() == length_ranges(length as int, buffer_size as int),
            r is Ok ==> r.unwrap().chunk_size() == buffer_size,
    {
        if buffer_size == 0 {
            return Err(RangeError::ZeroBufferSize);
        }
        if length == 0 {
            Ok(PartialRangeIter { start: 0, end: 0, buffer_size, finished: true })
        } else {
            Ok(PartialRangeIter { start: 0, end: length - 1, buffer_size, finished: false })
        }
    }

    /// The state after one span has been handed out.
    pub closed spec fn advanced(self) -> Self {
        if self.finished || self.start > self.end || self.buffer_size == 0 {
            self
        } else {
            let last = if self.end - self.start < self.buffer_size - 1 {
                self.end
            } else {
                (self.start + self.buffer_size - 1) as u64
            };
            if last == self.end {
                PartialRangeIter { finished: true, ..self }
            } else {
                PartialRangeIter { start: (last + 1) as u64, ..self }
            }
        }
    }

    /// Handing out one span removes the first pending span.
    pub proof fn lemma_advanced(self)
        ensures
            self.advanced().pending() == (if self.pending().len() == 0 {
                self.pending()
            } else {
                self.pending().drop_first()
            }),
            self.advanced().chunk_size() == self.chunk_size(),
    {
        let p = self.pending();
        if p.len() > 0 {
            let s = self.start as int;
            let e = self.end as int;
            let b = self.buffer_size as int;
            let last = if s + b - 1 <= e { s + b - 1 } else { e };
            assert(p == seq![(s, last)] + chunk_ranges(last + 1, e, b));
            assert(p.drop_first() =~= chunk_ranges(last + 1, e, b));
            if last == e {
                assert(chunk_ranges(last + 1, e, b) =~= Seq::<(int, int)>::empty());
            }
        }
    }

    /// The next span, as its first and last byte.
    pub fn next_span(&mut self) -> (r: Option<(u64, u64)>)
        ensures
            *final(self) == old(self).advanced(),
            r is None <==> old(self).pending().len() == 0,
            r is Some ==> r.unwrap().0 == old(self).pending()[0].0 && r.unwrap().1 == old(
                self,
            ).pending()[0].1,
    {
        if self.finished || self.start > self.end || self.buffer_size == 0 {
            return None;
        }
        let first = self.start;
        let last = if self.end - self.start < (self.buffer_size - 1) as u64 {
            self.end
        } else {
            self.start + (self.buffer_size - 1) as u64
        };
        if last == self.end {
            self.finished = true;
        } else {
            self.start = last + 1;
        }
        Some((first, last))
    }

    /// The next span: its `Range` header text and its first byte.
    pub fn next(&mut self) -> (r: Option<(String, u64)>)
        ensures
            *final(self) == old(self).advanced(),
            r is None <==> old(self).pending().len() == 0,
            r is Some ==> r.unwrap().0@ == range_header_text(
                old(self).pending()[0].0,
                old(self).pending()[0].1,
            ),
            r is Some ==> r.unwrap().1 == old(self).pending()[0].0,
    {
        match self.next_span() {
            None => None,
            Some((first, last)) => Some((range_header(first, last), first)),
        }
    }

    /// All pending spans, in order, each as its header text and first byte.
    pub fn collect_ranges(self) -> (r: Vec<(String, u64)>)
        ensures
            r@.len() == self.pending().len(),
            forall|i: int|
                0 <= i < r@.len() ==> #[trigger] r@[i].0@ == range_header_text(
                    self.pending()[i].0,
                    self.pending()[i].1,
                ) && r@[i].1 == self.pending()[i].0,
    {
        let mut it = self;
        let mut out: Vec<(String, u64)> = Vec::new();
        let ghost all = self.pending();
        loop
            invariant
                out@.len() + it.pending().len() == all.len(),
                it.pending() == all.subrange(out@.len() as int, all.len() as int),
                forall|i: int|
                    0 <= i < out@.len() ==> #[trigger] out@[i].0@ == range_header_text(all[i].0, all[i].1)
                        && out@[i].1 == all[i].0,
            ensures
                out@.len() == all.len(),
                forall|i: int|
                    0 <= i < out@.len() ==> #[trigger] out@[i].0@ == range_header_text(all[i].0, all[i].1)
                        && out@[i].1 == all[i].0,
            decreases it.pending().len(),
        {
            proof {
                it.lemma_advanced();
            }
            let ghost before = it.pending();
            match it.next() {
                None => break,
                Some(item) => {
                    proof {
                        assert(before[0] == all[out@.len() as int]);
                    }
                    out.push(item);
                    proof {
                        assert(it.pending() =~= all.subrange(out@.len() as int, all.len() as int));
                    }
                },
            }
        }
        out
    }
}

/// Whether an HTTP status code reports success (2xx).
pub open spec fn is_success(status: u16) -> bool {
    200 <= status < 300
}

/// Whether an HTTP status code reports success (2xx).
pub fn status_is_success(status: u16) -> (r: bool)
    ensures
        r == is_success(status),
{
    200 <= status && status < 300
}

/// Why a chunked download stops.
#[derive(Debug, PartialEq, Eq, Structural, Clone, Copy)]
pub enum DownloadError {
    /// The server answered with a status other than 2xx.
    ServerError(u16),
    /// The size request's answer gave no content length.
    ContentLengthMissing,
    /// The chunk size was zero.
    InvalidChunkSize,
}

/// The text that describes a download error.
pub open spec fn download_error_text(e: DownloadError) -> Seq<char> {
    match e {
        DownloadError::ServerError(status) => "Server error: "@ + decimal(status as nat),
        DownloadError::ContentLengthMissing => "Content length is empty."@,
        DownloadError::InvalidChunkSize => "invalid buffer_size, give a value greater than zero."@,
    }
}

impl DownloadError {
    /// The text that describes this error.
    pub fn message(&self) -> (r: String)
        ensures
            r@ == download_error_text(*self),
    {
        match self {
            DownloadError::ServerError(status) => {
                let mut out = String::from_str("Server error: ");
                push_decimal(&mut out, *status as u64);
                out
            },
            DownloadError::ContentLengthMissing => String::from_str("Content length is empty."),
            DownloadError::InvalidChunkSize => String::from_str(
                "invalid buffer_size, give a value greater than zero.",
            ),
        }
    }
}

/// One chunk to fetch: its inclusive byte span, and the progress to report
/// before it is fetched (`downloaded` bytes of `total`).
#[derive(Debug, PartialEq, Eq, Structural, Clone, Copy)]
pub struct Chunk {
    pub first: u64,
    pub last: u64,
    pub downloaded: u64,
    pub total: u64,
}

/// A download session: the spans still to fetch of a resource of known size.
#[derive(Debug, PartialEq, Eq, Structural, Clone, Copy)]
pub struct ChunkedDownload {
    ranges: PartialRangeIter,
    total: u64,
}

impl ChunkedDownload {
    /// The spans still to fetch.
    pub closed spec fn pending(self) -> Seq<(int, int)> {
        self.ranges.pending()
    }

    /// The size of the resource.
    pub closed spec fn total(self) -> u64 {
        self.total
    }

    /// A fresh session over a resource of `length` bytes.
    pub closed spec fn fresh(length: u64, chunk_size: u32) -> Self {
        ChunkedDownload { ranges: PartialRangeIter::spec_for_length(length, chunk_size), total: length }
    }

    /// A fresh session has every span of the resource pending.
    pub proof fn lemma_fresh(length: u64, chunk_size: u32)
        ensures
            Self::fresh(length, chunk_size).pending() == length_ranges(
                length as int,
                chunk_size as int,
            ),
            Self::fresh(length, chunk_size).total() == length,
    {
        PartialRangeIter::lemma_spec_for_length(length, chunk_size);
    }

    /// The session after its next chunk has been handed out.
    pub closed spec fn advanced(self) -> Self {
        ChunkedDownload { ranges: self.ranges.advanced(), total: self.total }
    }

    /// Handing out a chunk removes the first pending span; the pending spans
    /// lie in `[0, total - 1]`.
    pub proof fn lemma_advanced(self)
        ensures
            self.advanced().pending() == (if self.pending().len() == 0 {
                self.pending()
            } else {
                self.pending().drop_first()
            }),
            self.advanced().total() == self.total(),
    {
        self.ranges.lemma_advanced();
    }

    /// Starts a session from the answer to the size request (its status and
    /// content length); spans are `chunk_size` bytes long.
    pub fn start(status: u16, content_length: Option<u64>, chunk_size: u32) -> (r: Result<
        Self,
        DownloadError,
    >)
        ensures
            !is_success(status) ==> r == Err::<Self, DownloadError>(
                DownloadError::ServerError(status),
            ),
            is_success(status) && content_length is None ==> r == Err::<Self, DownloadError>(
                DownloadError::ContentLengthMissing,
            ),
            is_success(status) && content_length is Some && chunk_size == 0 ==> r == Err::<
                Self,
                DownloadError,
            >(DownloadError::InvalidChunkSize),
            is_success(status) && content_length is Some && chunk_size > 0 ==> r is Ok
                && r.unwrap() == Self::fresh(content_length.unwrap(), chunk_size)
                && r.unwrap().pending() == length_ranges(
                content_length.unwrap() as int,
                chunk_size as int,
            ) && r.unwrap().total() == content_length.unwrap(),
    {
        if !status_is_success(status) {
            return Err(DownloadError::ServerError(status));
        }
        let total = match content_length {
            None => return Err(DownloadError::ContentLengthMissing),
            Some(n) => n,
        };
        match PartialRangeIter::for_length(total, chunk_size) {
            Err(_) => Err(DownloadError::InvalidChunkSize),
            Ok(ranges) => Ok(ChunkedDownload { ranges, total }),
        }
    }

    /// The next chunk to fetch, with the progress to report before fetching it.
    pub fn next_chunk(&mut self) -> (r: Option<Chunk>)
        ensures
            *final(self) == old(self).advanced(),
            r is None <==> old(self).pending().len() == 0,
            r is Some ==> r.unwrap() == (Chunk {
                first: old(self).pending()[0].0 as u64,
                last: old(self).pending()[0].1 as u64,
                downloaded: old(self).pending()[0].0 as u64,
                total: old(self).total(),
            }),
    {
        match self.ranges.next_span() {
            None => None,
            Some((first, last)) => Some(Chunk { first, last, downloaded: first, total: self.total }),
        }
    }

    /// Checks the answer to one ranged request.
    pub fn check_response(status: u16) -> (r: Result<(), DownloadError>)
        ensures
            r is Ok <==> is_success(status),
            r is Err ==> r == Err::<(), DownloadError>(DownloadError::ServerError(status)),
    {
        if status_is_success(status) {
            Ok(())
        } else {
            Err(DownloadError::ServerError(status))
        }
    }
}

} // verus!
