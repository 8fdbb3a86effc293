//! Reading a message head off a stream, chunk by chunk.
//!
//! The caller reads from the stream in chunks of up to [`BUFFER_SIZE`] bytes
//! and feeds each chunk to a [`HeadReader`], which says after each whether to
//! go on. The head is complete once the blank line, `CRLF CRLF`, has arrived
//! within the first [`MAX_HEADER_SIZE`] bytes; bytes that arrived after it
//! stay in the buffer and become the body.
use vstd::prelude::*;
use vstd::string::StringExecFns;

use crate::http_impl::backend::{find_subslice, spec_occurs_at};
use crate::http_impl::error::{HttpError, HttpErrorView};
use crate::http_impl::request::{self, HttpRequest};
use crate::http_impl::response::{self, HttpResponse};

verus! {

/// Most bytes that a head may take, blank line included.
pub const MAX_HEADER_SIZE: usize = 32768;

/// Size of the chunks in which the stream is read.
pub const BUFFER_SIZE: usize = 4096;

/// The blank line that ends a head: `CRLF CRLF`.
pub open spec fn spec_crlf2() -> Seq<u8> {
    seq![0x0du8, 0x0a, 0x0d, 0x0a]
}

/// Whether a blank line ends within the first `limit` bytes of `b`.
pub open spec fn spec_has_terminator_within(b: Seq<u8>, limit: int) -> bool {
    exists|i: int| #[trigger] spec_occurs_at(b, spec_crlf2(), i) && i + 4 <= limit
}

/// Whether `b` holds a blank line anywhere.
pub open spec fn spec_has_terminator(b: Seq<u8>) -> bool {
    exists|i: int| #[trigger] spec_occurs_at(b, spec_crlf2(), i)
}

/// Where reading a head stands.
#[derive(Debug, Clone, Copy, PartialEq, Eq)]
pub enum ReadStatus {
    /// No blank line yet: read on.
    NeedMore,
    /// The head is complete.
    Complete,
    /// The stream ended before the head was complete.
    ConnectionClosed,
    /// More than [`MAX_HEADER_SIZE`] bytes have arrived and the head is
    /// not complete within them.
    HeaderTooLarge,
}

/// Where reading stands once the bytes `b` have arrived and the stream has
/// not ended. It depends on the bytes alone, not on the chunks they came in.
pub open spec fn spec_status_of(b: Seq<u8>) -> ReadStatus {
    if spec_has_terminator_within(b, MAX_HEADER_SIZE as int) {
        ReadStatus::Complete
    } else if b.len() > MAX_HEADER_SIZE {
        ReadStatus::HeaderTooLarge
    } else {
        ReadStatus::NeedMore
    }
}

/// What a reader holds and where it stands after it was fed `chunk`, when
/// it held `buffered` and stood at `status` before.
///
/// A reader that has come to an end stays as it is. An empty chunk is the
/// end of the stream. Any other chunk is added to what is held, and the
/// reader stands where all those bytes put it.
pub open spec fn spec_feed(buffered: Seq<u8>, status: ReadStatus, chunk: Seq<u8>) -> (
    Seq<u8>,
    ReadStatus,
) {
    if !(status is NeedMore) {
        (buffered, status)
    } else if chunk.len() == 0 {
        (buffered, ReadStatus::ConnectionClosed)
    } else {
        (buffered + chunk, spec_status_of(buffered + chunk))
    }
}

/// What a new reader holds and where it stands after it was fed `chunks`,
/// one after the other.
pub open spec fn spec_feed_all(chunks: Seq<Seq<u8>>) -> (Seq<u8>, ReadStatus)
    decreases chunks.len(),
{
    if chunks.len() == 0 {
        (Seq::<u8>::empty(), ReadStatus::NeedMore)
    } else {
        let before = spec_feed_all(chunks.drop_last());
        spec_feed(before.0, before.1, chunks.last())
    }
}

/// The chunks put together, in order.
pub open spec fn spec_concat(chunks: Seq<Seq<u8>>) -> Seq<u8>
    decreases chunks.len(),
{
    if chunks.len() == 0 {
        Seq::<u8>::empty()
    } else {
        spec_concat(chunks.drop_last()) + chunks.last()
    }
}

/// Whether none of the chunks is empty: the stream has not ended.
pub open spec fn spec_all_nonempty(chunks: Seq<Seq<u8>>) -> bool {
    forall|i: int| 0 <= i < chunks.len() ==> (#[trigger] chunks[i]).len() > 0
}

/// The bytes read so far and where reading stands.
#[derive(Debug)]
pub struct HeadReader {
    buffer: Vec<u8>,
    status: ReadStatus,
}

impl HeadReader {
    #[verifier::type_invariant]
    spec fn consistent(self) -> bool {
        match self.status {
            ReadStatus::NeedMore => self.buffer@.len() <= MAX_HEADER_SIZE && !spec_has_terminator(
                self.buffer@,
            ),
            ReadStatus::Complete => spec_has_terminator_within(
                self.buffer@,
                MAX_HEADER_SIZE as int,
            ),
            _ => true,
        }
    }

    /// The bytes read so far.
    pub closed spec fn buffered(self) -> Seq<u8> {
        self.buffer@
    }

    /// Where reading stands.
    pub closed spec fn spec_status(self) -> ReadStatus {
        self.status
    }

    /// A reader that has read nothing.
    pub fn new() -> (r: HeadReader)
        ensures
            r.buffered() == Seq::<u8>::empty(),
            r.spec_status() == ReadStatus::NeedMore,
    {
        let r = HeadReader { buffer: Vec::new(), status: ReadStatus::NeedMore };
        assert(!spec_has_terminator(r.buffer@));
        r
    }

    /// Where reading stands.
    pub fn status(&self) -> (s: ReadStatus)
        ensures
            s == self.spec_status(),
            s is Complete ==> spec_has_terminator_within(self.buffered(), MAX_HEADER_SIZE as int),
            s is NeedMore ==> s == spec_status_of(self.buffered()),
    {
        proof {
            use_type_invariant(self);
            lemma_no_terminator(self.buffer@);
        }
        self.status
    }

    /// The bytes read so far.
    pub fn buffer(&self) -> (b: &Vec<u8>)
        ensures
            b@ == self.buffered(),
    {
        &self.buffer
    }

    /// The bytes read so far, out of the reader.
    pub fn into_buffer(self) -> (b: Vec<u8>)
        ensures
            b@ == self.buffered(),
    {
        self.buffer
    }

    /// Takes in the chunk that a read returned and says where reading stands.
    ///
    /// An empty chunk means that the stream has ended. Once reading has come
    /// to an end, well or badly, further chunks change nothing.
    pub fn feed(&mut self, chunk: &[u8]) -> (s: ReadStatus)
        ensures
            s == final(self).spec_status(),
            (final(self).buffered(), final(self).spec_status()) == spec_feed(
                old(self).buffered(),
                old(self).spec_status(),
                chunk@,
            ),
    {
        proof {
            use_type_invariant(&*self);
        }
        match self.status {
            ReadStatus::NeedMore => {},
            _ => { return self.status; },
        }
        let mut buffer: Vec<u8> = Vec::new();
        core::mem::swap(&mut buffer, &mut self.buffer);
        if chunk.len() == 0 {
            *self = HeadReader { buffer, status: ReadStatus::ConnectionClosed };
            return ReadStatus::ConnectionClosed;
        }
        let ghost before = buffer@;
        let prev_len = buffer.len();
        crate::bytes::extend(&mut buffer, chunk);
        assert(buffer@.take(prev_len as int) =~= before);
        let status = judge(buffer.as_slice(), prev_len);
        *self = HeadReader { buffer, status };
        status
    }
}

/// If no blank line is in `b`, none ends within any limit.
proof fn lemma_no_terminator(b: Seq<u8>)
    ensures
        !spec_has_terminator(b) ==> !spec_has_terminator_within(b, MAX_HEADER_SIZE as int),
{
    if !spec_has_terminator(b) {
        assert forall|i: int| !(#[trigger] spec_occurs_at(b, spec_crlf2(), i) && i + 4
            <= MAX_HEADER_SIZE as int) by {}
    }
}

/// Where reading stands for `buffer`, whose first `prev_len` bytes are known
/// to hold no blank line and to be within the limit.
///
/// Only the last three of the old bytes and the new bytes are searched: a
/// blank line that starts earlier would lie in the old bytes.
fn judge(buffer: &[u8], prev_len: usize) -> (s: ReadStatus)
    requires
        prev_len < buffer@.len(),
        prev_len <= MAX_HEADER_SIZE,
        !spec_has_terminator(buffer@.take(prev_len as int)),
    ensures
        s == spec_status_of(buffer@),
        s is NeedMore ==> buffer@.len() <= MAX_HEADER_SIZE && !spec_has_terminator(buffer@),
        !(s is ConnectionClosed),
{
    let len = buffer.len();
    let crlf2: [u8; 4] = [0x0d, 0x0a, 0x0d, 0x0a];
    assert(crlf2@ =~= spec_crlf2());
    // Fast path: the buffer ends with the blank line.
    if len <= MAX_HEADER_SIZE && len >= 4 && buffer[len - 4] == 0x0d && buffer[len - 3] == 0x0a
        && buffer[len - 2] == 0x0d && buffer[len - 1] == 0x0a {
        proof {
            assert(buffer@.subrange(len - 4, len as int) =~= spec_crlf2());
            assert(spec_occurs_at(buffer@, spec_crlf2(), len - 4));
        }
        return ReadStatus::Complete;
    }
    let search_start = if prev_len >= 3 {
        prev_len - 3
    } else {
        0
    };
    let region = vstd::slice::slice_subrange(buffer, search_start, len);
    let found = find_subslice(region, &crlf2);
    proof {
        // Every blank line of the buffer starts in the region, so it shows
        // as a blank line of the region.
        assert forall|j: int| #[trigger]
            spec_occurs_at(buffer@, spec_crlf2(), j) implies j >= search_start && spec_occurs_at(
            region@,
            spec_crlf2(),
            j - search_start,
        ) by {
            if j < search_start {
                let old_bytes = buffer@.take(prev_len as int);
                assert(old_bytes.subrange(j, j + 4) =~= buffer@.subrange(j, j + 4));
                assert(spec_occurs_at(old_bytes, spec_crlf2(), j));
            }
            assert(region@.subrange(j - search_start, j - search_start + 4) =~= buffer@.subrange(
                j,
                j + 4,
            ));
        }
    }
    match found {
        Some(k) => {
            let at = search_start + k;
            proof {
                assert(buffer@.subrange(at as int, at + 4) =~= region@.subrange(k as int, k + 4));
                assert(spec_occurs_at(buffer@, spec_crlf2(), at as int));
            }
            if at + 4 <= MAX_HEADER_SIZE {
                ReadStatus::Complete
            } else {
                proof {
                    assert forall|j: int| !(#[trigger] spec_occurs_at(buffer@, spec_crlf2(), j) && j
                        + 4 <= MAX_HEADER_SIZE as int) by {
                        if spec_occurs_at(buffer@, spec_crlf2(), j) {
                            assert(spec_occurs_at(region@, spec_crlf2(), j - search_start));
                        }
                    }
                }
                ReadStatus::HeaderTooLarge
            }
        },
        None => {
            proof {
                assert forall|j: int| !#[trigger] spec_occurs_at(buffer@, spec_crlf2(), j) by {
                    if spec_occurs_at(buffer@, spec_crlf2(), j) {
                        assert(spec_occurs_at(region@, spec_crlf2(), j - search_start));
                    }
                }
                lemma_no_terminator(buffer@);
            }
            if len > MAX_HEADER_SIZE {
                ReadStatus::HeaderTooLarge
            } else {
                ReadStatus::NeedMore
            }
        },
    }
}

/// Reading ends exactly at the blank line: for bytes within the size limit,
/// the head is complete if a blank line has arrived, and more is needed if
/// none has; how the bytes were cut into chunks plays no part.
pub proof fn lemma_reads_until_blank_line(b: Seq<u8>)
    requires
        b.len() <= MAX_HEADER_SIZE,
    ensures
        spec_has_terminator(b) ==> spec_status_of(b) == ReadStatus::Complete,
        !spec_has_terminator(b) ==> spec_status_of(b) == ReadStatus::NeedMore,
{
    if spec_has_terminator(b) {
        let i = choose|i: int| #[trigger] spec_occurs_at(b, spec_crlf2(), i);
        assert(spec_occurs_at(b, spec_crlf2(), i) && i + 4 <= MAX_HEADER_SIZE as int);
    } else {
        lemma_no_terminator(b);
    }
}

/// More bytes than the size limit with no blank line among them are
/// refused as too large.
pub proof fn lemma_too_large_without_blank_line(b: Seq<u8>)
    requires
        b.len() > MAX_HEADER_SIZE,
        !spec_has_terminator(b),
    ensures
        spec_status_of(b) == ReadStatus::HeaderTooLarge,
{
    lemma_no_terminator(b);
}

/// A blank line that is in some bytes is in the same place in the bytes with
/// more behind them.
proof fn lemma_terminator_stays(b: Seq<u8>, more: Seq<u8>, i: int)
    requires
        spec_occurs_at(b, spec_crlf2(), i),
    ensures
        spec_occurs_at(b + more, spec_crlf2(), i),
{
    assert((b + more).subrange(i, i + 4) =~= b.subrange(i, i + 4));
}

/// As long as no blank line has arrived and the size limit is kept, a reader
/// that is fed chunk after chunk holds all their bytes and needs more.
pub proof fn lemma_feed_all_needs_more(chunks: Seq<Seq<u8>>)
    requires
        spec_all_nonempty(chunks),
        spec_concat(chunks).len() <= MAX_HEADER_SIZE,
        !spec_has_terminator(spec_concat(chunks)),
    ensures
        spec_feed_all(chunks) == (spec_concat(chunks), ReadStatus::NeedMore),
    decreases chunks.len(),
{
    if chunks.len() > 0 {
        let before = chunks.drop_last();
        let held = spec_concat(before);
        assert(spec_all_nonempty(before)) by {
            assert forall|i: int| 0 <= i < before.len() implies (#[trigger] before[i]).len()
                > 0 by {
                assert(before[i] == chunks[i]);
            }
        }
        assert(!spec_has_terminator(held)) by {
            if spec_has_terminator(held) {
                let i = choose|i: int| #[trigger] spec_occurs_at(held, spec_crlf2(), i);
                lemma_terminator_stays(held, chunks.last(), i);
            }
        }
        lemma_feed_all_needs_more(before);
        lemma_reads_until_blank_line(spec_concat(chunks));
    }
}

/// The read loop ends exactly with the chunk that brings the end of the
/// blank line, wherever the chunks are cut.
///
/// Let a stream deliver chunks, none of them empty and all together within
/// the size limit, such that the blank line is complete with the last chunk
/// and not before. Then after each chunk but the last the reader needs
/// more, so that the next read is made; and after the last it is complete
/// and holds all the bytes, so that no further read is made.
pub proof fn lemma_read_ends_at_blank_line(chunks: Seq<Seq<u8>>, j: int)
    requires
        chunks.len() >= 1,
        spec_all_nonempty(chunks),
        spec_concat(chunks).len() <= MAX_HEADER_SIZE,
        spec_has_terminator(spec_concat(chunks)),
        !spec_has_terminator(spec_concat(chunks.drop_last())),
        0 <= j < chunks.len(),
    ensures
        spec_feed_all(chunks) == (spec_concat(chunks), ReadStatus::Complete),
        spec_feed_all(chunks.take(j)) == (spec_concat(chunks.take(j)), ReadStatus::NeedMore),
{
    let before = chunks.drop_last();
    assert(spec_all_nonempty(before)) by {
        assert forall|i: int| 0 <= i < before.len() implies (#[trigger] before[i]).len() > 0 by {
            assert(before[i] == chunks[i]);
        }
    }
    lemma_feed_all_needs_more(before);
    lemma_reads_until_blank_line(spec_concat(chunks));
    lemma_concat_take(before, j);
    assert(chunks.take(j) =~= before.take(j));
    let part = chunks.take(j);
    assert(spec_all_nonempty(part)) by {
        assert forall|i: int| 0 <= i < part.len() implies (#[trigger] part[i]).len() > 0 by {
            assert(part[i] == chunks[i]);
        }
    }
    assert(!spec_has_terminator(spec_concat(part))) by {
        if spec_has_terminator(spec_concat(part)) {
            let i = choose|i: int| #[trigger] spec_occurs_at(spec_concat(part), spec_crlf2(), i);
            let rest = choose|rest: Seq<u8>| spec_concat(before) == spec_concat(part) + rest;
            lemma_terminator_stays(spec_concat(part), rest, i);
        }
    }
    lemma_feed_all_needs_more(part);
}

/// The first chunks put together are a beginning of all chunks put together.
proof fn lemma_concat_take(chunks: Seq<Seq<u8>>, j: int)
    requires
        0 <= j <= chunks.len(),
    ensures
        exists|rest: Seq<u8>| spec_concat(chunks) == spec_concat(chunks.take(j)) + rest,
        spec_concat(chunks.take(j)).len() <= spec_concat(chunks).len(),
    decreases chunks.len(),
{
    if j == chunks.len() {
        assert(chunks.take(j) =~= chunks);
        assert(spec_concat(chunks) == spec_concat(chunks.take(j)) + Seq::<u8>::empty());
    } else {
        let before = chunks.drop_last();
        lemma_concat_take(before, j);
        assert(before.take(j) =~= chunks.take(j));
        let rest = choose|rest: Seq<u8>| spec_concat(before) == spec_concat(before.take(j)) + rest;
        assert(spec_concat(chunks) == spec_concat(chunks.take(j)) + (rest + chunks.last()));
    }
}

/// The read loop refuses a head that outgrows the size limit.
///
/// Let a stream deliver chunks, none of them empty, such that the size limit
/// is passed with the last chunk and not before, and no blank line ends
/// within the limit. Then after each chunk but the last the reader needs
/// more, and after the last it has found the head too large; it has then
/// read no more than the limit and that one chunk.
pub proof fn lemma_read_refuses_too_large(chunks: Seq<Seq<u8>>, j: int)
    requires
        chunks.len() >= 1,
        spec_all_nonempty(chunks),
        spec_concat(chunks).len() > MAX_HEADER_SIZE,
        spec_concat(chunks.drop_last()).len() <= MAX_HEADER_SIZE,
        !spec_has_terminator_within(spec_concat(chunks), MAX_HEADER_SIZE as int),
        0 <= j < chunks.len(),
    ensures
        spec_feed_all(chunks) == (spec_concat(chunks), ReadStatus::HeaderTooLarge),
        spec_feed_all(chunks.take(j)) == (spec_concat(chunks.take(j)), ReadStatus::NeedMore),
        spec_concat(chunks).len() <= MAX_HEADER_SIZE + chunks.last().len(),
{
    let before = chunks.drop_last();
    let held = spec_concat(before);
    assert(spec_all_nonempty(before)) by {
        assert forall|i: int| 0 <= i < before.len() implies (#[trigger] before[i]).len() > 0 by {
            assert(before[i] == chunks[i]);
        }
    }
    assert(!spec_has_terminator(held)) by {
        if spec_has_terminator(held) {
            let i = choose|i: int| #[trigger] spec_occurs_at(held, spec_crlf2(), i);
            lemma_terminator_stays(held, chunks.last(), i);
            assert(spec_occurs_at(spec_concat(chunks), spec_crlf2(), i) && i + 4
                <= MAX_HEADER_SIZE as int);
        }
    }
    lemma_feed_all_needs_more(before);
    lemma_concat_take(before, j);
    assert(chunks.take(j) =~= before.take(j));
    let part = chunks.take(j);
    assert(spec_all_nonempty(part)) by {
        assert forall|i: int| 0 <= i < part.len() implies (#[trigger] part[i]).len() > 0 by {
            assert(part[i] == chunks[i]);
        }
    }
    assert(!spec_has_terminator(spec_concat(part))) by {
        if spec_has_terminator(spec_concat(part)) {
            let i = choose|i: int| #[trigger] spec_occurs_at(spec_concat(part), spec_crlf2(), i);
            let rest = choose|rest: Seq<u8>| held == spec_concat(part) + rest;
            lemma_terminator_stays(spec_concat(part), rest, i);
        }
    }
    lemma_feed_all_needs_more(part);
}

/// The error for a request head that did not arrive whole, if reading came
/// to a bad end.
pub open spec fn spec_request_failure(status: ReadStatus) -> Option<HttpErrorView> {
    match status {
        ReadStatus::ConnectionClosed => Some(HttpErrorView::InvalidRequest("Connection closed"@)),
        ReadStatus::HeaderTooLarge => Some(HttpErrorView::InvalidRequest("Header too large"@)),
        _ => None,
    }
}

/// The error for a response head that did not arrive whole, if reading came
/// to a bad end.
pub open spec fn spec_response_failure(status: ReadStatus) -> Option<HttpErrorView> {
    match status {
        ReadStatus::ConnectionClosed => Some(HttpErrorView::InvalidResponse("Connection closed"@)),
        ReadStatus::HeaderTooLarge => Some(HttpErrorView::InvalidResponse("Header too large"@)),
        _ => None,
    }
}

impl HttpRequest {
    /// Makes the request out of what was read off a stream: the error of a
    /// read that came to a bad end, else the request that the bytes hold.
    pub fn from_stream(reader: HeadReader) -> (r: Result<HttpRequest, HttpError>)
        ensures
            request::spec_result(r) == (match spec_request_failure(reader.spec_status()) {
                Some(e) => Err(e),
                None => request::spec_parse(reader.buffered()),
            }),
    {
        match reader.status() {
            ReadStatus::ConnectionClosed => Err(
                HttpError::InvalidRequest(String::from_str("Connection closed")),
            ),
            ReadStatus::HeaderTooLarge => Err(
                HttpError::InvalidRequest(String::from_str("Header too large")),
            ),
            _ => HttpRequest::parse_bytes(reader.into_buffer()),
        }
    }
}

impl HttpResponse {
    /// Makes the response out of what was read off a stream: the error of a
    /// read that came to a bad end, else the response that the bytes hold.
    pub fn from_stream(reader: HeadReader) -> (r: Result<HttpResponse, HttpError>)
        ensures
            response::spec_result(r) == (match spec_response_failure(reader.spec_status()) {
                Some(e) => Err(e),
                None => response::spec_parse(reader.buffered()),
            }),
    {
        match reader.status() {
            ReadStatus::ConnectionClosed => Err(
                HttpError::InvalidResponse(String::from_str("Connection closed")),
            ),
            ReadStatus::HeaderTooLarge => Err(
                HttpError::InvalidResponse(String::from_str("Header too large")),
            ),
            _ => HttpResponse::parse_bytes(reader.into_buffer()),
        }
    }
}

} // verus!
