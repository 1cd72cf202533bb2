//! What the operations are for, said of what goes in and what comes out: bytes
//! by their position, numbers and texts as they are.
use crate::abort::{abort_text, Abort};
use crate::body::{
    goes_on, overwritten, resumes, supplied, Arrival, BodyReader, BodyState, NextChunk, ReadStep,
};
use crate::client::{
    Client, FetchTask, Scheduled, DEFAULT_LIMIT, POOL_THREADS, QUEUE_LENGTH,
    STARTUP_TIMEOUT_SECONDS, USER_AGENT,
};
use crate::error::{ErrorKind, IoError};
use crate::mime::{ascii_lower, same_but_for_case, MimeView};
use crate::response::{ReadAction, Response, ResponseInner};
use crate::series::{handed_out, EndedRead, ResponseMoment};
use crate::status::{status_text_of, StatusCode, NOT_FOUND, OK};
use crate::stream::{law_read_fills_buffer, law_read_fills_front, read_buffer, read_run, Moment};
use crate::uri::same_address;
use crate::worker::{received, timed, Proto, Request, Step, CLIENT_TIMEOUT_SECONDS};
use hyper::error::UriError;
use std::sync::atomic::AtomicBool;
use vstd::prelude::*;

verus! {

/// Looking at an abort control gives what a load of its flag gives, and `false`
/// where there is no flag.
pub proof fn law_abort_is_what_the_flag_says(abort: Abort, r: bool)
    ensures
        abort.flag() matches Some(flag) ==> (abort.observes(r) <==> call_ensures(
            AtomicBool::load,
            (&*flag, std::sync::atomic::Ordering::SeqCst),
            r,
        )),
        abort.flag() is None ==> (abort.observes(r) <==> r == false),
{
}

/// The text of an abort control names it and says whether it is aborted.
pub proof fn law_abort_text(aborted: bool)
    ensures
        aborted ==> abort_text(aborted) == "Abort(true)"@,
        !aborted ==> abort_text(aborted) == "Abort(false)"@,
{
}

/// A step of a read moves the first pending bytes into the buffer, each one
/// unchanged and to its place, and as many as there are or fit. The rest of the
/// buffer and the rest of the pending bytes stay as they were. The read is over
/// when the body was over or pending bytes filled the buffer, and waits
/// otherwise, for a chunk on the handle that the reader had.
pub proof fn law_step_moves_bytes<B>(
    s: BodyState,
    handle: Option<B>,
    before: Seq<u8>,
    m: int,
    next: BodyReader<B>,
    after: Seq<u8>,
    r: ReadStep<B>,
)
    requires
        0 <= m <= before.len(),
        s.open == (handle is Some),
        goes_on(s, handle, before, m, next, after, r),
    ensures
        ({
            let k = s.pending.len() - next.pending().len();
            &&& 0 <= k <= before.len() - m
            &&& s.open ==> k == s.pending.len() || k == before.len() - m
            &&& !s.open ==> k == 0
            &&& after.len() == before.len()
            &&& forall|i: int| m <= i < m + k ==> #[trigger] after[i] == s.pending[i - m]
            &&& forall|i: int|
                0 <= i < after.len() && !(m <= i < m + k) ==> #[trigger] after[i] == before[i]
            &&& forall|i: int|
                0 <= i < next.pending().len() ==> #[trigger] next.pending()[i] == s.pending[k + i]
            &&& if !s.open || (s.pending.len() > 0 && k == before.len() - m) {
                r matches ReadStep::Done(n) && n == m + k && next.body() == handle
            } else {
                r matches ReadStep::Wait { filled, body } && filled == m + k && handle == Some(body)
                    && next.body() is None
            }
        }),
{
}

/// A reader's state is made of its pending bytes and of whether it has the
/// handle of its body.
pub proof fn law_reader_state<B>(reader: BodyReader<B>)
    ensures
        reader.state().pending == reader.pending(),
        reader.state().open == (reader.body() is Some),
{
}

/// A read that waited goes on with the bytes of the chunk that came, each one
/// unchanged and to its place. Where the body ended, the read ends with what it
/// had; where it failed, the read fails. Either way nothing else changes.
pub proof fn law_resume_moves_bytes<B>(
    reader: BodyReader<B>,
    before: Seq<u8>,
    m: usize,
    came: NextChunk<B>,
    next: BodyReader<B>,
    after: Seq<u8>,
    r: ReadStep<B>,
)
    requires
        m <= before.len(),
        resumes(reader, before, m, came, next, after, r),
    ensures
        after.len() == before.len(),
        match came {
            NextChunk::Chunk(bytes, handle) => {
                let k = bytes@.len() - next.pending().len();
                &&& 0 <= k <= before.len() - m
                &&& k == bytes@.len() || k == before.len() - m
                &&& forall|i: int| m <= i < m + k ==> #[trigger] after[i] == bytes@[i - m]
                &&& forall|i: int|
                    0 <= i < after.len() && !(m <= i < m + k) ==> #[trigger] after[i] == before[i]
                &&& forall|i: int|
                    0 <= i < next.pending().len() ==> #[trigger] next.pending()[i] == bytes@[k + i]
                &&& if bytes@.len() > 0 && k == before.len() - m {
                    r matches ReadStep::Done(n) && n == m + k && next.body() == Some(handle)
                } else {
                    r matches ReadStep::Wait { filled, body } && filled == m + k && body == handle
                        && next.body() is None
                }
            },
            NextChunk::Exhausted => {
                &&& r matches ReadStep::Done(n) && n == m
                &&& next == reader
                &&& after == before
            },
            NextChunk::Failed => {
                &&& r matches ReadStep::Failed(IoError::Raised { kind, message })
                &&& kind == ErrorKind::Other
                &&& message@ == "failed to read body chunk"@
                &&& next == reader
                &&& after == before
            },
        },
{
}

/// Over a whole read, made of a step and of resuming with each of what came,
/// every byte that is put into the buffer is the byte of the stream that stands
/// at its place: of the pending bytes, followed by those of the chunks in the
/// order in which they came. The rest of the buffer stays as it was, and what
/// was not put into it is still pending. A read that fails or waits has put the
/// whole stream into the buffer so far.
pub proof fn law_read_is_the_stream_by_position<B>(
    s: BodyState,
    handle: Option<B>,
    buf: Seq<u8>,
    m: int,
    came: Seq<NextChunk<B>>,
    moments: Seq<Moment<B>>,
    n: int,
)
    requires
        0 <= m <= buf.len(),
        s.open,
        handle is Some,
        moments.len() == came.len() + 1,
        goes_on(s, handle, buf, m, moments[0].reader, moments[0].buffer, moments[0].step),
        forall|i: int|
            0 <= i < came.len() ==> #[trigger] moments[i].step is Wait && resumes(
                moments[i].reader,
                moments[i].buffer,
                moments[i].step->filled,
                came[i],
                moments[i + 1].reader,
                moments[i + 1].buffer,
                moments[i + 1].step,
            ),
        match moments.last().step {
            ReadStep::Done(filled) => n == filled - m,
            ReadStep::Failed(_) => n == moments[came.len() - 1].step->filled - m,
            ReadStep::Wait { filled, .. } => n == filled - m,
        },
    ensures
        ({
            let stream = s.pending + Seq::new(
                came.len(),
                |i: int| match came[i] {
                    NextChunk::Chunk(bytes, _) => bytes@,
                    _ => Seq::empty(),
                },
            ).flatten();
            let after = moments.last().buffer;
            let pending = moments.last().reader.pending();
            &&& 0 <= n <= buf.len() - m
            &&& n <= stream.len()
            &&& after.len() == buf.len()
            &&& forall|i: int| m <= i < m + n ==> #[trigger] after[i] == stream[i - m]
            &&& forall|i: int|
                0 <= i < buf.len() && !(m <= i < m + n) ==> #[trigger] after[i] == buf[i]
            &&& pending == stream.skip(n)
            &&& moments.last().step !is Done ==> n == stream.len()
        }),
    decreases came.len(),
{
    let first = moments[0];
    law_step_moves_bytes(s, handle, buf, m, first.reader, first.buffer, first.step);
    let k = s.pending.len() - first.reader.pending().len();
    let bytes_of = |next: NextChunk<B>|
        match next {
            NextChunk::Chunk(bytes, _) => bytes@,
            _ => Seq::<u8>::empty(),
        };
    let chunks = Seq::new(
        came.len(),
        |i: int| match came[i] {
            NextChunk::Chunk(bytes, _) => bytes@,
            _ => Seq::<u8>::empty(),
        },
    );
    if came.len() == 0 {
        assert(chunks.flatten() =~= Seq::empty());
        assert(s.pending + chunks.flatten() =~= s.pending);
        assert(first.reader.pending() =~= s.pending.skip(n));
    } else {
        let rest = came.skip(1);
        let others = moments.skip(1);
        assert(moments[0].step is Wait);
        law_resume_moves_bytes(
            first.reader,
            first.buffer,
            first.step->filled,
            came[0],
            moments[1].reader,
            moments[1].buffer,
            moments[1].step,
        );
        if came.len() > 1 {
            assert(moments[1].step is Wait);
        }
        assert(chunks.first() == bytes_of(came[0]));
        assert(chunks.drop_first() =~= Seq::new(
            rest.len(),
            |i: int| match rest[i] {
                NextChunk::Chunk(bytes, _) => bytes@,
                _ => Seq::<u8>::empty(),
            },
        ));
        let later = chunks.drop_first().flatten();
        assert(chunks.flatten() =~= bytes_of(came[0]) + later);
        match came[0] {
            NextChunk::Chunk(bytes, body) => {
                assert forall|i: int| 0 <= i < rest.len() implies #[trigger] others[i].step is Wait
                    && resumes(
                    others[i].reader,
                    others[i].buffer,
                    others[i].step->filled,
                    rest[i],
                    others[i + 1].reader,
                    others[i + 1].buffer,
                    others[i + 1].step,
                ) by {
                    assert(moments[i + 1].step is Wait);
                }
                if others.last().step is Failed {
                    assert(rest.len() > 0);
                    assert(others[rest.len() - 1] == moments[came.len() - 1]);
                }
                law_read_is_the_stream_by_position(
                    supplied(first.reader.state(), came[0].arrival()),
                    Some(body),
                    first.buffer,
                    m + k,
                    rest,
                    others,
                    n - k,
                );
                assert(s.pending + chunks.flatten() =~= s.pending + (bytes@ + later));
                assert((s.pending + chunks.flatten()).skip(n) =~= (bytes@ + later).skip(n - k));
            },
            _ => {
                assert(chunks.len() == 1);
                assert(later =~= Seq::empty());
                assert(s.pending + chunks.flatten() =~= s.pending);
                assert(first.reader.pending() =~= s.pending.skip(n));
            },
        }
    }
}

/// The end of a read adds its bytes to the count, and nothing for a failure.
/// What it came to is handed on as it is while the count is no more than the
/// limit, or where there is none, and is refused otherwise.
pub proof fn law_finish_counts_and_limits<B, R>(
    response: Response<B, R>,
    res: Result<usize, IoError>,
    next: Response<B, R>,
    r: Result<usize, IoError>,
)
    requires
        response.finishes(res, next, r),
    ensures
        res matches Ok(n) ==> next.count() == response.count() + n,
        res is Err ==> next.count() == response.count(),
        next.abort() == response.abort(),
        next.limit() == response.limit(),
        response.limit() is None ==> r == res,
        response.limit() matches Some(limit) ==> if next.count() <= limit {
            r == res
        } else {
            &&& r matches Err(IoError::Raised { kind, message })
            &&& kind == ErrorKind::PermissionDenied
            &&& message@ == "Size limit reached."@
        },
{
}

/// However much was read and whatever the limit is, a read of a fetch that is
/// found aborted ends with an error of its own kind, and changes nothing. No
/// such read ends with `Ok`, waits for a chunk or turns to a reader.
pub proof fn law_aborted_read_fails<B, R>(
    response: Response<B, R>,
    before: Seq<u8>,
    next: Response<B, R>,
    after: Seq<u8>,
    r: ReadAction<B>,
)
    requires
        response.reads(true, before, next, after, r),
    ensures
        r matches ReadAction::Finished(Err(IoError::Raised { kind, message })) && kind
            == ErrorKind::ConnectionAborted && message@ == "Fetch aborted."@,
        next == response,
        after == before,
{
}

/// A read of a fetch that is not aborted hands out nothing where nothing was
/// found, and turns to the reader where the response was made of one. Either way
/// nothing changes. A response that a server sent is read from its body, from
/// the front of the buffer.
pub proof fn law_read_goes_to_its_source<B, R>(
    response: Response<B, R>,
    before: Seq<u8>,
    next: Response<B, R>,
    after: Seq<u8>,
    r: ReadAction<B>,
)
    requires
        response.reads(false, before, next, after, r),
    ensures
        match response.inner() {
            ResponseInner::NotFound => {
                &&& r matches ReadAction::Finished(Ok(n)) && n == 0
                &&& next == response
                &&& after == before
            },
            ResponseInner::Reader(_) => {
                &&& r is ReadReader
                &&& next == response
                &&& after == before
            },
            ResponseInner::Response(_, _, reader) => response.reads_body(
                BodyState { pending: reader.pending(), open: reader.body() is Some },
                reader.body(),
                before,
                0,
                next,
                after,
                r,
            ),
        },
{
}

/// Reading the body of a response moves the first pending bytes into the buffer,
/// each one unchanged and to its place, and as many as there are or fit. When
/// that ends the read, the bytes are counted and held against the limit;
/// otherwise the read waits and nothing is counted. The status, the content
/// type, the abort control and the limit stay as they are.
pub proof fn law_body_read_moves_bytes<B, R>(
    response: Response<B, R>,
    s: BodyState,
    handle: Option<B>,
    before: Seq<u8>,
    m: int,
    next: Response<B, R>,
    after: Seq<u8>,
    r: ReadAction<B>,
)
    requires
        0 <= m <= before.len() <= usize::MAX,
        s.open == (handle is Some),
        response.reads_body(s, handle, before, m, next, after, r),
    ensures
        response.inner() matches ResponseInner::Response(status, mime, _)
            && next.inner() matches ResponseInner::Response(status2, mime2, reader) && {
            let k = s.pending.len() - reader.pending().len();
            &&& status2 == status
            &&& mime2 == mime
            &&& next.abort() == response.abort()
            &&& next.limit() == response.limit()
            &&& 0 <= k <= before.len() - m
            &&& s.open ==> k == s.pending.len() || k == before.len() - m
            &&& !s.open ==> k == 0
            &&& after.len() == before.len()
            &&& forall|i: int| m <= i < m + k ==> #[trigger] after[i] == s.pending[i - m]
            &&& forall|i: int|
                0 <= i < after.len() && !(m <= i < m + k) ==> #[trigger] after[i] == before[i]
            &&& forall|i: int|
                0 <= i < reader.pending().len() ==> #[trigger] reader.pending()[i] == s.pending[k
                    + i]
            &&& if !s.open || (s.pending.len() > 0 && k == before.len() - m) {
                &&& reader.body() == handle
                &&& next.count() == response.count() + m + k
                &&& r matches ReadAction::Finished(res)
                &&& if response.limit() matches Some(limit) && limit < next.count() {
                    res matches Err(IoError::Raised { kind, message }) && kind
                        == ErrorKind::PermissionDenied && message@ == "Size limit reached."@
                } else {
                    res matches Ok(n) && n == m + k
                }
            } else {
                &&& reader.body() is None
                &&& next.count() == response.count()
                &&& r matches ReadAction::AwaitChunk { filled, body }
                &&& filled == m + k
                &&& handle == Some(body)
            }
        },
{
}

/// A read of a response that waited goes on with the bytes of the chunk that
/// came. Where the body ended, the read ends with what it had, counted and held
/// against the limit. Where the body failed, the read fails and counts nothing.
pub proof fn law_resumed_read<B, R>(
    response: Response<B, R>,
    before: Seq<u8>,
    filled: usize,
    came: NextChunk<B>,
    next: Response<B, R>,
    after: Seq<u8>,
    r: ReadAction<B>,
)
    requires
        response.resumes_read(before, filled, came, next, after, r),
    ensures
        match came {
            NextChunk::Chunk(bytes, body) => response.reads_body(
                BodyState { pending: bytes@, open: true },
                Some(body),
                before,
                filled as int,
                next,
                after,
                r,
            ),
            NextChunk::Exhausted => {
                &&& r matches ReadAction::Finished(res)
                &&& next.inner() == response.inner()
                &&& next.abort() == response.abort()
                &&& next.limit() == response.limit()
                &&& next.count() == response.count() + filled
                &&& after == before
                &&& if response.limit() matches Some(limit) && limit < next.count() {
                    res matches Err(IoError::Raised { kind, message }) && kind
                        == ErrorKind::PermissionDenied && message@ == "Size limit reached."@
                } else {
                    res matches Ok(n) && n == filled
                }
            },
            NextChunk::Failed => {
                &&& next == response
                &&& after == before
                &&& r matches ReadAction::Finished(Err(IoError::Raised { kind, message }))
                &&& if response.limit() matches Some(limit) && limit < response.count() {
                    kind == ErrorKind::PermissionDenied && message@ == "Size limit reached."@
                } else {
                    kind == ErrorKind::Other && message@ == "failed to read body chunk"@
                }
            },
        },
{
}

/// A read is only ever asked for room in the count where it ends and adds to it:
/// for the whole buffer where the pending bytes fill it, and for nothing where
/// the body is over.
pub proof fn law_room_that_reads_need<B, R>(
    response: Response<B, R>,
    len: nat,
    filled: usize,
    came: NextChunk<B>,
)
    requires
        filled <= len,
    ensures
        response.inner() !is Response ==> response.read_fits(len),
        response.inner() matches ResponseInner::Response(_, _, reader) ==> (response.read_fits(len)
            <==> (reader.body() is Some && reader.pending().len() > 0 && reader.pending().len()
            >= len ==> response.count() + len <= usize::MAX)),
        match came {
            NextChunk::Failed => response.resume_fits(len, filled, came),
            NextChunk::Exhausted => response.resume_fits(len, filled, came) <==> response.count()
                + filled <= usize::MAX,
            NextChunk::Chunk(bytes, _) => response.resume_fits(len, filled, came) <==> (
            bytes@.len() > 0 && bytes@.len() >= len - filled ==> response.count() + len
                <= usize::MAX),
        },
{
}

/// The status of a response is the code that the server sent, whatever it is.
/// Without a server it says whether there is anything to read: 200 for a reader,
/// 404 where nothing was found.
pub proof fn law_status_is_what_was_sent<B, R>(inner: ResponseInner<B, R>)
    ensures
        match inner {
            ResponseInner::Response(sent, mime, _) => {
                &&& inner.status_code() == sent
                &&& inner.mime() == mime
            },
            ResponseInner::NotFound => inner.status_code().0 == 404 && inner.mime() is None,
            ResponseInner::Reader(_) => inner.status_code().0 == 200 && inner.mime() is None,
        },
{
}

/// The text of a response names its kind, and the status that a server sent.
pub proof fn law_response_text<B, R>(inner: ResponseInner<B, R>)
    ensures
        match inner {
            ResponseInner::Response(sent, _, _) => inner.description()
                == "hyper response (status="@ + status_text_of(sent.0) + ")"@,
            ResponseInner::NotFound => inner.description() == "not found"@,
            ResponseInner::Reader(_) => inner.description() == "io reader"@,
        },
{
}

/// Two texts are the same but for case exactly when they are as long, and at each
/// place have the same character or the two cases of one letter of ASCII.
pub proof fn law_case_makes_no_difference(a: Seq<char>, b: Seq<char>)
    ensures
        same_but_for_case(a, b) <==> a.len() == b.len() && forall|i: int|
            0 <= i < a.len() ==> {
                ||| #[trigger] a[i] == b[i]
                ||| 'A' <= a[i] <= 'Z' && b[i] as int == a[i] as int + 32
                ||| 'A' <= b[i] <= 'Z' && a[i] as int == b[i] as int + 32
            },
{
    let la = a.map_values(|c: char| ascii_lower(c));
    let lb = b.map_values(|c: char| ascii_lower(c));
    if same_but_for_case(a, b) {
        assert(la.len() == lb.len());
        assert forall|i: int| 0 <= i < a.len() implies {
            ||| #[trigger] a[i] == b[i]
            ||| 'A' <= a[i] <= 'Z' && b[i] as int == a[i] as int + 32
            ||| 'A' <= b[i] <= 'Z' && a[i] as int == b[i] as int + 32
        } by {
            assert(la[i] == lb[i]);
        }
    }
    if a.len() == b.len() && (forall|i: int|
        0 <= i < a.len() ==> {
            ||| #[trigger] a[i] == b[i]
            ||| 'A' <= a[i] <= 'Z' && b[i] as int == a[i] as int + 32
            ||| 'A' <= b[i] <= 'Z' && a[i] as int == b[i] as int + 32
        }) {
        assert forall|i: int| 0 <= i < la.len() implies la[i] == lb[i] by {
            assert(a[i] == a[i]);
        }
        assert(la =~= lb);
    }
}

/// Over a whole read of a body that a server sends, every byte that is put into
/// the buffer is the byte of the stream that stands at its place: of the pending
/// bytes, followed by those of the chunks in the order in which they came. A read
/// that ends with `n` has put that many bytes there, and the count has grown by
/// as much and is within the limit. One that is refused is over the limit, and
/// one that fails or waits has counted nothing. Status, content type, abort
/// control and limit stay as they are.
pub proof fn law_response_read_is_the_stream_by_position<B, R>(
    response: Response<B, R>,
    s: BodyState,
    handle: B,
    buf: Seq<u8>,
    m: int,
    came: Seq<NextChunk<B>>,
    moments: Seq<ResponseMoment<B, R>>,
)
    requires
        0 <= m <= buf.len() <= usize::MAX,
        s.open,
        moments.len() == came.len() + 1,
        response.reads_body(
            s,
            Some(handle),
            buf,
            m,
            moments[0].response,
            moments[0].buffer,
            moments[0].action,
        ),
        forall|i: int|
            0 <= i < came.len() ==> #[trigger] moments[i].action is AwaitChunk
                && moments[i].response.resumes_read(
                moments[i].buffer,
                moments[i].action->filled,
                came[i],
                moments[i + 1].response,
                moments[i + 1].buffer,
                moments[i + 1].action,
            ),
    ensures
        ({
            let stream = s.pending + Seq::new(
                came.len(),
                |i: int| match came[i] {
                    NextChunk::Chunk(bytes, _) => bytes@,
                    _ => Seq::empty(),
                },
            ).flatten();
            let last = moments.last();
            let after = last.buffer;
            &&& after.len() == buf.len()
            &&& forall|i: int| 0 <= i < m ==> #[trigger] after[i] == buf[i]
            &&& last.response.abort() == response.abort()
            &&& last.response.limit() == response.limit()
            &&& response.inner() matches ResponseInner::Response(status, mime, _)
                && last.response.inner() matches ResponseInner::Response(status2, mime2, reader)
                && status2 == status && mime2 == mime && match last.action {
                ReadAction::Finished(Ok(n)) => {
                    &&& m <= n <= buf.len()
                    &&& n - m <= stream.len()
                    &&& forall|i: int| m <= i < n ==> #[trigger] after[i] == stream[i - m]
                    &&& forall|i: int| n <= i < buf.len() ==> #[trigger] after[i] == buf[i]
                    &&& reader.pending() == stream.skip(n - m)
                    &&& last.response.count() == response.count() + n
                    &&& response.limit() matches Some(limit) ==> last.response.count() <= limit
                },
                ReadAction::Finished(Err(IoError::Raised { kind, message })) => {
                    ||| {
                        &&& kind == ErrorKind::PermissionDenied
                        &&& message@ == "Size limit reached."@
                        &&& response.limit() matches Some(limit) && limit < last.response.count()
                    }
                    ||| {
                        &&& kind == ErrorKind::Other
                        &&& message@ == "failed to read body chunk"@
                        &&& came.len() > 0 && came.last() is Failed
                        &&& last.response.count() == response.count()
                    }
                },
                ReadAction::AwaitChunk { filled, .. } => {
                    &&& filled - m == stream.len()
                    &&& filled <= buf.len()
                    &&& forall|i: int| m <= i < filled ==> #[trigger] after[i] == stream[i - m]
                    &&& forall|i: int| filled <= i < buf.len() ==> #[trigger] after[i] == buf[i]
                    &&& last.response.count() == response.count()
                },
                _ => false,
            }
        }),
    decreases came.len(),
{
    let first = moments[0];
    law_body_read_moves_bytes(
        response,
        s,
        Some(handle),
        buf,
        m,
        first.response,
        first.buffer,
        first.action,
    );
    let k = s.pending.len() - first.response.reader().pending().len();
    let bytes_of = |next: NextChunk<B>|
        match next {
            NextChunk::Chunk(bytes, _) => bytes@,
            _ => Seq::<u8>::empty(),
        };
    let chunks = Seq::new(
        came.len(),
        |i: int| match came[i] {
            NextChunk::Chunk(bytes, _) => bytes@,
            _ => Seq::<u8>::empty(),
        },
    );
    if came.len() == 0 {
        assert(chunks.flatten() =~= Seq::empty());
        assert(s.pending + chunks.flatten() =~= s.pending);
        assert(first.response.reader().pending() =~= s.pending.skip(k));
    } else {
        let rest = came.skip(1);
        let others = moments.skip(1);
        assert(moments[0].action is AwaitChunk);
        law_resumed_read(
            first.response,
            first.buffer,
            first.action->filled,
            came[0],
            moments[1].response,
            moments[1].buffer,
            moments[1].action,
        );
        if came.len() > 1 {
            assert(moments[1].action is AwaitChunk);
        }
        assert(chunks.first() == bytes_of(came[0]));
        assert(chunks.drop_first() =~= Seq::new(
            rest.len(),
            |i: int| match rest[i] {
                NextChunk::Chunk(bytes, _) => bytes@,
                _ => Seq::<u8>::empty(),
            },
        ));
        let later = chunks.drop_first().flatten();
        assert(chunks.flatten() =~= bytes_of(came[0]) + later);
        let stream = s.pending + chunks.flatten();
        assert(k == s.pending.len());
        match came[0] {
            NextChunk::Chunk(bytes, body) => {
                assert forall|i: int| 0 <= i < rest.len() implies #[trigger] others[i].action
                    is AwaitChunk && others[i].response.resumes_read(
                    others[i].buffer,
                    others[i].action->filled,
                    rest[i],
                    others[i + 1].response,
                    others[i + 1].buffer,
                    others[i + 1].action,
                ) by {
                    assert(moments[i + 1].action is AwaitChunk);
                }
                law_response_read_is_the_stream_by_position(
                    first.response,
                    BodyState { pending: bytes@, open: true },
                    body,
                    first.buffer,
                    m + k,
                    rest,
                    others,
                );
                let tail = bytes@ + later;
                assert(stream =~= s.pending + tail);
                if rest.len() > 0 {
                    assert(rest.last() == came.last());
                }
                if let ReadAction::Finished(Ok(n)) = moments.last().action {
                    assert(stream.skip(n - m) =~= tail.skip(n - m - k));
                }
            },
            _ => {
                assert(came.len() == 1);
                assert(later =~= Seq::empty());
                assert(stream =~= s.pending);
                assert(first.response.reader().pending() =~= s.pending.skip(k));
            },
        }
    }
}

/// The task of a fetch carries the limit that the client had, whatever it is, and
/// the response carries that of the task.
pub proof fn law_limit_goes_with_the_fetch<P, T, B, R>(
    client: Client<P, T>,
    uri: Result<Seq<char>, UriError>,
    abort: Abort,
    scheduled: Scheduled,
    status: StatusCode,
    content_type: Option<MimeView>,
    body: B,
    response: Response<B, R>,
)
    requires
        client.schedules(uri, abort, Ok(scheduled)),
        scheduled.task.responds(status, content_type, body, response),
    ensures
        response.limit() == client.limit(),
        response.count() == 0,
{
}

/// Of the reads of a response to a fetch, in order, each hands on what its source
/// came to, as long as all that the sources came to is within the limit that the
/// client had when the fetch was scheduled; a read that goes over it is refused.
/// So a body that is no larger than the limit is handed out whole, and without a
/// limit every body is.
pub proof fn law_body_within_limit_is_handed_out<P, T, B, R>(
    client: Client<P, T>,
    uri: Result<Seq<char>, UriError>,
    abort: Abort,
    scheduled: Scheduled,
    status: StatusCode,
    content_type: Option<MimeView>,
    body: B,
    response: Response<B, R>,
    reads: Seq<EndedRead<B, R>>,
    totals: Seq<int>,
)
    requires
        client.schedules(uri, abort, Ok(scheduled)),
        scheduled.task.responds(status, content_type, body, response),
        totals.len() == reads.len() + 1,
        totals[0] == 0,
        forall|i: int|
            0 <= i < reads.len() ==> totals[i + 1] == totals[i] + (match (
            #[trigger] reads[i]).came {
                Ok(n) => n as int,
                Err(_) => 0,
            }),
        reads.len() > 0 ==> reads[0].before.limit() == response.limit() && reads[0].before.count()
            == response.count(),
        forall|i: int|
            0 <= i < reads.len() ==> (#[trigger] reads[i]).before.finishes(
                reads[i].came,
                reads[i].after,
                reads[i].handed,
            ),
        forall|i: int|
            0 <= i < reads.len() - 1 ==> (#[trigger] reads[i]).after.limit() == reads[i
                + 1].before.limit() && reads[i].after.count() == reads[i + 1].before.count(),
    ensures
        forall|i: int|
            0 <= i < reads.len() ==> match client.limit() {
                Some(limit) if limit < totals[i + 1] => (#[trigger] reads[i]).handed matches Err(
                    IoError::Raised { kind, message },
                ) && kind == ErrorKind::PermissionDenied && message@ == "Size limit reached."@,
                _ => (#[trigger] reads[i]).handed == reads[i].came,
            },
        client.limit() is None ==> handed_out(reads) == totals.last(),
        client.limit() matches Some(limit) && totals.last() <= limit ==> handed_out(reads)
            == totals.last(),
{
    lemma_reads_follow_limit(client.limit(), reads, totals);
}

/// As `law_body_within_limit_is_handed_out`, from any point on.
proof fn lemma_reads_follow_limit<B, R>(
    limit: Option<usize>,
    reads: Seq<EndedRead<B, R>>,
    totals: Seq<int>,
)
    requires
        totals.len() == reads.len() + 1,
        forall|i: int|
            0 <= i < reads.len() ==> totals[i + 1] == totals[i] + (match (
            #[trigger] reads[i]).came {
                Ok(n) => n as int,
                Err(_) => 0,
            }),
        reads.len() > 0 ==> reads[0].before.limit() == limit && reads[0].before.count()
            == totals[0],
        forall|i: int|
            0 <= i < reads.len() ==> (#[trigger] reads[i]).before.finishes(
                reads[i].came,
                reads[i].after,
                reads[i].handed,
            ),
        forall|i: int|
            0 <= i < reads.len() - 1 ==> (#[trigger] reads[i]).after.limit() == reads[i
                + 1].before.limit() && reads[i].after.count() == reads[i + 1].before.count(),
    ensures
        totals[0] <= totals.last(),
        forall|i: int|
            0 <= i < reads.len() ==> match limit {
                Some(limit) if limit < totals[i + 1] => (#[trigger] reads[i]).handed matches Err(
                    IoError::Raised { kind, message },
                ) && kind == ErrorKind::PermissionDenied && message@ == "Size limit reached."@,
                _ => (#[trigger] reads[i]).handed == reads[i].came,
            },
        limit is None ==> handed_out(reads) == totals.last() - totals[0],
        limit matches Some(limit) && totals.last() <= limit ==> handed_out(reads) == totals.last()
            - totals[0],
    decreases reads.len(),
{
    if reads.len() > 0 {
        let first = reads[0];
        let rest = reads.skip(1);
        let later = totals.skip(1);
        law_finish_counts_and_limits(first.before, first.came, first.after, first.handed);
        assert(first.after.count() == totals[1]);
        assert forall|i: int| 0 <= i < rest.len() implies later[i + 1] == later[i] + (match (
        #[trigger] rest[i]).came {
            Ok(n) => n as int,
            Err(_) => 0,
        }) by {
            assert(rest[i] == reads[i + 1]);
        }
        assert forall|i: int| 0 <= i < rest.len() - 1 implies (#[trigger] rest[i]).after.limit()
            == rest[i + 1].before.limit() && rest[i].after.count() == rest[i + 1].before.count() by {
            assert(rest[i] == reads[i + 1]);
        }
        lemma_reads_follow_limit(limit, rest, later);
        assert forall|i: int| 0 <= i < reads.len() implies match limit {
            Some(limit) if limit < totals[i + 1] => (#[trigger] reads[i]).handed matches Err(
                IoError::Raised { kind, message },
            ) && kind == ErrorKind::PermissionDenied && message@ == "Size limit reached."@,
            _ => (#[trigger] reads[i]).handed == reads[i].came,
        } by {
            if i > 0 {
                assert(reads[i] == rest[i - 1]);
                assert(later[i] == totals[i + 1]);
            }
        }
        assert(later.last() == totals.last());
    }
}

/// Whatever status a server sends, the response has it, and it is a success
/// exactly when that is 200.
pub proof fn law_status_of_reply<B, R>(
    task: FetchTask,
    status: StatusCode,
    content_type: Option<MimeView>,
    body: B,
    response: Response<B, R>,
    code: StatusCode,
    success: bool,
)
    requires
        task.responds(status, content_type, body, response),
        call_ensures(Response::<B, R>::status, (&response,), code),
        call_ensures(Response::<B, R>::is_success, (&response,), success),
    ensures
        code == status,
        success == (status.0 == 200),
{
}

/// Every timer that a worker starts is of five seconds, and is for the request
/// that came.
pub proof fn law_timer_is_five_seconds<S>(
    running: bool,
    message: Proto<S>,
    running_then: bool,
    step: Step<S>,
)
    requires
        (running_then, step) == received(running, message),
    ensures
        step matches Step::StartTimer { seconds, request, reply_to } ==> seconds == 5 && message
            == Proto::Request(request, reply_to),
        running && message is Request <==> step is StartTimer,
        step is StartTimer <==> running_then,
        step is StartTimer || step is Stop,
{
}

/// A request is sent as it came exactly when its timer started and the worker had
/// not stopped.
pub proof fn law_timed_request_is_sent<S>(
    running: bool,
    started: bool,
    request: Request,
    reply_to: S,
    running_then: bool,
    step: Step<S>,
)
    requires
        (running_then, step) == timed(running, started, request, reply_to),
    ensures
        step matches Step::Send { request: sent, reply_to: to } ==> sent == request && to
            == reply_to,
        running && started <==> step is Send,
        step is Send <==> running_then,
        step is Send || step is Stop,
{
}

/// The buffer that a read leaves has at each place what the read handed out for
/// that place, and is otherwise as it was.
pub proof fn law_read_buffer_by_position(
    s: BodyState,
    buf: Seq<u8>,
    m: int,
    arrivals: Seq<Arrival>,
)
    requires
        0 <= m <= buf.len(),
    ensures
        ({
            let after = read_buffer(s, buf, m, arrivals);
            let delivered = read_run(s, buf.len() - m, arrivals).delivered;
            &&& after.len() == buf.len()
            &&& m + delivered.len() <= buf.len()
            &&& forall|i: int|
                0 <= i < delivered.len() ==> after[m + i] == #[trigger] delivered[i]
            &&& forall|i: int|
                0 <= i < m || m + delivered.len() <= i < buf.len() ==> #[trigger] after[i] == buf[i]
        }),
{
    law_read_fills_front(s, buf, m, arrivals);
    law_read_fills_buffer(s, (buf.len() - m) as nat, arrivals);
}

/// Writing over a part of a buffer puts each byte to its place and leaves the
/// rest.
pub proof fn law_overwritten_by_position(buf: Seq<u8>, at: int, bytes: Seq<u8>)
    requires
        0 <= at,
        at + bytes.len() <= buf.len(),
    ensures
        overwritten(buf, at, bytes).len() == buf.len(),
        forall|i: int|
            0 <= i < bytes.len() ==> overwritten(buf, at, bytes)[at + i] == #[trigger] bytes[i],
        forall|i: int|
            0 <= i < at || at + bytes.len() <= i < buf.len() ==> #[trigger] overwritten(
                buf,
                at,
                bytes,
            )[i] == buf[i],
{
}

/// An address is the same as another if that is it, letter for letter, or it with
/// a single `/` more.
pub proof fn law_same_address(url: Seq<char>, text: Seq<char>)
    requires
        same_address(url, text),
    ensures
        text == url || exists|i: int|
            0 <= i <= url.len() && #[trigger] text[i] == '/' && text.len() == url.len() + 1
                && text.take(i) == url.take(i) && text.skip(i + 1) == url.skip(i),
{
    if text != url {
        let i = choose|i: int| 0 <= i <= url.len() && text == #[trigger] url.insert(i, '/');
        assert(text[i] == '/');
        assert(text.take(i) =~= url.take(i));
        assert(text.skip(i + 1) =~= url.skip(i));
    }
}

/// The numbers and the name that fetching goes by.
pub proof fn law_fixed_values()
    ensures
        CLIENT_TIMEOUT_SECONDS == 5,
        STARTUP_TIMEOUT_SECONDS == 3,
        POOL_THREADS == 4,
        QUEUE_LENGTH == 64,
        DEFAULT_LIMIT == 64 * 1024 * 1024,
        OK == 200,
        NOT_FOUND == 404,
        USER_AGENT@ == "Parity Fetch Neo"@,
{
}

} // verus!
