//! What series of calls on a response come to.
use crate::body::{stepped, supplied, BodyState, NextChunk};
use crate::error::{ErrorKind, IoError};
use crate::limit::{accepted, counted, counted_all, within};
use crate::response::{ReadAction, Response};
use crate::stream::{arrivals_of, read_buffer, read_run};
use vstd::prelude::*;

verus! {

/// What one call on a response left, and what it came to.
pub struct ResponseMoment<B, R> {
    pub response: Response<B, R>,
    pub buffer: Seq<u8>,
    pub action: ReadAction<B>,
}

/// Whether a call of `Response::resume_read` with `came` leads from one moment
/// to the next.
pub open spec fn read_leads_to<B, R>(
    now: ResponseMoment<B, R>,
    came: NextChunk<B>,
    next: ResponseMoment<B, R>,
) -> bool {
    &&& now.action matches ReadAction::AwaitChunk { filled, .. }
    &&& now.response.resumes_read(
        now.buffer,
        filled,
        came,
        next.response,
        next.buffer,
        next.action,
    )
}

/// Whether the moments are those of a read of the body of `response`, which is
/// in the state `s` with the handle `handle` and has put `m` bytes into `buf`,
/// and then resumes with each of what `came`, in order.
pub open spec fn is_body_read<B, R>(
    response: Response<B, R>,
    s: BodyState,
    handle: Option<B>,
    buf: Seq<u8>,
    m: int,
    came: Seq<NextChunk<B>>,
    moments: Seq<ResponseMoment<B, R>>,
) -> bool {
    &&& moments.len() == came.len() + 1
    &&& response.reads_body(
        s,
        handle,
        buf,
        m,
        moments[0].response,
        moments[0].buffer,
        moments[0].action,
    )
    &&& forall|i: int|
        0 <= i < came.len() ==> read_leads_to(#[trigger] moments[i], came[i], moments[i + 1])
}

/// A read of a response's body, made of a call of `Response::read` that is not
/// aborted and calls of `Response::resume_read`, hands the caller what
/// `read_run` says, in the buffer that `read_buffer` says. Its bytes are counted
/// once, when it ends, and refused when the count is over the limit; a read that
/// fails counts nothing. Status and content type stay as they are.
pub proof fn law_calls_make_response_read<B, R>(
    response: Response<B, R>,
    s: BodyState,
    handle: Option<B>,
    buf: Seq<u8>,
    m: int,
    came: Seq<NextChunk<B>>,
    moments: Seq<ResponseMoment<B, R>>,
)
    requires
        0 <= m <= buf.len() <= usize::MAX,
        is_body_read(response, s, handle, buf, m, came, moments),
    ensures
        ({
            let r = read_run(s, buf.len() - m, arrivals_of(came));
            let last = moments.last();
            &&& last.response.is_like(response)
            &&& last.response.reader().state() == r.after
            &&& last.buffer == read_buffer(s, buf, m, arrivals_of(came))
            &&& r.used == came.len()
            &&& match last.action {
                ReadAction::Finished(res) => if r.end is Done {
                    response.finishes(Ok((m + r.delivered.len()) as usize), last.response, res)
                } else {
                    &&& r.end is Failed
                    &&& last.response.count() == response.count()
                    &&& res matches Err(e)
                    &&& if within(response.limit(), response.count() as int) {
                        e.is_raised(ErrorKind::Other, "failed to read body chunk"@)
                    } else {
                        e.is_raised(ErrorKind::PermissionDenied, "Size limit reached."@)
                    }
                },
                ReadAction::AwaitChunk { filled, .. } => {
                    &&& r.end is Waiting
                    &&& filled == m + r.delivered.len()
                    &&& last.response.count() == response.count()
                },
                ReadAction::ReadReader => false,
            }
        }),
    decreases came.len(),
{
    let arrivals = arrivals_of(came);
    let t = stepped(s, buf.len() - m);
    if came.len() > 0 {
        let rest = came.skip(1);
        assert(read_leads_to(moments[0], came[0], moments[1]));
        assert(arrivals[0] == came[0].arrival());
        assert(arrivals.skip(1) =~= arrivals_of(rest));
        if came.len() > 1 {
            assert(read_leads_to(moments[1], came[1], moments[2]));
        }
        if let NextChunk::Chunk(_, body) = came[0] {
            assert forall|i: int| 0 <= i < rest.len() implies read_leads_to(
                #[trigger] moments.skip(1)[i],
                rest[i],
                moments.skip(1)[i + 1],
            ) by {
                assert(read_leads_to(moments[i + 1], came[i + 1], moments[i + 2]));
            }
            law_calls_make_response_read(
                moments[0].response,
                supplied(t.after, arrivals[0]),
                Some(body),
                moments[0].buffer,
                m + t.copied.len(),
                rest,
                moments.skip(1),
            );
        }
    }
}

/// One read of a response that ended: what its source came to, and what its
/// caller was handed.
pub struct EndedRead<B, R> {
    pub before: Response<B, R>,
    pub came: Result<usize, IoError>,
    pub after: Response<B, R>,
    pub handed: Result<usize, IoError>,
}

/// Whether these are the ends of reads of one response, in order, as
/// `Response::finish_read` makes them, the first of which finds it with `count`
/// bytes read and the limit `limit`.
pub open spec fn are_reads<B, R>(
    limit: Option<usize>,
    count: int,
    reads: Seq<EndedRead<B, R>>,
) -> bool
    decreases reads.len(),
{
    reads.len() > 0 ==> {
        let first = reads[0];
        &&& first.before.limit() == limit
        &&& first.before.count() == count
        &&& first.before.finishes(first.came, first.after, first.handed)
        &&& are_reads(limit, first.after.count() as int, reads.skip(1))
    }
}

/// The number of bytes that the callers of these reads were handed.
pub open spec fn handed_out<B, R>(reads: Seq<EndedRead<B, R>>) -> int
    decreases reads.len(),
{
    if reads.len() == 0 {
        0
    } else {
        counted(0, reads[0].handed) + handed_out(reads.skip(1))
    }
}

/// What the sources of these reads came to.
pub open spec fn sources<B, R>(reads: Seq<EndedRead<B, R>>) -> Seq<Result<usize, IoError>> {
    reads.map_values(|read: EndedRead<B, R>| read.came)
}

/// The bytes that callers are handed over a series of reads are those that the
/// limit accepts, and the count is that of all that the sources came to.
pub proof fn law_reads_hand_out_accepted<B, R>(
    limit: Option<usize>,
    count: int,
    reads: Seq<EndedRead<B, R>>,
)
    requires
        are_reads(limit, count, reads),
    ensures
        handed_out(reads) == accepted(limit, count, sources(reads)),
        reads.len() > 0 ==> reads.last().after.count() == counted_all(count, sources(reads)),
    decreases reads.len(),
{
    if reads.len() > 0 {
        let rest = reads.skip(1);
        let next = counted(count, reads[0].came);
        law_reads_hand_out_accepted(limit, next, rest);
        assert(sources(reads)[0] == reads[0].came);
        assert(sources(reads).skip(1) =~= sources(rest));
        if rest.len() == 0 {
            assert(counted_all(next, sources(rest)) == next);
        }
    }
}

} // verus!
