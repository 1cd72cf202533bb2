//! What whole reads of a body come to: the bytes of its chunks, in order.
use crate::body::{
    goes_on, overwritten, resumes, stepped, supplied, Arrival, BodyReader, BodyState, NextChunk, ReadStep,
};
use crate::error::ErrorKind;
use vstd::prelude::*;

verus! {

/// How a read ended, if it did.
pub enum ReadEnd {
    Done,
    Failed,
    /// It waits for a chunk that has not come.
    Waiting,
}

/// What a read came to: the bytes it handed out, the state it left, how many
/// arrivals it took, and how it ended.
pub struct ReadRun {
    pub delivered: Seq<u8>,
    pub after: BodyState,
    pub used: nat,
    pub end: ReadEnd,
}

/// A read into `room` bytes, step by step, taking the arrivals as it waits.
pub open spec fn read_run(s: BodyState, room: int, arrivals: Seq<Arrival>) -> ReadRun
    decreases arrivals.len(),
{
    let t = stepped(s, room);
    if t.done {
        ReadRun { delivered: t.copied, after: t.after, used: 0, end: ReadEnd::Done }
    } else if arrivals.len() == 0 {
        ReadRun { delivered: t.copied, after: t.after, used: 0, end: ReadEnd::Waiting }
    } else {
        let next = supplied(t.after, arrivals[0]);
        match arrivals[0] {
            Arrival::Failure => ReadRun {
                delivered: t.copied,
                after: next,
                used: 1,
                end: ReadEnd::Failed,
            },
            Arrival::End => ReadRun {
                delivered: t.copied,
                after: next,
                used: 1,
                end: ReadEnd::Done,
            },
            Arrival::Chunk(_) => {
                let rest = read_run(next, room - t.copied.len(), arrivals.skip(1));
                ReadRun {
                    delivered: t.copied + rest.delivered,
                    after: rest.after,
                    used: rest.used + 1,
                    end: rest.end,
                }
            },
        }
    }
}

/// The buffer that a read leaves which has put `m` bytes into `buf` so far: each
/// step writes behind what the steps before it wrote.
pub open spec fn read_buffer(
    s: BodyState,
    buf: Seq<u8>,
    m: int,
    arrivals: Seq<Arrival>,
) -> Seq<u8>
    decreases arrivals.len(),
{
    let t = stepped(s, buf.len() - m);
    let written = overwritten(buf, m, t.copied);
    if !t.done && arrivals.len() > 0 && arrivals[0] is Chunk {
        read_buffer(
            supplied(t.after, arrivals[0]),
            written,
            m + t.copied.len(),
            arrivals.skip(1),
        )
    } else {
        written
    }
}

/// What a read hands out stands in the buffer in one piece, from where the read
/// began, and the rest of the buffer is left as it was.
pub proof fn law_read_fills_front(s: BodyState, buf: Seq<u8>, m: int, arrivals: Seq<Arrival>)
    requires
        0 <= m <= buf.len(),
    ensures
        read_buffer(s, buf, m, arrivals) == overwritten(
            buf,
            m,
            read_run(s, buf.len() - m, arrivals).delivered,
        ),
    decreases arrivals.len(),
{
    let t = stepped(s, buf.len() - m);
    if !t.done && arrivals.len() > 0 && arrivals[0] is Chunk {
        let next = supplied(t.after, arrivals[0]);
        let written = overwritten(buf, m, t.copied);
        let at = m + t.copied.len();
        law_read_fills_front(next, written, at, arrivals.skip(1));
        law_read_fills_buffer(next, (buf.len() - at) as nat, arrivals.skip(1));
        let rest = read_run(next, buf.len() - at, arrivals.skip(1)).delivered;
        assert(overwritten(written, at, rest) =~= overwritten(buf, m, t.copied + rest));
    }
}

/// What one call on a body's reader left, and what it asked for.
pub struct Moment<B> {
    pub reader: BodyReader<B>,
    pub buffer: Seq<u8>,
    pub step: ReadStep<B>,
}

/// Whether a call of `BodyReader::resume` with `came` leads from one moment to
/// the next.
pub open spec fn leads_to<B>(now: Moment<B>, came: NextChunk<B>, next: Moment<B>) -> bool {
    &&& now.step matches ReadStep::Wait { filled, .. }
    &&& resumes(now.reader, now.buffer, filled, came, next.reader, next.buffer, next.step)
}

/// Whether the moments are those of a read that goes on from the state `s`, with
/// the handle `handle` and `m` bytes in `buf`, and then resumes with each of
/// what `came`, in order.
pub open spec fn is_read<B>(
    s: BodyState,
    handle: Option<B>,
    buf: Seq<u8>,
    m: int,
    came: Seq<NextChunk<B>>,
    moments: Seq<Moment<B>>,
) -> bool {
    &&& moments.len() == came.len() + 1
    &&& goes_on(s, handle, buf, m, moments[0].reader, moments[0].buffer, moments[0].step)
    &&& forall|i: int|
        0 <= i < came.len() ==> leads_to(#[trigger] moments[i], came[i], moments[i + 1])
}

/// What came, as arrivals.
pub open spec fn arrivals_of<B>(came: Seq<NextChunk<B>>) -> Seq<Arrival> {
    came.map_values(|next: NextChunk<B>| next.arrival())
}

/// A read made of a call of `BodyReader::step` and calls of
/// `BodyReader::resume` comes to what `read_run` and `read_buffer` say: it
/// leaves that state and that buffer, has used up all that came, and ends in
/// that way, with as many bytes in the buffer as were handed out.
pub proof fn law_calls_make_read<B>(
    s: BodyState,
    handle: Option<B>,
    buf: Seq<u8>,
    m: int,
    came: Seq<NextChunk<B>>,
    moments: Seq<Moment<B>>,
)
    requires
        0 <= m <= buf.len(),
        is_read(s, handle, buf, m, came, moments),
    ensures
        ({
            let r = read_run(s, buf.len() - m, arrivals_of(came));
            let last = moments.last();
            &&& last.reader.state() == r.after
            &&& last.buffer == read_buffer(s, buf, m, arrivals_of(came))
            &&& r.used == came.len()
            &&& match last.step {
                ReadStep::Done(n) => r.end is Done && n == m + r.delivered.len(),
                ReadStep::Failed(e) => r.end is Failed && e.is_raised(
                    ErrorKind::Other,
                    "failed to read body chunk"@,
                ),
                ReadStep::Wait { filled, .. } => r.end is Waiting && filled == m
                    + r.delivered.len(),
            }
        }),
    decreases came.len(),
{
    let arrivals = arrivals_of(came);
    let t = stepped(s, buf.len() - m);
    if came.len() > 0 {
        let rest = came.skip(1);
        assert(leads_to(moments[0], came[0], moments[1]));
        assert(arrivals[0] == came[0].arrival());
        assert(arrivals.skip(1) =~= arrivals_of(rest));
        if came.len() > 1 {
            assert(leads_to(moments[1], came[1], moments[2]));
        }
        if let NextChunk::Chunk(_, body) = came[0] {
            assert forall|i: int| 0 <= i < rest.len() implies leads_to(
                #[trigger] moments.skip(1)[i],
                rest[i],
                moments.skip(1)[i + 1],
            ) by {
                assert(leads_to(moments[i + 1], came[i + 1], moments[i + 2]));
            }
            law_calls_make_read(
                supplied(t.after, arrivals[0]),
                Some(body),
                moments[0].buffer,
                m + t.copied.len(),
                rest,
                moments.skip(1),
            );
        }
    }
}

/// The bytes that are yet to arrive: those of the chunks that come before the
/// body ends or fails.
pub open spec fn incoming(arrivals: Seq<Arrival>) -> Seq<u8>
    decreases arrivals.len(),
{
    if arrivals.len() == 0 {
        Seq::empty()
    } else {
        match arrivals[0] {
            Arrival::Chunk(bytes) => bytes + incoming(arrivals.skip(1)),
            _ => Seq::empty(),
        }
    }
}

/// Every byte that reads can still hand out.
pub open spec fn stream(s: BodyState, arrivals: Seq<Arrival>) -> Seq<u8> {
    if s.open {
        s.pending + incoming(arrivals)
    } else {
        Seq::empty()
    }
}

/// A read that ends hands out the front of the stream and leaves the rest of
/// it for the reads to come. No byte is lost, repeated or moved. One that fails
/// has put all into the buffer that came before the failure, and leaves nothing.
pub proof fn law_read_splits_stream(s: BodyState, room: nat, arrivals: Seq<Arrival>)
    requires
        !(read_run(s, room as int, arrivals).end is Waiting),
    ensures
        ({
            let r = read_run(s, room as int, arrivals);
            &&& r.used <= arrivals.len()
            &&& stream(s, arrivals) == r.delivered + stream(
                r.after,
                arrivals.skip(r.used as int),
            )
        }),
    decreases arrivals.len(),
{
    let t = stepped(s, room as int);
    if t.done {
        assert(arrivals.skip(0) =~= arrivals);
        if s.open {
            assert(s.pending =~= t.copied + t.after.pending);
        }
    } else {
        assert(t.copied =~= s.pending);
        let rest = read_run(
            supplied(t.after, arrivals[0]),
            room - t.copied.len(),
            arrivals.skip(1),
        );
        if arrivals[0] is Chunk {
            law_read_splits_stream(
                supplied(t.after, arrivals[0]),
                (room - t.copied.len()) as nat,
                arrivals.skip(1),
            );
            assert(arrivals.skip(1).skip(rest.used as int) =~= arrivals.skip(rest.used as int + 1));
        }
    }
}

/// A read never hands out more than it was asked for, and one that ends hands
/// out less only when the body is over.
pub proof fn law_read_fills_buffer(s: BodyState, room: nat, arrivals: Seq<Arrival>)
    ensures
        ({
            let r = read_run(s, room as int, arrivals);
            &&& r.delivered.len() <= room
            &&& r.end is Done && r.delivered.len() < room ==> !r.after.open
        }),
    decreases arrivals.len(),
{
    let t = stepped(s, room as int);
    if !t.done && arrivals.len() > 0 && arrivals[0] is Chunk {
        law_read_fills_buffer(
            supplied(t.after, arrivals[0]),
            (room - t.copied.len()) as nat,
            arrivals.skip(1),
        );
    }
}

/// A read of a body that is over hands out nothing and changes nothing.
pub proof fn law_read_after_end(s: BodyState, room: nat, arrivals: Seq<Arrival>)
    requires
        !s.open,
    ensures
        ({
            let r = read_run(s, room as int, arrivals);
            &&& r.end is Done
            &&& r.delivered == Seq::<u8>::empty()
            &&& r.after == s
            &&& r.used == 0
        }),
{
    assert(s.pending.skip(0) =~= s.pending);
    assert(s.pending.take(0) =~= Seq::<u8>::empty());
}

/// A read during which the body fails leaves a body that is over.
pub proof fn law_failed_read_closes_body(s: BodyState, room: nat, arrivals: Seq<Arrival>)
    requires
        read_run(s, room as int, arrivals).end is Failed,
    ensures
        !read_run(s, room as int, arrivals).after.open,
    decreases arrivals.len(),
{
    let t = stepped(s, room as int);
    if arrivals[0] is Chunk {
        law_failed_read_closes_body(
            supplied(t.after, arrivals[0]),
            (room - t.copied.len()) as nat,
            arrivals.skip(1),
        );
    }
}

/// What a series of reads came to, each into as many bytes as `rooms` says.
pub struct ReadsRun {
    pub delivered: Seq<u8>,
    pub after: BodyState,
    pub rest: Seq<Arrival>,
    pub all_done: bool,
}

pub open spec fn reads_run(s: BodyState, rooms: Seq<nat>, arrivals: Seq<Arrival>) -> ReadsRun
    decreases rooms.len(),
{
    if rooms.len() == 0 {
        ReadsRun { delivered: Seq::empty(), after: s, rest: arrivals, all_done: true }
    } else {
        let first = read_run(s, rooms[0] as int, arrivals);
        let others = reads_run(first.after, rooms.skip(1), arrivals.skip(first.used as int));
        ReadsRun {
            delivered: first.delivered + others.delivered,
            after: others.after,
            rest: others.rest,
            all_done: first.end is Done && others.all_done,
        }
    }
}

/// However a caller cuts up its reads, it gets the bytes of the body's chunks
/// in the order in which they came, and what it has not got yet is still to be
/// had.
pub proof fn law_reads_deliver_stream(s: BodyState, rooms: Seq<nat>, arrivals: Seq<Arrival>)
    requires
        reads_run(s, rooms, arrivals).all_done,
    ensures
        ({
            let r = reads_run(s, rooms, arrivals);
            stream(s, arrivals) == r.delivered + stream(r.after, r.rest)
        }),
    decreases rooms.len(),
{
    if rooms.len() > 0 {
        let first = read_run(s, rooms[0] as int, arrivals);
        law_read_splits_stream(s, rooms[0], arrivals);
        law_reads_deliver_stream(first.after, rooms.skip(1), arrivals.skip(first.used as int));
    }
}

} // verus!
