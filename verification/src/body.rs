//! Reading a response body that arrives in chunks.
use crate::error::{ErrorKind, IoError};
use vstd::prelude::*;

verus! {

/// What a body reader is, as far as its callers can tell: the bytes of the
/// current chunk that were not handed out yet, and whether more chunks may
/// follow them.
#[verifier::ext_equal]
pub struct BodyState {
    pub pending: Seq<u8>,
    pub open: bool,
}

/// What one step of a read does: the bytes it hands out, the state it leaves,
/// and whether it ends the read.
#[verifier::ext_equal]
pub struct Stepped {
    pub copied: Seq<u8>,
    pub after: BodyState,
    pub done: bool,
}

/// What awaiting the next chunk can come to.
#[verifier::ext_equal]
pub enum Arrival {
    Failure,
    End,
    Chunk(Seq<u8>),
}

/// The step of a read with `room` bytes left to fill. A closed body ends it
/// with nothing; otherwise it takes what is pending as far as that fits, and
/// ends when that fills the room. What is left over waits for the next chunk,
/// and while that is awaited the body counts as closed.
pub open spec fn stepped(s: BodyState, room: int) -> Stepped {
    let k = if !s.open {
        0
    } else if s.pending.len() < room {
        s.pending.len() as int
    } else {
        room
    };
    let done = !s.open || (s.pending.len() > 0 && k == room);
    Stepped {
        copied: s.pending.take(k),
        after: BodyState { pending: s.pending.skip(k), open: s.open && done },
        done,
    }
}

/// The state once the awaited chunk came, or did not.
pub open spec fn supplied(s: BodyState, arrival: Arrival) -> BodyState {
    match arrival {
        Arrival::Chunk(bytes) => BodyState { pending: bytes, open: true },
        _ => s,
    }
}

/// `buf` with `bytes` written over it from position `at` on.
pub open spec fn overwritten(buf: Seq<u8>, at: int, bytes: Seq<u8>) -> Seq<u8> {
    buf.take(at) + bytes + buf.skip(at + bytes.len())
}

/// A chunk of a body, and how far it was read.
pub struct Chunk {
    bytes: Vec<u8>,
    offset: usize,
}

impl Chunk {
    /// The bytes that were not read yet.
    pub closed spec fn rest(self) -> Seq<u8> {
        self.bytes@.skip(self.offset as int)
    }

    #[verifier::type_invariant]
    spec fn inv(self) -> bool {
        self.offset <= self.bytes.len()
    }

    /// A chunk of which nothing was read yet.
    pub fn new(bytes: Vec<u8>) -> (r: Self)
        ensures
            r.rest() == bytes@,
    {
        let r = Chunk { bytes, offset: 0 };
        assert(r.rest() =~= bytes@);
        r
    }

    /// Whether every byte was read.
    pub fn is_exhausted(&self) -> (r: bool)
        ensures
            r == (self.rest().len() == 0),
    {
        proof {
            use_type_invariant(self);
        }
        self.offset >= self.bytes.len()
    }

    /// The number of bytes that were not read yet.
    pub fn remaining(&self) -> (r: usize)
        ensures
            r == self.rest().len(),
    {
        proof {
            use_type_invariant(self);
        }
        self.bytes.len() - self.offset
    }

    /// Moves as many unread bytes as fit to `buf`, from position `at` on, and
    /// says how many those were.
    pub fn copy_to(&mut self, buf: &mut [u8], at: usize) -> (k: usize)
        requires
            at <= old(buf)@.len(),
        ensures
            k == if old(self).rest().len() < old(buf)@.len() - at {
                old(self).rest().len() as int
            } else {
                old(buf)@.len() - at
            },
            final(buf)@ == overwritten(old(buf)@, at as int, old(self).rest().take(k as int)),
            final(buf)@.len() == old(buf)@.len(),
            forall|i: int|
                at <= i < at + k ==> #[trigger] final(buf)@[i] == old(self).rest()[i - at],
            forall|i: int|
                0 <= i < old(buf)@.len() && !(at <= i < at + k) ==> #[trigger] final(buf)@[i]
                    == old(buf)@[i],
            final(self).rest() == old(self).rest().skip(k as int),
    {
        proof {
            use_type_invariant(&*self);
        }
        let left: usize = self.bytes.len() - self.offset;
        let room: usize = buf.len() - at;
        let k: usize = if left < room { left } else { room };
        let ghost before = buf@;
        let ghost unread = self.rest();
        let mut i: usize = 0;
        while i < k
            invariant
                i <= k,
                k <= self.bytes.len() - self.offset,
                k <= before.len() - at,
                at <= before.len() <= usize::MAX,
                unread == self.bytes@.skip(self.offset as int),
                buf@ == overwritten(before, at as int, unread.take(i as int)),
                buf@.len() == before.len(),
            decreases k - i,
        {
            buf[at + i] = self.bytes[self.offset + i];
            assert(unread.take(i as int + 1) =~= unread.take(i as int).push(unread[i as int]));
            i = i + 1;
            assert(buf@ =~= overwritten(before, at as int, unread.take(i as int)));
        }
        self.offset = self.offset + k;
        assert(self.rest() =~= unread.skip(k as int));
        k
    }
}

/// Serves a body to callers that ask for bytes, chunk by chunk. `B` is the
/// handle on which the next chunk is awaited.
pub struct BodyReader<B> {
    chunk: Chunk,
    body: Option<B>,
}

/// What a reader asks of its driver after it has filled what it could.
pub enum ReadStep<B> {
    /// The read is over, with this many bytes at the front of the buffer.
    Done(usize),
    /// The read is over without a result.
    Failed(IoError),
    /// The next chunk is to be awaited on `body`; `filled` bytes are at the
    /// front of the buffer so far.
    Wait { filled: usize, body: B },
}

/// What awaiting the next chunk of a body came to.
pub enum NextChunk<B> {
    Failed,
    Exhausted,
    Chunk(Vec<u8>, B),
}

impl<B> NextChunk<B> {
    pub open spec fn arrival(self) -> Arrival {
        match self {
            NextChunk::Failed => Arrival::Failure,
            NextChunk::Exhausted => Arrival::End,
            NextChunk::Chunk(bytes, _) => Arrival::Chunk(bytes@),
        }
    }
}

/// Whether a read that has put `m` bytes into the buffer `before`, on a reader
/// in state `s` with the handle `handle`, goes on to leave the reader `next`
/// and the buffer `after`, and asks for `r`.
pub open spec fn goes_on<B>(
    s: BodyState,
    handle: Option<B>,
    before: Seq<u8>,
    m: int,
    next: BodyReader<B>,
    after: Seq<u8>,
    r: ReadStep<B>,
) -> bool {
    let t = stepped(s, before.len() - m);
    &&& next.state() =~= t.after
    &&& after =~= overwritten(before, m, t.copied)
    &&& match r {
        ReadStep::Done(n) => t.done && n == m + t.copied.len() && next.body() == handle,
        ReadStep::Failed(_) => false,
        ReadStep::Wait { filled, body } => !t.done && filled == m + t.copied.len() && handle
            == Some(body),
    }
}

/// Whether a read that waited on the reader `reader`, with `m` bytes in the
/// buffer `before`, goes on with what came of that, to leave the reader `next`
/// and the buffer `after`, and asks for `r`.
pub open spec fn resumes<B>(
    reader: BodyReader<B>,
    before: Seq<u8>,
    m: usize,
    came: NextChunk<B>,
    next: BodyReader<B>,
    after: Seq<u8>,
    r: ReadStep<B>,
) -> bool {
    match came {
        NextChunk::Failed => {
            &&& r matches ReadStep::Failed(e)
            &&& e.is_raised(ErrorKind::Other, "failed to read body chunk"@)
            &&& next == reader
            &&& after == before
        },
        NextChunk::Exhausted => {
            &&& r == ReadStep::<B>::Done(m)
            &&& next == reader
            &&& after == before
        },
        NextChunk::Chunk(_, body) => goes_on(
            supplied(reader.state(), came.arrival()),
            Some(body),
            before,
            m as int,
            next,
            after,
            r,
        ),
    }
}

impl<B> BodyReader<B> {
    /// The bytes of the current chunk that were not handed out yet.
    pub closed spec fn pending(self) -> Seq<u8> {
        self.chunk.rest()
    }

    /// The handle on which the next chunk is awaited, unless it was handed
    /// out or the body is over.
    pub closed spec fn body(self) -> Option<B> {
        self.body
    }

    pub open spec fn state(self) -> BodyState {
        BodyState { pending: self.pending(), open: self.body() is Some }
    }

    /// A reader of a body of which nothing was read yet.
    pub fn new(b: B) -> (r: Self)
        ensures
            r.pending() == Seq::<u8>::empty(),
            r.body() == Some(b),
    {
        BodyReader { chunk: Chunk::new(Vec::new()), body: Some(b) }
    }

    /// With how many bytes a step ends a read that has `room` bytes left to
    /// fill, or `None` where it needs the next chunk.
    pub fn ends_with(&self, room: usize) -> (r: Option<usize>)
        ensures
            ({
                let t = stepped(self.state(), room as int);
                match r {
                    Some(k) => t.done && k == t.copied.len(),
                    None => !t.done,
                }
            }),
            r == if self.body() is None {
                Some(0usize)
            } else if self.pending().len() > 0 && self.pending().len() >= room {
                Some(room)
            } else {
                None
            },
    {
        if self.body.is_none() {
            return Some(0);
        }
        let left: usize = self.chunk.remaining();
        if left > 0 && left >= room {
            Some(room)
        } else {
            None
        }
    }

    /// Goes on with a read that has put `m` bytes into `buf` so far, up to
    /// its end or to where the next chunk is needed. A read starts with none.
    pub fn step(&mut self, buf: &mut [u8], m: usize) -> (r: ReadStep<B>)
        requires
            m <= old(buf)@.len(),
        ensures
            goes_on(
                old(self).state(),
                old(self).body(),
                old(buf)@,
                m as int,
                *final(self),
                final(buf)@,
                r,
            ),
    {
        let ghost s = self.state();
        let ghost t = stepped(s, buf@.len() - m);
        if self.body.is_none() {
            assert(overwritten(buf@, m as int, t.copied) =~= buf@);
            assert(s.pending.skip(0) =~= s.pending);
            return ReadStep::Done(m);
        }
        let mut m: usize = m;
        if !self.chunk.is_exhausted() {
            let len: usize = buf.len();
            let k: usize = self.chunk.copy_to(buf, m);
            m = m + k;
            if m == len {
                return ReadStep::Done(m);
            }
        } else {
            assert(t.copied =~= Seq::<u8>::empty());
            assert(overwritten(buf@, m as int, t.copied) =~= buf@);
        }
        match self.body.take() {
            Some(body) => ReadStep::Wait { filled: m, body },
            None => ReadStep::Done(m),
        }
    }

    /// Goes on with a read that waited for a chunk, with what came of that.
    /// A body that failed ends the read with an error, whatever was filled
    /// before.
    pub fn resume(&mut self, buf: &mut [u8], m: usize, next: NextChunk<B>) -> (r: ReadStep<B>)
        requires
            m <= old(buf)@.len(),
        ensures
            resumes(*old(self), old(buf)@, m, next, *final(self), final(buf)@, r),
    {
        match next {
            NextChunk::Failed => ReadStep::Failed(
                IoError::Raised { kind: ErrorKind::Other, message: "failed to read body chunk" },
            ),
            NextChunk::Exhausted => ReadStep::Done(m),
            NextChunk::Chunk(bytes, body) => {
                self.chunk = Chunk::new(bytes);
                self.body = Some(body);
                self.step(buf, m)
            },
        }
    }
}

} // verus!
