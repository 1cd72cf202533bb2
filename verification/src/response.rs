//! What a fetch gives back: a status, a content type and a body to read.
use crate::abort::Abort;
use crate::body::{overwritten, stepped, supplied, BodyReader, BodyState, NextChunk, ReadStep};
use crate::error::{ErrorKind, IoError};
use crate::limit::{counted, within};
use crate::mime::Mime;
use crate::status::{status_text, status_text_of, StatusCode, NOT_FOUND, OK};
use vstd::prelude::*;

verus! {

/// Where the bytes of a response come from. `B` is the handle of a body that
/// arrives in chunks, `R` a reader that stands in for a server.
pub enum ResponseInner<B, R> {
    Response(StatusCode, Option<Mime>, BodyReader<B>),
    Reader(R),
    NotFound,
}

/// The text of a response that a server sent, with the text of its status.
pub open spec fn server_description(status: Seq<char>) -> Seq<char> {
    "hyper response (status="@ + status + ")"@
}

/// Puts the text of a status into the text of the response that has it.
pub fn describe_server_response(status: &str) -> (text: String)
    ensures
        text@ == server_description(status@),
{
    let mut text = "hyper response (status=".to_owned();
    text.append(status);
    text.append(")");
    text
}

impl<B, R> ResponseInner<B, R> {
    pub open spec fn description(self) -> Seq<char> {
        match self {
            ResponseInner::Response(s, _, _) => server_description(status_text_of(s.0)),
            ResponseInner::NotFound => "not found"@,
            ResponseInner::Reader(_) => "io reader"@,
        }
    }

    /// A short text that says what kind of response this is.
    pub fn describe(&self) -> (text: String)
        ensures
            text@ == self.description(),
    {
        match self {
            ResponseInner::Response(s, _, _) => describe_server_response(&status_text(s.0)),
            ResponseInner::NotFound => "not found".to_owned(),
            ResponseInner::Reader(_) => "io reader".to_owned(),
        }
    }

    /// The status: what the server said, and otherwise whether there is
    /// anything to read.
    pub open spec fn status_code(self) -> StatusCode {
        match self {
            ResponseInner::Response(s, _, _) => s,
            ResponseInner::NotFound => StatusCode(NOT_FOUND),
            ResponseInner::Reader(_) => StatusCode(OK),
        }
    }

    pub open spec fn mime(self) -> Option<Mime> {
        match self {
            ResponseInner::Response(_, mime, _) => mime,
            _ => None,
        }
    }
}

/// A fetch response type.
pub struct Response<B, R> {
    inner: ResponseInner<B, R>,
    abort: Abort,
    limit: Option<usize>,
    read: usize,
}

/// What a read of a response has come to, or what it needs done.
pub enum ReadAction<B> {
    /// The read is over, with this result.
    Finished(Result<usize, IoError>),
    /// The next chunk is to be awaited on `body`, and the read goes on with
    /// what comes of that; `filled` bytes are at the front of the buffer so far.
    AwaitChunk { filled: usize, body: B },
    /// The reader that the response was made of is to be read from, and the
    /// read ends with what comes of that.
    ReadReader,
}

impl<B, R> Response<B, R> {
    pub closed spec fn inner(self) -> ResponseInner<B, R> {
        self.inner
    }

    pub closed spec fn abort(self) -> Abort {
        self.abort
    }

    pub closed spec fn limit(self) -> Option<usize> {
        self.limit
    }

    /// The number of bytes that were read so far.
    pub closed spec fn count(self) -> usize {
        self.read
    }

    /// The response that a server sent.
    pub fn received(
        status: StatusCode,
        content_type: Option<Mime>,
        body: B,
        abort: Abort,
        limit: Option<usize>,
    ) -> (r: Self)
        ensures
            r.inner() matches ResponseInner::Response(s, m, reader) && s == status && m
                == content_type && reader.pending() == Seq::<u8>::empty() && reader.body() == Some(
                body,
            ),
            r.abort() == abort,
            r.limit() == limit,
            r.count() == 0,
    {
        Response {
            inner: ResponseInner::Response(status, content_type, BodyReader::new(body)),
            abort,
            limit,
            read: 0,
        }
    }

    /// Creates new successfuly response reading from a file.
    pub fn from_reader(reader: R) -> (r: Self)
        ensures
            r.inner() == ResponseInner::<B, R>::Reader(reader),
            r.abort().flag() is None,
            r.limit() is None,
            r.count() == 0,
    {
        Response { inner: ResponseInner::Reader(reader), abort: Abort::default(), limit: None, read: 0 }
    }

    /// Creates 404 response (useful for tests)
    pub fn not_found() -> (r: Self)
        ensures
            r.inner() == ResponseInner::<B, R>::NotFound,
            r.abort().flag() is None,
            r.limit() is None,
            r.count() == 0,
    {
        Response { inner: ResponseInner::NotFound, abort: Abort::default(), limit: None, read: 0 }
    }

    /// Returns status code of this response.
    pub fn status(&self) -> (r: StatusCode)
        ensures
            r == self.inner().status_code(),
            match self.inner() {
                ResponseInner::Response(sent, _, _) => r == sent,
                ResponseInner::NotFound => r.0 == 404,
                ResponseInner::Reader(_) => r.0 == 200,
            },
    {
        match self.inner {
            ResponseInner::Response(s, _, _) => s,
            ResponseInner::NotFound => StatusCode(NOT_FOUND),
            _ => StatusCode(OK),
        }
    }

    /// Returns `true` if response status code is successful.
    pub fn is_success(&self) -> (r: bool)
        ensures
            r == (self.inner().status_code().0 == 200),
            match self.inner() {
                ResponseInner::Response(sent, _, _) => r == (sent.0 == 200),
                ResponseInner::NotFound => !r,
                ResponseInner::Reader(_) => r,
            },
    {
        self.status() == StatusCode(OK)
    }

    /// Returns `true` if content type of this response is `text/html`
    pub fn is_html(&self) -> (r: bool)
        ensures
            r == (self.inner().mime() matches Some(mime) && mime@.is("text"@, "html"@)),
    {
        if let Some(mime) = self.content_type() {
            mime.is("text", "html")
        } else {
            false
        }
    }

    /// Returns content type of this response (if present)
    pub fn content_type(&self) -> (r: Option<Mime>)
        ensures
            r == self.inner().mime(),
            match self.inner() {
                ResponseInner::Response(_, sent, _) => r == sent,
                _ => r is None,
            },
    {
        if let ResponseInner::Response(_, mime, _) = &self.inner {
            match mime {
                Some(mime) => Some(mime.clone()),
                None => None,
            }
        } else {
            None
        }
    }

    /// A short text that says what kind of response this is.
    pub fn describe(&self) -> (text: String)
        ensures
            text@ == self.inner().description(),
    {
        self.inner.describe()
    }

    /// The number of bytes that were read so far.
    pub fn bytes_read(&self) -> (r: usize)
        ensures
            r == self.count(),
    {
        self.read
    }

    /// The abort control that governs the reads.
    pub fn abort_control(&self) -> (r: &Abort)
        ensures
            *r == self.abort(),
    {
        &self.abort
    }

    /// The number of bytes that may be read, if that is limited.
    pub fn size_limit(&self) -> (r: Option<usize>)
        ensures
            r == self.limit(),
    {
        self.limit
    }

    /// Whether a read whose bytes came to `res` ends with `r` and leaves
    /// `next`: the bytes are counted, and they are refused when the count is
    /// over the limit.
    pub open spec fn finishes(
        self,
        res: Result<usize, IoError>,
        next: Self,
        r: Result<usize, IoError>,
    ) -> bool {
        let count = counted(self.count() as int, res);
        &&& next.count() == count
        &&& next.abort() == self.abort()
        &&& next.limit() == self.limit()
        &&& if within(self.limit(), count) {
            r == res
        } else {
            r matches Err(e) && e.is_raised(ErrorKind::PermissionDenied, "Size limit reached."@)
        }
    }

    /// Whether a read of the body, which is in state `s` with the handle
    /// `handle`, and which has put `m` bytes into the buffer `before`, goes on
    /// to leave `next` and the buffer `after`, and comes to `r`.
    pub open spec fn reads_body(
        self,
        s: BodyState,
        handle: Option<B>,
        before: Seq<u8>,
        m: int,
        next: Self,
        after: Seq<u8>,
        r: ReadAction<B>,
    ) -> bool {
        let t = stepped(s, before.len() - m);
        let filled = m + t.copied.len();
        &&& next.is_like(self)
        &&& next.reader().state() =~= t.after
        &&& after =~= overwritten(before, m, t.copied)
        &&& if t.done {
            &&& next.reader().body() == handle
            &&& r matches ReadAction::Finished(res)
            &&& self.finishes(Ok(filled as usize), next, res)
        } else {
            &&& handle is Some
            &&& r == (ReadAction::AwaitChunk { filled: filled as usize, body: handle->0 })
            &&& next.count() == self.count()
            &&& next.abort() == self.abort()
            &&& next.limit() == self.limit()
        }
    }

    /// The reader of the body that a server sends.
    pub open spec fn reader(self) -> BodyReader<B>
        recommends
            self.inner() is Response,
    {
        self.inner()->Response_2
    }

    /// Whether both are responses that a server sent, with the same status and
    /// content type.
    pub open spec fn is_like(self, other: Self) -> bool {
        &&& self.inner() is Response
        &&& other.inner() is Response
        &&& self.inner()->Response_0 == other.inner()->Response_0
        &&& self.inner()->Response_1 == other.inner()->Response_1
    }

    /// Whether the count can take what a step of a read adds to it that finds
    /// the body in state `s` and has put `m` bytes into a buffer of `len` bytes.
    pub open spec fn count_fits(self, s: BodyState, len: nat, m: int) -> bool {
        let t = stepped(s, len - m);
        t.done ==> self.count() + m + t.copied.len() <= usize::MAX
    }

    /// Whether the count can take what a read into a buffer of `len` bytes adds
    /// to it before it waits, if it does.
    pub open spec fn read_fits(self, len: nat) -> bool {
        self.inner() is Response ==> self.count_fits(self.reader().state(), len, 0)
    }

    /// Whether the count can take what a read adds to it that waited with
    /// `filled` bytes in a buffer of `len` bytes, and goes on with `came`.
    pub open spec fn resume_fits(self, len: nat, filled: usize, came: NextChunk<B>) -> bool {
        match came {
            NextChunk::Failed => true,
            NextChunk::Exhausted => self.count() + filled <= usize::MAX,
            NextChunk::Chunk(_, _) => self.count_fits(
                supplied(self.reader().state(), came.arrival()),
                len,
                filled as int,
            ),
        }
    }

    /// Whether a read that waited with `filled` bytes in the buffer `before`
    /// goes on with `came`, to leave `next` and the buffer `after`, and comes
    /// to `r`.
    pub open spec fn resumes_read(
        self,
        before: Seq<u8>,
        filled: usize,
        came: NextChunk<B>,
        next: Self,
        after: Seq<u8>,
        r: ReadAction<B>,
    ) -> bool {
        match came {
            NextChunk::Failed => {
                &&& r matches ReadAction::Finished(Err(e))
                &&& if within(self.limit(), self.count() as int) {
                    e.is_raised(ErrorKind::Other, "failed to read body chunk"@)
                } else {
                    e.is_raised(ErrorKind::PermissionDenied, "Size limit reached."@)
                }
                &&& next == self
                &&& after == before
            },
            NextChunk::Exhausted => {
                &&& r matches ReadAction::Finished(res)
                &&& self.finishes(Ok(filled), next, res)
                &&& next.inner() == self.inner()
                &&& after == before
            },
            NextChunk::Chunk(_, body) => self.reads_body(
                supplied(self.reader().state(), came.arrival()),
                Some(body),
                before,
                filled as int,
                next,
                after,
                r,
            ),
        }
    }

    /// Whether a read into the buffer `before`, when the fetch is aborted, or
    /// is not, as `aborted` says, leaves `next` and the buffer `after`, and
    /// comes to `r`.
    pub open spec fn reads(
        self,
        aborted: bool,
        before: Seq<u8>,
        next: Self,
        after: Seq<u8>,
        r: ReadAction<B>,
    ) -> bool {
        if aborted {
            &&& r matches ReadAction::Finished(Err(e))
            &&& e.is_raised(ErrorKind::ConnectionAborted, "Fetch aborted."@)
            &&& next == self
            &&& after == before
        } else {
            match self.inner() {
                ResponseInner::Response(_, _, reader) => self.reads_body(
                    reader.state(),
                    reader.body(),
                    before,
                    0,
                    next,
                    after,
                    r,
                ),
                ResponseInner::NotFound => {
                    &&& r == ReadAction::<B>::Finished(Ok(0))
                    &&& next == self
                    &&& after == before
                },
                ResponseInner::Reader(_) => {
                    &&& r == ReadAction::<B>::ReadReader
                    &&& next == self
                    &&& after == before
                },
            }
        }
    }

    /// Reads from the response, unless a look at the abort control finds the
    /// fetch aborted.
    pub fn read(&mut self, buf: &mut [u8]) -> (r: ReadAction<B>)
        requires
            old(self).abort().observes(false) ==> old(self).read_fits(old(buf)@.len()),
        ensures
            exists|aborted: bool| #[trigger]
                old(self).abort().observes(aborted) && old(self).reads(
                    aborted,
                    old(buf)@,
                    *final(self),
                    final(buf)@,
                    r,
                ),
    {
        let aborted = self.abort.is_aborted();
        assert(self.abort().observes(aborted));
        self.read_when(aborted, buf)
    }

    /// Reads from the response when the fetch is aborted, or is not, as
    /// `aborted` says.
    pub fn read_when(&mut self, aborted: bool, buf: &mut [u8]) -> (r: ReadAction<B>)
        requires
            !aborted ==> old(self).read_fits(old(buf)@.len()),
        ensures
            old(self).reads(aborted, old(buf)@, *final(self), final(buf)@, r),
            aborted ==> {
                &&& r matches ReadAction::Finished(Err(IoError::Raised { kind, .. }))
                &&& kind == ErrorKind::ConnectionAborted
            },
    {
        if aborted {
            return ReadAction::Finished(
                Err(
                    IoError::Raised {
                        kind: ErrorKind::ConnectionAborted,
                        message: "Fetch aborted.",
                    },
                ),
            );
        }
        let step = match &mut self.inner {
            ResponseInner::Response(_, _, reader) => reader.step(buf, 0),
            ResponseInner::NotFound => {
                return ReadAction::Finished(Ok(0));
            },
            ResponseInner::Reader(_) => {
                return ReadAction::ReadReader;
            },
        };
        self.after_step(step)
    }

    /// Whether the bytes come from a body that a server sends.
    pub fn has_body(&self) -> (r: bool)
        ensures
            r == (self.inner() is Response),
    {
        match self.inner {
            ResponseInner::Response(_, _, _) => true,
            _ => false,
        }
    }

    /// Whether the count can take a read into a buffer of `len` bytes.
    pub fn can_read(&self, len: usize) -> (r: bool)
        ensures
            r == self.read_fits(len as nat),
    {
        match &self.inner {
            ResponseInner::Response(_, _, reader) => match reader.ends_with(len) {
                Some(n) => n <= usize::MAX - self.read,
                None => true,
            },
            _ => true,
        }
    }

    /// Whether the count can take a read that waited with `filled` bytes in a
    /// buffer of `len` bytes, and goes on with `next`.
    pub fn can_resume(&self, len: usize, filled: usize, next: &NextChunk<B>) -> (r: bool)
        requires
            filled <= len,
        ensures
            r == self.resume_fits(len as nat, filled, *next),
    {
        match next {
            NextChunk::Failed => true,
            NextChunk::Exhausted => filled <= usize::MAX - self.read,
            NextChunk::Chunk(bytes, _) => if bytes.len() > 0 && bytes.len() >= len - filled {
                len <= usize::MAX - self.read
            } else {
                true
            },
        }
    }

    /// Goes on with a read that waited for a chunk of the body, with what came
    /// of that.
    pub fn resume_read(&mut self, buf: &mut [u8], filled: usize, next: NextChunk<B>) -> (r:
        ReadAction<B>)
        requires
            old(self).inner() is Response,
            filled <= old(buf)@.len(),
            old(self).resume_fits(old(buf)@.len(), filled, next),
        ensures
            old(self).resumes_read(old(buf)@, filled, next, *final(self), final(buf)@, r),
    {
        let step = match &mut self.inner {
            ResponseInner::Response(_, _, reader) => reader.resume(buf, filled, next),
            _ => ReadStep::Done(filled),
        };
        self.after_step(step)
    }

    /// Makes of a step of the body's reader a step of the read.
    fn after_step(&mut self, step: ReadStep<B>) -> (r: ReadAction<B>)
        requires
            step matches ReadStep::Done(n) ==> old(self).count() + n <= usize::MAX,
        ensures
            final(self).inner() == old(self).inner(),
            match step {
                ReadStep::Done(n) => r matches ReadAction::Finished(res) && old(self).finishes(
                    Ok(n),
                    *final(self),
                    res,
                ),
                ReadStep::Failed(e) => r matches ReadAction::Finished(res) && old(self).finishes(
                    Err(e),
                    *final(self),
                    res,
                ),
                ReadStep::Wait { filled, body } => r == (ReadAction::AwaitChunk { filled, body })
                    && *final(self) == *old(self),
            },
    {
        match step {
            ReadStep::Done(n) => ReadAction::Finished(self.finish_read(Ok(n))),
            ReadStep::Failed(e) => ReadAction::Finished(self.finish_read(Err(e))),
            ReadStep::Wait { filled, body } => ReadAction::AwaitChunk { filled, body },
        }
    }

    /// The reader that the response was made of, if this is such a response.
    pub fn reader_mut(&mut self) -> (r: Option<&mut R>)
        ensures
            match r {
                Some(reader) => old(self).inner() == ResponseInner::<B, R>::Reader(*reader)
                    && final(self).inner() == ResponseInner::<B, R>::Reader(*final(reader)),
                None => !(old(self).inner() is Reader) && final(self).inner() == old(self).inner(),
            },
            final(self).abort() == old(self).abort(),
            final(self).limit() == old(self).limit(),
            final(self).count() == old(self).count(),
    {
        match &mut self.inner {
            ResponseInner::Reader(reader) => Some(reader),
            _ => None,
        }
    }

    /// Ends a read whose bytes came to `res`: counts them, and refuses them
    /// when the count is over the limit.
    pub fn finish_read(&mut self, res: Result<usize, IoError>) -> (r: Result<usize, IoError>)
        requires
            counted(old(self).count() as int, res) <= usize::MAX,
        ensures
            final(self).inner() == old(self).inner(),
            old(self).finishes(res, *final(self), r),
    {
        if let Ok(read) = res {
            self.read = self.read + read;
        }
        match self.limit {
            Some(limit) => if limit < self.read {
                return Err(
                    IoError::Raised {
                        kind: ErrorKind::PermissionDenied,
                        message: "Size limit reached.",
                    },
                );
            },
            None => {},
        }
        res
    }
}

} // verus!
