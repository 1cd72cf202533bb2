//! What calls of the operations come to, and how they fit together.
use crate::abort::Abort;
use crate::body::{BodyReader, Chunk, NextChunk, ReadStep};
use crate::client::{closed, Async, Client, Fetch, FetchTask, Reply, Scheduled, Startup};
use crate::error::{Error, ErrorKind, HyperError, IoError, OtherError};
use crate::laws::{law_case_makes_no_difference, law_same_address};
use crate::mime::{content_type_of, Mime};
use crate::response::{describe_server_response, ReadAction, Response, ResponseInner};
use crate::status::{status_text_of, StatusCode};
use crate::uri::parsed_uri;
use crate::worker::{reply, Outcome, Proto, Request, Step, Worker};
use futures::sync::oneshot::Canceled;
use hyper::error::UriError;
use hyper::Error as HttpError;
use std::sync::atomic::AtomicBool;
use std::sync::Arc;
use vstd::prelude::*;
use vstd::string::to_string_from_display_ensures;

verus! {

/// The control that `Abort::default` makes is never found aborted.
pub proof fn law_default_abort_never_aborts(abort: Abort, r: bool)
    requires
        call_ensures(Abort::default, (), abort),
        call_ensures(Abort::is_aborted, (&abort,), r),
    ensures
        !r,
{
}

/// Looking at a control that was made of a flag, or at a clone of it, gives what
/// a load of that flag gives.
pub proof fn law_abort_looks_at_its_flag(
    flag: Arc<AtomicBool>,
    abort: Abort,
    copy: Abort,
    r: bool,
    s: bool,
)
    requires
        call_ensures(Abort::from, (flag,), abort),
        call_ensures(Abort::clone, (&abort,), copy),
        call_ensures(Abort::is_aborted, (&abort,), r),
        call_ensures(Abort::is_aborted, (&copy,), s),
    ensures
        call_ensures(AtomicBool::load, (&*flag, std::sync::atomic::Ordering::SeqCst), r),
        call_ensures(AtomicBool::load, (&*flag, std::sync::atomic::Ordering::SeqCst), s),
{
}

/// The text of a control says what a look at it gives.
pub proof fn law_abort_describes_a_look(abort: Abort, text: String)
    requires
        call_ensures(Abort::describe, (&abort,), text),
    ensures
        text@ == "Abort(true)"@ || text@ == "Abort(false)"@,
        text@ == "Abort(true)"@ ==> abort.observes(true),
        text@ == "Abort(false)"@ ==> abort.observes(false),
{
    reveal_strlit("Abort(true)");
    reveal_strlit("Abort(false)");
    assert("Abort(true)"@.len() != "Abort(false)"@.len());
}

/// Nothing of a new chunk was read, and the number of bytes that are left says
/// whether it is exhausted.
pub proof fn law_chunk_starts_unread(bytes: Vec<u8>, chunk: Chunk, n: usize, exhausted: bool)
    requires
        call_ensures(Chunk::new, (bytes,), chunk),
        call_ensures(Chunk::remaining, (&chunk,), n),
        call_ensures(Chunk::is_exhausted, (&chunk,), exhausted),
    ensures
        chunk.rest() == bytes@,
        n == bytes@.len(),
        exhausted == (bytes@.len() == 0),
{
}

/// `Chunk::copy_to` puts the first unread bytes into the buffer from position
/// `at` on, each one unchanged, and as many as there are or fit. The rest of the
/// buffer is left as it was, and the bytes that were not put there are still
/// unread, in their order.
pub proof fn law_copy_moves_bytes(chunk: &mut Chunk, buf: &mut [u8], at: usize, k: usize)
    requires
        at <= old(buf)@.len(),
        call_ensures(Chunk::copy_to, (chunk, buf, at), k),
    ensures
        k <= old(chunk).rest().len(),
        at + k <= old(buf)@.len(),
        k == old(chunk).rest().len() || at + k == old(buf)@.len(),
        final(buf)@.len() == old(buf)@.len(),
        forall|i: int| 0 <= i < k ==> final(buf)@[at + i] == #[trigger] old(chunk).rest()[i],
        forall|i: int|
            0 <= i < at || at + k <= i < old(buf)@.len() ==> #[trigger] final(buf)@[i]
                == old(buf)@[i],
        final(chunk).rest().len() == old(chunk).rest().len() - k,
        forall|i: int|
            0 <= i < old(chunk).rest().len() - k ==> #[trigger] final(chunk).rest()[i]
                == old(chunk).rest()[k + i],
{
    assert forall|i: int| 0 <= i < k implies final(buf)@[at + i]
        == #[trigger] old(chunk).rest()[i] by {
        let j: int = at + i;
        assert(final(buf)@[j] == old(chunk).rest()[j - at]);
    }
}

/// Nothing is pending in a new reader, and it has the handle of its body.
pub proof fn law_reader_starts_empty<B>(body: B, reader: BodyReader<B>)
    requires
        call_ensures(BodyReader::<B>::new, (body,), reader),
    ensures
        reader.pending().len() == 0,
        reader.body() == Some(body),
{
}

/// `BodyReader::ends_with` foretells what a step does: the step ends the read
/// with that many bytes more, or it waits.
pub proof fn law_step_ends_as_foretold<B>(
    reader: &mut BodyReader<B>,
    buf: &mut [u8],
    m: usize,
    room: usize,
    foretold: Option<usize>,
    r: ReadStep<B>,
)
    requires
        m <= old(buf)@.len(),
        room == old(buf)@.len() - m,
        call_ensures(BodyReader::<B>::ends_with, (&*old(reader), room), foretold),
        call_ensures(BodyReader::<B>::step, (reader, buf, m), r),
    ensures
        match foretold {
            Some(k) => r matches ReadStep::Done(n) && n == m + k,
            None => r is Wait,
        },
{
}

/// A step puts pending bytes into the buffer behind those that are there, each
/// one unchanged, and as many as there are or fit. The read is over when the
/// body was over or pending bytes filled the buffer. Otherwise it waits on the
/// handle of the body, and the reader is without it meanwhile.
pub proof fn law_step_call_moves_bytes<B>(
    reader: &mut BodyReader<B>,
    buf: &mut [u8],
    m: usize,
    r: ReadStep<B>,
)
    requires
        m <= old(buf)@.len(),
        call_ensures(BodyReader::<B>::step, (reader, buf, m), r),
    ensures
        final(buf)@.len() == old(buf)@.len(),
        old(reader).body() is None ==> {
            &&& r matches ReadStep::Done(n) && n == m
            &&& final(buf)@ == old(buf)@
            &&& final(reader).pending() == old(reader).pending()
            &&& final(reader).body() is None
        },
        old(reader).body() matches Some(handle) ==> {
            let left = old(reader).pending();
            let k = left.len() - final(reader).pending().len();
            &&& 0 <= k
            &&& m + k <= old(buf)@.len()
            &&& k == left.len() || m + k == old(buf)@.len()
            &&& forall|i: int| m <= i < m + k ==> #[trigger] final(buf)@[i] == left[i - m]
            &&& forall|i: int|
                0 <= i < m || m + k <= i < old(buf)@.len() ==> #[trigger] final(buf)@[i]
                    == old(buf)@[i]
            &&& forall|i: int|
                k <= i < left.len() ==> #[trigger] left[i] == final(reader).pending()[i - k]
            &&& if left.len() > 0 && m + k == old(buf)@.len() {
                &&& r matches ReadStep::Done(n) && n == m + k
                &&& final(reader).body() == Some(handle)
            } else {
                &&& r matches ReadStep::Wait { filled, body } && filled == m + k && body == handle
                &&& final(reader).body() is None
            }
        },
{
}

/// Resuming with a chunk puts the bytes of that chunk into the buffer behind
/// those that are there, each one unchanged. Resuming at the end of the body ends
/// the read with what is there, and resuming after a failure fails it; both leave
/// the buffer and the reader as they are.
pub proof fn law_resume_call_moves_bytes<B>(
    reader: &mut BodyReader<B>,
    buf: &mut [u8],
    m: usize,
    came: NextChunk<B>,
    r: ReadStep<B>,
)
    requires
        m <= old(buf)@.len(),
        call_ensures(BodyReader::<B>::resume, (reader, buf, m, came), r),
    ensures
        final(buf)@.len() == old(buf)@.len(),
        match came {
            NextChunk::Chunk(bytes, handle) => {
                let k = bytes@.len() - final(reader).pending().len();
                &&& 0 <= k
                &&& m + k <= old(buf)@.len()
                &&& k == bytes@.len() || m + k == old(buf)@.len()
                &&& forall|i: int| m <= i < m + k ==> #[trigger] final(buf)@[i] == bytes@[i - m]
                &&& forall|i: int|
                    0 <= i < m || m + k <= i < old(buf)@.len() ==> #[trigger] final(buf)@[i]
                        == old(buf)@[i]
                &&& forall|i: int|
                    k <= i < bytes@.len() ==> #[trigger] bytes@[i] == final(reader).pending()[i - k]
                &&& if bytes@.len() > 0 && m + k == old(buf)@.len() {
                    &&& r matches ReadStep::Done(n) && n == m + k
                    &&& final(reader).body() == Some(handle)
                } else {
                    &&& r matches ReadStep::Wait { filled, body } && filled == m + k && body
                        == handle
                    &&& final(reader).body() is None
                }
            },
            NextChunk::Exhausted => {
                &&& r matches ReadStep::Done(n) && n == m
                &&& *final(reader) == *old(reader)
                &&& final(buf)@ == old(buf)@
            },
            NextChunk::Failed => {
                &&& r matches ReadStep::Failed(IoError::Raised { kind, message }) && kind
                    == ErrorKind::Other && message@ == "failed to read body chunk"@
                &&& *final(reader) == *old(reader)
                &&& final(buf)@ == old(buf)@
            },
        },
{
}

/// A response that a server sent has the status, the content type, the abort
/// control and the limit that it was made of, whatever they are, and nothing of
/// it was read. It is a success exactly when the code is 200.
pub proof fn law_received_keeps_what_was_sent<B, R>(
    status: StatusCode,
    content_type: Option<Mime>,
    body: B,
    abort: Abort,
    limit: Option<usize>,
    response: Response<B, R>,
    code: StatusCode,
    success: bool,
    mime: Option<Mime>,
    control: &Abort,
    size: Option<usize>,
    count: usize,
    body_there: bool,
)
    requires
        call_ensures(
            Response::<B, R>::received,
            (status, content_type, body, abort, limit),
            response,
        ),
        call_ensures(Response::<B, R>::status, (&response,), code),
        call_ensures(Response::<B, R>::is_success, (&response,), success),
        call_ensures(Response::<B, R>::content_type, (&response,), mime),
        call_ensures(Response::<B, R>::abort_control, (&response,), control),
        call_ensures(Response::<B, R>::size_limit, (&response,), size),
        call_ensures(Response::<B, R>::bytes_read, (&response,), count),
        call_ensures(Response::<B, R>::has_body, (&response,), body_there),
    ensures
        code == status,
        success == (status.0 == 200),
        mime == content_type,
        *control == abort,
        size == limit,
        count == 0,
        body_there,
        response.inner() matches ResponseInner::Response(_, _, reader) && reader.pending().len()
            == 0 && reader.body() == Some(body),
{
}

/// A response that is made of a reader is a success without a content type, and
/// one of nothing is none. Neither can be aborted or has a limit.
pub proof fn law_responses_without_server<B, R>(
    reader: R,
    found: Response<B, R>,
    missing: Response<B, R>,
    code: StatusCode,
    success: bool,
    mime: Option<Mime>,
    html: bool,
    size: Option<usize>,
    count: usize,
    body_there: bool,
)
    requires
        call_ensures(Response::<B, R>::from_reader, (reader,), found),
        call_ensures(Response::<B, R>::not_found, (), missing),
    ensures
        found.inner() == ResponseInner::<B, R>::Reader(reader),
        missing.inner() is NotFound,
        call_ensures(Response::<B, R>::status, (&found,), code) ==> code.0 == 200,
        call_ensures(Response::<B, R>::status, (&missing,), code) ==> code.0 == 404,
        call_ensures(Response::<B, R>::is_success, (&found,), success) ==> success,
        call_ensures(Response::<B, R>::is_success, (&missing,), success) ==> !success,
        call_ensures(Response::<B, R>::content_type, (&found,), mime) ==> mime is None,
        call_ensures(Response::<B, R>::content_type, (&missing,), mime) ==> mime is None,
        call_ensures(Response::<B, R>::is_html, (&found,), html) ==> !html,
        call_ensures(Response::<B, R>::is_html, (&missing,), html) ==> !html,
        call_ensures(Response::<B, R>::size_limit, (&found,), size) ==> size is None,
        call_ensures(Response::<B, R>::size_limit, (&missing,), size) ==> size is None,
        call_ensures(Response::<B, R>::bytes_read, (&found,), count) ==> count == 0,
        call_ensures(Response::<B, R>::bytes_read, (&missing,), count) ==> count == 0,
        call_ensures(Response::<B, R>::has_body, (&found,), body_there) ==> !body_there,
        call_ensures(Response::<B, R>::has_body, (&missing,), body_there) ==> !body_there,
        found.abort().flag() is None,
        missing.abort().flag() is None,
{
}

/// `Response::is_success` and `Response::status` agree on every response: it is a
/// success exactly when the status is 200.
pub proof fn law_success_is_status_200<B, R>(
    response: Response<B, R>,
    code: StatusCode,
    success: bool,
)
    requires
        call_ensures(Response::<B, R>::status, (&response,), code),
        call_ensures(Response::<B, R>::is_success, (&response,), success),
    ensures
        success == (code.0 == 200),
{
}

/// A response is HTML exactly when it has a content type whose type is spelled
/// `text` and whose subtype is spelled `html`, in letters of either case.
pub proof fn law_html_is_text_html<B, R>(
    response: Response<B, R>,
    mime: Option<Mime>,
    html: bool,
)
    requires
        call_ensures(Response::<B, R>::content_type, (&response,), mime),
        call_ensures(Response::<B, R>::is_html, (&response,), html),
    ensures
        mime is None ==> !html,
        mime matches Some(m) ==> {
            let t = m.type_@;
            let s = m.subtype@;
            html == (t.len() == 4 && s.len() == 4 && (t[0] == 't' || t[0] == 'T') && (t[1] == 'e'
                || t[1] == 'E') && (t[2] == 'x' || t[2] == 'X') && (t[3] == 't' || t[3] == 'T')
                && (s[0] == 'h' || s[0] == 'H') && (s[1] == 't' || s[1] == 'T') && (s[2] == 'm'
                || s[2] == 'M') && (s[3] == 'l' || s[3] == 'L'))
        },
{
    reveal_strlit("text");
    reveal_strlit("html");
    if let Some(m) = mime {
        law_case_makes_no_difference(m.type_@, "text"@);
        law_case_makes_no_difference(m.subtype@, "html"@);
    }
}

/// A media type is one of a type and a subtype exactly when the names are as
/// long and stand letter for letter for the same, in either case. Any other
/// character stands for itself alone.
pub proof fn law_mime_is_by_letters(mime: Mime, type_: &str, subtype: &str, r: bool)
    requires
        call_ensures(Mime::is, (&mime, type_, subtype), r),
    ensures
        r <==> {
            &&& mime.type_@.len() == type_@.len()
            &&& mime.subtype@.len() == subtype@.len()
            &&& forall|i: int|
                0 <= i < type_@.len() ==> {
                    let (c, d) = (#[trigger] mime.type_@[i], type_@[i]);
                    ||| c == d
                    ||| 'A' <= c <= 'Z' && d as int == c as int + 32
                    ||| 'A' <= d <= 'Z' && c as int == d as int + 32
                }
            &&& forall|i: int|
                0 <= i < subtype@.len() ==> {
                    let (c, d) = (#[trigger] mime.subtype@[i], subtype@[i]);
                    ||| c == d
                    ||| 'A' <= c <= 'Z' && d as int == c as int + 32
                    ||| 'A' <= d <= 'Z' && c as int == d as int + 32
                }
        },
{
    law_case_makes_no_difference(mime.type_@, type_@);
    law_case_makes_no_difference(mime.subtype@, subtype@);
}

/// The text of a response names its kind, and the status that a server sent.
pub proof fn law_response_describes_itself<B, R>(response: Response<B, R>, text: String)
    requires
        call_ensures(Response::<B, R>::describe, (&response,), text),
    ensures
        match response.inner() {
            ResponseInner::Response(sent, _, _) => text@ == "hyper response (status="@
                + status_text_of(sent.0) + ")"@,
            ResponseInner::NotFound => text@ == "not found"@,
            ResponseInner::Reader(_) => text@ == "io reader"@,
        },
{
}

/// The text of what a response is made of is that of the response.
pub proof fn law_inner_describes_itself<B, R>(
    inner: ResponseInner<B, R>,
    status: &str,
    text: String,
    sent: String,
)
    requires
        call_ensures(ResponseInner::<B, R>::describe, (&inner,), text),
        call_ensures(describe_server_response, (status,), sent),
    ensures
        sent@ == "hyper response (status="@ + status@ + ")"@,
        match inner {
            ResponseInner::Response(code, _, _) => status@ == status_text_of(code.0) ==> text@
                == sent@,
            ResponseInner::NotFound => text@ == "not found"@,
            ResponseInner::Reader(_) => text@ == "io reader"@,
        },
{
}

/// Whatever was read before and whatever the limit is, a read of a fetch that is
/// aborted ends with an error of its own kind. The response and the buffer are
/// left as they are.
pub proof fn law_read_when_aborted<B, R>(
    response: &mut Response<B, R>,
    buf: &mut [u8],
    r: ReadAction<B>,
)
    requires
        call_ensures(Response::<B, R>::read_when, (response, true, buf), r),
    ensures
        r matches ReadAction::Finished(Err(IoError::Raised { kind, message })) && kind
            == ErrorKind::ConnectionAborted && message@ == "Fetch aborted."@,
        *final(response) == *old(response),
        final(buf)@ == old(buf)@,
{
}

/// `Response::read` looks at the abort control. If that finds the fetch aborted,
/// the read ends with an error of its own kind and changes nothing; if a load of
/// the flag can only find it raised, no read ever ends with `Ok`.
pub proof fn law_read_looks_at_abort<B, R>(
    response: &mut Response<B, R>,
    buf: &mut [u8],
    r: ReadAction<B>,
)
    requires
        call_ensures(Response::<B, R>::read, (response, buf), r),
    ensures
        !(r matches ReadAction::Finished(Err(IoError::Raised { kind, .. })) && kind
            == ErrorKind::ConnectionAborted) ==> old(response).abort().observes(false),
        !old(response).abort().observes(false) ==> {
            &&& r matches ReadAction::Finished(Err(IoError::Raised { kind, message })) && kind
                == ErrorKind::ConnectionAborted && message@ == "Fetch aborted."@
            &&& *final(response) == *old(response)
            &&& final(buf)@ == old(buf)@
        },
        !old(response).abort().observes(true) ==> old(response).reads(
            false,
            old(buf)@,
            *final(response),
            final(buf)@,
            r,
        ),
{
}

/// A read of nothing hands out nothing, and a read of a reader is for the reader
/// to do. Nothing changes either way.
pub proof fn law_read_without_body<B, R>(
    response: &mut Response<B, R>,
    buf: &mut [u8],
    r: ReadAction<B>,
)
    requires
        old(response).inner() !is Response,
        call_ensures(Response::<B, R>::read_when, (response, false, buf), r),
    ensures
        old(response).inner() is NotFound ==> (r matches ReadAction::Finished(Ok(n)) && n == 0),
        old(response).inner() is Reader ==> r is ReadReader,
        *final(response) == *old(response),
        final(buf)@ == old(buf)@,
{
}

/// A read of a body that a server sends puts the pending bytes at the front of
/// the buffer, each one unchanged and as many as there are or fit. Where that
/// ends the read, as many bytes are counted as it hands out, and they are refused
/// if the count is then over the limit. Where it does not, the read waits on the
/// handle of the body, and nothing is counted yet.
pub proof fn law_read_of_body<B, R>(
    response: &mut Response<B, R>,
    buf: &mut [u8],
    r: ReadAction<B>,
)
    requires
        old(buf)@.len() <= usize::MAX,
        old(response).inner() is Response,
        call_ensures(Response::<B, R>::read_when, (response, false, buf), r),
    ensures
        old(response).inner() matches ResponseInner::Response(status, mime, reader)
            && final(response).inner() matches ResponseInner::Response(status2, mime2, left) && {
            let k = reader.pending().len() - left.pending().len();
            let full = k == old(buf)@.len();
            let over = reader.body() is None || (reader.pending().len() > 0 && full);
            &&& status2 == status
            &&& mime2 == mime
            &&& final(response).abort() == old(response).abort()
            &&& final(response).limit() == old(response).limit()
            &&& 0 <= k <= old(buf)@.len()
            &&& reader.body() is None ==> k == 0
            &&& reader.body() is Some ==> k == reader.pending().len() || full
            &&& final(buf)@.len() == old(buf)@.len()
            &&& forall|i: int| 0 <= i < k ==> #[trigger] final(buf)@[i] == reader.pending()[i]
            &&& forall|i: int|
                k <= i < old(buf)@.len() ==> #[trigger] final(buf)@[i] == old(buf)@[i]
            &&& forall|i: int|
                k <= i < reader.pending().len() ==> #[trigger] reader.pending()[i]
                    == left.pending()[i - k]
            &&& final(response).count() == old(response).count() + (if over {
                k
            } else {
                0
            })
            &&& over ==> left.body() == reader.body()
            &&& !over ==> left.body() is None
            &&& match r {
                ReadAction::Finished(Ok(n)) => over && n == k && (
                old(response).limit() matches Some(limit) ==> old(response).count() + k <= limit),
                ReadAction::Finished(Err(e)) => {
                    &&& over
                    &&& old(response).limit() matches Some(limit) && limit < old(response).count()
                        + k
                    &&& e matches IoError::Raised { kind, message } && kind
                        == ErrorKind::PermissionDenied && message@ == "Size limit reached."@
                },
                ReadAction::AwaitChunk { filled, body } => !over && filled == k && reader.body()
                    == Some(body),
                ReadAction::ReadReader => false,
            }
        },
{
}

/// Going on with a chunk puts its bytes into the buffer behind those that are
/// there, each one unchanged and as many as there are or fit. Where that ends the
/// read, all that it put there is counted, and refused if the count is then over
/// the limit. Going on at the end of the body ends the read in the same way with
/// what is there, and going on after a failure fails it and counts nothing.
pub proof fn law_resumed_read_of_body<B, R>(
    response: &mut Response<B, R>,
    buf: &mut [u8],
    m: usize,
    came: NextChunk<B>,
    r: ReadAction<B>,
)
    requires
        m <= old(buf)@.len() <= usize::MAX,
        old(response).inner() is Response,
        call_ensures(Response::<B, R>::resume_read, (response, buf, m, came), r),
    ensures
        final(response).abort() == old(response).abort(),
        final(response).limit() == old(response).limit(),
        final(buf)@.len() == old(buf)@.len(),
        old(response).inner() matches ResponseInner::Response(status, mime, _)
            && final(response).inner() matches ResponseInner::Response(status2, mime2, _)
            && status2 == status && mime2 == mime,
        came matches NextChunk::Chunk(bytes, handle)
            ==> final(response).inner() matches ResponseInner::Response(_, _, left) && {
            let k = bytes@.len() - left.pending().len();
            let over = bytes@.len() > 0 && m + k == old(buf)@.len();
            &&& 0 <= k
            &&& m + k <= old(buf)@.len()
            &&& k == bytes@.len() || m + k == old(buf)@.len()
            &&& forall|i: int| m <= i < m + k ==> #[trigger] final(buf)@[i] == bytes@[i - m]
            &&& forall|i: int|
                0 <= i < m || m + k <= i < old(buf)@.len() ==> #[trigger] final(buf)@[i]
                    == old(buf)@[i]
            &&& forall|i: int|
                k <= i < bytes@.len() ==> #[trigger] bytes@[i] == left.pending()[i - k]
            &&& final(response).count() == old(response).count() + (if over {
                m + k
            } else {
                0
            })
            &&& over ==> left.body() == Some(handle)
            &&& !over ==> left.body() is None
            &&& match r {
                ReadAction::Finished(Ok(n)) => over && n == m + k && (
                old(response).limit() matches Some(limit) ==> old(response).count() + n <= limit),
                ReadAction::Finished(Err(e)) => {
                    &&& over
                    &&& old(response).limit() matches Some(limit) && limit < old(response).count()
                        + m + k
                    &&& e matches IoError::Raised { kind, message } && kind
                        == ErrorKind::PermissionDenied && message@ == "Size limit reached."@
                },
                ReadAction::AwaitChunk { filled, body } => !over && filled == m + k && body
                    == handle,
                ReadAction::ReadReader => false,
            }
        },
        came is Exhausted ==> {
            &&& final(response).inner() == old(response).inner()
            &&& final(buf)@ == old(buf)@
            &&& final(response).count() == old(response).count() + m
            &&& match r {
                ReadAction::Finished(Ok(n)) => n == m && (
                old(response).limit() matches Some(limit) ==> old(response).count() + m <= limit),
                ReadAction::Finished(Err(e)) => {
                    &&& old(response).limit() matches Some(limit) && limit < old(response).count()
                        + m
                    &&& e matches IoError::Raised { kind, message } && kind
                        == ErrorKind::PermissionDenied && message@ == "Size limit reached."@
                },
                _ => false,
            }
        },
        came is Failed ==> {
            &&& *final(response) == *old(response)
            &&& final(buf)@ == old(buf)@
            &&& r matches ReadAction::Finished(Err(IoError::Raised { kind, message }))
                && if old(response).limit() matches Some(limit) && limit < old(response).count() {
                kind == ErrorKind::PermissionDenied && message@ == "Size limit reached."@
            } else {
                kind == ErrorKind::Other && message@ == "failed to read body chunk"@
            }
        },
{
}

/// The end of a read counts the bytes that were read, and hands its result on
/// unless the count is over the limit. Nothing else of the response changes.
pub proof fn law_end_of_read<B, R>(
    response: &mut Response<B, R>,
    res: Result<usize, IoError>,
    r: Result<usize, IoError>,
)
    requires
        call_ensures(Response::<B, R>::finish_read, (response, res), r),
    ensures
        final(response).inner() == old(response).inner(),
        final(response).abort() == old(response).abort(),
        final(response).limit() == old(response).limit(),
        res matches Ok(n) ==> final(response).count() == old(response).count() + n,
        res is Err ==> final(response).count() == old(response).count(),
        if old(response).limit() matches Some(limit) && limit < final(response).count() {
            r matches Err(IoError::Raised { kind, message }) && kind == ErrorKind::PermissionDenied
                && message@ == "Size limit reached."@
        } else {
            r == res
        },
{
}

/// The reader of a response is there exactly when it was made of one, and
/// nothing but that reader can be changed through it.
pub proof fn law_reader_of_response<B, R>(response: &mut Response<B, R>, r: Option<&mut R>)
    requires
        call_ensures(Response::<B, R>::reader_mut, (response,), r),
    ensures
        (r is Some) == (old(response).inner() is Reader),
        r matches Some(reader) ==> old(response).inner() == ResponseInner::<B, R>::Reader(*reader)
            && final(response).inner() == ResponseInner::<B, R>::Reader(*final(reader)),
        r is None ==> final(response).inner() == old(response).inner(),
        final(response).abort() == old(response).abort(),
        final(response).limit() == old(response).limit(),
        final(response).count() == old(response).count(),
{
}

/// The count has room for a read where the read adds nothing to it, or where it
/// can take the whole buffer.
pub proof fn law_room_is_checked<B, R>(
    response: Response<B, R>,
    len: usize,
    filled: usize,
    came: NextChunk<B>,
    reads: bool,
    resumes: bool,
)
    requires
        filled <= len,
        call_ensures(Response::<B, R>::can_read, (&response, len), reads),
        call_ensures(Response::<B, R>::can_resume, (&response, len, filled, &came), resumes),
    ensures
        reads <==> {
            ||| response.inner() !is Response
            ||| response.inner() matches ResponseInner::Response(_, _, reader) && (
            reader.body() is None || reader.pending().len() == 0 || reader.pending().len() < len)
            ||| response.count() + len <= usize::MAX
        },
        match came {
            NextChunk::Failed => resumes,
            NextChunk::Exhausted => resumes == (response.count() + filled <= usize::MAX),
            NextChunk::Chunk(bytes, _) => resumes == (bytes@.len() == 0 || bytes@.len() < len
                - filled || response.count() + len <= usize::MAX),
        },
{
}

/// A read can be made, and can go on, whenever the count was found to have room
/// for it.
pub proof fn law_checked_reads_can_be_made<B, R>(
    response: &mut Response<B, R>,
    buf: &mut [u8],
    len: usize,
    aborted: bool,
    filled: usize,
    came: NextChunk<B>,
)
    requires
        len == old(buf)@.len(),
        filled <= len,
    ensures
        call_requires(Response::<B, R>::read_when, (response, true, buf)),
        call_ensures(Response::<B, R>::can_read, (&*old(response), len), true) ==> {
            &&& call_requires(Response::<B, R>::read_when, (response, aborted, buf))
            &&& call_requires(Response::<B, R>::read, (response, buf))
        },
        call_ensures(Response::<B, R>::has_body, (&*old(response),), true) && call_ensures(
            Response::<B, R>::can_resume,
            (&*old(response), len, filled, &came),
            true,
        ) ==> call_requires(Response::<B, R>::resume_read, (response, buf, filled, came)),
{
}

/// A worker that takes messages starts a timer of five seconds for each request,
/// whatever the request is for, and goes on taking messages.
pub proof fn law_every_request_gets_five_seconds<S>(
    worker: &mut Worker,
    message: Proto<S>,
    r: Step<S>,
)
    requires
        call_ensures(Worker::receive::<S>, (worker, message), r),
    ensures
        r matches Step::StartTimer { seconds, request, reply_to } ==> {
            &&& seconds == 5
            &&& message == Proto::Request(request, reply_to)
            &&& old(worker).is_running()
            &&& final(worker).is_running()
        },
        r is StartTimer || r is Stop,
        old(worker).is_running() && message is Request ==> r is StartTimer,
{
}

/// A message to quit stops a worker, and a worker that has stopped starts nothing
/// and does not take messages again.
pub proof fn law_quit_and_stopped_workers<S>(
    worker: &mut Worker,
    message: Proto<S>,
    quit: bool,
    r: Step<S>,
)
    requires
        call_ensures(Proto::<S>::is_quit, (&message,), quit),
        call_ensures(Worker::receive::<S>, (worker, message), r),
    ensures
        quit == !(message is Request),
        quit || !old(worker).is_running() ==> r is Stop && !final(worker).is_running(),
{
}

/// A request is sent as it came, and answered to where it came from, exactly when
/// its timer started and the worker had not stopped. Otherwise the worker stops.
pub proof fn law_request_is_sent_once_timed<S>(
    worker: &mut Worker,
    started: bool,
    request: Request,
    reply_to: S,
    r: Step<S>,
)
    requires
        call_ensures(Worker::timer_started::<S>, (worker, started, request, reply_to), r),
    ensures
        if old(worker).is_running() && started {
            &&& r matches Step::Send { request: sent, reply_to: to } && sent == request && to
                == reply_to
            &&& final(worker).is_running()
        } else {
            &&& r is Stop
            &&& !final(worker).is_running()
        },
{
}

/// A new worker takes messages.
pub proof fn law_new_worker_runs(worker: Worker)
    requires
        call_ensures(Worker::new, (), worker),
    ensures
        worker.is_running(),
{
}

/// The client that asked is told the response that came, and every failure with
/// the error that it is.
pub proof fn law_reply_tells_outcome<R>(outcome: Outcome<R>, r: Result<R, HyperError>)
    requires
        call_ensures(reply::<R>, (outcome,), r),
    ensures
        outcome matches Outcome::Response(response) ==> (r matches Ok(told) && told == response),
        outcome is TimedOut ==> (r matches Err(
            HyperError::Io(IoError::Raised { kind, message }),
        ) && kind == ErrorKind::TimedOut && message@ == "timeout"@),
        outcome matches Outcome::RequestFailed(e) ==> (r matches Err(HyperError::Hyper(told))
            && told == e),
        outcome matches Outcome::TimerFailed(e) ==> (r matches Err(
            HyperError::Io(IoError::System(told)),
        ) && told == e),
{
}

/// A client comes of a start for which the time did not run out and no error was
/// reported. Otherwise what went wrong is the error.
pub proof fn law_client_comes_of_good_start<P, T, F: FnOnce() -> P>(
    startup: Startup,
    make_pool: F,
    tx_proto: T,
    r: Result<Client<P, T>, Error>,
)
    requires
        call_ensures(Client::<P, T>::new::<F>, (startup, make_pool, tx_proto), r),
    ensures
        startup matches Startup::NotSpawned(e) ==> (r matches Err(Error::Io(IoError::System(f)))
            && f == e),
        startup matches Startup::Waited { timed_out, report } ==> if timed_out {
            r matches Err(Error::Other(OtherError::Text(text))) && text@
                == "timeout starting background thread"@
        } else if let Some(Err(e)) = report {
            r matches Err(Error::Io(IoError::System(f))) && f == e
        } else {
            r matches Ok(client) && client.channel() == tx_proto && client.limit() == Some(
                67_108_864usize,
            ) && call_ensures(make_pool, (), client.threads())
        },
{
}

/// Closing a client is to send the message to quit on its channel. It succeeds
/// exactly when that was sent.
pub proof fn law_close_sends_quit<P, T, S>(
    client: Client<P, T>,
    r: (T, Proto<S>),
    sent: bool,
    done: Result<(), Error>,
)
    requires
        call_ensures(Client::<P, T>::close::<S>, (client,), r),
        call_ensures(closed, (sent,), done),
    ensures
        r.0 == client.channel(),
        r.1 is Quit,
        sent ==> done is Ok,
        !sent ==> (done matches Err(Error::Other(OtherError::Text(text))) && text@
            == "failed to terminate background thread"@),
{
}

/// The handles of a client are those that it has, and a clone has the same limit
/// and clones of the handles.
pub proof fn law_client_handles<P: Clone, T: Clone>(
    client: Client<P, T>,
    channel: &T,
    pool: P,
    copy: Client<P, T>,
)
    requires
        call_ensures(Client::<P, T>::tx_proto, (&client,), channel),
        call_ensures(Client::<P, T>::pool, (&client,), pool),
        call_ensures(Client::<P, T>::clone, (&client,), copy),
    ensures
        *channel == client.channel(),
        cloned::<P>(client.threads(), pool),
        cloned::<P>(client.threads(), copy.threads()),
        cloned::<T>(client.channel(), copy.channel()),
        copy.limit() == client.limit(),
{
}

/// A fetch of an address asks for that address, with GET and under the name of
/// the client, and its task has the address, the client's limit and the abort
/// control. An address that could not be parsed fails the fetch with the error
/// that the parser gave.
pub proof fn law_schedule_asks_for_address<P, T>(
    client: Client<P, T>,
    uri: Result<String, UriError>,
    abort: Abort,
    r: Result<Scheduled, Error>,
)
    requires
        call_ensures(Client::<P, T>::schedule, (&client, uri, abort), r),
    ensures
        uri matches Ok(text) ==> r matches Ok(s) && {
            &&& s.request.method is Get
            &&& s.request.uri@ == text@
            &&& s.request.user_agent@ == "Parity Fetch Neo"@
            &&& s.task.url@ == text@
            &&& s.task.limit == client.limit()
            &&& s.task.abort == abort
        },
        uri matches Err(e) ==> (r matches Err(Error::Uri(f)) && f == e),
{
}

/// A fetch with an abort control is scheduled exactly when the address can be
/// parsed, and asks for what it was parsed to: the address as it was given, or
/// with a single `/` more.
pub proof fn law_fetch_with_abort_parses_address<
    P: Clone + Send + Sync + 'static,
    T: Clone + Send + Sync + 'static,
>(client: Client<P, T>, url: &str, abort: Abort, r: Result<Scheduled, Error>)
    requires
        call_ensures(Client::<P, T>::fetch_with_abort, (&client, url, abort), r),
    ensures
        parsed_uri(url@) matches Ok(text) ==> r matches Ok(s) && {
            &&& s.request.method is Get
            &&& s.request.uri@ == text
            &&& s.request.user_agent@ == "Parity Fetch Neo"@
            &&& s.task.url@ == text
            &&& s.task.limit == client.limit()
            &&& s.task.abort == abort
        },
        parsed_uri(url@) matches Err(e) ==> (r matches Err(Error::Uri(f)) && f == e),
        r matches Ok(s) ==> {
            let text = s.request.uri@;
            &&& url@.len() > 0
            &&& text == url@ || exists|i: int|
                0 <= i <= url@.len() && #[trigger] text[i] == '/' && text.len() == url@.len() + 1
                    && text.take(i) == url@.take(i) && text.skip(i + 1) == url@.skip(i)
        },
{
    if let Ok(s) = r {
        law_same_address(url@, s.request.uri@);
    }
}

/// A fetch without an abort control does the same, under a control that never
/// aborts.
pub proof fn law_fetch_never_aborts<
    P: Clone + Send + Sync + 'static,
    T: Clone + Send + Sync + 'static,
>(client: Client<P, T>, url: &str, r: Result<Scheduled, Error>)
    requires
        call_ensures(Client::<P, T>::fetch, (&client, url), r),
    ensures
        parsed_uri(url@) matches Ok(text) ==> r matches Ok(s) && {
            &&& s.request.method is Get
            &&& s.request.uri@ == text
            &&& s.request.user_agent@ == "Parity Fetch Neo"@
            &&& s.task.url@ == text
            &&& s.task.limit == client.limit()
            &&& s.task.abort.flag() is None
        },
        parsed_uri(url@) matches Err(e) ==> (r matches Err(Error::Uri(f)) && f == e),
{
    let abort = choose|abort: Abort|
        abort.flag() is None && #[trigger] call_ensures(
            Client::<P, T>::fetch_with_abort,
            (&client, url, abort),
            r,
        );
    law_fetch_with_abort_parses_address(client, url, abort, r);
}

/// The limit that was last set on a client, whatever it is, is the limit of the
/// responses to the fetches that it schedules then. Its handles stay as they are.
pub proof fn law_set_limit_is_limit_of_responses<P, T, B, R>(
    client: &mut Client<P, T>,
    limit: Option<usize>,
    uri: Result<String, UriError>,
    abort: Abort,
    scheduled: Scheduled,
    status: StatusCode,
    content_type: Option<Mime>,
    body: B,
    response: Response<B, R>,
    size: Option<usize>,
)
    requires
        call_ensures(Client::<P, T>::set_limit, (client, limit), ()),
        call_ensures(
            Client::<P, T>::schedule,
            (&*final(client), uri, abort),
            Ok::<Scheduled, Error>(scheduled),
        ),
        call_ensures(
            FetchTask::respond::<B, R>,
            (&scheduled.task, status, content_type, body),
            response,
        ),
        call_ensures(Response::<B, R>::size_limit, (&response,), size),
    ensures
        size == limit,
        final(client).threads() == old(client).threads(),
        final(client).channel() == old(client).channel(),
{
}

/// A response to a fetch has the status and the content type that the server
/// sent, whatever they are, and is a success exactly when the code is 200. Its
/// limit and its abort control are those of the fetch.
pub proof fn law_respond_keeps_what_was_sent<B, R>(
    task: FetchTask,
    status: StatusCode,
    content_type: Option<Mime>,
    body: B,
    response: Response<B, R>,
    code: StatusCode,
    success: bool,
    mime: Option<Mime>,
)
    requires
        call_ensures(
            FetchTask::respond::<B, R>,
            (&task, status, content_type, body),
            response,
        ),
        call_ensures(Response::<B, R>::status, (&response,), code),
        call_ensures(Response::<B, R>::is_success, (&response,), success),
        call_ensures(Response::<B, R>::content_type, (&response,), mime),
    ensures
        code == status,
        success == (status.0 == 200),
        match content_type {
            Some(sent) => mime matches Some(m) && m.text@ == sent.text@ && m.type_@ == sent.type_@
                && m.subtype@ == sent.subtype@,
            None => mime is None,
        },
        response.limit() == task.limit,
        response.abort() == task.abort,
        response.count() == 0,
        response.inner() matches ResponseInner::Response(_, _, reader) && reader.pending().len()
            == 0 && reader.body() == Some(body),
{
}

/// Looking for a reply gives nothing while there is none, an error when the
/// request failed or was dropped, and otherwise a response with the status that
/// was sent, which is a success exactly when that is 200.
pub proof fn law_poll_tells_reply<B, R>(
    task: FetchTask,
    reply: Reply<B>,
    r: Result<Async<Response<B, R>>, Error>,
)
    requires
        call_ensures(FetchTask::poll::<B, R>, (&task, reply), r),
    ensures
        reply is NotReady ==> r matches Ok(Async::NotReady),
        reply matches Reply::Canceled(e) ==> (r matches Err(Error::Other(OtherError::Canceled(f)))
            && f == e),
        reply matches Reply::Failed(e) ==> (r matches Err(Error::Hyper(f)) && f == e),
        reply matches Reply::Response { status, content_type, body } ==> r matches Ok(
            Async::Ready(response),
        ) && {
            &&& forall|code: StatusCode| #[trigger]
                call_ensures(Response::<B, R>::status, (&response,), code) ==> code == status
            &&& forall|success: bool| #[trigger]
                call_ensures(Response::<B, R>::is_success, (&response,), success) ==> success == (
                status.0 == 200)
            &&& forall|mime: Option<Mime>| #[trigger]
                call_ensures(Response::<B, R>::content_type, (&response,), mime) ==> match mime {
                    Some(m) => content_type_of(content_type.deep_view()) == Some(
                        (m.text@, m.type_@, m.subtype@),
                    ),
                    None => content_type_of(content_type.deep_view()) is None,
                }
            &&& response.limit() == task.limit
            &&& response.abort() == task.abort
            &&& response.count() == 0
            &&& response.inner() matches ResponseInner::Response(_, _, reader)
                && reader.pending().len() == 0 && reader.body() == Some(body)
        },
{
}

/// A fetch is not looked at any more once it is aborted, and goes on otherwise.
pub proof fn law_poll_stops_when_aborted(
    task: FetchTask,
    aborted: bool,
    r: Result<(), Error>,
    s: Result<(), Error>,
)
    requires
        call_ensures(FetchTask::start_poll_when, (&task, aborted), r),
        call_ensures(FetchTask::start_poll, (&task,), s),
    ensures
        aborted ==> r matches Err(Error::Aborted),
        !aborted ==> r is Ok,
        s is Ok ==> task.abort.observes(false),
        s matches Err(e) ==> task.abort.observes(true) && e is Aborted,
{
}

/// A fetch waits for its reply exactly when its request could be sent.
pub proof fn law_submitted_waits(task: FetchTask, sent: bool, r: Result<FetchTask, Error>)
    requires
        call_ensures(FetchTask::submitted, (task, sent), r),
    ensures
        sent ==> (r matches Ok(t) && t == task),
        !sent ==> (r matches Err(Error::Other(OtherError::Text(text))) && text@
            == "failed to schedule request"@),
{
}

/// An error that comes from outside is kept as it is.
pub proof fn law_outside_errors_are_kept(
    canceled: Canceled,
    http: HttpError,
    io: std::io::Error,
    uri: UriError,
    r: Error,
)
    ensures
        call_ensures(<Error as From<Canceled>>::from, (canceled,), r) ==> (r matches Error::Other(
            OtherError::Canceled(e),
        ) && e == canceled),
        call_ensures(<Error as From<HttpError>>::from, (http,), r) ==> (r matches Error::Hyper(
            HyperError::Hyper(e),
        ) && e == http),
        call_ensures(<Error as From<std::io::Error>>::from, (io,), r) ==> (r matches Error::Io(
            IoError::System(e),
        ) && e == io),
        call_ensures(<Error as From<UriError>>::from, (uri,), r) ==> (r matches Error::Uri(e) && e
            == uri),
{
}

/// The text of an error is its own where fetching raised it, and otherwise that
/// which the error inside displays.
pub proof fn law_error_says_what_is_inside(error: Error, text: String)
    requires
        call_ensures(Error::message, (&error,), text),
    ensures
        match error {
            Error::Aborted => text@ == "The request has been aborted."@,
            Error::Other(OtherError::Text(t)) => text@ == t@,
            Error::Other(OtherError::Canceled(_)) => text@ == "oneshot canceled"@,
            Error::Io(IoError::Raised { message, .. }) => text@ == message@,
            Error::Io(IoError::System(e)) => to_string_from_display_ensures::<std::io::Error>(
                &e,
                text,
            ),
            Error::Hyper(HyperError::Io(IoError::Raised { message, .. })) => text@ == message@,
            Error::Hyper(HyperError::Io(IoError::System(e))) => to_string_from_display_ensures::<
                std::io::Error,
            >(&e, text),
            Error::Hyper(HyperError::Hyper(e)) => to_string_from_display_ensures::<HttpError>(
                &e,
                text,
            ),
            Error::Uri(e) => to_string_from_display_ensures::<UriError>(&e, text),
        },
{
}

/// The texts of the errors inside an error are those that the error itself says.
pub proof fn law_inner_errors_say_the_same(
    io: IoError,
    hyper: HyperError,
    other: OtherError,
    text: String,
)
    ensures
        call_ensures(IoError::message, (&io,), text) ==> Error::Io(io).says(text)
            && HyperError::Io(io).says(text),
        call_ensures(HyperError::message, (&hyper,), text) ==> Error::Hyper(hyper).says(text),
        call_ensures(OtherError::message, (&other,), text) ==> Error::Other(other).says(text),
        io matches IoError::Raised { message, .. } ==> (io.says(text) <==> text@ == message@),
        io matches IoError::System(e) ==> (io.says(text) <==> to_string_from_display_ensures::<
            std::io::Error,
        >(&e, text)),
        hyper matches HyperError::Io(e) ==> (hyper.says(text) <==> e.says(text)),
        hyper matches HyperError::Hyper(e) ==> (hyper.says(text)
            <==> to_string_from_display_ensures::<HttpError>(&e, text)),
        other matches OtherError::Text(t) ==> (other.says(text) <==> text@ == t@),
        other is Canceled ==> (other.says(text) <==> text@ == "oneshot canceled"@),
{
}

/// A clone of a media type is that media type.
pub proof fn law_mime_clone(mime: Mime, copy: Mime)
    requires
        call_ensures(Mime::clone, (&mime,), copy),
    ensures
        copy.text@ == mime.text@,
        copy.type_@ == mime.type_@,
        copy.subtype@ == mime.subtype@,
{
}

} // verus!
