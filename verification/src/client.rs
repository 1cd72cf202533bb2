//! The client: what it asks for, and what it makes of what comes back.
use crate::abort::Abort;
use crate::error::{Error, HyperError, IoError, OtherError};
use crate::limit::law_accepted_within_limit;
use crate::mime::{media_type, parse_content_type, Mime, MimeView};
use crate::response::{Response, ResponseInner};
use crate::series::{are_reads, handed_out, law_reads_hand_out_accepted, sources, EndedRead};
use crate::status::StatusCode;
use crate::uri::{parse_uri, parsed_uri, same_address};
use crate::worker::{Method, Proto, Request};
use futures::sync::oneshot::Canceled;
use hyper::error::UriError;
use vstd::prelude::*;

verus! {

/// The name that requests give as their user agent.
pub const USER_AGENT: &'static str = "Parity Fetch Neo";

/// The size that a response body may have unless the limit is changed.
pub const DEFAULT_LIMIT: usize = 67_108_864;

/// The number of threads in the pool of a client.
pub const POOL_THREADS: usize = 4;

/// The number of requests that may queue up for the background thread.
pub const QUEUE_LENGTH: usize = 64;

/// How long a client waits for its background thread to start.
pub const STARTUP_TIMEOUT_SECONDS: u64 = 3;

/// Fetch
pub trait Fetch: Clone + Send + Sync + 'static {
    /// Result type
    type Result: Send + 'static;

    /// Fetch URL and get a future for the result.
    /// Supports aborting the request in the middle of execution.
    fn fetch_with_abort(&self, url: &str, abort: Abort) -> Self::Result;

    /// Fetch URL and get a future for the result.
    fn fetch(&self, url: &str) -> (r: Self::Result)
        ensures
            exists|abort: Abort|
                abort.flag() is None && #[trigger] call_ensures(
                    Self::fetch_with_abort,
                    (self, url, abort),
                    r,
                ),
    {
        self.fetch_with_abort(url, Abort::default())
    }
}

/// How the start of the background thread went.
pub enum Startup {
    /// The thread could not be spawned.
    NotSpawned(std::io::Error),
    /// The thread was spawned and waited for: whether the time ran out, and
    /// what the thread reported, if it left a report.
    Waited { timed_out: bool, report: Option<Result<(), std::io::Error>> },
}

/// Fetch client
///
/// `P` is the pool that its tasks run on, `T` the channel to its worker.
pub struct Client<P, T> {
    pool: P,
    tx_proto: T,
    limit: Option<usize>,
}

/// A fetch that was accepted: the request for the worker, and the task that
/// waits for the reply.
pub struct Scheduled {
    pub request: Request,
    pub task: FetchTask,
}

impl<P, T> Client<P, T> {
    /// The pool that tasks run on.
    pub closed spec fn threads(self) -> P {
        self.pool
    }

    /// The channel to the worker.
    pub closed spec fn channel(self) -> T {
        self.tx_proto
    }

    /// The size that a response body may have.
    pub closed spec fn limit(self) -> Option<usize> {
        self.limit
    }

    /// Create a new client, once its background thread was given time to
    /// start. It has started unless the time ran out or it reported an error.
    pub fn new<F: FnOnce() -> P>(startup: Startup, make_pool: F, tx_proto: T) -> (r: Result<
        Self,
        Error,
    >)
        requires
            make_pool.requires(()),
        ensures
            match startup {
                Startup::NotSpawned(e) => r == Err::<Self, Error>(Error::Io(IoError::System(e))),
                Startup::Waited { timed_out: true, .. } => r matches Err(e) && e.is_other(
                    "timeout starting background thread"@,
                ),
                Startup::Waited { report: Some(Err(e)), .. } => r == Err::<Self, Error>(
                    Error::Io(IoError::System(e)),
                ),
                Startup::Waited { .. } => {
                    &&& r matches Ok(client)
                    &&& make_pool.ensures((), client.threads())
                    &&& client.channel() == tx_proto
                    &&& client.limit() == Some(67_108_864usize)
                },
            },
    {
        match startup {
            Startup::NotSpawned(e) => Err(Error::Io(IoError::System(e))),
            Startup::Waited { timed_out: true, .. } => Err(
                Error::Other(OtherError::Text("timeout starting background thread".to_owned())),
            ),
            Startup::Waited { report: Some(Err(e)), .. } => Err(Error::Io(IoError::System(e))),
            Startup::Waited { .. } => Ok(
                Client { pool: make_pool(), tx_proto, limit: Some(DEFAULT_LIMIT) },
            ),
        }
    }

    /// Close this client by shutting down the background thread: hands out
    /// the channel, and the message that is to be sent on it.
    ///
    /// Please note that this will affect all clones of this `Client` as they all
    /// share the same background thread.
    pub fn close<S>(self) -> (r: (T, Proto<S>))
        ensures
            r.0 == self.channel(),
            r.1 is Quit,
    {
        (self.tx_proto, Proto::Quit)
    }

    /// (Un-)set size limit on response body.
    pub fn set_limit(&mut self, limit: Option<usize>)
        ensures
            final(self).limit() == limit,
            final(self).threads() == old(self).threads(),
            final(self).channel() == old(self).channel(),
    {
        self.limit = limit;
    }

    /// The channel on which requests go to the background thread.
    pub fn tx_proto(&self) -> (r: &T)
        ensures
            *r == self.channel(),
    {
        &self.tx_proto
    }

    /// Whether `r` is what fetching comes to for a client when `uri` is what
    /// the address was parsed to.
    pub open spec fn schedules(
        self,
        uri: Result<Seq<char>, UriError>,
        abort: Abort,
        r: Result<Scheduled, Error>,
    ) -> bool {
        match uri {
            Ok(text) => {
                &&& r matches Ok(s)
                &&& s.request.method == Method::Get
                &&& s.request.uri@ == text
                &&& s.request.user_agent@ == "Parity Fetch Neo"@
                &&& s.task.url@ == text
                &&& s.task.limit == self.limit()
                &&& s.task.abort == abort
            },
            Err(e) => r == Err::<Scheduled, Error>(Error::Uri(e)),
        }
    }

    /// Schedules a fetch of an address that was parsed to `uri`.
    pub fn schedule(&self, uri: Result<String, UriError>, abort: Abort) -> (r: Result<
        Scheduled,
        Error,
    >)
        ensures
            self.schedules(
                match uri {
                    Ok(text) => Ok(text@),
                    Err(e) => Err(e),
                },
                abort,
                r,
            ),
    {
        match uri {
            Ok(text) => Ok(
                Scheduled {
                    request: Request {
                        method: Method::Get,
                        uri: text.clone(),
                        user_agent: USER_AGENT,
                    },
                    task: FetchTask { url: text, limit: self.limit, abort },
                },
            ),
            Err(e) => Err(Error::Uri(e)),
        }
    }
}

impl<P: Clone + Send + Sync + 'static, T: Clone + Send + Sync + 'static> Fetch for Client<P, T> {
    type Result = Result<Scheduled, Error>;

    /// Schedules a fetch of `url`, if it can be parsed.
    fn fetch_with_abort(&self, url: &str, abort: Abort) -> (r: Result<Scheduled, Error>)
        ensures
            self.schedules(parsed_uri(url@), abort, r),
            r matches Ok(s) ==> {
                &&& url@.len() > 0
                &&& same_address(url@, s.request.uri@)
                &&& parsed_uri(s.request.uri@) == Ok::<Seq<char>, UriError>(s.request.uri@)
            },
    {
        self.schedule(parse_uri(url), abort)
    }
}

impl<P: Clone, T> Client<P, T> {
    /// Returns a handle to underlying pool of this client.
    pub fn pool(&self) -> (r: P)
        ensures
            cloned::<P>(self.threads(), r),
    {
        self.pool.clone()
    }
}

impl<P: Clone, T: Clone> Clone for Client<P, T> {
    /// A client with the same limit. Clones of a client share the same
    /// background thread.
    fn clone(&self) -> (r: Self)
        ensures
            cloned::<P>(self.threads(), r.threads()),
            cloned::<T>(self.channel(), r.channel()),
            r.limit() == self.limit(),
    {
        Client { pool: self.pool.clone(), tx_proto: self.tx_proto.clone(), limit: self.limit }
    }
}

/// What closing a client comes to when the message to quit was sent, or was
/// not, as `sent` says.
pub fn closed(sent: bool) -> (r: Result<(), Error>)
    ensures
        if sent {
            r == Ok::<(), Error>(())
        } else {
            r matches Err(e) && e.is_other("failed to terminate background thread"@)
        },
{
    if sent {
        Ok(())
    } else {
        Err(Error::Other(OtherError::Text("failed to terminate background thread".to_owned())))
    }
}

/// A fetch that waits for its reply.
pub struct FetchTask {
    pub url: String,
    pub limit: Option<usize>,
    pub abort: Abort,
}

/// What the channel on which the reply comes holds when it is looked at.
pub enum Reply<B> {
    /// Nothing yet.
    NotReady,
    /// Nothing, and the worker has let go of it.
    Canceled(Canceled),
    /// The request failed.
    Failed(HyperError),
    /// A response: its status, the lines of its `Content-Type` header, and its
    /// body.
    Response { status: StatusCode, content_type: Vec<Vec<u8>>, body: B },
}

/// A value that is there, or is not there yet.
pub enum Async<V> {
    Ready(V),
    NotReady,
}

impl FetchTask {
    /// The fetch goes on to wait for its reply when its request was sent to the
    /// background thread, as `sent` says, and fails when it was not.
    pub fn submitted(self, sent: bool) -> (r: Result<FetchTask, Error>)
        ensures
            if sent {
                r == Ok::<FetchTask, Error>(self)
            } else {
                r matches Err(e) && e.is_other("failed to schedule request"@)
            },
    {
        if sent {
            Ok(self)
        } else {
            Err(Error::Other(OtherError::Text("failed to schedule request".to_owned())))
        }
    }

    /// Whether looking for the reply starts with `r` when the fetch is
    /// aborted, or is not, as `aborted` says.
    pub open spec fn poll_starts(self, aborted: bool, r: Result<(), Error>) -> bool {
        r == if aborted {
            Err::<(), Error>(Error::Aborted)
        } else {
            Ok::<(), Error>(())
        }
    }

    /// Starts to look for the reply, unless a look at the abort control finds
    /// the fetch aborted.
    pub fn start_poll(&self) -> (r: Result<(), Error>)
        ensures
            self.abort.observes(r is Err),
            self.poll_starts(r is Err, r),
    {
        self.start_poll_when(self.abort.is_aborted())
    }

    /// Starts to look for the reply when the fetch is aborted, or is not, as
    /// `aborted` says.
    pub fn start_poll_when(&self, aborted: bool) -> (r: Result<(), Error>)
        ensures
            self.poll_starts(aborted, r),
    {
        if aborted {
            Err(Error::Aborted)
        } else {
            Ok(())
        }
    }

    /// Whether `response` is what this fetch gives back when a server sent a
    /// status, a content type and a body. Nothing of the body was read, and
    /// the limit and the abort control are those of the fetch.
    pub open spec fn responds<B, R>(
        self,
        status: StatusCode,
        content_type: Option<MimeView>,
        body: B,
        response: Response<B, R>,
    ) -> bool {
        &&& response.inner() matches ResponseInner::Response(s, m, reader)
        &&& s == status
        &&& match m {
            Some(mime) => content_type == Some(mime@),
            None => content_type is None,
        }
        &&& reader.pending() == Seq::<u8>::empty()
        &&& reader.body() == Some(body)
        &&& response.abort() == self.abort
        &&& response.limit() == self.limit
        &&& response.count() == 0
    }

    /// The response to this fetch when a server sent a status, a content type
    /// and a body.
    pub fn respond<B, R>(&self, status: StatusCode, content_type: Option<Mime>, body: B) -> (r:
        Response<B, R>)
        ensures
            self.responds(
                status,
                match content_type {
                    Some(mime) => Some(mime@),
                    None => None,
                },
                body,
                r,
            ),
    {
        Response::received(status, content_type, body, self.abort.clone(), self.limit)
    }

    /// What the channel of the reply held, as the result of the fetch.
    pub fn poll<B, R>(&self, reply: Reply<B>) -> (r: Result<Async<Response<B, R>>, Error>)
        ensures
            match reply {
                Reply::NotReady => r matches Ok(Async::NotReady),
                Reply::Canceled(e) => r == Err::<Async<Response<B, R>>, Error>(
                    Error::Other(OtherError::Canceled(e)),
                ),
                Reply::Failed(e) => r == Err::<Async<Response<B, R>>, Error>(Error::Hyper(e)),
                Reply::Response { status, content_type, body } => r matches Ok(
                    Async::Ready(response),
                ) && self.responds(status, media_type(content_type.deep_view()), body, response),
            },
    {
        match reply {
            Reply::NotReady => Ok(Async::NotReady),
            Reply::Canceled(e) => Err(Error::from(e)),
            Reply::Failed(e) => Err(Error::Hyper(e)),
            Reply::Response { status, content_type, body } => Ok(
                Async::Ready(self.respond(status, parse_content_type(content_type), body)),
            ),
        }
    }
}

/// The reads of a response to a fetch hand out no more bytes than the limit that
/// the client had when the fetch was scheduled, whatever the body holds.
pub proof fn law_fetch_keeps_client_limit<P, T, B, R>(
    client: Client<P, T>,
    uri: Result<Seq<char>, UriError>,
    abort: Abort,
    scheduled: Scheduled,
    status: StatusCode,
    content_type: Option<MimeView>,
    body: B,
    response: Response<B, R>,
    reads: Seq<EndedRead<B, R>>,
)
    requires
        client.schedules(uri, abort, Ok(scheduled)),
        scheduled.task.responds(status, content_type, body, response),
        are_reads(response.limit(), response.count() as int, reads),
    ensures
        client.limit() matches Some(limit) ==> handed_out(reads) <= limit,
{
    if client.limit() is Some {
        law_reads_hand_out_accepted(response.limit(), 0, reads);
        law_accepted_within_limit(client.limit()->0, 0, sources(reads));
    }
}

/// A fetch that was scheduled with an abort control is governed by that control
/// to its end: while it waits for the reply, and while the response is read.
/// Without a flag to raise, no look at the control ever finds it aborted.
pub proof fn law_fetch_keeps_abort_control<P, T, B, R>(
    client: Client<P, T>,
    uri: Result<Seq<char>, UriError>,
    abort: Abort,
    scheduled: Scheduled,
    status: StatusCode,
    content_type: Option<MimeView>,
    body: B,
    response: Response<B, R>,
)
    requires
        client.schedules(uri, abort, Ok(scheduled)),
        scheduled.task.responds(status, content_type, body, response),
    ensures
        scheduled.task.abort.flag() == abort.flag(),
        response.abort().flag() == abort.flag(),
        abort.flag() is None ==> forall|b: bool|
            #![trigger scheduled.task.abort.observes(b)]
            scheduled.task.abort.observes(b) ==> !b,
        abort.flag() is None ==> forall|b: bool|
            #![trigger response.abort().observes(b)]
            response.abort().observes(b) ==> !b,
{
}

} // verus!
