//! The background worker that turns requests into replies.
use crate::error::{ErrorKind, HyperError, IoError};
use hyper::Error as HttpError;
use vstd::prelude::*;

verus! {

/// How long the worker lets a request take before it gives it up.
pub const CLIENT_TIMEOUT_SECONDS: u64 = 5;

/// The method of a request.
#[derive(Clone, Copy, Debug, PartialEq, Eq, Structural)]
pub enum Method {
    Get,
}

/// A request, before it is put into the form that is sent.
#[derive(Debug)]
pub struct Request {
    pub method: Method,
    pub uri: String,
    pub user_agent: &'static str,
}

/// What clients send to the background worker that they share. `S` is the
/// handle by which a reply gets back to the client that asked.
pub enum Proto<S> {
    Request(Request, S),
    /// Ends the worker.
    Quit,
}

impl<S> Proto<S> {
    /// Whether this ends the worker.
    pub fn is_quit(&self) -> (r: bool)
        ensures
            r == (self is Quit),
    {
        if let Proto::Quit = self {
            true
        } else {
            false
        }
    }
}

/// What the worker is to do about a message.
pub enum Step<S> {
    /// Nothing more, now or later.
    Stop,
    /// Start a timer of so many seconds for this request.
    StartTimer { seconds: u64, request: Request, reply_to: S },
    /// Send this request; its timer is running.
    Send { request: Request, reply_to: S },
}

/// What a worker that is running, or is not, does about a message, and whether
/// it is running then.
pub open spec fn received<S>(running: bool, message: Proto<S>) -> (bool, Step<S>) {
    match message {
        Proto::Request(request, reply_to) => if running {
            (true, Step::StartTimer { seconds: CLIENT_TIMEOUT_SECONDS, request, reply_to })
        } else {
            (false, Step::Stop)
        },
        Proto::Quit => (false, Step::Stop),
    }
}

/// What a worker that is running, or is not, does about a request whose timer
/// was to be started, and whether it is running then.
pub open spec fn timed<S>(running: bool, started: bool, request: Request, reply_to: S) -> (
    bool,
    Step<S>,
) {
    if running && started {
        (true, Step::Send { request, reply_to })
    } else {
        (false, Step::Stop)
    }
}

/// The background worker: whether it still takes messages.
pub struct Worker {
    running: bool,
}

impl Worker {
    pub closed spec fn is_running(self) -> bool {
        self.running
    }

    /// A worker that takes messages.
    pub fn new() -> (r: Self)
        ensures
            r.is_running(),
    {
        Worker { running: true }
    }

    /// Takes the next message.
    pub fn receive<S>(&mut self, message: Proto<S>) -> (r: Step<S>)
        ensures
            (final(self).is_running(), r) == received(old(self).is_running(), message),
            match message {
                Proto::Request(request, reply_to) if old(self).is_running() => r == (
                Step::StartTimer { seconds: 5, request, reply_to }),
                _ => r is Stop,
            },
    {
        if message.is_quit() {
            self.running = false;
        }
        match message {
            Proto::Request(request, reply_to) if self.running => Step::StartTimer {
                seconds: CLIENT_TIMEOUT_SECONDS,
                request,
                reply_to,
            },
            _ => Step::Stop,
        }
    }

    /// Goes on with a request once its timer was to be started. Where that
    /// failed, the request is dropped and the worker ends.
    pub fn timer_started<S>(&mut self, started: bool, request: Request, reply_to: S) -> (r: Step<S>)
        ensures
            (final(self).is_running(), r) == timed(
                old(self).is_running(),
                started,
                request,
                reply_to,
            ),
    {
        if !started {
            self.running = false;
        }
        if self.running {
            Step::Send { request, reply_to }
        } else {
            Step::Stop
        }
    }
}

/// A message, and whether the timer could be started that it may need.
pub struct Delivery<S> {
    pub message: Proto<S>,
    pub timer_starts: bool,
}

/// The requests that a worker sends of the messages it gets, in order.
pub open spec fn sent<S>(running: bool, deliveries: Seq<Delivery<S>>) -> Seq<(Request, S)>
    decreases deliveries.len(),
{
    if deliveries.len() == 0 {
        Seq::empty()
    } else {
        let first = deliveries[0];
        let rest = deliveries.skip(1);
        let (running, step) = received(running, first.message);
        match step {
            Step::StartTimer { request, reply_to, .. } => {
                let (running, step) = timed(running, first.timer_starts, request, reply_to);
                match step {
                    Step::Send { request, reply_to } => seq![(request, reply_to)] + sent(
                        running,
                        rest,
                    ),
                    _ => sent(running, rest),
                }
            },
            _ => sent(running, rest),
        }
    }
}

/// A worker that has stopped sends nothing any more.
pub proof fn law_stopped_worker_sends_nothing<S>(deliveries: Seq<Delivery<S>>)
    ensures
        sent(false, deliveries) == Seq::<(Request, S)>::empty(),
    decreases deliveries.len(),
{
    if deliveries.len() > 0 {
        law_stopped_worker_sends_nothing(deliveries.skip(1));
    }
}

/// A message to quit ends the worker for all clients that share it: whatever
/// comes after it is not sent, and it takes nothing from what came before.
pub proof fn law_quit_ends_worker<S>(
    running: bool,
    before: Seq<Delivery<S>>,
    quit: Delivery<S>,
    after: Seq<Delivery<S>>,
)
    requires
        quit.message is Quit,
    ensures
        sent(running, before + seq![quit] + after) == sent(running, before),
    decreases before.len(),
{
    let all = before + seq![quit] + after;
    if before.len() == 0 {
        assert(all.skip(1) =~= after);
        law_stopped_worker_sends_nothing(after);
    } else {
        assert(all.skip(1) =~= before.skip(1) + seq![quit] + after);
        assert(all[0] == before[0]);
        law_quit_ends_worker(true, before.skip(1), quit, after);
        law_quit_ends_worker(false, before.skip(1), quit, after);
    }
}

/// As long as no message to quit comes and every timer starts, a running
/// worker sends every request, in the order in which they came.
pub proof fn law_running_worker_sends_all<S>(deliveries: Seq<Delivery<S>>)
    requires
        forall|i: int|
            0 <= i < deliveries.len() ==> (#[trigger] deliveries[i]).message is Request
                && deliveries[i].timer_starts,
    ensures
        sent(true, deliveries) == deliveries.map_values(
            |d: Delivery<S>| (d.message->Request_0, d.message->Request_1),
        ),
    decreases deliveries.len(),
{
    let f = |d: Delivery<S>| (d.message->Request_0, d.message->Request_1);
    if deliveries.len() > 0 {
        law_running_worker_sends_all(deliveries.skip(1));
        assert(deliveries.map_values(f) =~= seq![f(deliveries[0])] + deliveries.skip(1).map_values(
            f,
        ));
    } else {
        assert(deliveries.map_values(f) =~= Seq::empty());
    }
}

/// A timer that cannot be started ends the worker: the request that it was for
/// is not sent, nor any that comes after it.
pub proof fn law_timer_failure_ends_worker<S>(
    running: bool,
    before: Seq<Delivery<S>>,
    failing: Delivery<S>,
    after: Seq<Delivery<S>>,
)
    requires
        failing.message is Request,
        !failing.timer_starts,
    ensures
        sent(running, before + seq![failing] + after) == sent(running, before),
    decreases before.len(),
{
    let all = before + seq![failing] + after;
    if before.len() == 0 {
        assert(all.skip(1) =~= after);
        law_stopped_worker_sends_nothing(after);
    } else {
        assert(all.skip(1) =~= before.skip(1) + seq![failing] + after);
        assert(all[0] == before[0]);
        law_timer_failure_ends_worker(true, before.skip(1), failing, after);
        law_timer_failure_ends_worker(false, before.skip(1), failing, after);
    }
}

/// What became of a request that was sent while a timer was running: the one
/// of the two that came first.
pub enum Outcome<R> {
    /// The response came.
    Response(R),
    /// The timer ran out.
    TimedOut,
    /// The request failed.
    RequestFailed(HttpError),
    /// The timer failed.
    TimerFailed(std::io::Error),
}

/// What the client that asked is told of a request.
pub fn reply<R>(outcome: Outcome<R>) -> (r: Result<R, HyperError>)
    ensures
        match outcome {
            Outcome::Response(response) => r == Ok::<R, HyperError>(response),
            Outcome::TimedOut => r matches Err(HyperError::Io(e)) && e.is_raised(
                ErrorKind::TimedOut,
                "timeout"@,
            ),
            Outcome::RequestFailed(e) => r == Err::<R, HyperError>(HyperError::Hyper(e)),
            Outcome::TimerFailed(e) => r == Err::<R, HyperError>(
                HyperError::Io(IoError::System(e)),
            ),
        },
{
    match outcome {
        Outcome::Response(response) => Ok(response),
        Outcome::TimedOut => Err(
            HyperError::Io(IoError::Raised { kind: ErrorKind::TimedOut, message: "timeout" }),
        ),
        Outcome::RequestFailed(e) => Err(HyperError::Hyper(e)),
        Outcome::TimerFailed(e) => Err(HyperError::Io(IoError::System(e))),
    }
}

} // verus!
