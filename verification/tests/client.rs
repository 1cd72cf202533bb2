use fetch::abort::Abort;
use fetch::body::NextChunk;
use fetch::client::{closed, Async, Client, Fetch, FetchTask, Reply, Scheduled, Startup};
use fetch::error::{Error, ErrorKind, HyperError, IoError, OtherError};
use fetch::response::{ReadAction, Response};
use fetch::status::StatusCode;
use fetch::worker::{reply, Method, Outcome, Proto, Request, Step, Worker};
use std::io;
use std::sync::atomic::{AtomicBool, Ordering};
use std::sync::Arc;

type TestClient = Client<&'static str, &'static str>;
type TestResponse = Response<u8, ()>;

fn started(report: Result<(), io::Error>) -> Startup {
    Startup::Waited { timed_out: false, report: Some(report) }
}

fn client() -> TestClient {
    match Client::new(started(Ok(())), || "pool", "channel") {
        Ok(client) => client,
        Err(_) => panic!(),
    }
}

fn scheduled(client: &TestClient, url: &str) -> Scheduled {
    match client.fetch(url) {
        Ok(scheduled) => scheduled,
        Err(_) => panic!(),
    }
}

fn respond(task: &FetchTask, status: u16, content_type: &[&[u8]]) -> TestResponse {
    assert!(task.start_poll().is_ok());
    let reply = Reply::Response {
        status: StatusCode(status),
        content_type: content_type.iter().map(|line| line.to_vec()).collect(),
        body: 0,
    };
    match task.poll(reply) {
        Ok(Async::Ready(response)) => response,
        _ => panic!(),
    }
}

fn read_to_end(response: &mut TestResponse, chunks: &[&[u8]]) -> Result<Vec<u8>, IoError> {
    let mut all = Vec::new();
    let mut chunks = chunks.iter();
    loop {
        let mut buf = [0; 7];
        let mut action = response.read(&mut buf);
        let n = loop {
            match action {
                ReadAction::Finished(res) => break res?,
                ReadAction::AwaitChunk { filled, body } => {
                    let next = match chunks.next() {
                        Some(bytes) => NextChunk::Chunk(bytes.to_vec(), body + 1),
                        None => NextChunk::Exhausted,
                    };
                    action = response.resume_read(&mut buf, filled, next);
                }
                ReadAction::ReadReader => panic!(),
            }
        };
        if n == 0 {
            return Ok(all);
        }
        all.extend_from_slice(&buf[..n]);
    }
}

/// Takes a request through the worker, up to where it is sent.
fn send(worker: &mut Worker, request: Request, reply_to: char) {
    let step = match worker.receive(Proto::Request(request, reply_to)) {
        Step::StartTimer { seconds, request, reply_to } => {
            assert_eq!(seconds, 5);
            worker.timer_started(true, request, reply_to)
        }
        _ => panic!(),
    };
    match step {
        Step::Send { request, reply_to: to } => {
            assert_eq!(request.method, Method::Get);
            assert_eq!(request.uri, "https://github.com/");
            assert_eq!(request.user_agent, "Parity Fetch Neo");
            assert_eq!(to, reply_to);
        }
        _ => panic!(),
    }
}

#[test]
fn it_should_fetch() {
    let fetch = client();
    let mut worker = Worker::new();
    let future_resp1 = scheduled(&fetch, "https://github.com");
    let future_resp2 = scheduled(&fetch, "https://github.com");
    send(&mut worker, future_resp1.request, '1');
    send(&mut worker, future_resp2.request, '2');
    let task1 = future_resp1.task.submitted(true).unwrap_or_else(|_| panic!());
    let task2 = future_resp2.task.submitted(true).unwrap_or_else(|_| panic!());
    for task in [&task1, &task2] {
        assert!(task.start_poll().is_ok());
        let none: Result<Async<TestResponse>, Error> = task.poll(Reply::NotReady);
        assert!(matches!(none, Ok(Async::NotReady)));
    }
    let mut resp2 = respond(&task2, 200, &[b"text/html; charset=utf-8"]);
    let mut resp1 = respond(&task1, 200, &[b"text/html; charset=utf-8"]);
    println!("{:?}", resp1.status());
    println!("{:?}", resp2.status());
    assert!(resp1.is_success() && resp2.is_success());
    assert!(resp1.is_html() && resp2.is_html());
    let s = read_to_end(&mut resp1, &[b"first", b" page"]).unwrap();
    println!("{} bytes", s.len());
    assert_eq!(s, b"first page".to_vec());
    let s = read_to_end(&mut resp2, &[b"another page"]).unwrap();
    println!("{} bytes", s.len());
    assert_eq!(s, b"another page".to_vec());
    let (channel, message) = fetch.close::<char>();
    assert_eq!(channel, "channel");
    assert!(message.is_quit());
    assert!(matches!(worker.receive(message), Step::Stop));
    assert!(closed(true).is_ok());
}

#[test]
fn a_thread_that_is_not_late_has_started() {
    let startup = Startup::Waited { timed_out: false, report: None };
    let client: Result<Client<u8, u8>, Error> = Client::new(startup, || 7, 8);
    match client {
        Ok(client) => assert_eq!((client.pool(), *client.tx_proto()), (7, 8)),
        Err(_) => panic!(),
    }
}

#[test]
fn a_new_client_limits_bodies_to_64_mebibytes() {
    let scheduled = scheduled(&client(), "http://localhost/");
    assert_eq!(scheduled.task.limit, Some(64 * 1024 * 1024));
    assert_eq!(scheduled.task.url, "http://localhost/");
}

#[test]
fn startup_that_times_out_gives_no_client() {
    let failure = io::Error::new(io::ErrorKind::Other, "no core");
    for report in [None, Some(Ok(())), Some(Err(failure))] {
        let startup = Startup::Waited { timed_out: true, report };
        let client: Result<Client<(), ()>, Error> = Client::new(startup, || panic!("a pool"), ());
        match client {
            Err(Error::Other(OtherError::Text(text))) => assert_eq!(text, "timeout starting background thread"),
            _ => panic!(),
        }
    }
}

#[test]
fn startup_that_fails_gives_no_client() {
    let failure = || io::Error::new(io::ErrorKind::Other, "no core");
    for startup in [started(Err(failure())), Startup::NotSpawned(failure())] {
        let client: Result<Client<(), ()>, Error> = Client::new(startup, || panic!("a pool"), ());
        match client {
            Err(e) => {
                assert!(matches!(e, Error::Io(IoError::System(_))));
                assert_eq!(e.message(), "no core");
            }
            _ => panic!(),
        }
    }
}

#[test]
fn set_limit_governs_later_fetches() {
    let mut client = client();
    let copy = client.clone();
    client.set_limit(Some(3));
    assert_eq!(scheduled(&client, "http://a/").task.limit, Some(3));
    assert_eq!(scheduled(&copy, "http://a/").task.limit, Some(67_108_864));
    client.set_limit(None);
    assert_eq!(scheduled(&client, "http://a/").task.limit, None);
    assert_eq!(client.pool(), "pool");
    assert_eq!(*client.tx_proto(), "channel");
}

#[test]
fn fetch_keeps_the_limit_of_the_client() {
    let mut client = client();
    client.set_limit(Some(10));
    let mut response = respond(&scheduled(&client, "http://a/").task, 200, &[]);
    let ten = read_to_end(&mut response, &[b"0123", b"456789"]);
    assert_eq!(ten.unwrap(), b"0123456789".to_vec());
    let mut response = respond(&scheduled(&client, "http://a/").task, 200, &[]);
    match read_to_end(&mut response, &[b"0123", b"456789a"]) {
        Err(IoError::Raised { kind, message }) => {
            assert_eq!(kind, ErrorKind::PermissionDenied);
            assert_eq!(message, "Size limit reached.");
        }
        _ => panic!(),
    }
}

#[test]
fn addresses_that_do_not_parse_are_refused() {
    let refused = |url: &str| match client().fetch(url) {
        Err(e) => {
            assert!(matches!(e, Error::Uri(_)));
            e.message()
        }
        Ok(_) => panic!(),
    };
    assert_eq!(refused(""), "empty Uri string");
    assert_eq!(refused("http:///x"), "absolute Uri missing authority segment");
    assert_eq!(refused("a/b"), "invalid character in Uri authority");
    assert_eq!(refused("http://[::1/"), "invalid character in Uri authority");
}

#[test]
fn addresses_get_a_path() {
    let uri = |url: &str| scheduled(&client(), url).request.uri;
    assert_eq!(uri("http://a"), "http://a/");
    assert_eq!(uri("http://a?q"), "http://a/?q");
    assert_eq!(uri("http://a/b?q#f"), "http://a/b?q#f");
    assert_eq!(uri("/only/path"), "/only/path");
    assert_eq!(uri("localhost:80"), "localhost:80");
    assert_eq!(uri(&uri("http://a")), "http://a/");
}

#[test]
fn a_refused_address_goes_through_schedule() {
    let e = "".parse::<hyper::Uri>().unwrap_err();
    assert!(matches!(client().schedule(Err(e), Abort::default()), Err(Error::Uri(_))));
    let s = client().schedule(Ok("x".to_string()), Abort::default()).unwrap_or_else(|_| panic!());
    assert_eq!((s.request.uri.as_str(), s.task.url.as_str()), ("x", "x"));
}

#[test]
fn a_request_that_cannot_be_sent_fails() {
    let task = scheduled(&client(), "http://a/").task;
    match task.submitted(false) {
        Err(Error::Other(OtherError::Text(text))) => assert_eq!(text, "failed to schedule request"),
        _ => panic!(),
    }
}

#[test]
fn closing_fails_when_the_message_cannot_be_sent() {
    match closed(false) {
        Err(Error::Other(OtherError::Text(text))) => assert_eq!(text, "failed to terminate background thread"),
        _ => panic!(),
    }
}

#[test]
fn an_aborted_fetch_ends_before_and_after_the_reply() {
    let flag = Arc::new(AtomicBool::new(false));
    let abort = Abort::from(flag.clone());
    let task = match client().fetch_with_abort("http://a/", abort) {
        Ok(scheduled) => scheduled.task,
        Err(_) => panic!(),
    };
    let mut response = respond(&task, 200, &[]);
    flag.store(true, Ordering::SeqCst);
    assert!(matches!(task.start_poll(), Err(Error::Aborted)));
    match read_to_end(&mut response, &[b"x"]) {
        Err(IoError::Raised { kind, message }) => {
            assert_eq!(kind, ErrorKind::ConnectionAborted);
            assert_eq!(message, "Fetch aborted.");
        }
        _ => panic!(),
    }
    assert_eq!(response.bytes_read(), 0);
    flag.store(false, Ordering::SeqCst);
    assert_eq!(read_to_end(&mut response, &[b"x"]).unwrap(), b"x".to_vec());
}

#[test]
fn replies_become_results() {
    let task = scheduled(&client(), "http://a/").task;
    let poll = |reply: Reply<u8>| -> Result<Async<TestResponse>, Error> { task.poll(reply) };
    assert!(matches!(poll(Reply::NotReady), Ok(Async::NotReady)));
    match poll(Reply::Canceled(futures::sync::oneshot::Canceled)) {
        Err(e) => {
            assert!(matches!(e, Error::Other(OtherError::Canceled(_))));
            assert_eq!(e.message(), "oneshot canceled");
        }
        _ => panic!(),
    }
    match poll(Reply::Failed(HyperError::Hyper(hyper::Error::Closed))) {
        Err(e) => assert_eq!(e.message(), "connection is closed"),
        _ => panic!(),
    }
    assert!(matches!(task.start_poll_when(true), Err(Error::Aborted)));
    assert!(task.start_poll_when(false).is_ok());
}

#[test]
fn content_types_are_read_from_the_header() {
    let task = scheduled(&client(), "http://a/").task;
    let text = |lines: &[&[u8]]| respond(&task, 200, lines).content_type().map(|mime| mime.text);
    assert_eq!(text(&[b"text/html"]), Some("text/html".to_string()));
    assert_eq!(text(&[b" TEXT/Html; Charset=UTF-8 "]), Some("text/html; charset=utf-8".to_string()));
    assert_eq!(text(&[]), None);
    assert_eq!(text(&[b"text/html", b"text/html"]), None);
    assert_eq!(text(&[b""]), None);
    assert_eq!(text(&[b"text"]), None);
    assert_eq!(text(&[b"\xff/html"]), None);
    let mime = respond(&task, 200, &[b"image/svg+xml; a=b"]).content_type().unwrap();
    assert_eq!((mime.type_.as_str(), mime.subtype.as_str()), ("image", "svg"));
}

#[test]
fn html_is_told_by_type_and_subtype() {
    let task = scheduled(&client(), "http://a/").task;
    let html = |line: &[u8]| respond(&task, 200, &[line]).is_html();
    assert!(html(b"text/html"));
    assert!(html(b"Text/HTML; charset=utf-8"));
    assert!(!html(b"text/plain"));
    assert!(!html(b"application/html"));
    assert!(!html(b"text/htm"));
    assert!(!html(b"nonsense"));
    assert!(!respond(&task, 200, &[]).is_html());
}

#[test]
fn only_ok_is_success() {
    let task = scheduled(&client(), "http://a/").task;
    for code in [100, 199, 201, 204, 301, 404, 500, 999] {
        let response = respond(&task, code, &[]);
        assert_eq!(response.status(), StatusCode(code));
        assert!(!response.is_success());
    }
    assert!(respond(&task, 200, &[]).is_success());
}

#[test]
fn a_response_says_its_status() {
    let task = scheduled(&client(), "http://a/").task;
    let says = |code: u16| respond(&task, code, &[]).describe();
    assert_eq!(says(200), "hyper response (status=200 OK)");
    assert_eq!(says(404), "hyper response (status=404 Not Found)");
    assert_eq!(says(299), "hyper response (status=299 <unknown status code>)");
    assert_eq!(says(7), "hyper response (status=7 <unknown status code>)");
}

#[test]
fn outcomes_become_replies() {
    assert!(matches!(reply(Outcome::Response(4)), Ok(4)));
    match reply::<()>(Outcome::TimedOut) {
        Err(HyperError::Io(IoError::Raised { kind, message })) => {
            assert_eq!(kind, ErrorKind::TimedOut);
            assert_eq!(message, "timeout");
        }
        _ => panic!(),
    }
    match reply::<()>(Outcome::RequestFailed(hyper::Error::Incomplete)) {
        Err(e) => assert_eq!(e.message(), "message is incomplete"),
        _ => panic!(),
    }
    match reply::<()>(Outcome::TimerFailed(io::Error::new(io::ErrorKind::Other, "no timer"))) {
        Err(HyperError::Io(e)) => assert_eq!(e.message(), "no timer"),
        _ => panic!(),
    }
}
