use fetch::abort::Abort;
use fetch::body::{BodyReader, NextChunk};
use fetch::error::{Error, ErrorKind, IoError, OtherError};
use fetch::mime::Mime;
use fetch::response::{ReadAction, Response};
use fetch::status::StatusCode;
use fetch::worker::{Method, Proto, Request, Step, Worker};
use std::io;
use std::sync::atomic::{AtomicBool, Ordering};
use std::sync::Arc;

type FileResponse = Response<(), io::Cursor<Vec<u8>>>;

#[test]
fn an_abort_control_follows_its_flag() {
    let flag = Arc::new(AtomicBool::new(false));
    let abort = Abort::from(flag.clone());
    let copy = abort.clone();
    assert!(!abort.is_aborted());
    assert_eq!(abort.describe(), "Abort(false)");
    flag.store(true, Ordering::SeqCst);
    assert!(abort.is_aborted());
    assert_eq!(abort.describe(), "Abort(true)");
    assert!(copy.is_aborted());
    flag.store(false, Ordering::SeqCst);
    assert!(!copy.is_aborted());
}

#[test]
fn the_default_control_never_aborts() {
    assert!(!Abort::default().is_aborted());
    assert!(!Abort::default().clone().is_aborted());
    assert_eq!(Abort::default().describe(), "Abort(false)");
}

#[test]
fn errors_speak() {
    assert_eq!(Error::Aborted.message(), "The request has been aborted.");
    assert_eq!(Error::Other(OtherError::Text("why".to_string())).message(), "why");
    let system = || io::Error::new(io::ErrorKind::Other, "disk");
    assert_eq!(Error::from(system()).message(), "disk");
    assert_eq!(Error::from(hyper::Error::Io(system())).message(), "disk");
    assert_eq!(Error::from(hyper::Error::Timeout).message(), "timeout");
    let uri = "".parse::<hyper::Uri>().unwrap_err();
    assert_eq!(Error::from(uri).message(), "empty Uri string");
    let canceled = Error::from(futures::sync::oneshot::Canceled);
    assert_eq!(canceled.message(), "oneshot canceled");
    assert!(matches!(canceled, Error::Other(OtherError::Canceled(_))));
    let raised = IoError::Raised { kind: ErrorKind::TimedOut, message: "late" };
    assert_eq!(Error::Io(raised).message(), "late");
}

#[test]
fn a_missing_page_has_nothing_to_read() {
    let mut response = FileResponse::not_found();
    assert_eq!(response.status(), StatusCode(404));
    assert!(!response.is_success());
    assert!(!response.is_html());
    assert!(response.content_type().is_none());
    assert_eq!(response.describe(), "not found");
    assert!(!response.has_body());
    assert!(response.reader_mut().is_none());
    let mut buf = [9; 3];
    assert!(matches!(response.read(&mut buf), ReadAction::Finished(Ok(0))));
    assert_eq!(buf, [9; 3]);
}

#[test]
fn a_reader_stands_in_for_a_server() {
    let mut response = FileResponse::from_reader(io::Cursor::new(b"file".to_vec()));
    assert_eq!(response.status(), StatusCode(200));
    assert!(response.is_success());
    assert!(!response.is_html());
    assert_eq!(response.describe(), "io reader");
    let mut buf = [0; 3];
    let mut sizes = Vec::new();
    for _ in 0..3 {
        assert!(matches!(response.read(&mut buf), ReadAction::ReadReader));
        let res = io::Read::read(response.reader_mut().unwrap(), &mut buf);
        sizes.push(response.finish_read(res.map_err(IoError::System)).unwrap());
    }
    assert_eq!(sizes, vec![3, 1, 0]);
    assert_eq!(response.bytes_read(), 4);
}

#[test]
fn a_reader_that_fails_is_passed_on_and_not_counted() {
    let mut response = FileResponse::from_reader(io::Cursor::new(Vec::new()));
    let failure = IoError::System(io::Error::new(io::ErrorKind::Other, "disk"));
    match response.finish_read(Err(failure)) {
        Err(e) => assert_eq!(e.message(), "disk"),
        Ok(_) => panic!(),
    }
    assert_eq!(response.bytes_read(), 0);
}

#[test]
fn the_limit_is_the_last_size_that_is_accepted() {
    let mut response: Response<(), ()> =
        Response::received(StatusCode(200), None, (), Abort::default(), Some(5));
    assert_eq!(response.finish_read(Ok(2)).unwrap(), 2);
    assert_eq!(response.finish_read(Ok(3)).unwrap(), 3);
    assert_eq!(response.finish_read(Ok(0)).unwrap(), 0);
    assert!(response.finish_read(Ok(1)).is_err());
    assert_eq!(response.bytes_read(), 6);
    match response.finish_read(Ok(0)) {
        Err(IoError::Raised { kind, message }) => {
            assert_eq!(kind, ErrorKind::PermissionDenied);
            assert_eq!(message, "Size limit reached.");
        }
        _ => panic!(),
    }
    let failure = IoError::System(io::Error::new(io::ErrorKind::Other, "disk"));
    match response.finish_read(Err(failure)) {
        Err(e) => assert_eq!(e.message(), "Size limit reached."),
        Ok(_) => panic!(),
    }
}

#[test]
fn a_body_that_fails_fails_the_read() {
    let mut response: Response<u8, ()> =
        Response::received(StatusCode(200), None, 1, Abort::default(), None);
    let mut buf = [0; 4];
    match response.read(&mut buf) {
        ReadAction::AwaitChunk { filled, body } => assert_eq!((filled, body), (0, 1)),
        _ => panic!(),
    }
    assert!(response.has_body());
    match response.resume_read(&mut buf, 0, NextChunk::Failed) {
        ReadAction::Finished(Err(e)) => assert_eq!(e.message(), "failed to read body chunk"),
        _ => panic!(),
    }
    assert!(matches!(response.read(&mut buf), ReadAction::Finished(Ok(0))));
}

#[test]
fn an_aborted_read_changes_nothing() {
    let mut response: Response<u8, ()> =
        Response::received(StatusCode(200), None, 1, Abort::default(), None);
    let mut buf = [3; 4];
    match response.read_when(true, &mut buf) {
        ReadAction::Finished(Err(e)) => assert_eq!(e.message(), "Fetch aborted."),
        _ => panic!(),
    }
    assert_eq!(buf, [3; 4]);
    assert!(matches!(response.read_when(false, &mut buf), ReadAction::AwaitChunk { filled: 0, body: 1 }));
}

#[test]
fn names_of_media_types_ignore_case() {
    let mime = |type_: &str, subtype: &str| Mime {
        text: String::new(),
        type_: type_.to_string(),
        subtype: subtype.to_string(),
    };
    assert!(mime("text", "html").is("text", "html"));
    assert!(mime("TeXt", "html").is("tEXT", "HTML"));
    assert!(!mime("text", "html").is("text", "htm"));
    assert!(!mime("text", "html").is("text", "htmk"));
    assert!(!mime("@[`{", "x").is("`{@[", "x"));
    assert!(!mime("\u{c4}", "x").is("\u{e4}", "x"));
    assert_eq!(mime("a", "b").clone().subtype, "b");
}

fn request(uri: &str) -> Request {
    Request { method: Method::Get, uri: uri.to_string(), user_agent: "test" }
}

#[test]
fn quit_ends_the_worker() {
    let mut worker = Worker::new();
    assert!(matches!(worker.receive(Proto::Request(request("a"), 1)), Step::StartTimer { .. }));
    assert!(!Proto::Request(request("a"), 1).is_quit());
    assert!(matches!(worker.receive(Proto::<u8>::Quit), Step::Stop));
    assert!(matches!(worker.receive(Proto::Request(request("b"), 2)), Step::Stop));
    assert!(matches!(worker.timer_started(true, request("a"), 1), Step::Stop));
}

#[test]
fn a_timer_that_cannot_start_ends_the_worker() {
    let mut worker = Worker::new();
    assert!(matches!(worker.timer_started(true, request("a"), 1), Step::Send { reply_to: 1, .. }));
    assert!(matches!(worker.timer_started(false, request("a"), 1), Step::Stop));
    assert!(matches!(worker.receive(Proto::Request(request("b"), 2)), Step::Stop));
}

#[test]
fn a_count_that_is_full_takes_no_more() {
    let full = |body: &[u8]| {
        let mut response: Response<u8, ()> =
            Response::received(StatusCode(200), None, 1, Abort::default(), None);
        let mut none = [0; 0];
        assert!(matches!(response.read(&mut none), ReadAction::AwaitChunk { .. }));
        response.resume_read(&mut none, 0, NextChunk::Chunk(body.to_vec(), 2));
        assert_eq!(response.finish_read(Ok(usize::MAX - 2)).unwrap(), usize::MAX - 2);
        response
    };
    let response = full(b"abc");
    assert!(response.size_limit().is_none());
    assert!(!response.abort_control().is_aborted());
    assert!(response.can_read(2));
    assert!(!response.can_read(3));
    assert!(response.can_read(4));
    assert!(response.can_resume(4, 3, &NextChunk::Failed));
    assert!(!response.can_resume(4, 3, &NextChunk::Exhausted));
    assert!(response.can_resume(4, 2, &NextChunk::Exhausted));
    assert!(response.can_resume(4, 3, &NextChunk::Chunk(b"".to_vec(), 1)));
    assert!(!response.can_resume(4, 3, &NextChunk::Chunk(b"x".to_vec(), 1)));
    assert!(response.can_resume(2, 1, &NextChunk::Chunk(b"x".to_vec(), 1)));
    let mut response = response;
    let mut buf = [0; 3];
    assert!(matches!(response.read_when(true, &mut buf), ReadAction::Finished(Err(_))));
    assert!(FileResponse::not_found().can_read(3));
}

#[test]
fn a_reader_tells_with_how_many_bytes_a_step_ends() {
    let mut reader = BodyReader::new(0);
    assert_eq!(reader.ends_with(3), None);
    let mut none = [0; 0];
    reader.step(&mut none, 0);
    assert_eq!(reader.ends_with(3), Some(0));
    reader.resume(&mut none, 0, NextChunk::Chunk(b"ab".to_vec(), 1));
    assert_eq!(reader.ends_with(1), Some(1));
    assert_eq!(reader.ends_with(2), Some(2));
    assert_eq!(reader.ends_with(3), None);
}
