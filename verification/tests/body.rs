use fetch::body::{BodyReader, Chunk, NextChunk, ReadStep};
use fetch::error::{ErrorKind, IoError};

type Reader = BodyReader<usize>;

/// Reads once, with the handle of a body being the number of the next arrival.
fn read(reader: &mut Reader, arrivals: &[Option<&[u8]>], buf: &mut [u8]) -> Result<usize, IoError> {
    let mut step = reader.step(buf, 0);
    loop {
        match step {
            ReadStep::Done(n) => return Ok(n),
            ReadStep::Failed(e) => return Err(e),
            ReadStep::Wait { filled, body } => {
                let next = match arrivals.get(body) {
                    None => NextChunk::Exhausted,
                    Some(None) => NextChunk::Failed,
                    Some(Some(bytes)) => NextChunk::Chunk(bytes.to_vec(), body + 1),
                };
                step = reader.resume(buf, filled, next);
            }
        }
    }
}

fn read_all(arrivals: &[Option<&[u8]>], room: usize) -> Vec<u8> {
    let mut reader = Reader::new(0);
    let mut all = Vec::new();
    loop {
        let mut buf = vec![0xee; room];
        let n = read(&mut reader, arrivals, &mut buf).unwrap();
        assert!(buf[n..].iter().all(|b| *b == 0xee));
        if n == 0 {
            return all;
        }
        all.extend_from_slice(&buf[..n]);
    }
}

#[test]
fn reads_deliver_the_chunks_in_order() {
    let arrivals: [Option<&[u8]>; 4] = [Some(b"hello"), Some(b""), Some(b", "), Some(b"world")];
    for room in 1..15 {
        assert_eq!(read_all(&arrivals, room), b"hello, world".to_vec());
    }
}

#[test]
fn a_read_fills_the_buffer_across_chunks() {
    let arrivals: [Option<&[u8]>; 3] = [Some(b"abc"), Some(b"de"), Some(b"fgh")];
    let mut reader = Reader::new(0);
    let mut buf = [0; 6];
    assert_eq!(read(&mut reader, &arrivals, &mut buf).unwrap(), 6);
    assert_eq!(&buf, b"abcdef");
    assert_eq!(read(&mut reader, &arrivals, &mut buf).unwrap(), 2);
    assert_eq!(&buf, b"ghcdef");
    assert_eq!(read(&mut reader, &arrivals, &mut buf).unwrap(), 0);
    assert_eq!(&buf, b"ghcdef");
}

#[test]
fn a_read_stays_over_once_the_body_is() {
    let mut reader = Reader::new(0);
    let mut buf = [0; 4];
    assert_eq!(read(&mut reader, &[], &mut buf).unwrap(), 0);
    assert!(matches!(reader.step(&mut buf, 0), ReadStep::Done(0)));
    assert!(matches!(reader.step(&mut buf, 3), ReadStep::Done(3)));
}

#[test]
fn an_empty_buffer_waits_for_a_chunk_and_takes_nothing() {
    let mut reader = Reader::new(0);
    let mut none = [0; 0];
    match reader.step(&mut none, 0) {
        ReadStep::Wait { filled, body } => assert_eq!((filled, body), (0, 0)),
        _ => panic!(),
    }
    let step = reader.resume(&mut none, 0, NextChunk::Chunk(b"xy".to_vec(), 1));
    assert!(matches!(step, ReadStep::Done(0)));
    let mut buf = [0; 2];
    assert!(matches!(reader.step(&mut buf, 0), ReadStep::Done(2)));
    assert_eq!(&buf, b"xy");
}

#[test]
fn a_failed_chunk_ends_the_read_with_an_error() {
    let arrivals: [Option<&[u8]>; 2] = [Some(b"abc"), None];
    let mut reader = Reader::new(0);
    let mut buf = [0; 8];
    match read(&mut reader, &arrivals, &mut buf) {
        Err(IoError::Raised { kind, message }) => {
            assert_eq!(kind, ErrorKind::Other);
            assert_eq!(message, "failed to read body chunk");
        }
        _ => panic!(),
    }
    assert_eq!(read(&mut reader, &arrivals, &mut buf).unwrap(), 0);
}

#[test]
fn a_chunk_moves_what_fits() {
    let mut chunk = Chunk::new(b"abcdef".to_vec());
    let mut buf = [b'.'; 5];
    assert_eq!(chunk.copy_to(&mut buf, 3), 2);
    assert_eq!(&buf, b"...ab");
    assert!(!chunk.is_exhausted());
    assert_eq!(chunk.copy_to(&mut buf, 0), 4);
    assert_eq!(&buf, b"cdefb");
    assert!(chunk.is_exhausted());
    assert_eq!(chunk.copy_to(&mut buf, 5), 0);
}
