use iroh_transport::poll::Poll;
use iroh_transport::stream::{answer, closed_by_peer, StreamIoError};
use iroh_transport::{Stream, StreamError};

fn stream() -> Stream<u8, u16> {
    Stream::new(7, 9).unwrap()
}

#[test]
fn stream_errors_print_their_kind() {
    let read = StreamError::from(std::io::Error::other("gone"));
    assert_eq!(read.to_string(), "IrohStream Read Error: gone");
    let read = StreamError::from(iroh::endpoint::ReadError::ClosedStream);
    assert_eq!(read.to_string(), "IrohStream Read Error: closed stream");
    let write = StreamError::from(iroh::endpoint::WriteError::ClosedStream);
    assert_eq!(write.to_string(), "IrohStream Write Error: closed stream");
    let lost = StreamError::from(iroh::endpoint::ConnectionError::TimedOut);
    assert_eq!(
        lost.to_string(),
        format!("IrohStream Connection Error: {}", iroh::endpoint::ConnectionError::TimedOut)
    );
    let text = StreamError::from("no such stream");
    assert_eq!(text.to_string(), "IrohStream Connection Error: no such stream");
}

#[test]
fn a_fresh_stream_reads_writes_and_flushes() {
    let mut s = stream();
    assert_eq!(*s.poll_read::<()>().unwrap(), 9);
    assert_eq!(*s.poll_write::<()>().unwrap(), 7);
    assert_eq!(*s.poll_flush::<()>().unwrap(), 7);
}

#[test]
fn halves_are_polled_in_place() {
    let mut s = stream();
    *s.poll_read::<()>().unwrap() = 10;
    *s.poll_write::<()>().unwrap() = 8;
    assert_eq!(*s.poll_read::<()>().unwrap(), 10);
    assert_eq!(*s.poll_flush::<()>().unwrap(), 8);
}

#[test]
fn closing_finishes_the_sender_once() {
    let mut s = stream();
    let (finish, reply) = s.poll_close::<()>();
    assert_eq!(finish, Some(7));
    assert!(matches!(reply, Poll::Ready(Ok(()))));
    let (finish, reply) = s.poll_close::<()>();
    assert_eq!(finish, None);
    assert!(matches!(reply, Poll::Ready(Ok(()))));
}

#[test]
fn a_closed_stream_refuses_to_write_and_still_reads() {
    let mut s = stream();
    let _ = s.poll_close::<()>();
    assert!(matches!(
        s.poll_write::<()>(),
        Err(StreamIoError::BrokenPipe("stream sender closed"))
    ));
    assert!(matches!(
        s.poll_flush::<()>(),
        Err(StreamIoError::BrokenPipe("stream sender closed"))
    ));
    assert_eq!(*s.poll_read::<()>().unwrap(), 9);
}

#[test]
fn answers_of_the_halves_are_passed_on() {
    assert!(matches!(answer::<usize, &str>(Poll::Ready(Ok(0))), Poll::Ready(Ok(0))));
    assert!(matches!(answer::<usize, &str>(Poll::Ready(Ok(12))), Poll::Ready(Ok(12))));
    assert!(matches!(
        answer::<usize, &str>(Poll::Ready(Err("reset"))),
        Poll::Ready(Err(StreamIoError::Other("reset")))
    ));
    assert!(matches!(answer::<usize, &str>(Poll::Pending), Poll::Pending));
}

#[test]
fn messages_of_a_peer_that_closed() {
    let stopped = iroh::endpoint::WriteError::Stopped(iroh::endpoint::VarInt::from(7u32));
    assert!(closed_by_peer(&stopped.to_string()));
    assert!(closed_by_peer("error 0"));
    assert!(closed_by_peer("closed: error 0 (peer)"));
    assert!(closed_by_peer("it sstopped"));
    assert!(!closed_by_peer(""));
    assert!(!closed_by_peer("stoppe"));
    assert!(!closed_by_peer("error 1"));
    assert!(!closed_by_peer(&iroh::endpoint::WriteError::ClosedStream.to_string()));
}
