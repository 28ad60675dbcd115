use iroh_transport::connection::{HandshakeStep, InboundHandshake, OutboundHandshake, Slot};
use iroh_transport::poll::Poll;
use iroh_transport::{Connecting, Connection, ConnectionError, StreamError, TransportError};

type Streams = Result<(u8, u16), ConnectionError>;

#[test]
fn connection_errors_print_their_kind() {
    assert_eq!(
        ConnectionError::from("broken \"pipe\"").to_string(),
        "ConnectionError: Accept(\"broken \\\"pipe\\\"\")"
    );
    assert_eq!(
        ConnectionError::from(StreamError::from("gone")).to_string(),
        "ConnectionError: Stream(\"IrohStream Connection Error: gone\")"
    );
    let closed = iroh::endpoint::ConnectionError::LocallyClosed;
    let expected = format!("ConnectionError: Accept({:?})", closed.to_string());
    assert_eq!(ConnectionError::from(closed).to_string(), expected);
}

#[test]
fn inbound_handshake() {
    assert!(matches!(InboundHandshake::<u8, u16>::start(), HandshakeStep::AcceptBi));
    let (handshake, step) = InboundHandshake::accepted(Ok((1u8, 2u16))).unwrap();
    assert!(matches!(step, HandshakeStep::ReadByte));
    assert_eq!(handshake.finish(Ok(77)).unwrap(), (1, 2));
}

#[test]
fn inbound_handshake_failures() {
    let refused = InboundHandshake::<u8, u16>::accepted(Err("timeout".to_string())).unwrap_err();
    assert_eq!(
        refused.to_string(),
        "ConnectionError: Accept(\"Iroh handshake failed during accept\")"
    );
    let (handshake, _) = InboundHandshake::accepted(Ok((1u8, 2u16))).unwrap();
    assert_eq!(
        handshake.finish(Err("eof".to_string())).unwrap_err().to_string(),
        "ConnectionError: Accept(\"Failed to read from stream\")"
    );
}

#[test]
fn outbound_handshake() {
    assert!(matches!(OutboundHandshake::<u8, u16>::start(), HandshakeStep::OpenBi));
    let (handshake, step) = OutboundHandshake::opened(Ok((1u8, 2u16))).unwrap();
    assert!(matches!(step, HandshakeStep::WriteByte(0)));
    assert_eq!(handshake.finish(Ok(())).unwrap(), (1, 2));
}

#[test]
fn outbound_handshake_failures() {
    let refused = OutboundHandshake::<u8, u16>::opened(Err("timeout".to_string())).unwrap_err();
    assert_eq!(
        refused.to_string(),
        "ConnectionError: Accept(\"Iroh handshake failed during open\")"
    );
    let (handshake, _) = OutboundHandshake::opened(Ok((1u8, 2u16))).unwrap();
    assert_eq!(
        handshake.finish(Err("stopped".to_string())).unwrap_err().to_string(),
        "ConnectionError: Accept(\"Failed to write to stream\")"
    );
}

#[test]
fn handshakes_of_both_sides_leave_the_payload() {
    let (_, write) = OutboundHandshake::opened(Ok((1u8, 2u16))).unwrap();
    let mut wire: Vec<u8> = Vec::new();
    if let HandshakeStep::WriteByte(byte) = write {
        wire.push(byte);
    }
    wire.extend_from_slice(b"payload");
    let (_, read) = InboundHandshake::accepted(Ok((1u8, 2u16))).unwrap();
    if let HandshakeStep::ReadByte = read {
        wire.remove(0);
    }
    assert_eq!(wire, b"payload");
}

#[test]
fn inbound_streams_come_one_after_the_other() {
    let mut c = Connection::new("c");
    assert!(c.start_inbound());
    assert!(matches!(c.poll_inbound::<u8, u16>(Poll::Pending), Poll::Pending));
    assert!(!c.start_inbound());
    let ready: Streams = Ok((1, 2));
    match c.poll_inbound(Poll::Ready(ready)) {
        Poll::Ready(Ok(mut stream)) => {
            assert_eq!(*stream.poll_write::<()>().unwrap(), 1);
            assert_eq!(*stream.poll_read::<()>().unwrap(), 2);
        }
        _ => panic!("no stream"),
    }
    assert!(c.start_inbound());
    assert!(matches!(c.outgoing, Slot::Empty));
    assert!(matches!(c.closing, Slot::Empty));
}

#[test]
fn failed_work_is_not_started_again() {
    let mut c = Connection::new("c");
    assert!(c.start_outbound());
    let failed: Streams = Err(ConnectionError::from("Failed to write to stream"));
    match c.poll_outbound(Poll::Ready(failed)) {
        Poll::Ready(Err(error)) => assert_eq!(
            error.to_string(),
            "ConnectionError: Accept(\"Failed to write to stream\")"
        ),
        _ => panic!("no error"),
    }
    assert!(matches!(c.outgoing, Slot::Spent));
    assert!(!c.start_outbound());
    assert!(c.start_inbound());
}

#[test]
fn outbound_streams_make_room() {
    let mut c = Connection::new("c");
    assert!(c.start_outbound());
    let ready: Streams = Ok((3, 4));
    assert!(matches!(c.poll_outbound(Poll::Ready(ready)), Poll::Ready(Ok(_))));
    assert!(matches!(c.outgoing, Slot::Empty));
    assert!(c.start_outbound());
    assert!(matches!(c.poll_outbound::<u8, u16>(Poll::Pending), Poll::Pending));
}

#[test]
fn closing_asks_once_and_reports_a_failure() {
    let mut c = Connection::new("c");
    let request = c.start_close().unwrap();
    assert_eq!(request.error_code, 0);
    assert!(request.reason.is_empty());
    assert!(matches!(c.poll_close(Poll::Pending), Poll::Pending));
    assert!(c.start_close().is_none());
    match c.poll_close(Poll::Ready(ConnectionError::from("closed"))) {
        Poll::Ready(Err(error)) => assert_eq!(
            error.to_string(),
            "ConnectionError: Accept(\"failed to close connection\")"
        ),
        _ => panic!("no error"),
    }
    assert!(c.start_close().is_none());
}

#[test]
fn connections_have_no_events() {
    let c = Connection::new("c");
    assert!(matches!(c.poll::<u8>(), Poll::Pending));
}

#[test]
fn connecting_yields_a_fresh_connection() {
    let connecting = Connecting { connecting: () };
    match connecting.poll(Poll::Ready(Ok(("peer", "c")))) {
        Poll::Ready(Ok((peer, c))) => {
            assert_eq!(peer, "peer");
            assert_eq!(c.connection, "c");
            assert!(matches!(c.incoming, Slot::Empty));
        }
        _ => panic!("no connection"),
    }
    assert!(matches!(connecting.poll::<&str, &str>(Poll::Pending), Poll::Pending));
    match connecting.poll::<&str, &str>(Poll::Ready(Err(TransportError::from("gone")))) {
        Poll::Ready(Err(error)) => {
            assert_eq!(error.to_string(), "TransportError: Listen(\"gone\")")
        }
        _ => panic!("no error"),
    }
}
