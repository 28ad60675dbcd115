//! A connection that carries many streams.
//!
//! A connection keeps at most one piece of work of each sort under way: accepting a stream,
//! opening a stream, closing itself. Polling for one comes in two parts. The first says whether
//! the work is still to be started; the second takes what the work answered when it was polled.

use iroh::endpoint::ConnectionError as QuicConnectionError;
use vstd::prelude::*;
use vstd::std_specs::convert::FromSpecImpl;
use vstd::string::to_string_from_display_ensures;

use crate::poll::Poll;
use crate::stream::{Stream, StreamError, StreamState};
use crate::text::{debug_str, join_variant};
use crate::transport::TransportError;

verus! {

/// A failure of a connection.
#[derive(Debug)]
pub struct ConnectionError {
    kind: ConnectionErrorKind,
}

/// What a connection failed at, and the message.
#[derive(Debug)]
pub enum ConnectionErrorKind {
    Accept(String),
    Open(String),
    Stream(String),
}

/// A [`ConnectionError`] as contracts speak of it.
pub enum ConnectionFault {
    Accept(Seq<char>),
    Open(Seq<char>),
    Stream(Seq<char>),
}

impl ConnectionFault {
    /// What the error prints as.
    pub open spec fn display(self) -> Seq<char> {
        match self {
            ConnectionFault::Accept(text) => "ConnectionError: Accept("@ + debug_str(text) + ")"@,
            ConnectionFault::Open(text) => "ConnectionError: Open("@ + debug_str(text) + ")"@,
            ConnectionFault::Stream(text) => "ConnectionError: Stream("@ + debug_str(text) + ")"@,
        }
    }
}

impl View for ConnectionError {
    type V = ConnectionFault;

    closed spec fn view(&self) -> ConnectionFault {
        match self.kind {
            ConnectionErrorKind::Accept(text) => ConnectionFault::Accept(text@),
            ConnectionErrorKind::Open(text) => ConnectionFault::Open(text@),
            ConnectionErrorKind::Stream(text) => ConnectionFault::Stream(text@),
        }
    }
}

impl ConnectionError {
    /// Prints the error.
    pub fn to_string(&self) -> (r: String)
        ensures
            r@ == self@.display(),
    {
        match &self.kind {
            ConnectionErrorKind::Accept(text) => join_variant(
                "ConnectionError: Accept(",
                text.as_str(),
            ),
            ConnectionErrorKind::Open(text) => join_variant(
                "ConnectionError: Open(",
                text.as_str(),
            ),
            ConnectionErrorKind::Stream(text) => join_variant(
                "ConnectionError: Stream(",
                text.as_str(),
            ),
        }
    }
}

// A `String` is known to contracts by its characters, not as a value that a spec function could
// build. So `from_spec` claims nothing for these errors, and each `from` states its own result.

impl FromSpecImpl<QuicConnectionError> for ConnectionError {
    open spec fn obeys_from_spec() -> bool {
        false
    }

    open spec fn from_spec(err: QuicConnectionError) -> ConnectionError {
        arbitrary()
    }
}

impl From<QuicConnectionError> for ConnectionError {
    fn from(err: QuicConnectionError) -> (r: ConnectionError)
        ensures
            exists|text: String| #[trigger]
                to_string_from_display_ensures(&err, text) && r@ == ConnectionFault::Accept(text@),
    {
        let text = err.to_string();
        ConnectionError { kind: ConnectionErrorKind::Accept(text) }
    }
}

impl FromSpecImpl<&str> for ConnectionError {
    open spec fn obeys_from_spec() -> bool {
        false
    }

    open spec fn from_spec(err: &str) -> ConnectionError {
        arbitrary()
    }
}

impl From<&str> for ConnectionError {
    fn from(err: &str) -> (r: ConnectionError)
        ensures
            r@ == ConnectionFault::Accept(err@),
    {
        ConnectionError { kind: ConnectionErrorKind::Accept(err.to_string()) }
    }
}

impl FromSpecImpl<StreamError> for ConnectionError {
    open spec fn obeys_from_spec() -> bool {
        false
    }

    open spec fn from_spec(err: StreamError) -> ConnectionError {
        arbitrary()
    }
}

impl From<StreamError> for ConnectionError {
    fn from(err: StreamError) -> (r: ConnectionError)
        ensures
            r@ == ConnectionFault::Stream(err@.display()),
    {
        ConnectionError { kind: ConnectionErrorKind::Stream(err.to_string()) }
    }
}

/// One step towards a stream that both sides can use.
#[derive(Debug, Clone, Copy)]
pub enum HandshakeStep {
    /// Accept a bidirectional stream from the peer.
    AcceptBi,
    /// Open a bidirectional stream to the peer.
    OpenBi,
    /// Read one byte from the new stream, whatever it is.
    ReadByte,
    /// Write this byte to the new stream.
    WriteByte(u8),
}

impl HandshakeStep {
    /// The bytes that the step puts on the stream.
    pub open spec fn written(self) -> Seq<u8> {
        match self {
            HandshakeStep::WriteByte(byte) => seq![byte],
            _ => seq![],
        }
    }

    /// How many bytes the step takes off the stream.
    pub open spec fn taken(self) -> nat {
        match self {
            HandshakeStep::ReadByte => 1,
            _ => 0,
        }
    }
}

/// Work on a stream that comes in from the peer: accept it, then read its handshake byte.
///
/// The peer's opening of a stream is noticed only once something was written to it, which is what
/// the byte is for.
#[derive(Debug)]
pub struct InboundHandshake<S, R> {
    pub send: S,
    pub recv: R,
}

impl<S, R> InboundHandshake<S, R> {
    /// What to do first.
    pub open spec fn first_step() -> HandshakeStep {
        HandshakeStep::AcceptBi
    }

    /// What to do once the stream is accepted.
    pub open spec fn second_step() -> HandshakeStep {
        HandshakeStep::ReadByte
    }

    /// What to do first.
    pub fn start() -> (r: HandshakeStep)
        ensures
            r == Self::first_step(),
    {
        HandshakeStep::AcceptBi
    }

    /// Takes the accepted stream; the next step is the second value.
    pub fn accepted(accepted: Result<(S, R), String>) -> (r: Result<
        (InboundHandshake<S, R>, HandshakeStep),
        ConnectionError,
    >)
        ensures
            match accepted {
                Ok((send, recv)) => r == Ok::<_, ConnectionError>(
                    (InboundHandshake { send, recv }, Self::second_step()),
                ),
                Err(_) => r matches Err(error) && error@ == ConnectionFault::Accept(
                    "Iroh handshake failed during accept"@,
                ),
            },
    {
        match accepted {
            Ok((send, recv)) => Ok((InboundHandshake { send, recv }, HandshakeStep::ReadByte)),
            Err(_) => Err(ConnectionError::from("Iroh handshake failed during accept")),
        }
    }

    /// Takes the byte that was read. Any byte will do.
    pub fn finish(self, read: Result<u8, String>) -> (r: Result<(S, R), ConnectionError>)
        ensures
            match read {
                Ok(_) => r == Ok::<_, ConnectionError>((self.send, self.recv)),
                Err(_) => r matches Err(error) && error@ == ConnectionFault::Accept(
                    "Failed to read from stream"@,
                ),
            },
    {
        match read {
            Ok(_) => Ok((self.send, self.recv)),
            Err(_) => Err(ConnectionError::from("Failed to read from stream")),
        }
    }
}

/// Work on a stream that goes out to the peer: open it, then write its handshake byte.
#[derive(Debug)]
pub struct OutboundHandshake<S, R> {
    pub send: S,
    pub recv: R,
}

impl<S, R> OutboundHandshake<S, R> {
    /// What to do first.
    pub open spec fn first_step() -> HandshakeStep {
        HandshakeStep::OpenBi
    }

    /// What to do once the stream is open.
    pub open spec fn second_step() -> HandshakeStep {
        HandshakeStep::WriteByte(0)
    }

    /// What to do first.
    pub fn start() -> (r: HandshakeStep)
        ensures
            r == Self::first_step(),
    {
        HandshakeStep::OpenBi
    }

    /// Takes the opened stream; the next step is the second value.
    pub fn opened(opened: Result<(S, R), String>) -> (r: Result<
        (OutboundHandshake<S, R>, HandshakeStep),
        ConnectionError,
    >)
        ensures
            match opened {
                Ok((send, recv)) => r == Ok::<_, ConnectionError>(
                    (OutboundHandshake { send, recv }, Self::second_step()),
                ),
                Err(_) => r matches Err(error) && error@ == ConnectionFault::Accept(
                    "Iroh handshake failed during open"@,
                ),
            },
    {
        match opened {
            Ok((send, recv)) => Ok((OutboundHandshake { send, recv }, HandshakeStep::WriteByte(0))),
            Err(_) => Err(ConnectionError::from("Iroh handshake failed during open")),
        }
    }

    /// Takes word that the byte was written.
    pub fn finish(self, written: Result<(), String>) -> (r: Result<(S, R), ConnectionError>)
        ensures
            match written {
                Ok(_) => r == Ok::<_, ConnectionError>((self.send, self.recv)),
                Err(_) => r matches Err(error) && error@ == ConnectionFault::Accept(
                    "Failed to write to stream"@,
                ),
            },
    {
        match written {
            Ok(_) => Ok((self.send, self.recv)),
            Err(_) => Err(ConnectionError::from("Failed to write to stream")),
        }
    }
}

/// The two sides of a handshake fit: what the side that opens a stream puts on it before anybody
/// uses it, the side that accepts it takes off again, so that the first byte that is received is
/// the first byte of what was sent.
pub proof fn law_handshake_leaves_payload<S, R>(payload: Seq<u8>)
    ensures
        ({
            let written = OutboundHandshake::<S, R>::first_step().written()
                + OutboundHandshake::<S, R>::second_step().written();
            let taken = InboundHandshake::<S, R>::first_step().taken() + InboundHandshake::<
                S,
                R,
            >::second_step().taken();
            (written + payload).skip(taken as int) == payload
        }),
{
    let written = OutboundHandshake::<S, R>::first_step().written() + OutboundHandshake::<
        S,
        R,
    >::second_step().written();
    assert(written =~= seq![0u8]);
    assert((written + payload).skip(1) =~= payload);
}

/// Where a piece of work of the connection stands.
#[derive(Debug, Clone, Copy)]
pub enum Slot {
    /// Nothing is under way.
    Empty,
    /// The work was started and has not answered yet.
    Running,
    /// The work has answered for good; it can be neither polled nor started again.
    Spent,
}

/// A request to close the connection, with what the peer is told.
#[derive(Debug, Clone)]
pub struct CloseRequest {
    /// The application error code.
    pub error_code: u32,
    /// The reason in words.
    pub reason: Vec<u8>,
}

/// A connection, with where its pieces of work stand.
#[derive(Debug)]
pub struct Connection<C> {
    pub connection: C,
    pub incoming: Slot,
    pub outgoing: Slot,
    pub closing: Slot,
}

/// Where work stands once it has been started.
pub open spec fn slot_started(slot: Slot) -> Slot {
    match slot {
        Slot::Empty => Slot::Running,
        other => other,
    }
}

/// Where work that yields a stream stands once it has been polled.
pub open spec fn slot_polled<T, E>(polled: Poll<Result<T, E>>) -> Slot {
    match polled {
        Poll::Pending => Slot::Running,
        Poll::Ready(Ok(_)) => Slot::Empty,
        Poll::Ready(Err(_)) => Slot::Spent,
    }
}

/// Whether polling for a stream answers `r` when the work on the stream answered `polled`.
pub open spec fn stream_answer<S, R>(
    polled: Poll<Result<(S, R), ConnectionError>>,
    r: Poll<Result<Stream<S, R>, ConnectionError>>,
) -> bool {
    match polled {
        Poll::Pending => r is Pending,
        Poll::Ready(Err(error)) => r == Poll::Ready(Err::<Stream<S, R>, _>(error)),
        Poll::Ready(Ok((send, recv))) => {
            r matches Poll::Ready(Ok(stream)) && stream@ == StreamState::fresh(send, recv)
        },
    }
}

impl<C> Connection<C> {
    /// A connection that nothing is under way on.
    pub open spec fn fresh(connection: C) -> Connection<C> {
        Connection {
            connection,
            incoming: Slot::Empty,
            outgoing: Slot::Empty,
            closing: Slot::Empty,
        }
    }

    /// A connection that nothing is under way on.
    pub fn new(connection: C) -> (r: Connection<C>)
        ensures
            r == Connection::fresh(connection),
    {
        Connection {
            connection,
            incoming: Slot::Empty,
            outgoing: Slot::Empty,
            closing: Slot::Empty,
        }
    }

    /// Whether to start accepting a stream before polling for one.
    pub fn start_inbound(&mut self) -> (r: bool)
        ensures
            r == (old(self).incoming is Empty),
            *final(self) == (Connection {
                incoming: slot_started(old(self).incoming),
                ..*old(self)
            }),
    {
        match self.incoming {
            Slot::Empty => {
                self.incoming = Slot::Running;
                true
            },
            _ => false,
        }
    }

    /// Takes what the work on an incoming stream answered.
    ///
    /// Work that failed stays in its place, and must not be polled again.
    pub fn poll_inbound<S, R>(&mut self, polled: Poll<Result<(S, R), ConnectionError>>) -> (r: Poll<
        Result<Stream<S, R>, ConnectionError>,
    >)
        requires
            old(self).incoming is Running,
        ensures
            stream_answer(polled, r),
            *final(self) == (Connection { incoming: slot_polled(polled), ..*old(self) }),
    {
        match polled {
            Poll::Pending => Poll::Pending,
            Poll::Ready(Err(error)) => {
                self.incoming = Slot::Spent;
                Poll::Ready(Err(error))
            },
            Poll::Ready(Ok((send, recv))) => {
                self.incoming = Slot::Empty;
                match Stream::new(send, recv) {
                    Ok(stream) => Poll::Ready(Ok(stream)),
                    Err(error) => Poll::Ready(Err(ConnectionError::from(error))),
                }
            },
        }
    }

    /// Whether to start opening a stream before polling for one.
    pub fn start_outbound(&mut self) -> (r: bool)
        ensures
            r == (old(self).outgoing is Empty),
            *final(self) == (Connection {
                outgoing: slot_started(old(self).outgoing),
                ..*old(self)
            }),
    {
        match self.outgoing {
            Slot::Empty => {
                self.outgoing = Slot::Running;
                true
            },
            _ => false,
        }
    }

    /// Takes what the work on an outgoing stream answered.
    ///
    /// Work that failed stays in its place, and must not be polled again.
    pub fn poll_outbound<S, R>(
        &mut self,
        polled: Poll<Result<(S, R), ConnectionError>>,
    ) -> (r: Poll<Result<Stream<S, R>, ConnectionError>>)
        requires
            old(self).outgoing is Running,
        ensures
            stream_answer(polled, r),
            *final(self) == (Connection { outgoing: slot_polled(polled), ..*old(self) }),
    {
        match polled {
            Poll::Pending => Poll::Pending,
            Poll::Ready(Err(error)) => {
                self.outgoing = Slot::Spent;
                Poll::Ready(Err(error))
            },
            Poll::Ready(Ok((send, recv))) => {
                self.outgoing = Slot::Empty;
                match Stream::new(send, recv) {
                    Ok(stream) => Poll::Ready(Ok(stream)),
                    Err(error) => Poll::Ready(Err(ConnectionError::from(error))),
                }
            },
        }
    }

    /// The close to ask for before polling for its completion, if none was asked for yet.
    pub fn start_close(&mut self) -> (r: Option<CloseRequest>)
        ensures
            match old(self).closing {
                Slot::Empty => {
                    r matches Some(request) && request.error_code == 0 && request.reason@
                        == Seq::<u8>::empty()
                },
                _ => r is None,
            },
            *final(self) == (Connection {
                closing: slot_started(old(self).closing),
                ..*old(self)
            }),
    {
        match self.closing {
            Slot::Empty => {
                self.closing = Slot::Running;
                Some(CloseRequest { error_code: 0, reason: Vec::new() })
            },
            _ => None,
        }
    }

    /// Takes why the connection closed.
    ///
    /// A connection always closes with an error, which is reported as a failure to close.
    pub fn poll_close(&mut self, polled: Poll<ConnectionError>) -> (r: Poll<
        Result<(), ConnectionError>,
    >)
        requires
            old(self).closing is Running,
        ensures
            match polled {
                Poll::Pending => r is Pending && *final(self) == *old(self),
                Poll::Ready(_) => {
                    &&& r matches Poll::Ready(Err(error)) && error@ == ConnectionFault::Accept(
                        "failed to close connection"@,
                    )
                    &&& *final(self) == (Connection { closing: Slot::Spent, ..*old(self) })
                },
            },
    {
        match polled {
            Poll::Pending => Poll::Pending,
            Poll::Ready(_) => {
                self.closing = Slot::Spent;
                Poll::Ready(Err(ConnectionError::from("failed to close connection")))
            },
        }
    }

    /// Polls for events of the connection itself, of which there are none.
    pub fn poll<T>(&self) -> (r: Poll<T>)
        ensures
            r is Pending,
    {
        Poll::Pending
    }
}

/// A connection that is being established by `connecting`.
#[derive(Debug)]
pub struct Connecting<F> {
    pub connecting: F,
}

/// What the upgrade of a connection answers when `connecting` answered `polled`.
pub open spec fn connecting_answer<P, C>(polled: Poll<Result<(P, C), TransportError>>) -> Poll<
    Result<(P, Connection<C>), TransportError>,
> {
    match polled {
        Poll::Pending => Poll::Pending,
        Poll::Ready(Err(error)) => Poll::Ready(Err(error)),
        Poll::Ready(Ok((peer_id, connection))) => Poll::Ready(
            Ok((peer_id, Connection::fresh(connection))),
        ),
    }
}

impl<F> Connecting<F> {
    /// Takes what `connecting` answered: the peer and its connection, on which streams can then
    /// be opened and accepted.
    pub fn poll<P, C>(&self, polled: Poll<Result<(P, C), TransportError>>) -> (r: Poll<
        Result<(P, Connection<C>), TransportError>,
    >)
        ensures
            r == connecting_answer(polled),
    {
        match polled {
            Poll::Ready(Ok((peer_id, connection))) => {
                Poll::Ready(Ok((peer_id, Connection::new(connection))))
            },
            Poll::Ready(Err(error)) => Poll::Ready(Err(error)),
            Poll::Pending => Poll::Pending,
        }
    }
}

/// What came of polling for streams of one sort, some number of times.
pub struct PollRun {
    /// How often work was started.
    pub started: nat,
    /// How many streams were handed out.
    pub delivered: nat,
    /// Where the work stands.
    pub slot: Slot,
}

/// What comes of polling for streams when the work gives these answers, one for each time it is
/// polled. Work that failed is not polled again.
pub open spec fn poll_run<T, E>(answers: Seq<Poll<Result<T, E>>>) -> PollRun
    decreases answers.len(),
{
    if answers.len() == 0 {
        PollRun { started: 0, delivered: 0, slot: Slot::Empty }
    } else {
        let before = poll_run(answers.drop_last());
        if before.slot is Spent {
            before
        } else {
            PollRun {
                started: if before.slot is Empty {
                    before.started + 1
                } else {
                    before.started
                },
                delivered: if answers.last() matches Poll::Ready(Ok(_)) {
                    before.delivered + 1
                } else {
                    before.delivered
                },
                slot: slot_polled(answers.last()),
            }
        }
    }
}

/// At most one piece of work of a sort is ever under way: each one that was started has handed out
/// one stream, but for the last, which may still be running or have failed.
pub proof fn law_one_at_a_time<T, E>(answers: Seq<Poll<Result<T, E>>>)
    ensures
        poll_run(answers).slot is Empty ==> poll_run(answers).started == poll_run(
            answers,
        ).delivered,
        !(poll_run(answers).slot is Empty) ==> poll_run(answers).started == poll_run(
            answers,
        ).delivered + 1,
    decreases answers.len(),
{
    if answers.len() > 0 {
        law_one_at_a_time(answers.drop_last());
    }
}

/// A stream that was handed out makes room for the next one; a wait does not, and neither does a
/// failure.
pub proof fn law_room_after_stream<T, E>(polled: Poll<Result<T, E>>)
    ensures
        slot_polled(polled) is Empty <==> polled matches Poll::Ready(Ok(_)),
        slot_started(slot_polled(polled)) != slot_polled(polled) <==> polled matches Poll::Ready(
            Ok(_),
        ),
        slot_polled(polled) is Spent <==> polled matches Poll::Ready(Err(_)),
{
}

/// What an error prints as: its kind, and the message as `{:?}` prints it.
pub proof fn law_connection_error_text(
    accept: ConnectionError,
    open: ConnectionError,
    stream: ConnectionError,
    text: Seq<char>,
    accept_shown: String,
    open_shown: String,
    stream_shown: String,
)
    requires
        accept@ == ConnectionFault::Accept(text),
        open@ == ConnectionFault::Open(text),
        stream@ == ConnectionFault::Stream(text),
        call_ensures(ConnectionError::to_string, (&accept,), accept_shown),
        call_ensures(ConnectionError::to_string, (&open,), open_shown),
        call_ensures(ConnectionError::to_string, (&stream,), stream_shown),
    ensures
        accept_shown@ == "ConnectionError: Accept("@ + debug_str(text) + ")"@,
        open_shown@ == "ConnectionError: Open("@ + debug_str(text) + ")"@,
        stream_shown@ == "ConnectionError: Stream("@ + debug_str(text) + ")"@,
{
}

/// An incoming stream is accepted, one byte is read from it whatever the byte is, and the halves
/// that were accepted are handed out.
pub proof fn law_inbound_handshake<S, R>(
    send: S,
    recv: R,
    byte: u8,
    first: HandshakeStep,
    accepted: Result<(InboundHandshake<S, R>, HandshakeStep), ConnectionError>,
    done: Result<(S, R), ConnectionError>,
)
    requires
        call_ensures(InboundHandshake::<S, R>::start, (), first),
        call_ensures(InboundHandshake::<S, R>::accepted, (Ok((send, recv)),), accepted),
        accepted is Ok ==> call_ensures(
            InboundHandshake::<S, R>::finish,
            (accepted->Ok_0.0, Ok(byte)),
            done,
        ),
    ensures
        first is AcceptBi,
        accepted is Ok && accepted->Ok_0.1 is ReadByte,
        accepted->Ok_0.0.send == send && accepted->Ok_0.0.recv == recv,
        done == Ok::<_, ConnectionError>((send, recv)),
{
}

/// An outgoing stream is opened, one zero byte is written to it, and the halves that were opened
/// are handed out.
pub proof fn law_outbound_handshake<S, R>(
    send: S,
    recv: R,
    first: HandshakeStep,
    opened: Result<(OutboundHandshake<S, R>, HandshakeStep), ConnectionError>,
    done: Result<(S, R), ConnectionError>,
)
    requires
        call_ensures(OutboundHandshake::<S, R>::start, (), first),
        call_ensures(OutboundHandshake::<S, R>::opened, (Ok((send, recv)),), opened),
        opened is Ok ==> call_ensures(
            OutboundHandshake::<S, R>::finish,
            (opened->Ok_0.0, Ok(())),
            done,
        ),
    ensures
        first is OpenBi,
        opened is Ok && opened->Ok_0.1 == HandshakeStep::WriteByte(0),
        opened->Ok_0.0.send == send && opened->Ok_0.0.recv == recv,
        done == Ok::<_, ConnectionError>((send, recv)),
{
}

/// A handshake whose step failed fails, with a message that says which step it was.
pub proof fn law_handshake_fails<S, R>(
    text: String,
    inbound: InboundHandshake<S, R>,
    outbound: OutboundHandshake<S, R>,
    accepted: Result<(InboundHandshake<S, R>, HandshakeStep), ConnectionError>,
    opened: Result<(OutboundHandshake<S, R>, HandshakeStep), ConnectionError>,
    unread: Result<(S, R), ConnectionError>,
    unwritten: Result<(S, R), ConnectionError>,
)
    requires
        call_ensures(InboundHandshake::<S, R>::accepted, (Err(text),), accepted),
        call_ensures(OutboundHandshake::<S, R>::opened, (Err(text),), opened),
        call_ensures(InboundHandshake::<S, R>::finish, (inbound, Err(text)), unread),
        call_ensures(OutboundHandshake::<S, R>::finish, (outbound, Err(text)), unwritten),
    ensures
        accepted is Err && accepted->Err_0@ == ConnectionFault::Accept(
            "Iroh handshake failed during accept"@,
        ),
        opened is Err && opened->Err_0@ == ConnectionFault::Accept(
            "Iroh handshake failed during open"@,
        ),
        unread is Err && unread->Err_0@ == ConnectionFault::Accept("Failed to read from stream"@),
        unwritten is Err && unwritten->Err_0@ == ConnectionFault::Accept(
            "Failed to write to stream"@,
        ),
{
}

/// A connection begins with nothing under way, over the connection that it was given.
pub proof fn law_connection_starts_idle<C>(connection: C, r: Connection<C>)
    requires
        call_ensures(Connection::<C>::new, (connection,), r),
    ensures
        r.connection == connection,
        r.incoming is Empty && r.outgoing is Empty && r.closing is Empty,
{
}

/// Where an incoming connection is established, its upgrade yields that peer and a connection over
/// it with nothing under way, so that streams of both sorts and the close can each be started. It
/// waits exactly while the connection is awaited, and fails exactly as that fails.
pub proof fn law_upgrade_yields_idle_connection<F, P, C>(
    connecting: Connecting<F>,
    polled: Poll<Result<(P, C), TransportError>>,
    r: Poll<Result<(P, Connection<C>), TransportError>>,
)
    requires
        call_ensures(Connecting::<F>::poll::<P, C>, (&connecting, polled), r),
    ensures
        r is Pending <==> polled is Pending,
        polled matches Poll::Ready(Err(error)) ==> r == Poll::Ready(
            Err::<(P, Connection<C>), _>(error),
        ),
        polled matches Poll::Ready(Ok((peer, connection))) ==> {
            &&& r matches Poll::Ready(Ok((found, made)))
            &&& found == peer
            &&& made.connection == connection
            &&& made.incoming is Empty && made.outgoing is Empty && made.closing is Empty
        },
{
}

/// Work is started exactly if none of its sort is in its place, and is then under way. Work of the
/// other sorts, and the connection itself, are left alone.
pub proof fn law_start_only_where_empty<C>(
    inbound: &mut Connection<C>,
    outbound: &mut Connection<C>,
    closing: &mut Connection<C>,
    accepts: bool,
    opens: bool,
    closes: Option<CloseRequest>,
)
    requires
        call_ensures(Connection::<C>::start_inbound, (inbound,), accepts),
        call_ensures(Connection::<C>::start_outbound, (outbound,), opens),
        call_ensures(Connection::<C>::start_close, (closing,), closes),
    ensures
        accepts <==> old(inbound).incoming is Empty,
        opens <==> old(outbound).outgoing is Empty,
        closes is Some <==> old(closing).closing is Empty,
        closes is Some ==> closes->0.error_code == 0 && closes->0.reason@.len() == 0,
        accepts ==> final(inbound).incoming is Running,
        opens ==> final(outbound).outgoing is Running,
        closes is Some ==> final(closing).closing is Running,
        !accepts ==> *final(inbound) == *old(inbound),
        !opens ==> *final(outbound) == *old(outbound),
        closes is None ==> *final(closing) == *old(closing),
        final(inbound).connection == old(inbound).connection,
        final(inbound).outgoing == old(inbound).outgoing,
        final(inbound).closing == old(inbound).closing,
        final(outbound).connection == old(outbound).connection,
        final(outbound).incoming == old(outbound).incoming,
        final(outbound).closing == old(outbound).closing,
        final(closing).connection == old(closing).connection,
        final(closing).incoming == old(closing).incoming,
        final(closing).outgoing == old(closing).outgoing,
{
}

/// Polling for an incoming stream: a wait leaves the work under way; a stream leaves room for the
/// next one; an error is passed on, and the work stays spent. Nothing else is touched.
pub proof fn law_poll_inbound<C, S, R>(
    connection: &mut Connection<C>,
    polled: Poll<Result<(S, R), ConnectionError>>,
    r: Poll<Result<Stream<S, R>, ConnectionError>>,
)
    requires
        old(connection).incoming is Running,
        call_ensures(Connection::<C>::poll_inbound::<S, R>, (connection, polled), r),
    ensures
        r is Pending <==> polled is Pending,
        r is Pending ==> final(connection).incoming is Running,
        polled matches Poll::Ready(Err(error)) ==> r == Poll::Ready(
            Err::<Stream<S, R>, _>(error),
        ) && final(connection).incoming is Spent,
        polled matches Poll::Ready(Ok((send, recv))) ==> {
            &&& r matches Poll::Ready(Ok(stream))
            &&& stream@.sender == Some(send) && stream@.receiver == Some(recv)
            &&& !stream@.closing
            &&& final(connection).incoming is Empty
        },
        final(connection).connection == old(connection).connection,
        final(connection).outgoing == old(connection).outgoing,
        final(connection).closing == old(connection).closing,
{
}

/// Polling for an outgoing stream: a wait leaves the work under way; a stream leaves room for the
/// next one; an error is passed on, and the work stays spent. Nothing else is touched.
pub proof fn law_poll_outbound<C, S, R>(
    connection: &mut Connection<C>,
    polled: Poll<Result<(S, R), ConnectionError>>,
    r: Poll<Result<Stream<S, R>, ConnectionError>>,
)
    requires
        old(connection).outgoing is Running,
        call_ensures(Connection::<C>::poll_outbound::<S, R>, (connection, polled), r),
    ensures
        r is Pending <==> polled is Pending,
        r is Pending ==> final(connection).outgoing is Running,
        polled matches Poll::Ready(Err(error)) ==> r == Poll::Ready(
            Err::<Stream<S, R>, _>(error),
        ) && final(connection).outgoing is Spent,
        polled matches Poll::Ready(Ok((send, recv))) ==> {
            &&& r matches Poll::Ready(Ok(stream))
            &&& stream@.sender == Some(send) && stream@.receiver == Some(recv)
            &&& !stream@.closing
            &&& final(connection).outgoing is Empty
        },
        final(connection).connection == old(connection).connection,
        final(connection).incoming == old(connection).incoming,
        final(connection).closing == old(connection).closing,
{
}

/// Polling for the close waits exactly while the connection is not closed; then it reports a
/// failure to close, whatever the connection closed with, and is spent. Nothing else is touched.
pub proof fn law_poll_close<C>(
    connection: &mut Connection<C>,
    polled: Poll<ConnectionError>,
    r: Poll<Result<(), ConnectionError>>,
)
    requires
        old(connection).closing is Running,
        call_ensures(Connection::<C>::poll_close, (connection, polled), r),
    ensures
        r is Pending <==> polled is Pending,
        r is Pending ==> *final(connection) == *old(connection),
        r matches Poll::Ready(reply) ==> reply is Err && reply->Err_0@ == ConnectionFault::Accept(
            "failed to close connection"@,
        ) && final(connection).closing is Spent,
        final(connection).connection == old(connection).connection,
        final(connection).incoming == old(connection).incoming,
        final(connection).outgoing == old(connection).outgoing,
{
}

/// A connection never reports an event of its own.
pub proof fn law_no_events<C, T>(connection: Connection<C>, r: Poll<T>)
    requires
        call_ensures(Connection::<C>::poll::<T>, (&connection,), r),
    ensures
        r is Pending,
{
}

} // verus!
