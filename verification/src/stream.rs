//! One bidirectional stream of a connection.
//!
//! A stream owns a half to send on and a half to receive on. Polling it comes in two parts. The
//! first picks the half to poll, or refuses; the second turns what that half answered into the
//! stream's own answer.

use iroh::endpoint::ConnectionError as QuicConnectionError;
use vstd::prelude::*;
use vstd::std_specs::convert::FromSpecImpl;
use vstd::string::to_string_from_display_ensures;

use crate::poll::Poll;
use crate::text::{contains, join, occurs_at, occurs_in};

verus! {

/// Declares `iroh::endpoint::ConnectionError`, which is carried and printed, never looked into.
#[verifier::external_type_specification]
#[verifier::external_body]
pub struct ExQuicConnectionError(QuicConnectionError);

/// Declares `iroh::endpoint::WriteError`, which is carried and printed, never looked into.
#[verifier::external_type_specification]
#[verifier::external_body]
pub struct ExWriteError(iroh::endpoint::WriteError);

/// Declares `iroh::endpoint::ReadError`, which is carried and printed, never looked into.
#[verifier::external_type_specification]
#[verifier::external_body]
pub struct ExReadError(iroh::endpoint::ReadError);

/// Declares `std::io::Error`, which is carried and printed, never looked into.
#[verifier::external_type_specification]
#[verifier::external_body]
pub struct ExIoError(std::io::Error);

/// A failure of a stream.
#[derive(Debug, Clone)]
pub struct StreamError {
    kind: StreamErrorKind,
}

/// What a stream failed at, and the message.
#[derive(Debug, Clone)]
pub enum StreamErrorKind {
    Read(String),
    Write(String),
    Connection(String),
}

/// A [`StreamError`] as contracts speak of it.
pub enum StreamFault {
    Read(Seq<char>),
    Write(Seq<char>),
    Connection(Seq<char>),
}

impl StreamFault {
    /// What the error prints as.
    pub open spec fn display(self) -> Seq<char> {
        match self {
            StreamFault::Read(text) => "IrohStream Read Error: "@ + text,
            StreamFault::Write(text) => "IrohStream Write Error: "@ + text,
            StreamFault::Connection(text) => "IrohStream Connection Error: "@ + text,
        }
    }
}

impl View for StreamError {
    type V = StreamFault;

    closed spec fn view(&self) -> StreamFault {
        match self.kind {
            StreamErrorKind::Read(text) => StreamFault::Read(text@),
            StreamErrorKind::Write(text) => StreamFault::Write(text@),
            StreamErrorKind::Connection(text) => StreamFault::Connection(text@),
        }
    }
}

impl StreamError {
    /// Prints the error.
    pub fn to_string(&self) -> (r: String)
        ensures
            r@ == self@.display(),
    {
        match &self.kind {
            StreamErrorKind::Read(text) => join("IrohStream Read Error: ", text.as_str()),
            StreamErrorKind::Write(text) => join("IrohStream Write Error: ", text.as_str()),
            StreamErrorKind::Connection(text) => join(
                "IrohStream Connection Error: ",
                text.as_str(),
            ),
        }
    }
}

// A `String` is known to contracts by its characters, not as a value that a spec function could
// build. So `from_spec` claims nothing for these errors, and each `from` states its own result.

impl FromSpecImpl<std::io::Error> for StreamError {
    open spec fn obeys_from_spec() -> bool {
        false
    }

    open spec fn from_spec(err: std::io::Error) -> StreamError {
        arbitrary()
    }
}

impl From<std::io::Error> for StreamError {
    fn from(err: std::io::Error) -> (r: StreamError)
        ensures
            exists|text: String| #[trigger]
                to_string_from_display_ensures(&err, text) && r@ == StreamFault::Read(text@),
    {
        let text = err.to_string();
        StreamError { kind: StreamErrorKind::Read(text) }
    }
}

impl FromSpecImpl<QuicConnectionError> for StreamError {
    open spec fn obeys_from_spec() -> bool {
        false
    }

    open spec fn from_spec(err: QuicConnectionError) -> StreamError {
        arbitrary()
    }
}

impl From<QuicConnectionError> for StreamError {
    fn from(err: QuicConnectionError) -> (r: StreamError)
        ensures
            exists|text: String| #[trigger]
                to_string_from_display_ensures(&err, text) && r@ == StreamFault::Connection(text@),
    {
        let text = err.to_string();
        StreamError { kind: StreamErrorKind::Connection(text) }
    }
}

impl FromSpecImpl<iroh::endpoint::WriteError> for StreamError {
    open spec fn obeys_from_spec() -> bool {
        false
    }

    open spec fn from_spec(err: iroh::endpoint::WriteError) -> StreamError {
        arbitrary()
    }
}

impl From<iroh::endpoint::WriteError> for StreamError {
    fn from(err: iroh::endpoint::WriteError) -> (r: StreamError)
        ensures
            exists|text: String| #[trigger]
                to_string_from_display_ensures(&err, text) && r@ == StreamFault::Write(text@),
    {
        let text = err.to_string();
        StreamError { kind: StreamErrorKind::Write(text) }
    }
}

impl FromSpecImpl<iroh::endpoint::ReadError> for StreamError {
    open spec fn obeys_from_spec() -> bool {
        false
    }

    open spec fn from_spec(err: iroh::endpoint::ReadError) -> StreamError {
        arbitrary()
    }
}

impl From<iroh::endpoint::ReadError> for StreamError {
    fn from(err: iroh::endpoint::ReadError) -> (r: StreamError)
        ensures
            exists|text: String| #[trigger]
                to_string_from_display_ensures(&err, text) && r@ == StreamFault::Read(text@),
    {
        let text = err.to_string();
        StreamError { kind: StreamErrorKind::Read(text) }
    }
}

impl FromSpecImpl<&str> for StreamError {
    open spec fn obeys_from_spec() -> bool {
        false
    }

    open spec fn from_spec(err: &str) -> StreamError {
        arbitrary()
    }
}

impl From<&str> for StreamError {
    fn from(err: &str) -> (r: StreamError)
        ensures
            r@ == StreamFault::Connection(err@),
    {
        StreamError { kind: StreamErrorKind::Connection(err.to_string()) }
    }
}

/// Why a stream refuses to read or write, or what its half answered in place of a result.
#[derive(Debug)]
pub enum StreamIoError<E> {
    /// The half was given up locally; the message says which.
    BrokenPipe(&'static str),
    /// The half's own error.
    Other(E),
}

impl<E> StreamIoError<E> {
    /// Whether this is the refusal with the given message.
    pub open spec fn is_broken_pipe(self, message: Seq<char>) -> bool {
        self matches StreamIoError::BrokenPipe(text) && text@ == message
    }
}

/// A stream, as contracts speak of it.
pub struct StreamState<S, R> {
    pub sender: Option<S>,
    pub receiver: Option<R>,
    pub closing: bool,
}

impl<S, R> StreamState<S, R> {
    /// The sending half is held until the stream starts to close; the receiving half is never
    /// given up.
    pub open spec fn wf(self) -> bool {
        &&& self.receiver is Some
        &&& self.closing <==> self.sender is None
    }

    /// A stream that nothing has happened to.
    pub open spec fn fresh(sender: S, receiver: R) -> StreamState<S, R> {
        StreamState { sender: Some(sender), receiver: Some(receiver), closing: false }
    }

    /// The half that closing the stream finishes, if this is the first close.
    pub open spec fn to_finish(self) -> Option<S> {
        if self.closing {
            None
        } else {
            self.sender
        }
    }

    /// The stream once it has been closed.
    pub open spec fn closed(self) -> StreamState<S, R> {
        if self.closing {
            self
        } else {
            StreamState { sender: None, receiver: self.receiver, closing: true }
        }
    }
}

/// A stream over a half `S` to send on and a half `R` to receive on.
#[derive(Debug)]
pub struct Stream<S, R> {
    sender: Option<S>,
    receiver: Option<R>,
    closing: bool,
}

impl<S, R> View for Stream<S, R> {
    type V = StreamState<S, R>;

    closed spec fn view(&self) -> StreamState<S, R> {
        StreamState { sender: self.sender, receiver: self.receiver, closing: self.closing }
    }
}

impl<S, R> Stream<S, R> {
    /// A stream over the two halves. It never fails.
    pub fn new(sender: S, receiver: R) -> (r: Result<Stream<S, R>, StreamError>)
        ensures
            r matches Ok(stream) && stream@ == StreamState::fresh(sender, receiver),
            r matches Ok(stream) && stream@.wf(),
    {
        Ok(Stream { sender: Some(sender), receiver: Some(receiver), closing: false })
    }

    /// The half to read from, or the refusal to read.
    pub fn poll_read<E>(&mut self) -> (r: Result<&mut R, StreamIoError<E>>)
        ensures
            match r {
                Ok(half) => {
                    &&& old(self)@.receiver == Some(*half)
                    &&& final(self)@ == (StreamState {
                        receiver: Some(*final(half)),
                        ..old(self)@
                    })
                },
                Err(refusal) => {
                    &&& old(self)@.receiver is None
                    &&& refusal.is_broken_pipe("stream receiver closed"@)
                    &&& final(self)@ == old(self)@
                },
            },
            old(self)@.wf() ==> final(self)@.wf(),
    {
        match self.receiver.as_mut() {
            Some(half) => Ok(half),
            None => Err(StreamIoError::BrokenPipe("stream receiver closed")),
        }
    }

    /// The half to write to, or the refusal to write.
    pub fn poll_write<E>(&mut self) -> (r: Result<&mut S, StreamIoError<E>>)
        ensures
            match r {
                Ok(half) => {
                    &&& old(self)@.sender == Some(*half)
                    &&& final(self)@ == (StreamState { sender: Some(*final(half)), ..old(self)@ })
                },
                Err(refusal) => {
                    &&& old(self)@.sender is None
                    &&& refusal.is_broken_pipe("stream sender closed"@)
                    &&& final(self)@ == old(self)@
                },
            },
            old(self)@.wf() ==> final(self)@.wf(),
    {
        match self.sender.as_mut() {
            Some(half) => Ok(half),
            None => Err(StreamIoError::BrokenPipe("stream sender closed")),
        }
    }

    /// The half to flush, or the refusal to flush.
    pub fn poll_flush<E>(&mut self) -> (r: Result<&mut S, StreamIoError<E>>)
        ensures
            match r {
                Ok(half) => {
                    &&& old(self)@.sender == Some(*half)
                    &&& final(self)@ == (StreamState { sender: Some(*final(half)), ..old(self)@ })
                },
                Err(refusal) => {
                    &&& old(self)@.sender is None
                    &&& refusal.is_broken_pipe("stream sender closed"@)
                    &&& final(self)@ == old(self)@
                },
            },
            old(self)@.wf() ==> final(self)@.wf(),
    {
        match self.sender.as_mut() {
            Some(half) => Ok(half),
            None => Err(StreamIoError::BrokenPipe("stream sender closed")),
        }
    }

    /// Closes the side that writes.
    ///
    /// The first value is the half to finish, which tells the peer that nothing more is written;
    /// whether finishing it fails changes nothing. The second is the answer to the caller.
    pub fn poll_close<E>(&mut self) -> (r: (Option<S>, Poll<Result<(), StreamIoError<E>>>))
        ensures
            r.0 == old(self)@.to_finish(),
            r.1 == Poll::Ready(Ok::<(), StreamIoError<E>>(())),
            final(self)@ == old(self)@.closed(),
            old(self)@.wf() ==> final(self)@.wf(),
    {
        let mut finish: Option<S> = None;
        if !self.closing {
            self.closing = true;
            finish = self.sender.take();
        }
        (finish, Poll::Ready(Ok(())))
    }
}

/// What reading, writing or flushing answers, given what the polled half answered.
pub open spec fn half_answer<T, E>(polled: Poll<Result<T, E>>) -> Poll<
    Result<T, StreamIoError<E>>,
> {
    match polled {
        Poll::Ready(Ok(value)) => Poll::Ready(Ok(value)),
        Poll::Ready(Err(error)) => Poll::Ready(Err(StreamIoError::Other(error))),
        Poll::Pending => Poll::Pending,
    }
}

/// Turns what a polled half answered into the stream's answer: a result is passed on, and so is
/// the wait for one; an error becomes [`StreamIoError::Other`].
pub fn answer<T, E>(polled: Poll<Result<T, E>>) -> (r: Poll<Result<T, StreamIoError<E>>>)
    ensures
        r == half_answer(polled),
{
    match polled {
        Poll::Ready(Ok(value)) => Poll::Ready(Ok(value)),
        Poll::Ready(Err(error)) => Poll::Ready(Err(StreamIoError::Other(error))),
        Poll::Pending => Poll::Pending,
    }
}

/// Whether the message of an error in writing says that the peer closed the stream, which is no
/// fault of this side.
pub fn closed_by_peer(message: &str) -> (r: bool)
    ensures
        r == (occurs_in("stopped"@, message@) || occurs_in("error 0"@, message@)),
{
    contains("stopped", message) || contains("error 0", message)
}

/// A stream finishes its sending half at most once: whatever was done before, closing a closed
/// stream finishes nothing and changes nothing.
pub proof fn law_close_once<S, R>(state: StreamState<S, R>)
    ensures
        state.closed().to_finish() is None,
        state.closed().closed() == state.closed(),
{
}

/// Closing a stream gives up the sending half and nothing else: what is still to be read can be
/// read, from the half that was there before.
pub proof fn law_close_keeps_reading<S, R>(state: StreamState<S, R>)
    requires
        state.wf(),
    ensures
        state.closed().wf(),
        state.closed().sender is None,
        state.closed().receiver == state.receiver,
        state.receiver is Some,
        state.to_finish() == state.sender,
{
}

/// A stream is well formed from the start, and stays so when its halves change and when it is
/// closed.
pub proof fn law_stream_wf<S, R>(state: StreamState<S, R>, sender: S, receiver: R)
    ensures
        StreamState::fresh(sender, receiver).wf(),
        state.wf() && state.sender is Some ==> (StreamState {
            sender: Some(sender),
            ..state
        }).wf(),
        state.wf() ==> (StreamState { receiver: Some(receiver), ..state }).wf(),
        state.wf() ==> state.closed().wf(),
{
}

/// What an error prints as: its kind, and the message as it is.
pub proof fn law_stream_error_text(
    read: StreamError,
    write: StreamError,
    connection: StreamError,
    text: Seq<char>,
    read_shown: String,
    write_shown: String,
    connection_shown: String,
)
    requires
        read@ == StreamFault::Read(text),
        write@ == StreamFault::Write(text),
        connection@ == StreamFault::Connection(text),
        call_ensures(StreamError::to_string, (&read,), read_shown),
        call_ensures(StreamError::to_string, (&write,), write_shown),
        call_ensures(StreamError::to_string, (&connection,), connection_shown),
    ensures
        read_shown@ == "IrohStream Read Error: "@ + text,
        write_shown@ == "IrohStream Write Error: "@ + text,
        connection_shown@ == "IrohStream Connection Error: "@ + text,
{
}

/// A new stream holds the two halves that it is made from: it reads from the one to receive on,
/// and writes to and flushes the one to send on.
pub proof fn law_new_stream_holds_halves<'a, S, R, E>(
    sender: S,
    receiver: R,
    made: Result<Stream<S, R>, StreamError>,
    reading: &'a mut Stream<S, R>,
    writing: &'a mut Stream<S, R>,
    flushing: &'a mut Stream<S, R>,
    read: Result<&'a mut R, StreamIoError<E>>,
    written: Result<&'a mut S, StreamIoError<E>>,
    flushed: Result<&'a mut S, StreamIoError<E>>,
)
    requires
        call_ensures(Stream::<S, R>::new, (sender, receiver), made),
        made is Ok ==> *old(reading) == made->Ok_0 && *old(writing) == made->Ok_0 && *old(flushing)
            == made->Ok_0,
        call_ensures(Stream::<S, R>::poll_read::<E>, (reading,), read),
        call_ensures(Stream::<S, R>::poll_write::<E>, (writing,), written),
        call_ensures(Stream::<S, R>::poll_flush::<E>, (flushing,), flushed),
    ensures
        made is Ok,
        read is Ok && *read->Ok_0 == receiver,
        written is Ok && *written->Ok_0 == sender,
        flushed is Ok && *flushed->Ok_0 == sender,
{
}

/// Closing a new stream hands out the half to send on, to be finished, and says so at once. From
/// then on the stream refuses to write and to flush, hands out nothing when it is closed again, and
/// still reads from the half that it had.
pub proof fn law_close_new_stream<'a, S, R, E>(
    sender: S,
    receiver: R,
    made: Result<Stream<S, R>, StreamError>,
    closing: &'a mut Stream<S, R>,
    first: (Option<S>, Poll<Result<(), StreamIoError<E>>>),
    again: &'a mut Stream<S, R>,
    second: (Option<S>, Poll<Result<(), StreamIoError<E>>>),
    reading: &'a mut Stream<S, R>,
    read: Result<&'a mut R, StreamIoError<E>>,
    writing: &'a mut Stream<S, R>,
    written: Result<&'a mut S, StreamIoError<E>>,
    flushing: &'a mut Stream<S, R>,
    flushed: Result<&'a mut S, StreamIoError<E>>,
)
    requires
        call_ensures(Stream::<S, R>::new, (sender, receiver), made),
        made is Ok ==> *old(closing) == made->Ok_0,
        call_ensures(Stream::<S, R>::poll_close::<E>, (closing,), first),
        *old(again) == *final(closing),
        call_ensures(Stream::<S, R>::poll_close::<E>, (again,), second),
        *old(reading) == *final(again),
        call_ensures(Stream::<S, R>::poll_read::<E>, (reading,), read),
        *old(writing) == *final(again),
        call_ensures(Stream::<S, R>::poll_write::<E>, (writing,), written),
        *old(flushing) == *final(closing),
        call_ensures(Stream::<S, R>::poll_flush::<E>, (flushing,), flushed),
    ensures
        first.0 == Some(sender),
        first.1 is Ready && first.1->Ready_0 is Ok,
        second.0 is None,
        second.1 is Ready && second.1->Ready_0 is Ok,
        read is Ok && *read->Ok_0 == receiver,
        written matches Err(StreamIoError::BrokenPipe(message)) && message@
            == "stream sender closed"@,
        flushed matches Err(StreamIoError::BrokenPipe(message)) && message@
            == "stream sender closed"@,
{
}

/// What is written through a half stays with the stream: the next write and the close go to the
/// half as it was left. Reading leaves the half to send on alone, and writing the one to receive
/// on.
pub proof fn law_halves_are_kept<'a, S, R, E>(
    writing: &'a mut Stream<S, R>,
    written: Result<&'a mut S, StreamIoError<E>>,
    reading: &'a mut Stream<S, R>,
    read: Result<&'a mut R, StreamIoError<E>>,
    closing: &'a mut Stream<S, R>,
    closed: (Option<S>, Poll<Result<(), StreamIoError<E>>>),
    last: &'a mut Stream<S, R>,
    reread: Result<&'a mut R, StreamIoError<E>>,
)
    requires
        old(writing)@.wf(),
        call_ensures(Stream::<S, R>::poll_write::<E>, (writing,), written),
        *old(reading) == *final(writing),
        call_ensures(Stream::<S, R>::poll_read::<E>, (reading,), read),
        *old(closing) == *final(reading),
        call_ensures(Stream::<S, R>::poll_close::<E>, (closing,), closed),
        *old(last) == *final(closing),
        call_ensures(Stream::<S, R>::poll_read::<E>, (last,), reread),
    ensures
        written is Ok ==> closed.0 == Some(*final(written->Ok_0)),
        written is Err ==> closed.0 is None,
        read is Ok && reread is Ok && *reread->Ok_0 == *final(read->Ok_0),
{
}

/// A stream passes on what a half answers: the same result, the same error, the same wait.
pub proof fn law_answers_passed_on<T, E>(
    polled: Poll<Result<T, E>>,
    r: Poll<Result<T, StreamIoError<E>>>,
)
    requires
        call_ensures(answer::<T, E>, (polled,), r),
    ensures
        r is Pending <==> polled is Pending,
        forall|value: T| r == Poll::Ready(Ok::<T, StreamIoError<E>>(value)) <==> polled
            == Poll::Ready(Ok::<T, E>(value)),
        forall|error: E| r == Poll::Ready(Err::<T, _>(StreamIoError::Other(error))) <==> polled
            == Poll::Ready(Err::<T, E>(error)),
        !(r matches Poll::Ready(Err(StreamIoError::BrokenPipe(_)))),
{
    assert forall|value: T| r == Poll::Ready(Ok::<T, StreamIoError<E>>(value)) <==> polled
        == Poll::Ready(Ok::<T, E>(value)) by {}
}

/// The peer is taken to have closed the stream exactly if the message has one of two words in it,
/// whatever stands before and after.
pub proof fn law_closed_by_peer(message: &str, before: Seq<char>, after: Seq<char>, r: bool)
    requires
        call_ensures(closed_by_peer, (message,), r),
    ensures
        message@ == before + "stopped"@ + after ==> r,
        message@ == before + "error 0"@ + after ==> r,
        r ==> (exists|b: Seq<char>, a: Seq<char>| message@ == #[trigger] (b + "stopped"@ + a)) || (
        exists|b: Seq<char>, a: Seq<char>| message@ == #[trigger] (b + "error 0"@ + a)),
{
    if message@ == before + "stopped"@ + after {
        let at = before.len() as int;
        assert(message@.subrange(at, at + "stopped"@.len()) =~= "stopped"@);
        assert(occurs_at("stopped"@, message@, at));
    }
    if message@ == before + "error 0"@ + after {
        let at = before.len() as int;
        assert(message@.subrange(at, at + "error 0"@.len()) =~= "error 0"@);
        assert(occurs_at("error 0"@, message@, at));
    }
    if r {
        if occurs_in("stopped"@, message@) {
            let at = choose|at: int| occurs_at("stopped"@, message@, at);
            let b = message@.subrange(0, at);
            let a = message@.subrange(at + "stopped"@.len(), message@.len() as int);
            assert(message@ =~= b + "stopped"@ + a);
        } else {
            let at = choose|at: int| occurs_at("error 0"@, message@, at);
            let b = message@.subrange(0, at);
            let a = message@.subrange(at + "error 0"@.len(), message@.len() as int);
            assert(message@ =~= b + "error 0"@ + a);
        }
    }
}

} // verus!
