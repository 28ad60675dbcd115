//! Counting the bytes that cross a transport.
//!
//! A counting transport wraps another one. The connections that come out of it are wrapped as
//! well, and so are their streams. All of them share one place where totals are kept, of a type
//! `B` that the caller picks for sharing a [`BandwidthSinks`].

use std::sync::Arc;

use vstd::prelude::*;

use crate::poll::Poll;
use crate::transport::Listener;

verus! {

/// How many values a total can take before it starts over at zero.
pub open spec fn total_modulus() -> int {
    0x1_0000_0000_0000_0000
}

/// The total number of bytes received and sent on all streams, each taken modulo
/// [`total_modulus`].
#[derive(Debug)]
pub struct BandwidthSinks {
    inbound: u64,
    outbound: u64,
}

/// A [`BandwidthSinks`] as contracts speak of it.
#[verifier::ext_equal]
pub struct Totals {
    pub inbound: int,
    pub outbound: int,
}

impl Totals {
    /// The totals before anything was transferred.
    pub open spec fn zero() -> Totals {
        Totals { inbound: 0, outbound: 0 }
    }

    /// The totals once `bytes` more were received.
    pub open spec fn received(self, bytes: int) -> Totals {
        Totals { inbound: (self.inbound + bytes) % total_modulus(), outbound: self.outbound }
    }

    /// The totals once `bytes` more were sent.
    pub open spec fn sent(self, bytes: int) -> Totals {
        Totals { inbound: self.inbound, outbound: (self.outbound + bytes) % total_modulus() }
    }

    /// The totals once a transfer was counted.
    pub open spec fn after(self, transfer: Transfer) -> Totals {
        match transfer {
            Transfer::Inbound(bytes) => self.received(bytes as int),
            Transfer::Outbound(bytes) => self.sent(bytes as int),
        }
    }

    /// The totals once what is to be counted of a call, if anything, was counted.
    pub open spec fn after_call(self, transfer: Option<Transfer>) -> Totals {
        match transfer {
            Some(transfer) => self.after(transfer),
            None => self,
        }
    }
}

/// Bytes that were transferred over a stream.
#[derive(Debug, Clone, Copy)]
pub enum Transfer {
    /// This many bytes were received.
    Inbound(usize),
    /// This many bytes were sent.
    Outbound(usize),
}

/// What is to be counted of a read that answered `polled`. What did not complete, and what failed,
/// is not counted.
pub open spec fn read_transfer<E>(polled: Poll<Result<usize, E>>) -> Option<Transfer> {
    match polled {
        Poll::Ready(Ok(bytes)) => Some(Transfer::Inbound(bytes)),
        _ => None,
    }
}

/// What is to be counted of a write that answered `polled`. What did not complete, and what failed,
/// is not counted.
pub open spec fn write_transfer<E>(polled: Poll<Result<usize, E>>) -> Option<Transfer> {
    match polled {
        Poll::Ready(Ok(bytes)) => Some(Transfer::Outbound(bytes)),
        _ => None,
    }
}

impl View for BandwidthSinks {
    type V = Totals;

    closed spec fn view(&self) -> Totals {
        Totals { inbound: self.inbound as int, outbound: self.outbound as int }
    }
}

impl Default for BandwidthSinks {
    /// Totals before anything was transferred.
    fn default() -> (r: BandwidthSinks)
        ensures
            r@ == Totals::zero(),
    {
        BandwidthSinks { inbound: 0, outbound: 0 }
    }
}

impl BandwidthSinks {
    /// The total number of bytes downloaded on all streams.
    pub fn total_inbound(&self) -> (r: u64)
        ensures
            r == self@.inbound,
    {
        self.inbound
    }

    /// The total number of bytes uploaded on all streams.
    pub fn total_outbound(&self) -> (r: u64)
        ensures
            r == self@.outbound,
    {
        self.outbound
    }

    /// Counts a transfer.
    pub fn record(&mut self, transfer: Transfer)
        ensures
            final(self)@ == old(self)@.after(transfer),
    {
        match transfer {
            Transfer::Inbound(bytes) => {
                self.inbound = self.inbound.wrapping_add(bytes as u64);
            },
            Transfer::Outbound(bytes) => {
                self.outbound = self.outbound.wrapping_add(bytes as u64);
            },
        }
    }
}

/// A transport whose connections are counted.
#[derive(Debug)]
pub struct CountingTransport<T, B> {
    pub transport: T,
    pub bandwidth: Arc<B>,
}

/// A connection whose streams are counted.
#[derive(Debug)]
pub struct CountingMuxer<M, B> {
    pub inner: M,
    pub bandwidth: Arc<B>,
}

/// A stream that is counted.
#[derive(Debug)]
pub struct CountingStream<S, B> {
    pub inner: S,
    pub bandwidth: Arc<B>,
}

/// A transfer that is to be counted in `bandwidth`, by [`BandwidthSinks::record`].
#[derive(Debug)]
pub struct Count<B> {
    pub bandwidth: Arc<B>,
    pub transfer: Transfer,
}

/// Work that yields a connection, which is then to be counted.
#[derive(Debug)]
pub struct CountedUpgrade<U, B> {
    pub upgrade: U,
    pub bandwidth: Arc<B>,
}

impl<U, B> CountedUpgrade<U, B> {
    /// What comes of the connection that `upgrade` yielded for a peer.
    pub open spec fn completed<P, M>(self, output: (P, M)) -> (P, CountingMuxer<M, B>) {
        (output.0, CountingMuxer { inner: output.1, bandwidth: self.bandwidth })
    }

    /// Takes the connection that `upgrade` yielded for a peer.
    pub fn complete<P, M>(&self, output: (P, M)) -> (r: (P, CountingMuxer<M, B>))
        ensures
            r == self.completed(output),
    {
        let (peer_id, muxer) = output;
        (peer_id, CountingMuxer::new(muxer, Arc::clone(&self.bandwidth)))
    }
}

/// An event of a transport whose addresses are of type `A`, whose connections are yielded by a
/// `U`, and whose errors are of type `E`.
#[derive(Debug)]
pub enum TransportEvent<U, A, E> {
    /// A listener now listens on an address.
    NewAddress { listener_id: Listener, listen_addr: A },
    /// A listener no longer listens on an address.
    AddressExpired { listener_id: Listener, listen_addr: A },
    /// A connection comes in on a listener.
    Incoming { listener_id: Listener, upgrade: U, local_addr: A, send_back_addr: A },
    /// A listener is closed.
    ListenerClosed { listener_id: Listener, reason: Result<(), E> },
    /// A listener failed, and goes on listening.
    ListenerError { listener_id: Listener, error: E },
}

/// The event of a counting transport for an event of the transport that it wraps: an incoming
/// connection is to be counted, and all else stays as it is.
pub open spec fn counted_event<U, A, E, B>(
    event: TransportEvent<U, A, E>,
    bandwidth: Arc<B>,
) -> TransportEvent<CountedUpgrade<U, B>, A, E> {
    match event {
        TransportEvent::Incoming {
            listener_id,
            upgrade,
            local_addr,
            send_back_addr,
        } => TransportEvent::Incoming {
            listener_id,
            upgrade: CountedUpgrade { upgrade, bandwidth },
            local_addr,
            send_back_addr,
        },
        TransportEvent::NewAddress { listener_id, listen_addr } => {
            TransportEvent::NewAddress { listener_id, listen_addr }
        },
        TransportEvent::AddressExpired { listener_id, listen_addr } => {
            TransportEvent::AddressExpired { listener_id, listen_addr }
        },
        TransportEvent::ListenerClosed { listener_id, reason } => {
            TransportEvent::ListenerClosed { listener_id, reason }
        },
        TransportEvent::ListenerError { listener_id, error } => {
            TransportEvent::ListenerError { listener_id, error }
        },
    }
}

impl<T, B> CountingTransport<T, B> {
    /// What comes of work that yields a connection.
    pub open spec fn counted<U>(self, upgrade: U) -> CountedUpgrade<U, B> {
        CountedUpgrade { upgrade, bandwidth: self.bandwidth }
    }

    /// Counts the connections of `transport` in `bandwidth`.
    pub fn new(transport: T, bandwidth: Arc<B>) -> (r: CountingTransport<T, B>)
        ensures
            r.transport == transport,
            r.bandwidth == bandwidth,
    {
        CountingTransport { transport, bandwidth }
    }

    /// Takes what dialling with the wrapped transport came to.
    pub fn dial<D, E>(&self, dialled: Result<D, E>) -> (r: Result<CountedUpgrade<D, B>, E>)
        ensures
            r == (match dialled {
                Ok(upgrade) => Ok(self.counted(upgrade)),
                Err(error) => Err(error),
            }),
    {
        match dialled {
            Ok(upgrade) => Ok(CountedUpgrade { upgrade, bandwidth: Arc::clone(&self.bandwidth) }),
            Err(error) => Err(error),
        }
    }

    /// Takes what polling the wrapped transport answered.
    pub fn poll<U, A, E>(&self, polled: Poll<TransportEvent<U, A, E>>) -> (r: Poll<
        TransportEvent<CountedUpgrade<U, B>, A, E>,
    >)
        ensures
            r == (match polled {
                Poll::Ready(event) => Poll::Ready(counted_event(event, self.bandwidth)),
                Poll::Pending => Poll::Pending,
            }),
    {
        match polled {
            Poll::Ready(
                TransportEvent::Incoming { listener_id, upgrade, local_addr, send_back_addr },
            ) => Poll::Ready(
                TransportEvent::Incoming {
                    listener_id,
                    upgrade: CountedUpgrade { upgrade, bandwidth: Arc::clone(&self.bandwidth) },
                    local_addr,
                    send_back_addr,
                },
            ),
            Poll::Ready(TransportEvent::NewAddress { listener_id, listen_addr }) => Poll::Ready(
                TransportEvent::NewAddress { listener_id, listen_addr },
            ),
            Poll::Ready(TransportEvent::AddressExpired { listener_id, listen_addr }) => Poll::Ready(
                TransportEvent::AddressExpired { listener_id, listen_addr },
            ),
            Poll::Ready(TransportEvent::ListenerClosed { listener_id, reason }) => Poll::Ready(
                TransportEvent::ListenerClosed { listener_id, reason },
            ),
            Poll::Ready(TransportEvent::ListenerError { listener_id, error }) => Poll::Ready(
                TransportEvent::ListenerError { listener_id, error },
            ),
            Poll::Pending => Poll::Pending,
        }
    }
}

/// The stream of a counting connection for what the connection that it wraps answered.
pub open spec fn counted_stream<S, E, B>(polled: Poll<Result<S, E>>, bandwidth: Arc<B>) -> Poll<
    Result<CountingStream<S, B>, E>,
> {
    match polled {
        Poll::Ready(Ok(inner)) => Poll::Ready(Ok(CountingStream { inner, bandwidth })),
        Poll::Ready(Err(error)) => Poll::Ready(Err(error)),
        Poll::Pending => Poll::Pending,
    }
}

impl<M, B> CountingMuxer<M, B> {
    /// Counts the streams of `inner` in `bandwidth`.
    pub fn new(inner: M, bandwidth: Arc<B>) -> (r: CountingMuxer<M, B>)
        ensures
            r.inner == inner,
            r.bandwidth == bandwidth,
    {
        CountingMuxer { inner, bandwidth }
    }

    /// Takes what polling the wrapped connection for an incoming stream answered.
    pub fn poll_inbound<S, E>(&self, polled: Poll<Result<S, E>>) -> (r: Poll<
        Result<CountingStream<S, B>, E>,
    >)
        ensures
            r == counted_stream(polled, self.bandwidth),
    {
        match polled {
            Poll::Ready(Ok(inner)) => Poll::Ready(
                Ok(CountingStream::new(inner, Arc::clone(&self.bandwidth))),
            ),
            Poll::Ready(Err(error)) => Poll::Ready(Err(error)),
            Poll::Pending => Poll::Pending,
        }
    }

    /// Takes what polling the wrapped connection for an outgoing stream answered.
    pub fn poll_outbound<S, E>(&self, polled: Poll<Result<S, E>>) -> (r: Poll<
        Result<CountingStream<S, B>, E>,
    >)
        ensures
            r == counted_stream(polled, self.bandwidth),
    {
        match polled {
            Poll::Ready(Ok(inner)) => Poll::Ready(
                Ok(CountingStream::new(inner, Arc::clone(&self.bandwidth))),
            ),
            Poll::Ready(Err(error)) => Poll::Ready(Err(error)),
            Poll::Pending => Poll::Pending,
        }
    }
}

impl<S, B> CountingStream<S, B> {
    /// Counts what is transferred over `inner` in `bandwidth`.
    pub fn new(inner: S, bandwidth: Arc<B>) -> (r: CountingStream<S, B>)
        ensures
            r.inner == inner,
            r.bandwidth == bandwidth,
    {
        CountingStream { inner, bandwidth }
    }

    /// Where the stream has a transfer counted, if there is one to be counted.
    pub open spec fn count(self, transfer: Option<Transfer>) -> Option<Count<B>> {
        match transfer {
            Some(transfer) => Some(Count { bandwidth: self.bandwidth, transfer }),
            None => None,
        }
    }

    /// Takes what reading from the wrapped stream answered, into one buffer or into several. The
    /// first value passes it on; the second says what is to be counted, and where.
    pub fn poll_read<E>(&self, polled: Poll<Result<usize, E>>) -> (r: (
        Poll<Result<usize, E>>,
        Option<Count<B>>,
    ))
        ensures
            r.0 == polled,
            r.1 == self.count(read_transfer(polled)),
    {
        let count = match &polled {
            Poll::Ready(Ok(bytes)) => Some(
                Count {
                    bandwidth: Arc::clone(&self.bandwidth),
                    transfer: Transfer::Inbound(*bytes),
                },
            ),
            _ => None,
        };
        (polled, count)
    }

    /// Takes what writing to the wrapped stream answered, from one buffer or from several. The
    /// first value passes it on; the second says what is to be counted, and where.
    pub fn poll_write<E>(&self, polled: Poll<Result<usize, E>>) -> (r: (
        Poll<Result<usize, E>>,
        Option<Count<B>>,
    ))
        ensures
            r.0 == polled,
            r.1 == self.count(write_transfer(polled)),
    {
        let count = match &polled {
            Poll::Ready(Ok(bytes)) => Some(
                Count {
                    bandwidth: Arc::clone(&self.bandwidth),
                    transfer: Transfer::Outbound(*bytes),
                },
            ),
            _ => None,
        };
        (polled, count)
    }
}

/// One read from, or one write to, some stream, with what it answered.
pub enum StreamCall<E> {
    Read(Poll<Result<usize, E>>),
    Write(Poll<Result<usize, E>>),
}

impl<E> StreamCall<E> {
    /// How many bytes the call received.
    pub open spec fn received(self) -> int {
        match self {
            StreamCall::Read(Poll::Ready(Ok(bytes))) => bytes as int,
            _ => 0,
        }
    }

    /// How many bytes the call sent.
    pub open spec fn sent(self) -> int {
        match self {
            StreamCall::Write(Poll::Ready(Ok(bytes))) => bytes as int,
            _ => 0,
        }
    }
}

/// The totals after one more call.
pub open spec fn totals_after<E>(totals: Totals, call: StreamCall<E>) -> Totals {
    match call {
        StreamCall::Read(polled) => totals.after_call(read_transfer(polled)),
        StreamCall::Write(polled) => totals.after_call(write_transfer(polled)),
    }
}

/// The totals after some calls, one after the other.
pub open spec fn totals_after_all<E>(start: Totals, calls: Seq<StreamCall<E>>) -> Totals {
    calls.fold_left(start, |totals: Totals, call: StreamCall<E>| totals_after(totals, call))
}

/// How many bytes some calls received.
pub open spec fn bytes_received<E>(calls: Seq<StreamCall<E>>) -> int
    decreases calls.len(),
{
    if calls.len() == 0 {
        0
    } else {
        bytes_received(calls.drop_last()) + calls.last().received()
    }
}

/// How many bytes some calls sent.
pub open spec fn bytes_sent<E>(calls: Seq<StreamCall<E>>) -> int
    decreases calls.len(),
{
    if calls.len() == 0 {
        0
    } else {
        bytes_sent(calls.drop_last()) + calls.last().sent()
    }
}

/// The totals are what all streams together received and sent, up to the modulus of the counters.
pub proof fn law_totals<E>(calls: Seq<StreamCall<E>>)
    ensures
        totals_after_all(Totals::zero(), calls) == (Totals {
            inbound: bytes_received(calls) % total_modulus(),
            outbound: bytes_sent(calls) % total_modulus(),
        }),
    decreases calls.len(),
{
    if calls.len() > 0 {
        law_totals(calls.drop_last());
    }
}

/// The totals do not depend on the order in which the streams' calls are counted.
pub proof fn law_totals_any_order<E>(
    start: Totals,
    calls: Seq<StreamCall<E>>,
    reordered: Seq<StreamCall<E>>,
)
    requires
        calls.to_multiset() == reordered.to_multiset(),
    ensures
        totals_after_all(start, calls) == totals_after_all(start, reordered),
{
    let step = |totals: Totals, call: StreamCall<E>| totals_after(totals, call);
    assert(vstd::seq_lib::commutative_foldl(step)) by {
        assert forall|x: StreamCall<E>, y: StreamCall<E>, v: Totals| #[trigger]
            step(step(v, x), y) == step(step(v, y), x) by {
            assert(step(step(v, x), y) =~= step(step(v, y), x));
        }
    }
    vstd::seq_lib::lemma_fold_left_permutation(calls, reordered, step, start);
}

/// Whatever comes out of a counting transport is counted where the transport counts: a connection
/// that was dialled, a connection that came in, every stream of either and all that it transfers. Who the peer is, is
/// left as the wrapped transport found it.
pub proof fn law_counted_in_one_place<T, B, D, U, A, E, P, M, S, F>(
    counting: CountingTransport<T, B>,
    dialled: D,
    event: TransportEvent<U, A, E>,
    output: (P, M),
    polled: Poll<Result<S, F>>,
    transfer: Transfer,
)
    ensures
        ({
            let (peer_id, muxer) = counting.counted(dialled).completed(output);
            &&& peer_id == output.0
            &&& muxer.inner == output.1
            &&& muxer.bandwidth == counting.bandwidth
            &&& counted_stream(polled, muxer.bandwidth) matches Poll::Ready(Ok(stream))
                ==> stream.count(Some(transfer)) == Some(
                Count { bandwidth: counting.bandwidth, transfer },
            )
        }),
        counted_event(event, counting.bandwidth) matches TransportEvent::Incoming { upgrade, .. }
            ==> {
            let (peer_id, muxer) = upgrade.completed(output);
            &&& peer_id == output.0
            &&& muxer.inner == output.1
            &&& muxer.bandwidth == counting.bandwidth
            &&& counted_stream(polled, muxer.bandwidth) matches Poll::Ready(Ok(stream))
                ==> stream.count(Some(transfer)) == Some(
                Count { bandwidth: counting.bandwidth, transfer },
            )
        },
{
}

/// Counting a transfer adds its bytes to the total of its direction, exactly as long as the sum
/// fits, and leaves the other total alone. A total that would not fit starts over at zero.
pub proof fn law_record_adds(
    received: &mut BandwidthSinks,
    sent: &mut BandwidthSinks,
    bytes: usize,
    before: (u64, u64),
    after: (u64, u64),
    sent_before: (u64, u64),
    sent_after: (u64, u64),
)
    requires
        call_ensures(BandwidthSinks::record, (received, Transfer::Inbound(bytes)), ()),
        call_ensures(BandwidthSinks::total_inbound, (&*old(received),), before.0),
        call_ensures(BandwidthSinks::total_outbound, (&*old(received),), before.1),
        call_ensures(BandwidthSinks::total_inbound, (&*final(received),), after.0),
        call_ensures(BandwidthSinks::total_outbound, (&*final(received),), after.1),
        call_ensures(BandwidthSinks::record, (sent, Transfer::Outbound(bytes)), ()),
        call_ensures(BandwidthSinks::total_inbound, (&*old(sent),), sent_before.0),
        call_ensures(BandwidthSinks::total_outbound, (&*old(sent),), sent_before.1),
        call_ensures(BandwidthSinks::total_inbound, (&*final(sent),), sent_after.0),
        call_ensures(BandwidthSinks::total_outbound, (&*final(sent),), sent_after.1),
    ensures
        before.0 + bytes <= u64::MAX ==> after.0 == before.0 + bytes,
        before.0 + bytes > u64::MAX ==> after.0 == before.0 + bytes - u64::MAX - 1,
        after.1 == before.1,
        sent_before.1 + bytes <= u64::MAX ==> sent_after.1 == sent_before.1 + bytes,
        sent_before.1 + bytes > u64::MAX ==> sent_after.1 == sent_before.1 + bytes - u64::MAX - 1,
        sent_after.0 == sent_before.0,
{
}

/// Totals start at zero.
pub proof fn law_totals_start_at_zero(sinks: BandwidthSinks, inbound: u64, outbound: u64)
    requires
        sinks@ == Totals::zero(),
        call_ensures(BandwidthSinks::total_inbound, (&sinks,), inbound),
        call_ensures(BandwidthSinks::total_outbound, (&sinks,), outbound),
    ensures
        inbound == 0,
        outbound == 0,
{
}

/// The bytes of some calls, all together: none for no calls; a read that completed adds its bytes
/// to those received, a write that completed to those sent, and nothing else adds anything.
pub proof fn law_bytes_add_up<E>(calls: Seq<StreamCall<E>>, bytes: usize, error: E)
    ensures
        bytes_received(Seq::<StreamCall<E>>::empty()) == 0,
        bytes_sent(Seq::<StreamCall<E>>::empty()) == 0,
        ({
            let read = calls.push(StreamCall::Read(Poll::Ready(Ok(bytes))));
            let written = calls.push(StreamCall::Write(Poll::Ready(Ok(bytes))));
            &&& bytes_received(read) == bytes_received(calls) + bytes
            &&& bytes_sent(read) == bytes_sent(calls)
            &&& bytes_received(written) == bytes_received(calls)
            &&& bytes_sent(written) == bytes_sent(calls) + bytes
        }),
        ({
            let unread = calls.push(StreamCall::Read(Poll::Ready(Err(error))));
            let unwritten = calls.push(StreamCall::Write(Poll::Ready(Err(error))));
            let no_read = calls.push(StreamCall::Read(Poll::Pending));
            let no_write = calls.push(StreamCall::Write(Poll::Pending));
            &&& bytes_received(unread) == bytes_received(calls)
            &&& bytes_received(unwritten) == bytes_received(calls)
            &&& bytes_received(no_read) == bytes_received(calls)
            &&& bytes_received(no_write) == bytes_received(calls)
            &&& bytes_sent(unread) == bytes_sent(calls)
            &&& bytes_sent(unwritten) == bytes_sent(calls)
            &&& bytes_sent(no_read) == bytes_sent(calls)
            &&& bytes_sent(no_write) == bytes_sent(calls)
        }),
{
    assert forall|call: StreamCall<E>| #[trigger] calls.push(call).drop_last() == calls by {
        assert(calls.push(call).drop_last() =~= calls);
    }
}

/// As long as the bytes that all calls received sum to no more than a counter can hold, the total
/// is exactly that sum; likewise for the bytes that were sent.
pub proof fn law_totals_exact<E>(calls: Seq<StreamCall<E>>, sinks: BandwidthSinks, total: (u64, u64))
    requires
        sinks@ == totals_after_all(Totals::zero(), calls),
        call_ensures(BandwidthSinks::total_inbound, (&sinks,), total.0),
        call_ensures(BandwidthSinks::total_outbound, (&sinks,), total.1),
    ensures
        bytes_received(calls) <= u64::MAX ==> total.0 == bytes_received(calls),
        bytes_sent(calls) <= u64::MAX ==> total.1 == bytes_sent(calls),
{
    law_totals(calls);
    lemma_bytes_not_negative(calls);
}

proof fn lemma_bytes_not_negative<E>(calls: Seq<StreamCall<E>>)
    ensures
        bytes_received(calls) >= 0,
        bytes_sent(calls) >= 0,
    decreases calls.len(),
{
    if calls.len() > 0 {
        lemma_bytes_not_negative(calls.drop_last());
    }
}

/// A counted stream passes on what the stream below answered, and has exactly the bytes of a
/// completed call counted: what was read as received, what was written as sent, where the stream
/// counts. Nothing is counted of a wait or an error.
pub proof fn law_calls_are_counted<S, B, E>(
    stream: CountingStream<S, B>,
    polled: Poll<Result<usize, E>>,
    read: (Poll<Result<usize, E>>, Option<Count<B>>),
    written: (Poll<Result<usize, E>>, Option<Count<B>>),
)
    requires
        call_ensures(CountingStream::<S, B>::poll_read::<E>, (&stream, polled), read),
        call_ensures(CountingStream::<S, B>::poll_write::<E>, (&stream, polled), written),
    ensures
        read.0 == polled && written.0 == polled,
        read.1 is Some <==> (polled is Ready && polled->Ready_0 is Ok),
        written.1 is Some <==> (polled is Ready && polled->Ready_0 is Ok),
        read.1 is Some ==> read.1->0.transfer == Transfer::Inbound(polled->Ready_0->Ok_0),
        written.1 is Some ==> written.1->0.transfer == Transfer::Outbound(polled->Ready_0->Ok_0),
        read.1 is Some ==> read.1->0.bandwidth == stream.bandwidth,
        written.1 is Some ==> written.1->0.bandwidth == stream.bandwidth,
{
}

/// A counted connection hands out the streams of the connection below, each counted where the
/// connection counts, and passes on its errors and waits.
pub proof fn law_streams_are_counted<M, B, S, E>(
    muxer: CountingMuxer<M, B>,
    polled: Poll<Result<S, E>>,
    inbound: Poll<Result<CountingStream<S, B>, E>>,
    outbound: Poll<Result<CountingStream<S, B>, E>>,
)
    requires
        call_ensures(CountingMuxer::<M, B>::poll_inbound::<S, E>, (&muxer, polled), inbound),
        call_ensures(CountingMuxer::<M, B>::poll_outbound::<S, E>, (&muxer, polled), outbound),
    ensures
        inbound == outbound,
        inbound is Pending <==> polled is Pending,
        polled matches Poll::Ready(Err(error)) ==> inbound == Poll::Ready(
            Err::<CountingStream<S, B>, E>(error),
        ),
        polled matches Poll::Ready(Ok(stream)) ==> {
            &&& inbound matches Poll::Ready(Ok(counted))
            &&& counted.inner == stream && counted.bandwidth == muxer.bandwidth
        },
{
}

/// What a counting transport dials is what the transport below dialled, and yields that peer and
/// that connection, counted where the transport counts; an error is passed on.
pub proof fn law_dialled_is_counted<T, B, D, E, P, M>(
    transport: CountingTransport<T, B>,
    dialled: D,
    error: E,
    peer: P,
    muxer: M,
    counted: Result<CountedUpgrade<D, B>, E>,
    failed: Result<CountedUpgrade<D, B>, E>,
    output: (P, CountingMuxer<M, B>),
)
    requires
        call_ensures(CountingTransport::<T, B>::dial::<D, E>, (&transport, Ok(dialled)), counted),
        call_ensures(CountingTransport::<T, B>::dial::<D, E>, (&transport, Err(error)), failed),
        counted is Ok ==> call_ensures(
            CountedUpgrade::<D, B>::complete::<P, M>,
            (&counted->Ok_0, (peer, muxer)),
            output,
        ),
    ensures
        failed == Err::<CountedUpgrade<D, B>, E>(error),
        counted is Ok && counted->Ok_0.upgrade == dialled,
        output.0 == peer,
        output.1.inner == muxer,
        output.1.bandwidth == transport.bandwidth,
{
}

/// A connection that comes in on a counting transport is the one that came in below, with the same
/// listener and addresses, and yields that peer and that connection, counted where the transport
/// counts.
pub proof fn law_incoming_is_counted<T, B, U, A, E, P, M>(
    transport: CountingTransport<T, B>,
    id: Listener,
    work: U,
    local: A,
    remote: A,
    peer: P,
    muxer: M,
    r: Poll<TransportEvent<CountedUpgrade<U, B>, A, E>>,
    output: (P, CountingMuxer<M, B>),
)
    requires
        call_ensures(
            CountingTransport::<T, B>::poll::<U, A, E>,
            (
                &transport,
                Poll::Ready(
                    TransportEvent::Incoming {
                        listener_id: id,
                        upgrade: work,
                        local_addr: local,
                        send_back_addr: remote,
                    },
                ),
            ),
            r,
        ),
        r matches Poll::Ready(TransportEvent::Incoming { upgrade, .. }) ==> call_ensures(
            CountedUpgrade::<U, B>::complete::<P, M>,
            (&upgrade, (peer, muxer)),
            output,
        ),
    ensures
        r matches Poll::Ready(
            TransportEvent::Incoming { listener_id, upgrade, local_addr, send_back_addr },
        ) && listener_id == id && upgrade.upgrade == work && local_addr == local && send_back_addr
            == remote,
        output.0 == peer,
        output.1.inner == muxer,
        output.1.bandwidth == transport.bandwidth,
{
}

/// All other events of the transport below, and waits, are passed on as they are.
pub proof fn law_other_events_passed_on<T, B, U, A, E>(
    transport: CountingTransport<T, B>,
    polled: Poll<TransportEvent<U, A, E>>,
    r: Poll<TransportEvent<CountedUpgrade<U, B>, A, E>>,
)
    requires
        call_ensures(CountingTransport::<T, B>::poll::<U, A, E>, (&transport, polled), r),
    ensures
        r is Pending <==> polled is Pending,
        polled matches Poll::Ready(TransportEvent::NewAddress { listener_id: i, listen_addr: a })
            ==> (r matches Poll::Ready(TransportEvent::NewAddress { listener_id, listen_addr })
            && listener_id == i && listen_addr == a),
        polled matches Poll::Ready(TransportEvent::AddressExpired { listener_id: i, listen_addr: a })
            ==> (r matches Poll::Ready(TransportEvent::AddressExpired { listener_id, listen_addr })
            && listener_id == i && listen_addr == a),
        polled matches Poll::Ready(TransportEvent::ListenerClosed { listener_id: i, reason: e })
            ==> (r matches Poll::Ready(TransportEvent::ListenerClosed { listener_id, reason })
            && listener_id == i && reason == e),
        polled matches Poll::Ready(TransportEvent::ListenerError { listener_id: i, error: e })
            ==> (r matches Poll::Ready(TransportEvent::ListenerError { listener_id, error })
            && listener_id == i && error == e),
{
}

/// The counting layers wrap what they are given, and count where they are told.
pub proof fn law_layers_wrap<T, B>(
    inner: T,
    bandwidth: Arc<B>,
    transport: CountingTransport<T, B>,
    muxer: CountingMuxer<T, B>,
    stream: CountingStream<T, B>,
)
    requires
        call_ensures(CountingTransport::<T, B>::new, (inner, bandwidth), transport),
        call_ensures(CountingMuxer::<T, B>::new, (inner, bandwidth), muxer),
        call_ensures(CountingStream::<T, B>::new, (inner, bandwidth), stream),
    ensures
        transport.transport == inner && transport.bandwidth == bandwidth,
        muxer.inner == inner && muxer.bandwidth == bandwidth,
        stream.inner == inner && stream.bandwidth == bandwidth,
{
}

} // verus!
