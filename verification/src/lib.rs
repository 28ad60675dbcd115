//! A libp2p transport on iroh's QUIC stack, and the transport that it is combined with.
//!
//! iroh's connections are authenticated and multiplexed already, so that the transport yields a
//! peer id and a connection of many streams directly. This crate holds what the transport decides:
//! which keys it goes by, what it asks of whom when it listens, dials and accepts, what its
//! connections and streams answer, and what is counted. The caller performs the input and output
//! in between, and hands in what came of it.

pub mod bandwidth;
pub mod connection;
pub mod identity;
pub mod poll;
pub mod protocol;
pub mod stack;
pub mod stream;
pub mod text;
pub mod transport;

pub use bandwidth::{BandwidthSinks, CountingMuxer, CountingStream, CountingTransport};
pub use connection::{Connecting, Connection, ConnectionError, ConnectionErrorKind};
pub use identity::node_id_to_peerid;
pub use poll::Poll;
pub use protocol::{Protocol, ProtocolActor};
pub use stack::build_transport;
pub use stream::{Stream, StreamError, StreamErrorKind};
pub use transport::{Transport, TransportError, TransportErrorKind};
