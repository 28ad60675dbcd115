//! The transport: its errors, how it starts, listens, dials and reports events.
//!
//! Each operation of a transport asks other parties (the protocol's actor, the iroh endpoint, an
//! event channel) one thing after the other. Here, an operation is a chain of values. Each value
//! says what to ask next, and takes the reply; the reply leads to the next value, or to the error
//! that the operation ends with.

use vstd::prelude::*;
use vstd::std_specs::convert::FromSpecImpl;
use vstd::string::to_string_from_display_ensures;

use crate::connection::Connection;
use crate::identity::{
    decodes_as_ed25519, ed25519_peer_id, node_id_to_peerid, public_key_of, EndpointId, Identity,
    PeerId, SecretKey,
};
use crate::poll::Poll;
use crate::text::{debug_str, join, join_variant};

verus! {

/// Declares `libp2p::core::transport::ListenerId`, a number that is compared and passed on.
#[verifier::external_type_specification]
#[verifier::external_body]
pub struct ExListenerId(libp2p::core::transport::ListenerId);

/// The id by which a listener is known.
pub type Listener = libp2p::core::transport::ListenerId;

/// Declares `iroh::endpoint::BindError`, which is carried and printed, never looked into.
#[verifier::external_type_specification]
#[verifier::external_body]
pub struct ExBindError(iroh::endpoint::BindError);

/// Calls `==` of `libp2p::core::transport::ListenerId`.
///
/// Claimed: it tells whether the two ids are the same value.
#[verifier::external_body]
fn same_listener(a: &Listener, b: &Listener) -> (r: bool)
    ensures
        r == (*a == *b),
{
    a == b
}

/// A failure of the transport.
#[derive(Clone, Debug)]
pub struct TransportError {
    kind: TransportErrorKind,
}

/// What the transport failed at, and the message.
#[derive(Clone, Debug)]
pub enum TransportErrorKind {
    Dial(String),
    Listen(String),
}

/// A [`TransportError`] as contracts speak of it.
pub enum TransportFault {
    Dial(Seq<char>),
    Listen(Seq<char>),
}

impl TransportFault {
    /// What the error prints as.
    pub open spec fn display(self) -> Seq<char> {
        match self {
            TransportFault::Dial(text) => "TransportError: Dial("@ + debug_str(text) + ")"@,
            TransportFault::Listen(text) => "TransportError: Listen("@ + debug_str(text) + ")"@,
        }
    }
}

impl View for TransportError {
    type V = TransportFault;

    closed spec fn view(&self) -> TransportFault {
        match self.kind {
            TransportErrorKind::Dial(text) => TransportFault::Dial(text@),
            TransportErrorKind::Listen(text) => TransportFault::Listen(text@),
        }
    }
}

/// A result whose error is taken by its view.
pub open spec fn fault_of<T>(r: Result<T, TransportError>) -> Result<T, TransportFault> {
    match r {
        Ok(value) => Ok(value),
        Err(error) => Err(error@),
    }
}

/// A result whose error is a message.
pub open spec fn text_of<T>(r: Result<T, String>) -> Result<T, Seq<char>> {
    match r {
        Ok(value) => Ok(value),
        Err(text) => Err(text@),
    }
}

impl TransportError {
    /// A failure to listen.
    pub(crate) fn listen(text: String) -> (r: TransportError)
        ensures
            r@ == TransportFault::Listen(text@),
    {
        TransportError { kind: TransportErrorKind::Listen(text) }
    }

    /// A failure to dial.
    pub(crate) fn dial(text: String) -> (r: TransportError)
        ensures
            r@ == TransportFault::Dial(text@),
    {
        TransportError { kind: TransportErrorKind::Dial(text) }
    }

    /// Prints the error.
    pub fn to_string(&self) -> (r: String)
        ensures
            r@ == self@.display(),
    {
        match &self.kind {
            TransportErrorKind::Dial(text) => join_variant("TransportError: Dial(", text.as_str()),
            TransportErrorKind::Listen(text) => join_variant(
                "TransportError: Listen(",
                text.as_str(),
            ),
        }
    }

    /// The error for a message from the actor's runtime: the actor panicked, or is gone.
    pub fn from_actor_message(msg: String) -> (r: TransportError)
        ensures
            r@ == TransportFault::Listen(msg@),
    {
        TransportError::listen(msg)
    }
}

// A `String` is known to contracts by its characters, not as a value that a spec function could
// build. So `from_spec` claims nothing for these errors, and each `from` states its own result.

impl FromSpecImpl<iroh::endpoint::BindError> for TransportError {
    open spec fn obeys_from_spec() -> bool {
        false
    }

    open spec fn from_spec(err: iroh::endpoint::BindError) -> TransportError {
        arbitrary()
    }
}

impl From<iroh::endpoint::BindError> for TransportError {
    fn from(err: iroh::endpoint::BindError) -> (r: TransportError)
        ensures
            exists|text: String| #[trigger]
                to_string_from_display_ensures(&err, text) && r@ == TransportFault::Listen(text@),
    {
        let text = err.to_string();
        TransportError::listen(text)
    }
}

impl FromSpecImpl<&str> for TransportError {
    open spec fn obeys_from_spec() -> bool {
        false
    }

    open spec fn from_spec(err: &str) -> TransportError {
        arbitrary()
    }
}

impl From<&str> for TransportError {
    fn from(err: &str) -> (r: TransportError)
        ensures
            r@ == TransportFault::Listen(err@),
    {
        TransportError::listen(err.to_string())
    }
}

/// What the task that binds a transport's endpoint is waiting for.
#[derive(Debug, Clone, Copy)]
pub enum InitStage {
    /// The endpoint to be bound.
    Binding,
    /// The protocol to be taken by the transport that waits for it.
    SendingProtocol,
    /// The failure to be taken by the transport that waits for it.
    SendingFailure,
}

/// What the task that binds a transport's endpoint does next.
#[derive(Debug)]
pub enum InitAction {
    /// Start the protocol on the endpoint and send it to the waiting transport.
    SendProtocol,
    /// Send the waiting transport this error.
    SendFailure(TransportError),
    /// End the task.
    Return,
    /// End the task by a panic with this message: nobody is left to be told of the failure.
    Panic(&'static str),
}

/// An [`InitAction`] as contracts speak of it.
pub enum InitDecision {
    SendProtocol,
    SendFailure(TransportFault),
    Return,
    Panic(Seq<char>),
}

impl View for InitAction {
    type V = InitDecision;

    open spec fn view(&self) -> InitDecision {
        match *self {
            InitAction::SendProtocol => InitDecision::SendProtocol,
            InitAction::SendFailure(error) => InitDecision::SendFailure(error@),
            InitAction::Return => InitDecision::Return,
            InitAction::Panic(message) => InitDecision::Panic(message@),
        }
    }
}

/// The error that a transport ends up with if its endpoint could not be brought into use.
pub open spec fn init_failure() -> TransportFault {
    TransportFault::Listen("Failed to initialize iroh endpoint"@)
}

/// What the task does when what it waits for succeeds or fails.
pub open spec fn init_decision(stage: InitStage, success: bool) -> InitDecision {
    match stage {
        InitStage::Binding => if success {
            InitDecision::SendProtocol
        } else {
            InitDecision::SendFailure(init_failure())
        },
        InitStage::SendingProtocol => if success {
            InitDecision::Return
        } else {
            InitDecision::SendFailure(init_failure())
        },
        InitStage::SendingFailure => if success {
            InitDecision::Return
        } else {
            InitDecision::Panic("fatal: failed to send error through channel"@)
        },
    }
}

impl InitStage {
    /// What the task does next, given whether what it waits for succeeded.
    pub fn next(self, success: bool) -> (r: InitAction)
        ensures
            r@ == init_decision(self, success),
    {
        if success {
            match self {
                InitStage::Binding => InitAction::SendProtocol,
                InitStage::SendingProtocol => InitAction::Return,
                InitStage::SendingFailure => InitAction::Return,
            }
        } else {
            match self {
                InitStage::SendingFailure => InitAction::Panic(
                    "fatal: failed to send error through channel",
                ),
                _ => InitAction::SendFailure(
                    TransportError::listen("Failed to initialize iroh endpoint".to_string()),
                ),
            }
        }
    }
}

/// A transport. `P` is its handle on the protocol that accepts connections for it.
pub struct Transport<P> {
    /// The secret key of the transport's endpoint.
    pub secret_key: SecretKey,
    /// The handle on the protocol.
    pub protocol: P,
    /// The id of the transport's endpoint.
    pub node_id: EndpointId,
    /// The peer id of the same key.
    pub peer_id: PeerId,
    /// How long the transport waits for its peers, in seconds.
    pub timeout_secs: u64,
}

/// What setting up a transport comes to, given what the task that binds its endpoint sent: nothing
/// if that task is gone.
pub open spec fn setup_outcome<P>(sent: Option<Result<P, TransportFault>>) -> Result<
    P,
    TransportFault,
> {
    match sent {
        Some(reply) => reply,
        None => Err(
            TransportFault::Listen("Failed to receive transport from initialization"@),
        ),
    }
}

impl<P> Transport<P> {
    /// The keys of the transport.
    pub open spec fn identity(self) -> Identity {
        Identity { secret_key: self.secret_key, node_id: self.node_id, peer_id: self.peer_id }
    }

    /// The transport of an identity, given what the task that binds its endpoint sent.
    pub fn new(identity: Identity, sent: Option<Result<P, TransportError>>) -> (r: Result<
        Transport<P>,
        TransportError,
    >)
        ensures
            match setup_outcome(
                match sent {
                    Some(reply) => Some(fault_of(reply)),
                    None => None,
                },
            ) {
                Ok(protocol) => {
                    &&& r matches Ok(transport)
                    &&& transport.identity() == identity
                    &&& transport.protocol == protocol
                    &&& transport.timeout_secs == 300
                },
                Err(fault) => r matches Err(error) && error@ == fault,
            },
    {
        match sent {
            Some(Ok(protocol)) => Ok(
                Transport {
                    secret_key: identity.secret_key,
                    protocol,
                    node_id: identity.node_id,
                    peer_id: identity.peer_id,
                    timeout_secs: 300,
                },
            ),
            Some(Err(error)) => Err(error),
            None => Err(
                TransportError::listen(
                    "Failed to receive transport from initialization".to_string(),
                ),
            ),
        }
    }

    /// Starts to listen as `id`: ask the protocol for its listener.
    pub fn listen_on(&self, id: Listener) -> (r: ListenOn)
        ensures
            r == (ListenOn { id, node_id: self.node_id }),
    {
        ListenOn { id, node_id: self.node_id }
    }

    /// Stops listening as `id`, given the protocol's listener: whether there is such a listener,
    /// which the protocol is then told to forget.
    ///
    /// Nobody is told if the protocol cannot be reached.
    pub fn remove_listener(
        &self,
        id: Listener,
        listener: Result<Option<Listener>, TransportError>,
    ) -> (r: bool)
        ensures
            r == removes(id, fault_of(listener)),
    {
        match listener {
            Ok(Some(current)) => same_listener(&current, &id),
            _ => false,
        }
    }

    /// Listens as `id`, where all replies are known beforehand. A reply to what is not asked,
    /// because an earlier reply ended the request, does not count.
    pub fn listen_with_replies<E>(
        &self,
        id: Listener,
        listener: Result<Option<Listener>, TransportError>,
        endpoint: Result<E, TransportError>,
        installed: Result<(), TransportError>,
        sent: Result<(), String>,
    ) -> (r: Result<(), TransportError>)
        ensures
            fault_of(r) == listen_outcome(
                fault_of(listener),
                fault_of(endpoint),
                fault_of(installed),
                text_of(sent),
            ),
    {
        match self.listen_on(id).listener(listener) {
            Ok(free) => match free.endpoint(endpoint) {
                Ok(ready) => match ready.installed(installed) {
                    Ok(event) => event.sent(sent),
                    Err(error) => Err(error),
                },
                Err(error) => Err(error),
            },
            Err(error) => Err(error),
        }
    }

    /// Starts to dial, given the endpoint id that the address names, if it names one: ask the
    /// protocol for the endpoint.
    pub fn dial(&self, node_id: Option<EndpointId>) -> (r: Result<Dial, TransportError>)
        ensures
            match dial_target(node_id) {
                Ok(node_id) => r == Ok::<_, TransportError>(Dial { node_id }),
                Err(fault) => r matches Err(error) && error@ == fault,
            },
    {
        match node_id {
            Some(node_id) => Ok(Dial { node_id }),
            None => Err(
                TransportError::dial(
                    "Failed to extract iroh EndpointId from multiaddr".to_string(),
                ),
            ),
        }
    }

    /// Dials, where all replies are known beforehand. A reply to what is not asked, because an
    /// earlier reply ended the request, does not count.
    pub fn dial_with_replies<E, C>(
        &self,
        node_id: Option<EndpointId>,
        endpoint: Result<E, TransportError>,
        connected: Result<(C, EndpointId), String>,
    ) -> (r: Result<(PeerId, Connection<C>), TransportError>)
        ensures
            match dial_outcome(node_id, fault_of(endpoint), remote_of(connected)) {
                Ok(peer_id) => {
                    &&& r matches Ok(reached)
                    &&& reached.0@ == peer_id
                    &&& reached.1 == Connection::fresh(connected->Ok_0.0)
                },
                Err(fault) => r matches Err(error) && error@ == fault,
            },
    {
        match self.dial(node_id) {
            Ok(request) => match request.endpoint(endpoint) {
                Ok(request) => request.connected(connected),
                Err(error) => Err(error),
            },
            Err(error) => Err(error),
        }
    }

    /// The next event, given what the channel of events answered. A channel that is closed never
    /// yields an event.
    pub fn poll<T>(&self, polled: Poll<Option<T>>) -> (r: Poll<T>)
        ensures
            r == (match polled {
                Poll::Ready(Some(event)) => Poll::Ready(event),
                _ => Poll::Pending,
            }),
    {
        match polled {
            Poll::Ready(Some(event)) => Poll::Ready(event),
            Poll::Ready(None) => Poll::Pending,
            Poll::Pending => Poll::Pending,
        }
    }
}

/// Whether a request to remove the listener `id` removes one, given the protocol's answer to the
/// question for its listener.
pub open spec fn removes(id: Listener, listener: Result<Option<Listener>, TransportFault>) -> bool {
    listener == Ok::<_, TransportFault>(Some(id))
}

/// A request to listen. The protocol is asked for its listener.
#[derive(Debug, Clone, Copy)]
pub struct ListenOn {
    pub id: Listener,
    pub node_id: EndpointId,
}

/// A request to listen on a transport that has no listener. The protocol is asked for the
/// endpoint.
#[derive(Debug, Clone, Copy)]
pub struct ListenFree {
    pub id: Listener,
    pub node_id: EndpointId,
}

/// A request to listen on `endpoint`. A router for it is spawned, which hands the connections of
/// [`alpn`] to the protocol; the protocol is told to keep the router and the listener `id`.
#[derive(Debug)]
pub struct ListenReady<E> {
    pub id: Listener,
    pub node_id: EndpointId,
    pub endpoint: E,
}

/// The event that the listener `listener_id` now listens on the address of `node_id`. It is sent
/// to the channel of events.
#[derive(Debug, Clone, Copy)]
pub struct NewAddress {
    pub listener_id: Listener,
    pub node_id: EndpointId,
}

/// What the protocol's answer to the question for its listener means for a request to listen.
pub open spec fn listen_free(listener: Result<Option<Listener>, TransportFault>) -> Result<
    (),
    TransportFault,
> {
    match listener {
        Ok(None) => Ok(()),
        Ok(Some(_)) => Err(
            TransportFault::Listen("Listener already exists for this transport"@),
        ),
        Err(fault) => Err(fault),
    }
}

/// What the protocol's answer to the question for the endpoint means for a request to listen.
pub open spec fn listen_ready<E>(endpoint: Result<E, TransportFault>) -> Result<
    E,
    TransportFault,
> {
    match endpoint {
        Ok(endpoint) => Ok(endpoint),
        Err(fault) => Err(
            TransportFault::Listen(
                "Failed to get endpoint from transport protocol: "@ + fault.display(),
            ),
        ),
    }
}

/// What the protocol's answer to the request to keep router and listener means for a request to
/// listen.
pub open spec fn listen_installed(installed: Result<(), TransportFault>) -> Result<
    (),
    TransportFault,
> {
    match installed {
        Ok(()) => Ok(()),
        Err(fault) => Err(TransportFault::Listen("Failed to set router: "@ + fault.display())),
    }
}

/// What sending the [`NewAddress`] event means for a request to listen.
pub open spec fn listen_announced(sent: Result<(), Seq<char>>) -> Result<(), TransportFault> {
    match sent {
        Ok(()) => Ok(()),
        Err(text) => Err(TransportFault::Listen("Failed to send NewAddress event: "@ + text)),
    }
}

/// What a request to listen comes to, given what it would be told at each stage. A stage that is
/// not reached does not count.
pub open spec fn listen_outcome<E>(
    listener: Result<Option<Listener>, TransportFault>,
    endpoint: Result<E, TransportFault>,
    installed: Result<(), TransportFault>,
    sent: Result<(), Seq<char>>,
) -> Result<(), TransportFault> {
    match listen_free(listener) {
        Err(fault) => Err(fault),
        Ok(()) => match listen_ready(endpoint) {
            Err(fault) => Err(fault),
            Ok(_) => match listen_installed(installed) {
                Err(fault) => Err(fault),
                Ok(()) => listen_announced(sent),
            },
        },
    }
}

impl ListenOn {
    /// Takes the protocol's listener: a transport has at most one.
    pub fn listener(self, listener: Result<Option<Listener>, TransportError>) -> (r: Result<
        ListenFree,
        TransportError,
    >)
        ensures
            match listen_free(fault_of(listener)) {
                Ok(()) => r == Ok::<_, TransportError>(
                    ListenFree { id: self.id, node_id: self.node_id },
                ),
                Err(fault) => r matches Err(error) && error@ == fault,
            },
    {
        match listener {
            Ok(None) => Ok(ListenFree { id: self.id, node_id: self.node_id }),
            Ok(Some(_)) => Err(
                TransportError::listen("Listener already exists for this transport".to_string()),
            ),
            Err(error) => Err(error),
        }
    }
}

impl ListenFree {
    /// Takes the endpoint.
    pub fn endpoint<E>(self, endpoint: Result<E, TransportError>) -> (r: Result<
        ListenReady<E>,
        TransportError,
    >)
        ensures
            match listen_ready(fault_of(endpoint)) {
                Ok(endpoint) => r == Ok::<_, TransportError>(
                    ListenReady { id: self.id, node_id: self.node_id, endpoint },
                ),
                Err(fault) => r matches Err(error) && error@ == fault,
            },
    {
        match endpoint {
            Ok(endpoint) => Ok(ListenReady { id: self.id, node_id: self.node_id, endpoint }),
            Err(error) => {
                let shown = error.to_string();
                Err(
                    TransportError::listen(
                        join("Failed to get endpoint from transport protocol: ", shown.as_str()),
                    ),
                )
            },
        }
    }
}

impl<E> ListenReady<E> {
    /// Takes word that the protocol keeps the router and the listener.
    pub fn installed(&self, installed: Result<(), TransportError>) -> (r: Result<
        NewAddress,
        TransportError,
    >)
        ensures
            match listen_installed(fault_of(installed)) {
                Ok(()) => r == Ok::<_, TransportError>(
                    NewAddress { listener_id: self.id, node_id: self.node_id },
                ),
                Err(fault) => r matches Err(error) && error@ == fault,
            },
    {
        match installed {
            Ok(()) => Ok(NewAddress { listener_id: self.id, node_id: self.node_id }),
            Err(error) => {
                let shown = error.to_string();
                Err(TransportError::listen(join("Failed to set router: ", shown.as_str())))
            },
        }
    }
}

impl NewAddress {
    /// Takes word that the event was sent, which ends the request to listen.
    pub fn sent(&self, sent: Result<(), String>) -> (r: Result<(), TransportError>)
        ensures
            fault_of(r) == listen_announced(text_of(sent)),
    {
        match sent {
            Ok(()) => Ok(()),
            Err(text) => Err(
                TransportError::listen(join("Failed to send NewAddress event: ", text.as_str())),
            ),
        }
    }
}

/// A request to dial the endpoint `node_id`. The protocol is asked for the endpoint to dial from.
#[derive(Debug, Clone, Copy)]
pub struct Dial {
    pub node_id: EndpointId,
}

/// A request to dial the endpoint `node_id` from `endpoint`. It is connected to, for [`alpn`].
#[derive(Debug)]
pub struct DialConnect<E> {
    pub node_id: EndpointId,
    pub endpoint: E,
}

/// The endpoint that is dialled, given the endpoint id that the address names, if it names one.
pub open spec fn dial_target(node_id: Option<EndpointId>) -> Result<EndpointId, TransportFault> {
    match node_id {
        Some(node_id) => Ok(node_id),
        None => Err(TransportFault::Dial("Failed to extract iroh EndpointId from multiaddr"@)),
    }
}

/// What the protocol's answer to the question for the endpoint means for a request to dial.
pub open spec fn dial_ready<E>(endpoint: Result<E, TransportFault>) -> Result<E, TransportFault> {
    match endpoint {
        Ok(endpoint) => Ok(endpoint),
        Err(fault) => Err(
            TransportFault::Dial(
                "Failed to get endpoint from transport protocol: "@ + fault.display(),
            ),
        ),
    }
}

/// The peer that a request to dial reaches, given the endpoint id that the connection's other end
/// proved to have.
pub open spec fn dial_reached(remote: Result<Seq<u8>, Seq<char>>) -> Result<
    Seq<u8>,
    TransportFault,
> {
    match remote {
        Ok(remote_id) => if decodes_as_ed25519(remote_id) {
            Ok(ed25519_peer_id(remote_id))
        } else {
            Err(TransportFault::Dial("Failed to convert EndpointId to peerid"@))
        },
        Err(text) => Err(TransportFault::Dial(text)),
    }
}

/// The endpoint id of a connection's other end, or why there is no connection.
pub open spec fn remote_of<C>(connected: Result<(C, EndpointId), String>) -> Result<
    Seq<u8>,
    Seq<char>,
> {
    match connected {
        Ok((_, remote_id)) => Ok(remote_id@),
        Err(text) => Err(text@),
    }
}

/// What a request to dial comes to, given what it would be told at each stage: the peer that it
/// reaches. A stage that is not reached does not count.
pub open spec fn dial_outcome<E>(
    node_id: Option<EndpointId>,
    endpoint: Result<E, TransportFault>,
    remote: Result<Seq<u8>, Seq<char>>,
) -> Result<Seq<u8>, TransportFault> {
    match dial_target(node_id) {
        Err(fault) => Err(fault),
        Ok(_) => match dial_ready(endpoint) {
            Err(fault) => Err(fault),
            Ok(_) => dial_reached(remote),
        },
    }
}

impl Dial {
    /// Takes the endpoint to dial from.
    pub fn endpoint<E>(self, endpoint: Result<E, TransportError>) -> (r: Result<
        DialConnect<E>,
        TransportError,
    >)
        ensures
            match dial_ready(fault_of(endpoint)) {
                Ok(endpoint) => r == Ok::<_, TransportError>(
                    DialConnect { node_id: self.node_id, endpoint },
                ),
                Err(fault) => r matches Err(error) && error@ == fault,
            },
    {
        match endpoint {
            Ok(endpoint) => Ok(DialConnect { node_id: self.node_id, endpoint }),
            Err(error) => {
                let shown = error.to_string();
                Err(
                    TransportError::dial(
                        join("Failed to get endpoint from transport protocol: ", shown.as_str()),
                    ),
                )
            },
        }
    }
}

impl<E> DialConnect<E> {
    /// Takes the connection, with the endpoint id of its other end.
    pub fn connected<C>(&self, connected: Result<(C, EndpointId), String>) -> (r: Result<
        (PeerId, Connection<C>),
        TransportError,
    >)
        ensures
            match dial_reached(remote_of(connected)) {
                Ok(peer_id) => {
                    &&& r matches Ok(reached)
                    &&& reached.0@ == peer_id
                    &&& reached.1 == Connection::fresh(connected->Ok_0.0)
                },
                Err(fault) => r matches Err(error) && error@ == fault,
            },
    {
        match connected {
            Ok((connection, remote_id)) => match node_id_to_peerid(&remote_id) {
                Some(peer_id) => Ok((peer_id, Connection::new(connection))),
                None => Err(
                    TransportError::dial("Failed to convert EndpointId to peerid".to_string()),
                ),
            },
            Err(text) => Err(TransportError::dial(text)),
        }
    }
}

/// What the endpoint's router and those who dial agree on as the protocol of their connections.
pub fn alpn() -> (r: &'static str)
    ensures
        r@ == "/iroh/libp2p-transport/0.1.0"@,
{
    "/iroh/libp2p-transport/0.1.0"
}

/// A request to listen succeeds exactly if the protocol has no listener and every party that it
/// asks answers; the first thing that stands in its way decides how it fails.
pub proof fn law_listen_succeeds<E>(
    listener: Result<Option<Listener>, TransportFault>,
    endpoint: Result<E, TransportFault>,
    installed: Result<(), TransportFault>,
    sent: Result<(), Seq<char>>,
)
    ensures
        ({
            let outcome = listen_outcome(listener, endpoint, installed, sent);
            let free = listener == Ok::<Option<Listener>, TransportFault>(None);
            &&& outcome is Ok <==> free && endpoint is Ok && installed is Ok && sent is Ok
            &&& !free ==> outcome == listen_free(listener)
            &&& free && endpoint is Err ==> outcome == Err::<(), _>(listen_ready(endpoint)->Err_0)
            &&& free && endpoint is Ok && installed is Err ==> outcome == listen_installed(
                installed,
            )
            &&& free && endpoint is Ok && installed is Ok ==> outcome == listen_announced(sent)
        }),
{
}

/// A request to dial succeeds exactly if the address names an endpoint, there is an endpoint to
/// dial from, and the connection's other end has an id that is a public key; it then yields the
/// peer of that id. The first thing that stands in its way decides how it fails.
pub proof fn law_dial_succeeds<E>(
    node_id: Option<EndpointId>,
    endpoint: Result<E, TransportFault>,
    remote: Result<Seq<u8>, Seq<char>>,
)
    ensures
        ({
            let outcome = dial_outcome(node_id, endpoint, remote);
            let asked = node_id is Some && endpoint is Ok;
            &&& outcome is Ok <==> asked && remote is Ok && decodes_as_ed25519(remote->Ok_0)
            &&& outcome matches Ok(peer_id) ==> peer_id == ed25519_peer_id(remote->Ok_0)
            &&& node_id is None ==> outcome == Err::<Seq<u8>, _>(dial_target(node_id)->Err_0)
            &&& node_id is Some && endpoint is Err ==> outcome == Err::<Seq<u8>, _>(
                dial_ready(endpoint)->Err_0,
            )
            &&& asked ==> outcome == dial_reached(remote)
        }),
{
}

/// What goes wrong with a request to listen is a failure to listen, as long as the protocol's
/// actor reports its own failures as such, which [`TransportError::from_actor_message`] does; what
/// goes wrong with a request to dial is a failure to dial.
pub proof fn law_kinds_of_failure<E>(
    listener: Result<Option<Listener>, TransportFault>,
    endpoint: Result<E, TransportFault>,
    installed: Result<(), TransportFault>,
    sent: Result<(), Seq<char>>,
    node_id: Option<EndpointId>,
    remote: Result<Seq<u8>, Seq<char>>,
)
    requires
        listener matches Err(fault) ==> fault is Listen,
    ensures
        listen_outcome(listener, endpoint, installed, sent) matches Err(fault) ==> fault is Listen,
        dial_outcome(node_id, endpoint, remote) matches Err(fault) ==> fault is Dial,
{
}

/// A transport whose endpoint cannot be bound, or whose protocol does not reach it, is told so and
/// ends up with that error, as long as the task that binds the endpoint can reach it at all.
pub proof fn law_init_failure_reported<P>()
    ensures
        init_decision(InitStage::Binding, false) == InitDecision::SendFailure(init_failure()),
        init_decision(InitStage::SendingProtocol, false) == InitDecision::SendFailure(
            init_failure(),
        ),
        setup_outcome::<P>(Some(Err(init_failure()))) == Err::<P, _>(init_failure()),
{
}

/// What an error prints as: its kind, and the message as `{:?}` prints it, for every message that
/// an error is made from.
pub proof fn law_error_text(
    message: String,
    error: TransportError,
    shown: String,
    text: Seq<char>,
    other: TransportError,
    other_shown: String,
)
    requires
        call_ensures(TransportError::from_actor_message, (message,), error),
        call_ensures(TransportError::to_string, (&error,), shown),
        other@ == TransportFault::Dial(text),
        call_ensures(TransportError::to_string, (&other,), other_shown),
    ensures
        error@ == TransportFault::Listen(message@),
        shown@ == "TransportError: Listen("@ + debug_str(message@) + ")"@,
        other_shown@ == "TransportError: Dial("@ + debug_str(text) + ")"@,
{
}

/// A transport has the keys that it was set up with, field by field, and its endpoint id is the
/// public key of its secret key wherever that is so of the identity. It waits 300 seconds.
pub proof fn law_transport_keeps_keys<P>(
    identity: Identity,
    protocol: P,
    r: Result<Transport<P>, TransportError>,
)
    requires
        call_ensures(Transport::<P>::new, (identity, Some(Ok(protocol))), r),
    ensures
        r is Ok,
        r->Ok_0.secret_key == identity.secret_key,
        r->Ok_0.node_id == identity.node_id,
        r->Ok_0.peer_id == identity.peer_id,
        r->Ok_0.protocol == protocol,
        r->Ok_0.timeout_secs == 300,
        identity.wf() ==> r->Ok_0.node_id@ == public_key_of(r->Ok_0.secret_key@),
{
}

/// A transport that is not told of a protocol fails: with what it was told instead, or with a
/// message of its own if nobody told it anything.
pub proof fn law_transport_setup_fails<P>(
    identity: Identity,
    told: TransportError,
    failed: Result<Transport<P>, TransportError>,
    lost: Result<Transport<P>, TransportError>,
)
    requires
        call_ensures(Transport::<P>::new, (identity, Some(Err(told))), failed),
        call_ensures(Transport::<P>::new, (identity, None), lost),
    ensures
        failed is Err && failed->Err_0@ == told@,
        lost is Err && lost->Err_0@ == TransportFault::Listen(
            "Failed to receive transport from initialization"@,
        ),
{
}

/// The task that binds the endpoint goes on to the protocol only if the endpoint is bound, ends
/// quietly only if somebody was told, and otherwise tells of the failure, or panics if even that
/// fails.
pub proof fn law_init_steps(
    success: bool,
    bound: InitAction,
    told: InitAction,
    warned: InitAction,
)
    requires
        call_ensures(InitStage::next, (InitStage::Binding, success), bound),
        call_ensures(InitStage::next, (InitStage::SendingProtocol, success), told),
        call_ensures(InitStage::next, (InitStage::SendingFailure, success), warned),
    ensures
        bound is SendProtocol <==> success,
        told is Return <==> success,
        warned is Return <==> success,
        !success ==> bound is SendFailure && told is SendFailure && warned is Panic,
        !success ==> bound->SendFailure_0@ == told->SendFailure_0@ && told->SendFailure_0@
            == TransportFault::Listen("Failed to initialize iroh endpoint"@),
        !success ==> warned->Panic_0@ == "fatal: failed to send error through channel"@,
{
}

/// A request to listen is carried through under one id and for one endpoint: where every reply is
/// in order, the listener that is announced is the one that was asked for, at the transport's own
/// endpoint id, on the endpoint that was handed in.
pub proof fn law_listen_carries_through<P, E>(
    transport: Transport<P>,
    id: Listener,
    endpoint: E,
    request: ListenOn,
    free: Result<ListenFree, TransportError>,
    ready: Result<ListenReady<E>, TransportError>,
    event: Result<NewAddress, TransportError>,
    done: Result<(), TransportError>,
)
    requires
        call_ensures(Transport::<P>::listen_on, (&transport, id), request),
        call_ensures(ListenOn::listener, (request, Ok(None)), free),
        free is Ok ==> call_ensures(ListenFree::endpoint::<E>, (free->Ok_0, Ok(endpoint)), ready),
        ready is Ok ==> call_ensures(ListenReady::<E>::installed, (&ready->Ok_0, Ok(())), event),
        event is Ok ==> call_ensures(NewAddress::sent, (&event->Ok_0, Ok(())), done),
    ensures
        free is Ok && ready is Ok && event is Ok && done is Ok,
        request.id == id && free->Ok_0.id == id && ready->Ok_0.id == id,
        request.node_id == transport.node_id && free->Ok_0.node_id == transport.node_id,
        ready->Ok_0.node_id == transport.node_id && ready->Ok_0.endpoint == endpoint,
        event->Ok_0.listener_id == id && event->Ok_0.node_id == transport.node_id,
{
}

/// A request to listen is refused where there is a listener already, whichever it is, and fails
/// with what it is told where a reply is an error: a failure to reach the protocol at first as it
/// came, later ones with what was being done in front.
pub proof fn law_listen_refused<E>(
    request: ListenOn,
    free: ListenFree,
    ready: ListenReady<E>,
    event: NewAddress,
    current: Listener,
    told: TransportError,
    text: String,
    taken: Result<ListenFree, TransportError>,
    unheard: Result<ListenFree, TransportError>,
    unready: Result<ListenReady<E>, TransportError>,
    kept_out: Result<NewAddress, TransportError>,
    unsent: Result<(), TransportError>,
    shown: String,
)
    requires
        call_ensures(ListenOn::listener, (request, Ok(Some(current))), taken),
        call_ensures(ListenOn::listener, (request, Err(told)), unheard),
        call_ensures(ListenFree::endpoint::<E>, (free, Err(told)), unready),
        call_ensures(ListenReady::<E>::installed, (&ready, Err(told)), kept_out),
        call_ensures(NewAddress::sent, (&event, Err(text)), unsent),
        call_ensures(TransportError::to_string, (&told,), shown),
    ensures
        taken is Err && taken->Err_0@ == TransportFault::Listen(
            "Listener already exists for this transport"@,
        ),
        unheard is Err && unheard->Err_0@ == told@,
        unready is Err && unready->Err_0@ == TransportFault::Listen(
            "Failed to get endpoint from transport protocol: "@ + shown@,
        ),
        kept_out is Err && kept_out->Err_0@ == TransportFault::Listen(
            "Failed to set router: "@ + shown@,
        ),
        unsent is Err && unsent->Err_0@ == TransportFault::Listen(
            "Failed to send NewAddress event: "@ + text@,
        ),
{
}

/// A listener is removed exactly under the id that the protocol keeps, and never where the
/// protocol keeps none or cannot be asked.
pub proof fn law_removes_kept_listener<P>(
    transport: Transport<P>,
    id: Listener,
    kept: Listener,
    told: TransportError,
    some: bool,
    none: bool,
    unheard: bool,
)
    requires
        call_ensures(Transport::<P>::remove_listener, (&transport, id, Ok(Some(kept))), some),
        call_ensures(Transport::<P>::remove_listener, (&transport, id, Ok(None)), none),
        call_ensures(Transport::<P>::remove_listener, (&transport, id, Err(told)), unheard),
    ensures
        some <==> kept == id,
        !none,
        !unheard,
{
}

/// Dialling goes to the endpoint that the address names: the request to dial, and the request to
/// connect that follows from it, have that endpoint id, byte for byte, and the connection is made
/// from the endpoint that was handed in.
pub proof fn law_dial_goes_to_named_endpoint<P, E>(
    transport: Transport<P>,
    node_id: EndpointId,
    endpoint: E,
    request: Result<Dial, TransportError>,
    connect: Result<DialConnect<E>, TransportError>,
)
    requires
        call_ensures(Transport::<P>::dial, (&transport, Some(node_id)), request),
        request is Ok ==> call_ensures(Dial::endpoint::<E>, (request->Ok_0, Ok(endpoint)), connect),
    ensures
        dial_target(Some(node_id)) == Ok::<_, TransportFault>(node_id),
        request is Ok && request->Ok_0.node_id == node_id,
        connect is Ok && connect->Ok_0.node_id == node_id,
        connect->Ok_0.endpoint == endpoint,
{
}

/// A connection that was dialled is one to the endpoint that its other end proved to be, whichever
/// endpoint was asked for: the peer is the one that everybody derives from that id, and on the
/// connection nothing is under way.
pub proof fn law_dial_yields_proved_peer<E, C>(
    request: DialConnect<E>,
    connection: C,
    remote_id: EndpointId,
    derived: Option<PeerId>,
    reached: Result<(PeerId, Connection<C>), TransportError>,
)
    requires
        call_ensures(node_id_to_peerid, (&remote_id,), derived),
        call_ensures(
            DialConnect::<E>::connected::<C>,
            (&request, Ok((connection, remote_id))),
            reached,
        ),
    ensures
        reached is Ok <==> derived is Some,
        reached is Ok ==> reached->Ok_0.0@ == derived->0@,
        reached is Ok ==> reached->Ok_0.1.connection == connection,
        reached is Ok ==> reached->Ok_0.1.incoming is Empty,
        reached is Ok ==> reached->Ok_0.1.outgoing is Empty,
        reached is Ok ==> reached->Ok_0.1.closing is Empty,
        reached is Err ==> reached->Err_0@ == TransportFault::Dial(
            "Failed to convert EndpointId to peerid"@,
        ),
{
}

/// A request to dial fails where the address names no endpoint, and with what it is told where a
/// reply is an error.
pub proof fn law_dial_refused<P, E, C>(
    transport: Transport<P>,
    request: Dial,
    connect: DialConnect<E>,
    told: TransportError,
    text: String,
    nowhere: Result<Dial, TransportError>,
    unready: Result<DialConnect<E>, TransportError>,
    unreached: Result<(PeerId, Connection<C>), TransportError>,
    shown: String,
)
    requires
        call_ensures(Transport::<P>::dial, (&transport, None), nowhere),
        call_ensures(Dial::endpoint::<E>, (request, Err(told)), unready),
        call_ensures(DialConnect::<E>::connected::<C>, (&connect, Err(text)), unreached),
        call_ensures(TransportError::to_string, (&told,), shown),
    ensures
        nowhere is Err && nowhere->Err_0@ == TransportFault::Dial(
            "Failed to extract iroh EndpointId from multiaddr"@,
        ),
        unready is Err && unready->Err_0@ == TransportFault::Dial(
            "Failed to get endpoint from transport protocol: "@ + shown@,
        ),
        unreached is Err && unreached->Err_0@ == TransportFault::Dial(text@),
{
}

/// Every event of the channel is handed on as it is, and nothing else is.
pub proof fn law_events_handed_on<P, T>(
    transport: Transport<P>,
    polled: Poll<Option<T>>,
    r: Poll<T>,
)
    requires
        call_ensures(Transport::<P>::poll::<T>, (&transport, polled), r),
    ensures
        forall|event: T| r == Poll::Ready(event) <==> polled == Poll::Ready(Some(event)),
{
}

/// Going through a request with all replies known comes to what the steps come to: listening
/// succeeds exactly if every reply is in order, and dialling yields what the last step yields.
pub proof fn law_known_replies<P, E, C>(
    transport: Transport<P>,
    id: Listener,
    listener: Result<Option<Listener>, TransportError>,
    endpoint: Result<E, TransportError>,
    installed: Result<(), TransportError>,
    sent: Result<(), String>,
    listening: Result<(), TransportError>,
    node_id: EndpointId,
    from: E,
    connected: Result<(C, EndpointId), String>,
    connect: DialConnect<E>,
    reached: Result<(PeerId, Connection<C>), TransportError>,
    dialled: Result<(PeerId, Connection<C>), TransportError>,
)
    requires
        call_ensures(
            Transport::<P>::listen_with_replies::<E>,
            (&transport, id, listener, endpoint, installed, sent),
            listening,
        ),
        call_ensures(DialConnect::<E>::connected::<C>, (&connect, connected), reached),
        call_ensures(
            Transport::<P>::dial_with_replies::<E, C>,
            (&transport, Some(node_id), Ok(from), connected),
            dialled,
        ),
    ensures
        listening is Ok <==> listener is Ok && listener->Ok_0 is None && endpoint is Ok
            && installed is Ok && sent is Ok,
        dialled is Ok <==> reached is Ok,
        dialled is Ok ==> dialled->Ok_0.0@ == reached->Ok_0.0@,
        dialled is Ok ==> dialled->Ok_0.1 == reached->Ok_0.1,
        dialled is Err ==> dialled->Err_0@ == reached->Err_0@,
{
}

} // verus!
