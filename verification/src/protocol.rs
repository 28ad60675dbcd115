//! The protocol: the state that its actor keeps, and how it accepts connections.

use std::collections::VecDeque;

use vstd::prelude::*;

use crate::identity::{
    decodes_as_ed25519, ed25519_peer_id, node_id_to_peerid, EndpointId, Identity, PeerId,
};
use crate::transport::{
    dial_reached, fault_of, listen_free, listen_outcome, removes, text_of, Listener, TransportError,
    TransportFault,
};

verus! {

/// The protocol of a transport. `H` is a handle on the actor that keeps its state.
#[derive(Debug, Clone)]
pub struct Protocol<H> {
    pub api: H,
}

/// What the protocol's actor keeps: the endpoint `E`, the router `R` that was last spawned for it,
/// and the listener that incoming connections are reported for.
#[derive(Debug)]
pub struct ProtocolActor<E, R> {
    pub listener_id: Option<Listener>,
    pub endpoint: E,
    pub router: Option<R>,
}

impl<E, R> ProtocolActor<E, R> {
    /// The actor once it keeps a router and a listener.
    pub open spec fn with_listener(self, router: R, id: Listener) -> ProtocolActor<E, R> {
        ProtocolActor { listener_id: Some(id), endpoint: self.endpoint, router: Some(router) }
    }

    /// The actor once it has forgotten its listener. It keeps the router.
    pub open spec fn without_listener(self) -> ProtocolActor<E, R> {
        ProtocolActor { listener_id: None, endpoint: self.endpoint, router: self.router }
    }

    /// Keeps `router` and the listener `id`.
    pub fn install(&mut self, router: R, id: Listener)
        ensures
            *final(self) == old(self).with_listener(router, id),
    {
        self.router = Some(router);
        self.listener_id = Some(id);
    }

    /// Forgets the listener.
    pub fn forget_listener(&mut self)
        ensures
            *final(self) == old(self).without_listener(),
    {
        self.listener_id = None;
    }

    /// The actor once it has dealt with a request.
    pub open spec fn after<V>(self, request: ActorRequest<R, V>) -> ProtocolActor<E, R> {
        match request {
            ActorRequest::Install { router, id } => self.with_listener(router, id),
            ActorRequest::ForgetListener => self.without_listener(),
            _ => self,
        }
    }

    /// How the actor answers a request.
    pub open spec fn reply<V>(self, request: ActorRequest<R, V>) -> ActorReply<V> {
        match request {
            ActorRequest::Listener => ActorReply::Listener(self.listener_id),
            ActorRequest::Endpoint => ActorReply::Endpoint,
            ActorRequest::Install { .. } => ActorReply::Done,
            ActorRequest::ForgetListener => ActorReply::Done,
            ActorRequest::Send(event) => ActorReply::Send(event),
        }
    }

    /// The actor once it has dealt with some requests, one after the other.
    pub open spec fn after_all<V>(self, requests: Seq<ActorRequest<R, V>>) -> ProtocolActor<E, R> {
        requests.fold_left(
            self,
            |actor: ProtocolActor<E, R>, request: ActorRequest<R, V>| actor.after(request),
        )
    }

    /// How the actor answers some requests: each one in the state that the earlier ones left.
    pub open spec fn replies<V>(self, requests: Seq<ActorRequest<R, V>>) -> Seq<ActorReply<V>> {
        Seq::new(
            requests.len(),
            |i: int| self.after_all(requests.take(i)).reply(requests[i]),
        )
    }

    /// Deals with one request.
    pub fn handle<V>(&mut self, request: ActorRequest<R, V>) -> (r: ActorReply<V>)
        ensures
            *final(self) == old(self).after(request),
            r == old(self).reply(request),
    {
        match request {
            ActorRequest::Listener => ActorReply::Listener(self.listener_id),
            ActorRequest::Endpoint => ActorReply::Endpoint,
            ActorRequest::Install { router, id } => {
                self.install(router, id);
                ActorReply::Done
            },
            ActorRequest::ForgetListener => {
                self.forget_listener();
                ActorReply::Done
            },
            ActorRequest::Send(event) => ActorReply::Send(event),
        }
    }

    /// Deals with the requests that have arrived: with each one once, in the order of arrival.
    pub fn run<V>(&mut self, requests: &mut VecDeque<ActorRequest<R, V>>) -> (r: Vec<
        ActorReply<V>,
    >)
        ensures
            *final(self) == old(self).after_all(old(requests)@),
            final(requests)@ == Seq::<ActorRequest<R, V>>::empty(),
            r@ == old(self).replies(old(requests)@),
    {
        let mut replies: Vec<ActorReply<V>> = Vec::new();
        let ghost start = *self;
        let ghost all = requests@;
        let ghost done: int = 0;
        while requests.len() > 0
            invariant
                0 <= done <= all.len(),
                requests@ == all.skip(done),
                *self == start.after_all(all.take(done)),
                replies@ == start.replies(all).take(done),
            decreases requests@.len(),
        {
            if let Some(request) = requests.pop_front() {
                let reply = self.handle(request);
                replies.push(reply);
                proof {
                    assert(all.take(done + 1).drop_last() =~= all.take(done));
                    done = done + 1;
                    assert(requests@ =~= all.skip(done));
                    assert(replies@ =~= start.replies(all).take(done));
                }
            }
        }
        assert(all.take(done) =~= all);
        replies
    }
}

/// What the protocol's actor is asked. `R` is a router, and `V` an event of the transport.
#[derive(Debug)]
pub enum ActorRequest<R, V> {
    /// Which listener it keeps.
    Listener,
    /// Which endpoint it keeps.
    Endpoint,
    /// To keep a router and a listener.
    Install { router: R, id: Listener },
    /// To forget its listener.
    ForgetListener,
    /// To send an event to the channel of events.
    Send(V),
}

/// How the protocol's actor answers.
#[derive(Debug)]
pub enum ActorReply<V> {
    /// With its listener.
    Listener(Option<Listener>),
    /// With its endpoint, which is shared with whoever asked.
    Endpoint,
    /// With word that it is done.
    Done,
    /// With what comes of sending this event.
    Send(V),
}

/// What the loop that runs the actor does next.
#[derive(Debug)]
pub enum RunStep<A> {
    /// Apply this action, and receive the next one.
    Apply(A),
    /// End by a panic with this message.
    Panic(&'static str),
}

impl<A> RunStep<A> {
    /// What the loop does with the action that it received. There is none, and never will be, once
    /// everybody who could send one is gone.
    pub fn received(action: Option<A>) -> (r: RunStep<A>)
        ensures
            match action {
                Some(action) => r == RunStep::Apply(action),
                None => {
                    r matches RunStep::Panic(message) && message@
                        == "all branches are disabled and there is no else branch"@
                },
            },
    {
        match action {
            Some(action) => RunStep::Apply(action),
            None => RunStep::Panic("all branches are disabled and there is no else branch"),
        }
    }
}

impl<H> Protocol<H> {
    /// The protocol of `endpoint`, and the actor to run at the other end of `api`. At first there
    /// is no listener, and no router.
    pub fn new<E, R>(api: H, endpoint: E) -> (r: (Protocol<H>, ProtocolActor<E, R>))
        ensures
            r.0.api == api,
            r.1 == (ProtocolActor { listener_id: None, endpoint, router: None::<R> }),
    {
        (Protocol { api }, ProtocolActor { listener_id: None, endpoint, router: None })
    }

    /// Starts to accept a connection whose other end proved to have the endpoint id `remote_id`:
    /// ask the protocol's actor for the id of its own endpoint.
    pub fn accept(&self, remote_id: EndpointId) -> (r: Result<Accept, TransportError>)
        ensures
            match accept_peer(remote_id@) {
                Ok(peer_id) => {
                    r matches Ok(accept) && accept.peer_id@ == peer_id && accept.remote_id
                        == remote_id
                },
                Err(fault) => r matches Err(error) && error@ == fault,
            },
    {
        match node_id_to_peerid(&remote_id) {
            Some(peer_id) => Ok(Accept { peer_id, remote_id }),
            None => Err(TransportError::from("Failed to convert EndpointId to PeerId")),
        }
    }

    /// Accepts a connection, where all replies are known beforehand. A reply to what is not asked,
    /// because an earlier reply ended it, does not count.
    pub fn accept_with_replies(
        &self,
        remote_id: EndpointId,
        local_id: Result<EndpointId, TransportError>,
        listener: Result<Option<Listener>, TransportError>,
        sent: Result<Result<(), String>, TransportError>,
    ) -> (r: Result<(), TransportError>)
        ensures
            fault_of(r) == accept_outcome(
                remote_id@,
                fault_of(local_id),
                fault_of(listener),
                sending_of(sent),
            ),
    {
        match self.accept(remote_id) {
            Ok(accept) => match accept.local(local_id) {
                Ok(accept) => match accept.listener(listener) {
                    Ok(incoming) => incoming.sent(sent),
                    Err(error) => Err(error),
                },
                Err(error) => Err(error),
            },
            Err(error) => Err(error),
        }
    }
}

/// A connection from `peer_id`. The protocol's actor is asked for the id of its own endpoint.
#[derive(Debug)]
pub struct Accept {
    pub peer_id: PeerId,
    pub remote_id: EndpointId,
}

/// A connection from `peer_id` to `local_id`. The protocol's actor is asked for its listener.
#[derive(Debug)]
pub struct AcceptLocal {
    pub peer_id: PeerId,
    pub remote_id: EndpointId,
    pub local_id: EndpointId,
}

/// The event that a connection from `peer_id` came in on the listener `listener_id`, from the
/// address of `remote_id` to the address of `local_id`. The protocol's actor is asked to send it
/// to the channel of events.
#[derive(Debug)]
pub struct Incoming {
    pub listener_id: Listener,
    pub peer_id: PeerId,
    pub local_id: EndpointId,
    pub remote_id: EndpointId,
}

/// The peer that a connection comes from.
pub open spec fn accept_peer(remote_id: Seq<u8>) -> Result<Seq<u8>, TransportFault> {
    if decodes_as_ed25519(remote_id) {
        Ok(ed25519_peer_id(remote_id))
    } else {
        Err(TransportFault::Listen("Failed to convert EndpointId to PeerId"@))
    }
}

/// The listener that a connection is reported for, given the actor's answer to the question for
/// it.
pub open spec fn accept_listener(listener: Result<Option<Listener>, TransportFault>) -> Result<
    Listener,
    TransportFault,
> {
    match listener {
        Ok(Some(id)) => Ok(id),
        Ok(None) => Err(TransportFault::Listen("Listener ID should be set"@)),
        Err(fault) => Err(fault),
    }
}

/// What accepting a connection comes to, given the actor's answer to the request to send the
/// event.
pub open spec fn accept_sent(
    sent: Result<Result<(), Seq<char>>, TransportFault>,
) -> Result<(), TransportFault> {
    match sent {
        Ok(Ok(())) => Ok(()),
        Ok(Err(text)) => Err(TransportFault::Listen(text)),
        Err(fault) => Err(fault),
    }
}

/// The actor's answer to the request to send an event, with its errors taken by their views.
pub open spec fn sending_of(sent: Result<Result<(), String>, TransportError>) -> Result<
    Result<(), Seq<char>>,
    TransportFault,
> {
    match sent {
        Ok(inner) => Ok(text_of(inner)),
        Err(error) => Err(error@),
    }
}

/// What accepting a connection comes to, given what it would be told at each stage. A stage that
/// is not reached does not count.
pub open spec fn accept_outcome(
    remote_id: Seq<u8>,
    local_id: Result<EndpointId, TransportFault>,
    listener: Result<Option<Listener>, TransportFault>,
    sent: Result<Result<(), Seq<char>>, TransportFault>,
) -> Result<(), TransportFault> {
    match accept_peer(remote_id) {
        Err(fault) => Err(fault),
        Ok(_) => match local_id {
            Err(fault) => Err(fault),
            Ok(_) => match accept_listener(listener) {
                Err(fault) => Err(fault),
                Ok(_) => accept_sent(sent),
            },
        },
    }
}

impl Accept {
    /// Takes the id of the endpoint that was connected to.
    pub fn local(self, local_id: Result<EndpointId, TransportError>) -> (r: Result<
        AcceptLocal,
        TransportError,
    >)
        ensures
            r == (match local_id {
                Ok(local_id) => Ok(
                    AcceptLocal { peer_id: self.peer_id, remote_id: self.remote_id, local_id },
                ),
                Err(error) => Err(error),
            }),
    {
        match local_id {
            Ok(local_id) => Ok(
                AcceptLocal { peer_id: self.peer_id, remote_id: self.remote_id, local_id },
            ),
            Err(error) => Err(error),
        }
    }
}

impl AcceptLocal {
    /// Takes the listener. Without one, the connection is refused.
    pub fn listener(self, listener: Result<Option<Listener>, TransportError>) -> (r: Result<
        Incoming,
        TransportError,
    >)
        ensures
            match accept_listener(fault_of(listener)) {
                Ok(listener_id) => r == Ok::<_, TransportError>(
                    Incoming {
                        listener_id,
                        peer_id: self.peer_id,
                        local_id: self.local_id,
                        remote_id: self.remote_id,
                    },
                ),
                Err(fault) => r matches Err(error) && error@ == fault,
            },
    {
        match listener {
            Ok(Some(listener_id)) => Ok(
                Incoming {
                    listener_id,
                    peer_id: self.peer_id,
                    local_id: self.local_id,
                    remote_id: self.remote_id,
                },
            ),
            Ok(None) => Err(TransportError::from("Listener ID should be set")),
            Err(error) => Err(error),
        }
    }
}

impl Incoming {
    /// Takes word that the event was sent, which ends accepting the connection. The outer error is
    /// that the actor could not be asked, the inner one that sending failed.
    pub fn sent(&self, sent: Result<Result<(), String>, TransportError>) -> (r: Result<
        (),
        TransportError,
    >)
        ensures
            fault_of(r) == accept_sent(sending_of(sent)),
    {
        match sent {
            Ok(Ok(())) => Ok(()),
            Ok(Err(text)) => Err(TransportError::from(text.as_str())),
            Err(error) => Err(error),
        }
    }
}

/// A connection is accepted exactly if its other end's id is a public key, there is a listener,
/// and every party that is asked answers; the first thing that stands in the way decides how it
/// fails.
pub proof fn law_accept_succeeds(
    remote_id: Seq<u8>,
    local_id: Result<EndpointId, TransportFault>,
    listener: Result<Option<Listener>, TransportFault>,
    sent: Result<Result<(), Seq<char>>, TransportFault>,
)
    ensures
        ({
            let outcome = accept_outcome(remote_id, local_id, listener, sent);
            let known = decodes_as_ed25519(remote_id);
            let listens = listener matches Ok(Some(_));
            let delivered = sent matches Ok(Ok(_));
            &&& outcome is Ok <==> known && local_id is Ok && listens && delivered
            &&& !known ==> outcome == Err::<(), _>(accept_peer(remote_id)->Err_0)
            &&& known && local_id is Err ==> outcome == Err::<(), _>(local_id->Err_0)
            &&& known && local_id is Ok && !listens ==> outcome == Err::<(), _>(
                accept_listener(listener)->Err_0,
            )
            &&& known && local_id is Ok && listens ==> outcome == accept_sent(sent)
        }),
{
}

/// The actor deals with each request once, in the order of arrival: what it has dealt with so far
/// does not depend on what arrives later, each request finds the state that the earlier ones left,
/// and there is one answer for each. The endpoint stays the same throughout.
pub proof fn law_requests_in_order<E, R, V>(
    actor: ProtocolActor<E, R>,
    earlier: Seq<ActorRequest<R, V>>,
    request: ActorRequest<R, V>,
    later: Seq<ActorRequest<R, V>>,
)
    ensures
        ({
            let all = earlier.push(request) + later;
            let before = actor.after_all(earlier);
            &&& actor.after_all(all) == before.after(request).after_all(later)
            &&& actor.replies(all).len() == all.len()
            &&& actor.replies(all)[earlier.len() as int] == before.reply(request)
            &&& before.endpoint == actor.endpoint
        }),
{
    let all = earlier.push(request) + later;
    let step = |actor: ProtocolActor<E, R>, request: ActorRequest<R, V>| actor.after(request);
    let seen: int = earlier.len() + 1int;
    all.lemma_fold_left_split(actor, step, seen);
    assert(all.subrange(0, seen) =~= earlier.push(request));
    assert(all.subrange(seen, all.len() as int) =~= later);
    assert(earlier.push(request).drop_last() =~= earlier);
    assert(all.take(earlier.len() as int) =~= earlier);
    lemma_endpoint_kept(actor, earlier);
}

proof fn lemma_endpoint_kept<E, R, V>(
    actor: ProtocolActor<E, R>,
    requests: Seq<ActorRequest<R, V>>,
)
    ensures
        actor.after_all(requests).endpoint == actor.endpoint,
    decreases requests.len(),
{
    if requests.len() > 0 {
        lemma_endpoint_kept(actor, requests.drop_last());
    }
}

/// A transport listens at most once at a time. Where the actor has no listener, listening comes
/// down to the actor's and the channel's answers; once it keeps one, every further request is
/// refused, whoever makes it and whatever the later answers would be, and connections are reported
/// for that listener.
pub proof fn law_one_listener<E, R>(
    actor: ProtocolActor<E, R>,
    router: R,
    id: Listener,
    endpoint: Result<E, TransportFault>,
    installed: Result<(), TransportFault>,
    sent: Result<(), Seq<char>>,
)
    requires
        actor.listener_id is None,
    ensures
        listen_outcome(Ok(actor.listener_id), Ok(actor.endpoint), Ok(()), Ok(())) == Ok::<
            (),
            TransportFault,
        >(()),
        listen_outcome(Ok(actor.with_listener(router, id).listener_id), endpoint, installed, sent)
            == Err::<(), _>(
            TransportFault::Listen("Listener already exists for this transport"@),
        ),
        accept_listener(Ok(actor.with_listener(router, id).listener_id)) == Ok::<
            _,
            TransportFault,
        >(id),
{
}

/// Removing the listener undoes listening: it is removed under its own id only, connections are
/// then refused, and the transport can listen again, on the endpoint it had.
pub proof fn law_remove_listener<E, R>(
    actor: ProtocolActor<E, R>,
    router: R,
    id: Listener,
    other: Listener,
)
    ensures
        ({
            let listening = actor.with_listener(router, id);
            let removed = listening.without_listener();
            &&& removes(other, Ok(listening.listener_id)) <==> other == id
            &&& accept_listener(Ok(removed.listener_id)) == Err::<Listener, _>(
                TransportFault::Listen("Listener ID should be set"@),
            )
            &&& listen_free(Ok(removed.listener_id)) is Ok
            &&& !removes(other, Ok(removed.listener_id))
            &&& removed.endpoint == actor.endpoint
            &&& removed.router == Some(router)
        }),
{
}

/// Both ends of a connection agree on who the other is: the peer that a dialling transport reports
/// for an endpoint is the peer that an accepting transport reports for it.
pub proof fn law_ends_agree(remote_id: Seq<u8>)
    ensures
        accept_peer(remote_id) is Ok <==> dial_reached(Ok(remote_id)) is Ok,
        accept_peer(remote_id) matches Ok(peer_id) ==> dial_reached(Ok(remote_id)) == Ok::<
            _,
            TransportFault,
        >(peer_id),
{
}

/// The peer id that a transport gives itself is the one that others report for it, both those that
/// it dials and those that dial it.
pub proof fn law_known_by_own_peer_id(identity: Identity)
    requires
        identity.wf(),
    ensures
        accept_peer(identity.node_id@) == Ok::<_, TransportFault>(identity.peer_id@),
        dial_reached(Ok(identity.node_id@)) == Ok::<_, TransportFault>(identity.peer_id@),
{
}

/// A protocol starts without a listener and without a router, on the endpoint and behind the
/// handle that it was given.
pub proof fn law_protocol_starts_idle<H, E, R>(
    api: H,
    endpoint: E,
    r: (Protocol<H>, ProtocolActor<E, R>),
)
    requires
        call_ensures(Protocol::<H>::new::<E, R>, (api, endpoint), r),
    ensures
        r.0.api == api,
        r.1.endpoint == endpoint,
        r.1.listener_id is None,
        r.1.router is None,
{
}

/// Asking the actor for its listener, for its endpoint, or to send an event changes nothing; it
/// answers with the listener it keeps, and with the event it was given.
pub proof fn law_questions_change_nothing<E, R, V>(
    asked: &mut ProtocolActor<E, R>,
    shared: &mut ProtocolActor<E, R>,
    sender: &mut ProtocolActor<E, R>,
    event: V,
    listener: ActorReply<V>,
    endpoint: ActorReply<V>,
    sent: ActorReply<V>,
)
    requires
        call_ensures(
            ProtocolActor::<E, R>::handle::<V>,
            (asked, ActorRequest::Listener),
            listener,
        ),
        call_ensures(
            ProtocolActor::<E, R>::handle::<V>,
            (shared, ActorRequest::Endpoint),
            endpoint,
        ),
        call_ensures(
            ProtocolActor::<E, R>::handle::<V>,
            (sender, ActorRequest::Send(event)),
            sent,
        ),
    ensures
        *final(asked) == *old(asked),
        *final(shared) == *old(shared),
        *final(sender) == *old(sender),
        listener == ActorReply::<V>::Listener(old(asked).listener_id),
        endpoint is Endpoint,
        sent == ActorReply::Send(event),
{
}

/// Only an install sets the listener, to the id that it is given, along with the router; only a
/// request to forget it clears it, and leaves the router. Neither touches the endpoint.
pub proof fn law_install_and_forget<E, R, V>(
    installed: &mut ProtocolActor<E, R>,
    forgot: &mut ProtocolActor<E, R>,
    router: R,
    id: Listener,
    kept: ActorReply<V>,
    cleared: ActorReply<V>,
)
    requires
        call_ensures(
            ProtocolActor::<E, R>::handle::<V>,
            (installed, ActorRequest::Install { router, id }),
            kept,
        ),
        call_ensures(
            ProtocolActor::<E, R>::handle::<V>,
            (forgot, ActorRequest::ForgetListener),
            cleared,
        ),
    ensures
        final(installed).listener_id == Some(id),
        final(installed).router == Some(router),
        final(installed).endpoint == old(installed).endpoint,
        final(forgot).listener_id is None,
        final(forgot).router == old(forgot).router,
        final(forgot).endpoint == old(forgot).endpoint,
        kept is Done,
        cleared is Done,
{
}

/// Telling the actor directly does what the requests do.
pub proof fn law_install_and_forget_directly<E, R>(
    installed: &mut ProtocolActor<E, R>,
    forgot: &mut ProtocolActor<E, R>,
    router: R,
    id: Listener,
)
    requires
        call_ensures(ProtocolActor::<E, R>::install, (installed, router, id), ()),
        call_ensures(ProtocolActor::<E, R>::forget_listener, (forgot,), ()),
    ensures
        final(installed).listener_id == Some(id),
        final(installed).router == Some(router),
        final(installed).endpoint == old(installed).endpoint,
        final(forgot).listener_id is None,
        final(forgot).router == old(forgot).router,
        final(forgot).endpoint == old(forgot).endpoint,
{
}

/// Whether requests of a sequence, from one position up to another, leave the listener alone.
pub open spec fn leave_listener<R, V>(
    requests: Seq<ActorRequest<R, V>>,
    from: int,
    to: int,
) -> bool {
    forall|j: int|
        from <= j < to ==> !(#[trigger] requests[j] is Install) && !(requests[j] is ForgetListener)
}

/// What the actor says of its listener goes back to the last request that concerned it: the id of
/// the last install, or none after a request to forget it, or what was there at the start. So it is
/// of the answer to a question for it, and of what the actor keeps in the end.
pub proof fn law_listener_is_last_installed<E, R, V>(
    actor: &mut ProtocolActor<E, R>,
    requests: &mut VecDeque<ActorRequest<R, V>>,
    replies: Vec<ActorReply<V>>,
    last: int,
    at: int,
)
    requires
        call_ensures(ProtocolActor::<E, R>::run::<V>, (actor, requests), replies),
        -1 <= last < at <= old(requests)@.len(),
        at < old(requests)@.len() ==> old(requests)@[at] is Listener,
        leave_listener(old(requests)@, last + 1, at),
    ensures
        replies@.len() == old(requests)@.len(),
        final(requests)@.len() == 0,
        final(actor).endpoint == old(actor).endpoint,
        ({
            let all = old(requests)@;
            let said = if at < all.len() {
                replies@[at]
            } else {
                ActorReply::Listener(final(actor).listener_id)
            };
            &&& last >= 0 && all[last] is Install ==> said == ActorReply::<V>::Listener(
                Some(all[last]->id),
            )
            &&& last >= 0 && all[last] is ForgetListener ==> said == ActorReply::<V>::Listener(None)
            &&& leave_listener(all, 0, at) ==> said == ActorReply::<V>::Listener(
                old(actor).listener_id,
            )
        }),
{
    let all = old(requests)@;
    lemma_endpoint_kept(*old(actor), all);
    lemma_listener_left(*old(actor), all, last + 1, at);
    if leave_listener(all, 0, at) {
        lemma_listener_left(*old(actor), all, 0, at);
    }
    assert(all.take(all.len() as int) =~= all);
    assert(all.take(0) =~= Seq::empty());
    if last >= 0 {
        assert(all.take(last + 1).drop_last() =~= all.take(last));
    }
}

proof fn lemma_listener_left<E, R, V>(
    actor: ProtocolActor<E, R>,
    requests: Seq<ActorRequest<R, V>>,
    from: int,
    to: int,
)
    requires
        0 <= from <= to <= requests.len(),
        leave_listener(requests, from, to),
    ensures
        actor.after_all(requests.take(to)).listener_id == actor.after_all(
            requests.take(from),
        ).listener_id,
    decreases to - from,
{
    if from < to {
        lemma_listener_left(actor, requests, from, to - 1);
        assert(requests.take(to).drop_last() =~= requests.take(to - 1));
        assert(!(requests[to - 1] is Install) && !(requests[to - 1] is ForgetListener));
    }
}

/// Requests that are not questions for the listener are answered one by one, each in its place:
/// an event is handed back to be sent, once and as it is.
pub proof fn law_replies_in_place<E, R, V>(
    actor: &mut ProtocolActor<E, R>,
    requests: &mut VecDeque<ActorRequest<R, V>>,
    replies: Vec<ActorReply<V>>,
    at: int,
)
    requires
        call_ensures(ProtocolActor::<E, R>::run::<V>, (actor, requests), replies),
        0 <= at < old(requests)@.len(),
    ensures
        replies@.len() == old(requests)@.len(),
        old(requests)@[at] matches ActorRequest::Send(event) ==> replies@[at] == ActorReply::Send(
            event,
        ),
        old(requests)@[at] is Endpoint <==> replies@[at] is Endpoint,
        old(requests)@[at] is Listener <==> replies@[at] is Listener,
        old(requests)@[at] is Send <==> replies@[at] is Send,
        old(requests)@[at] is Install || old(requests)@[at] is ForgetListener <==> replies@[at] is
            Done,
{
}

/// A router stays until the next one is installed: in the end the actor keeps the router of the
/// last install, or the one it had.
pub proof fn law_router_is_last_installed<E, R, V>(
    actor: &mut ProtocolActor<E, R>,
    requests: &mut VecDeque<ActorRequest<R, V>>,
    replies: Vec<ActorReply<V>>,
    last: int,
)
    requires
        call_ensures(ProtocolActor::<E, R>::run::<V>, (actor, requests), replies),
        -1 <= last < old(requests)@.len(),
        forall|j: int|
            last < j < old(requests)@.len() ==> !(#[trigger] old(requests)@[j] is Install),
        last >= 0 ==> old(requests)@[last] is Install,
    ensures
        last >= 0 ==> final(actor).router == Some(old(requests)@[last]->router),
        last < 0 ==> final(actor).router == old(actor).router,
{
    let all = old(requests)@;
    lemma_router_left(*old(actor), all, last + 1, all.len() as int);
    assert(all.take(all.len() as int) =~= all);
    assert(all.take(0) =~= Seq::empty());
    if last >= 0 {
        assert(all.take(last + 1).drop_last() =~= all.take(last));
    }
}

proof fn lemma_router_left<E, R, V>(
    actor: ProtocolActor<E, R>,
    requests: Seq<ActorRequest<R, V>>,
    from: int,
    to: int,
)
    requires
        0 <= from <= to <= requests.len(),
        forall|j: int| from <= j < to ==> !(#[trigger] requests[j] is Install),
    ensures
        actor.after_all(requests.take(to)).router == actor.after_all(requests.take(from)).router,
    decreases to - from,
{
    if from < to {
        lemma_router_left(actor, requests, from, to - 1);
        assert(requests.take(to).drop_last() =~= requests.take(to - 1));
        assert(!(requests[to - 1] is Install));
    }
}

/// A connection that is accepted is reported as it is: from the peer that everybody derives from
/// the id of its other end, with that id and the id of this end, for the listener that is kept.
pub proof fn law_accept_carries_through<H>(
    protocol: Protocol<H>,
    remote_id: EndpointId,
    local_id: EndpointId,
    id: Listener,
    derived: Option<PeerId>,
    accept: Result<Accept, TransportError>,
    local: Result<AcceptLocal, TransportError>,
    event: Result<Incoming, TransportError>,
    done: Result<(), TransportError>,
)
    requires
        call_ensures(node_id_to_peerid, (&remote_id,), derived),
        call_ensures(Protocol::<H>::accept, (&protocol, remote_id), accept),
        accept is Ok ==> call_ensures(Accept::local, (accept->Ok_0, Ok(local_id)), local),
        local is Ok ==> call_ensures(AcceptLocal::listener, (local->Ok_0, Ok(Some(id))), event),
        event is Ok ==> call_ensures(Incoming::sent, (&event->Ok_0, Ok(Ok(()))), done),
    ensures
        accept is Ok <==> derived is Some,
        accept is Err ==> accept->Err_0@ == TransportFault::Listen(
            "Failed to convert EndpointId to PeerId"@,
        ),
        accept is Ok ==> local is Ok && event is Ok && done is Ok,
        accept is Ok ==> event->Ok_0.peer_id@ == derived->0@,
        accept is Ok ==> event->Ok_0.remote_id == remote_id,
        accept is Ok ==> event->Ok_0.local_id == local_id,
        accept is Ok ==> event->Ok_0.listener_id == id,
{
}

/// A connection is refused where no listener is kept, and with what is told where a reply is an
/// error.
pub proof fn law_accept_refused(
    accept: Accept,
    local: AcceptLocal,
    event: Incoming,
    told: TransportError,
    text: String,
    unheard: Result<AcceptLocal, TransportError>,
    unlistened: Result<Incoming, TransportError>,
    unasked: Result<Incoming, TransportError>,
    unsent: Result<(), TransportError>,
    undelivered: Result<(), TransportError>,
)
    requires
        call_ensures(Accept::local, (accept, Err(told)), unheard),
        call_ensures(AcceptLocal::listener, (local, Ok(None)), unlistened),
        call_ensures(AcceptLocal::listener, (local, Err(told)), unasked),
        call_ensures(Incoming::sent, (&event, Err(told)), unsent),
        call_ensures(Incoming::sent, (&event, Ok(Err(text))), undelivered),
    ensures
        unheard is Err && unheard->Err_0@ == told@,
        unlistened is Err && unlistened->Err_0@ == TransportFault::Listen(
            "Listener ID should be set"@,
        ),
        unasked is Err && unasked->Err_0@ == told@,
        unsent is Err && unsent->Err_0@ == told@,
        undelivered is Err && undelivered->Err_0@ == TransportFault::Listen(text@),
{
}

/// Accepting with all replies known succeeds exactly if the other end's id has a peer id and every
/// reply is in order.
pub proof fn law_accept_known_replies<H>(
    protocol: Protocol<H>,
    remote_id: EndpointId,
    local_id: Result<EndpointId, TransportError>,
    listener: Result<Option<Listener>, TransportError>,
    sent: Result<Result<(), String>, TransportError>,
    derived: Option<PeerId>,
    r: Result<(), TransportError>,
)
    requires
        call_ensures(node_id_to_peerid, (&remote_id,), derived),
        call_ensures(
            Protocol::<H>::accept_with_replies,
            (&protocol, remote_id, local_id, listener, sent),
            r,
        ),
    ensures
        r is Ok <==> derived is Some && local_id is Ok && listener is Ok && listener->Ok_0 is Some
            && sent is Ok && sent->Ok_0 is Ok,
{
}

/// The loop that runs the actor applies every action that it receives, and that action.
pub proof fn law_received_is_applied<A>(action: A, some: RunStep<A>, none: RunStep<A>)
    requires
        call_ensures(RunStep::<A>::received, (Some(action),), some),
        call_ensures(RunStep::<A>::received, (None,), none),
    ensures
        some == RunStep::Apply(action),
        none is Panic,
{
}

} // verus!
