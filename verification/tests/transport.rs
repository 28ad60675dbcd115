use iroh_transport::identity::Identity;
use iroh_transport::poll::Poll;
use iroh_transport::protocol::{ActorReply, ActorRequest, Incoming, RunStep};
use iroh_transport::transport::{alpn, InitAction, InitStage, ListenFree, ListenOn};
use iroh_transport::{Protocol, ProtocolActor, Transport, TransportError};

fn identity() -> Identity {
    Identity::from_secret_key([3; 32]).unwrap()
}

fn transport() -> Transport<&'static str> {
    Transport::new(identity(), Some(Ok("protocol"))).unwrap()
}

fn no_point() -> [u8; 32] {
    let mut bytes = [0u8; 32];
    bytes[0] = 2;
    bytes
}

fn actor_error() -> TransportError {
    TransportError::from_actor_message("actor is gone".to_string())
}

#[test]
fn transport_errors_print_their_kind() {
    assert_eq!(actor_error().to_string(), "TransportError: Listen(\"actor is gone\")");
    assert_eq!(
        TransportError::from("a \"b\"\n").to_string(),
        "TransportError: Listen(\"a \\\"b\\\"\\n\")"
    );
    let bind = futures::executor::block_on(
        iroh::Endpoint::builder(iroh::endpoint::presets::Empty).bind(),
    );
    let bind = bind.unwrap_err();
    let expected = format!("TransportError: Listen({:?})", bind.to_string());
    assert_eq!(TransportError::from(bind).to_string(), expected);
}

#[test]
fn a_transport_is_set_up() {
    let t = transport();
    let keys = identity();
    assert_eq!(t.protocol, "protocol");
    assert_eq!(t.secret_key, [3; 32]);
    assert_eq!(t.node_id, keys.node_id);
    assert_eq!(t.peer_id.as_bytes(), keys.peer_id.as_bytes());
    assert_eq!(t.timeout_secs, 300);
}

#[test]
fn setting_up_fails() {
    let lost = Transport::<()>::new(identity(), None).err().unwrap();
    assert_eq!(
        lost.to_string(),
        "TransportError: Listen(\"Failed to receive transport from initialization\")"
    );
    let failed = Transport::<()>::new(identity(), Some(Err(TransportError::from("no socket"))));
    assert_eq!(failed.err().unwrap().to_string(), "TransportError: Listen(\"no socket\")");
}

#[test]
fn binding_the_endpoint() {
    assert!(matches!(InitStage::Binding.next(true), InitAction::SendProtocol));
    assert!(matches!(InitStage::SendingProtocol.next(true), InitAction::Return));
    assert!(matches!(InitStage::SendingFailure.next(true), InitAction::Return));
    assert!(matches!(
        InitStage::SendingFailure.next(false),
        InitAction::Panic("fatal: failed to send error through channel")
    ));
}

#[test]
fn a_failure_to_bind_is_reported() {
    for stage in [InitStage::Binding, InitStage::SendingProtocol] {
        match stage.next(false) {
            InitAction::SendFailure(error) => {
                let failed = Transport::<()>::new(identity(), Some(Err(error))).err().unwrap();
                assert_eq!(
                    failed.to_string(),
                    "TransportError: Listen(\"Failed to initialize iroh endpoint\")"
                );
            }
            _ => panic!("no failure"),
        }
    }
}

#[test]
fn listening() {
    let t = transport();
    let id = libp2p::core::transport::ListenerId::next();
    let free = t.listen_on(id).listener(Ok(None)).unwrap();
    let ready = free.endpoint(Ok("endpoint")).unwrap();
    assert_eq!(ready.endpoint, "endpoint");
    assert_eq!(ready.id, id);
    let event = ready.installed(Ok(())).unwrap();
    assert_eq!(event.listener_id, id);
    assert_eq!(event.node_id, t.node_id);
    assert!(event.sent(Ok(())).is_ok());
}

#[test]
fn listening_fails() {
    let id = libp2p::core::transport::ListenerId::next();
    let request = ListenOn { id, node_id: [0; 32] };
    assert_eq!(
        request.listener(Err(actor_error())).unwrap_err().to_string(),
        "TransportError: Listen(\"actor is gone\")"
    );
    assert_eq!(
        request.listener(Ok(Some(libp2p::core::transport::ListenerId::next()))).unwrap_err().to_string(),
        "TransportError: Listen(\"Listener already exists for this transport\")"
    );
    let free = ListenFree { id, node_id: [0; 32] };
    let inner = actor_error().to_string();
    assert_eq!(
        free.endpoint::<()>(Err(actor_error())).unwrap_err().to_string(),
        format!(
            "TransportError: Listen({:?})",
            format!("Failed to get endpoint from transport protocol: {}", inner)
        )
    );
    let ready = free.endpoint(Ok(())).unwrap();
    assert_eq!(
        ready.installed(Err(actor_error())).unwrap_err().to_string(),
        format!("TransportError: Listen({:?})", format!("Failed to set router: {}", inner))
    );
    let event = ready.installed(Ok(())).unwrap();
    assert_eq!(
        event.sent(Err("channel closed".to_string())).unwrap_err().to_string(),
        "TransportError: Listen(\"Failed to send NewAddress event: channel closed\")"
    );
}

#[test]
fn the_first_obstacle_to_listening_decides() {
    let t = transport();
    let id = libp2p::core::transport::ListenerId::next();
    assert!(t.listen_with_replies(id, Ok(None), Ok(()), Ok(()), Ok(())).is_ok());
    let taken = t.listen_with_replies::<()>(
        id,
        Ok(Some(id)),
        Err(actor_error()),
        Err(actor_error()),
        Err("channel closed".to_string()),
    );
    assert_eq!(
        taken.unwrap_err().to_string(),
        "TransportError: Listen(\"Listener already exists for this transport\")"
    );
    let unheard =
        t.listen_with_replies(id, Ok(None), Ok(()), Ok(()), Err("channel closed".to_string()));
    assert_eq!(
        unheard.unwrap_err().to_string(),
        "TransportError: Listen(\"Failed to send NewAddress event: channel closed\")"
    );
}

#[test]
fn one_listener_at_a_time() {
    let t = transport();
    let (protocol, mut actor): (Protocol<&str>, ProtocolActor<&str, &str>) =
        Protocol::new("api", "endpoint");
    assert_eq!(protocol.api, "api");
    assert!(actor.listener_id.is_none());
    assert!(actor.router.is_none());
    let id = libp2p::core::transport::ListenerId::next();
    let other = libp2p::core::transport::ListenerId::next();
    assert!(t.listen_on(id).listener(Ok(actor.listener_id)).is_ok());
    actor.install("router", id);
    assert_eq!(actor.listener_id, Some(id));
    assert_eq!(actor.router, Some("router"));
    assert!(t.listen_on(other).listener(Ok(actor.listener_id)).is_err());
    assert!(!t.remove_listener(other, Ok(actor.listener_id)));
    assert!(t.remove_listener(id, Ok(actor.listener_id)));
    actor.forget_listener();
    assert_eq!(actor.listener_id, None);
    assert_eq!(actor.router, Some("router"));
    assert_eq!(actor.endpoint, "endpoint");
    assert!(!t.remove_listener(id, Ok(actor.listener_id)));
    assert!(!t.remove_listener(id, Err(actor_error())));
    assert!(t.listen_on(other).listener(Ok(actor.listener_id)).is_ok());
}

#[test]
fn dialling() {
    let t = transport();
    let remote = Identity::from_secret_key([4; 32]).unwrap();
    let connect = t.dial(Some(remote.node_id)).unwrap().endpoint(Ok("endpoint")).unwrap();
    assert_eq!(connect.node_id, remote.node_id);
    assert_eq!(connect.endpoint, "endpoint");
    let (peer_id, connection) = connect.connected(Ok(("c", remote.node_id))).unwrap();
    assert_eq!(peer_id.as_bytes(), remote.peer_id.as_bytes());
    assert_eq!(connection.connection, "c");
}

#[test]
fn dialling_fails() {
    let t = transport();
    assert_eq!(
        t.dial(None).unwrap_err().to_string(),
        "TransportError: Dial(\"Failed to extract iroh EndpointId from multiaddr\")"
    );
    let dial = t.dial(Some([5; 32])).unwrap();
    assert_eq!(
        dial.endpoint::<()>(Err(actor_error())).unwrap_err().to_string(),
        format!(
            "TransportError: Dial({:?})",
            format!(
                "Failed to get endpoint from transport protocol: {}",
                actor_error().to_string()
            )
        )
    );
    let connect = dial.endpoint(Ok(())).unwrap();
    assert_eq!(
        connect.connected::<()>(Err("timed out".to_string())).unwrap_err().to_string(),
        "TransportError: Dial(\"timed out\")"
    );
    assert_eq!(
        connect.connected(Ok(((), no_point()))).unwrap_err().to_string(),
        "TransportError: Dial(\"Failed to convert EndpointId to peerid\")"
    );
}

#[test]
fn polling_for_events() {
    let t = transport();
    assert!(matches!(t.poll(Poll::Ready(Some(4))), Poll::Ready(4)));
    assert!(matches!(t.poll::<u8>(Poll::Ready(None)), Poll::Pending));
    assert!(matches!(t.poll::<u8>(Poll::Pending), Poll::Pending));
}

#[test]
fn accepting() {
    let (protocol, _): (Protocol<()>, ProtocolActor<(), ()>) = Protocol::new((), ());
    let remote = Identity::from_secret_key([4; 32]).unwrap();
    let local = identity();
    let id = libp2p::core::transport::ListenerId::next();
    let event = protocol
        .accept(remote.node_id)
        .unwrap()
        .local(Ok(local.node_id))
        .unwrap()
        .listener(Ok(Some(id)))
        .unwrap();
    assert_eq!(event.listener_id, id);
    assert_eq!(event.peer_id.as_bytes(), remote.peer_id.as_bytes());
    assert_eq!(event.local_id, local.node_id);
    assert_eq!(event.remote_id, remote.node_id);
    assert!(event.sent(Ok(Ok(()))).is_ok());
}

#[test]
fn accepting_fails() {
    let (protocol, _): (Protocol<()>, ProtocolActor<(), ()>) = Protocol::new((), ());
    assert_eq!(
        protocol.accept(no_point()).unwrap_err().to_string(),
        "TransportError: Listen(\"Failed to convert EndpointId to PeerId\")"
    );
    let remote = identity().node_id;
    assert_eq!(
        protocol.accept(remote).unwrap().local(Err(actor_error())).unwrap_err().to_string(),
        "TransportError: Listen(\"actor is gone\")"
    );
    let local = protocol.accept(remote).unwrap().local(Ok(remote)).unwrap();
    assert_eq!(
        local.listener(Err(actor_error())).unwrap_err().to_string(),
        "TransportError: Listen(\"actor is gone\")"
    );
    let local = protocol.accept(remote).unwrap().local(Ok(remote)).unwrap();
    assert_eq!(
        local.listener(Ok(None)).unwrap_err().to_string(),
        "TransportError: Listen(\"Listener ID should be set\")"
    );
    let event = Incoming {
        listener_id: libp2p::core::transport::ListenerId::next(),
        peer_id: identity().peer_id,
        local_id: remote,
        remote_id: remote,
    };
    assert_eq!(
        event.sent(Err(actor_error())).unwrap_err().to_string(),
        "TransportError: Listen(\"actor is gone\")"
    );
    assert_eq!(
        event.sent(Ok(Err("channel closed".to_string()))).unwrap_err().to_string(),
        "TransportError: Listen(\"channel closed\")"
    );
}

#[test]
fn the_first_obstacle_to_accepting_decides() {
    let (protocol, _): (Protocol<()>, ProtocolActor<(), ()>) = Protocol::new((), ());
    let id = libp2p::core::transport::ListenerId::next();
    let remote = identity().node_id;
    assert!(protocol
        .accept_with_replies(remote, Ok([9; 32]), Ok(Some(id)), Ok(Ok(())))
        .is_ok());
    let unknown =
        protocol.accept_with_replies(no_point(), Err(actor_error()), Ok(None), Ok(Ok(())));
    assert_eq!(
        unknown.unwrap_err().to_string(),
        "TransportError: Listen(\"Failed to convert EndpointId to PeerId\")"
    );
    let unheard = protocol.accept_with_replies(
        remote,
        Ok([9; 32]),
        Ok(None),
        Ok(Err("channel closed".to_string())),
    );
    assert_eq!(
        unheard.unwrap_err().to_string(),
        "TransportError: Listen(\"Listener ID should be set\")"
    );
}

#[test]
fn the_first_obstacle_to_dialling_decides() {
    let t = transport();
    let remote = Identity::from_secret_key([4; 32]).unwrap();
    let (peer_id, connection) = t
        .dial_with_replies(Some(remote.node_id), Ok(()), Ok(("c", remote.node_id)))
        .unwrap();
    assert_eq!(peer_id.as_bytes(), remote.peer_id.as_bytes());
    assert_eq!(connection.connection, "c");
    let nowhere =
        t.dial_with_replies::<(), ()>(None, Err(actor_error()), Err("timed out".to_string()));
    assert_eq!(
        nowhere.unwrap_err().to_string(),
        "TransportError: Dial(\"Failed to extract iroh EndpointId from multiaddr\")"
    );
    let lost = t.dial_with_replies::<(), ()>(Some([5; 32]), Ok(()), Err("timed out".to_string()));
    assert_eq!(lost.unwrap_err().to_string(), "TransportError: Dial(\"timed out\")");
}

#[test]
fn the_actor_takes_requests_in_order() {
    let (_, mut actor): (Protocol<()>, ProtocolActor<&str, &str>) = Protocol::new((), "endpoint");
    let a = libp2p::core::transport::ListenerId::next();
    let b = libp2p::core::transport::ListenerId::next();
    let mut requests = std::collections::VecDeque::from(vec![
        ActorRequest::Listener,
        ActorRequest::Install { router: "first", id: a },
        ActorRequest::Listener,
        ActorRequest::Endpoint,
        ActorRequest::Install { router: "second", id: b },
        ActorRequest::Send("event"),
        ActorRequest::Listener,
        ActorRequest::ForgetListener,
        ActorRequest::Listener,
    ]);
    let replies = actor.run(&mut requests);
    assert!(requests.is_empty());
    assert_eq!(replies.len(), 9);
    assert!(matches!(replies[0], ActorReply::Listener(None)));
    assert!(matches!(replies[1], ActorReply::Done));
    assert!(matches!(replies[2], ActorReply::Listener(Some(id)) if id == a));
    assert!(matches!(replies[3], ActorReply::Endpoint));
    assert!(matches!(replies[4], ActorReply::Done));
    assert!(matches!(replies[5], ActorReply::Send("event")));
    assert!(matches!(replies[6], ActorReply::Listener(Some(id)) if id == b));
    assert!(matches!(replies[7], ActorReply::Done));
    assert!(matches!(replies[8], ActorReply::Listener(None)));
    assert_eq!(actor.router, Some("second"));
    assert_eq!(actor.endpoint, "endpoint");
}

#[test]
fn the_actor_loop_applies_what_it_receives() {
    assert!(matches!(RunStep::received(Some(3)), RunStep::Apply(3)));
    assert!(matches!(
        RunStep::<u8>::received(None),
        RunStep::Panic("all branches are disabled and there is no else branch")
    ));
}

#[test]
fn protocol_name() {
    assert_eq!(alpn(), "/iroh/libp2p-transport/0.1.0");
}
