use std::sync::{Arc, Mutex};

use iroh_transport::bandwidth::{Transfer, TransportEvent};
use iroh_transport::poll::Poll;
use iroh_transport::stack::{
    dns_set_up, Authentication, BuildStep, Carrier, Multiplexing, Observer, TransportPlan,
    UpgradeVersion,
};
use iroh_transport::{
    build_transport, BandwidthSinks, CountingMuxer, CountingStream, CountingTransport,
};

#[test]
fn totals_start_at_zero() {
    let sinks = BandwidthSinks::default();
    assert_eq!(sinks.total_inbound(), 0);
    assert_eq!(sinks.total_outbound(), 0);
}

#[test]
fn reads_and_writes_are_counted_apart() {
    let sinks = Arc::new(Mutex::new(BandwidthSinks::default()));
    let stream = CountingStream::new("s", Arc::clone(&sinks));
    let (reply, read) = stream.poll_read::<()>(Poll::Ready(Ok(5)));
    assert!(matches!(reply, Poll::Ready(Ok(5))));
    let (reply, written) = stream.poll_write::<()>(Poll::Ready(Ok(7)));
    assert!(matches!(reply, Poll::Ready(Ok(7))));
    let (_, again) = stream.poll_read::<()>(Poll::Ready(Ok(10)));
    for count in [read, written, again] {
        let count = count.unwrap();
        assert!(Arc::ptr_eq(&count.bandwidth, &sinks));
        count.bandwidth.lock().unwrap().record(count.transfer);
    }
    assert_eq!(sinks.lock().unwrap().total_inbound(), 15);
    assert_eq!(sinks.lock().unwrap().total_outbound(), 7);
}

#[test]
fn waits_and_errors_are_not_counted() {
    let stream = CountingStream::new("s", Arc::new(()));
    let (reply, count) = stream.poll_read::<()>(Poll::Pending);
    assert!(matches!(reply, Poll::Pending));
    assert!(count.is_none());
    let (reply, count) = stream.poll_write(Poll::Ready(Err("reset")));
    assert!(matches!(reply, Poll::Ready(Err("reset"))));
    assert!(count.is_none());
}

#[test]
fn totals_wrap_around() {
    let mut sinks = BandwidthSinks::default();
    sinks.record(Transfer::Inbound(usize::MAX));
    sinks.record(Transfer::Inbound(3));
    assert_eq!(sinks.total_inbound(), (usize::MAX as u64).wrapping_add(3));
    sinks.record(Transfer::Outbound(4));
    assert_eq!(sinks.total_outbound(), 4);
}

#[test]
fn totals_do_not_depend_on_order() {
    let mut a = BandwidthSinks::default();
    let mut b = BandwidthSinks::default();
    for bytes in [1usize, usize::MAX, 40] {
        a.record(Transfer::Inbound(bytes));
    }
    for bytes in [40usize, 1, usize::MAX] {
        b.record(Transfer::Inbound(bytes));
    }
    assert_eq!(a.total_inbound(), b.total_inbound());
}

#[test]
fn all_connections_share_the_sinks() {
    let sinks = Arc::new(Mutex::new(BandwidthSinks::default()));
    let transport = CountingTransport::new("t", Arc::clone(&sinks));
    let dialled = transport.dial::<&str, ()>(Ok("dial")).unwrap();
    assert_eq!(dialled.upgrade, "dial");
    let (peer, muxer) = dialled.complete(("peer", "muxer"));
    assert_eq!(peer, "peer");
    assert_eq!(muxer.inner, "muxer");
    assert!(Arc::ptr_eq(&muxer.bandwidth, &sinks));
    for polled in [
        muxer.poll_inbound::<&str, ()>(Poll::Ready(Ok("s"))),
        muxer.poll_outbound::<&str, ()>(Poll::Ready(Ok("s"))),
    ] {
        match polled {
            Poll::Ready(Ok(stream)) => {
                assert_eq!(stream.inner, "s");
                assert!(Arc::ptr_eq(&stream.bandwidth, &sinks));
                let count = stream.poll_read::<()>(Poll::Ready(Ok(2))).1.unwrap();
                count.bandwidth.lock().unwrap().record(count.transfer);
            }
            _ => panic!("no stream"),
        }
    }
    assert_eq!(sinks.lock().unwrap().total_inbound(), 4);
}

#[test]
fn failures_pass_through_the_counting_layers() {
    let transport = CountingTransport::new("t", Arc::new(()));
    assert_eq!(transport.dial::<(), &str>(Err("refused")).unwrap_err(), "refused");
    let muxer = CountingMuxer::new("m", Arc::new(()));
    assert!(matches!(
        muxer.poll_inbound::<(), &str>(Poll::Ready(Err("lost"))),
        Poll::Ready(Err("lost"))
    ));
    assert!(matches!(
        muxer.poll_outbound::<(), &str>(Poll::Ready(Err("lost"))),
        Poll::Ready(Err("lost"))
    ));
    assert!(matches!(muxer.poll_inbound::<(), &str>(Poll::Pending), Poll::Pending));
    assert!(matches!(muxer.poll_outbound::<(), &str>(Poll::Pending), Poll::Pending));
}

#[test]
fn incoming_connections_are_counted() {
    let sinks = Arc::new(());
    let transport = CountingTransport::new("t", Arc::clone(&sinks));
    let id = libp2p::core::transport::ListenerId::next();
    let event: TransportEvent<&str, &str, ()> = TransportEvent::Incoming {
        listener_id: id,
        upgrade: "upgrade",
        local_addr: "/local",
        send_back_addr: "/remote",
    };
    match transport.poll(Poll::Ready(event)) {
        Poll::Ready(TransportEvent::Incoming {
            listener_id,
            upgrade,
            local_addr,
            send_back_addr,
        }) => {
            assert_eq!(listener_id, id);
            assert_eq!(upgrade.upgrade, "upgrade");
            assert!(Arc::ptr_eq(&upgrade.bandwidth, &sinks));
            assert_eq!(local_addr, "/local");
            assert_eq!(send_back_addr, "/remote");
        }
        _ => panic!("no connection"),
    }
}

#[test]
fn other_events_stay_as_they_are() {
    let transport = CountingTransport::new("t", Arc::new(()));
    let id = libp2p::core::transport::ListenerId::next();
    assert!(matches!(transport.poll::<(), (), ()>(Poll::Pending), Poll::Pending));
    match transport.poll::<(), &str, ()>(Poll::Ready(TransportEvent::NewAddress {
        listener_id: id,
        listen_addr: "/a",
    })) {
        Poll::Ready(TransportEvent::NewAddress { listener_id, listen_addr }) => {
            assert_eq!((listener_id, listen_addr), (id, "/a"))
        }
        _ => panic!("another event"),
    }
    match transport.poll::<(), &str, ()>(Poll::Ready(TransportEvent::AddressExpired {
        listener_id: id,
        listen_addr: "/a",
    })) {
        Poll::Ready(TransportEvent::AddressExpired { listener_id, listen_addr }) => {
            assert_eq!((listener_id, listen_addr), (id, "/a"))
        }
        _ => panic!("another event"),
    }
    match transport.poll::<(), (), &str>(Poll::Ready(TransportEvent::ListenerClosed {
        listener_id: id,
        reason: Err("gone"),
    })) {
        Poll::Ready(TransportEvent::ListenerClosed { listener_id, reason }) => {
            assert_eq!((listener_id, reason), (id, Err("gone")))
        }
        _ => panic!("another event"),
    }
    match transport.poll::<(), (), &str>(Poll::Ready(TransportEvent::ListenerError {
        listener_id: id,
        error: "odd",
    })) {
        Poll::Ready(TransportEvent::ListenerError { listener_id, error }) => {
            assert_eq!((listener_id, error), (id, "odd"))
        }
        _ => panic!("another event"),
    }
}

#[test]
fn memory_only_stays_within_the_process() {
    match build_transport("keys", true) {
        BuildStep::Assemble(plan) => {
            assert!(plan.base.websocket_over.is_none());
            assert!(matches!(plan.base.otherwise, Carrier::Memory));
            assert!(!plan.tcp_nodelay);
            assert_common_layers(&plan);
        }
        BuildStep::SetUpDns { .. } => panic!("leaves the process"),
    }
}

#[test]
fn without_dns_tcp_is_used() {
    match build_transport("keys", false) {
        BuildStep::SetUpDns { keypair, tcp_nodelay } => {
            assert_eq!(keypair, "keys");
            assert!(tcp_nodelay);
        }
        BuildStep::Assemble(_) => panic!("stays within the process"),
    }
    let with = dns_set_up("keys", true);
    assert!(matches!(with.base.websocket_over, Some(Carrier::Dns)));
    assert!(matches!(with.base.otherwise, Carrier::Dns));
    assert!(with.tcp_nodelay);
    let without = dns_set_up("keys", false);
    assert!(matches!(without.base.websocket_over, Some(Carrier::Tcp)));
    assert!(matches!(without.base.otherwise, Carrier::Tcp));
    assert!(without.tcp_nodelay);
}

fn assert_common_layers(plan: &TransportPlan<&str>) {
    assert!(matches!(plan.upgrade, UpgradeVersion::V1Lazy));
    assert!(matches!(plan.authentication, Authentication::Noise { keypair: "keys" }));
    assert!(matches!(plan.multiplexing, Multiplexing::Yamux));
    assert_eq!(plan.timeout_secs, 20);
    assert!(matches!(plan.observers, [Observer::Metrics, Observer::Counting]));
    assert_eq!(plan.bandwidth.total_inbound(), 0);
    assert_eq!(plan.bandwidth.total_outbound(), 0);
}

#[test]
fn every_base_gets_the_same_layers() {
    assert_common_layers(&dns_set_up("keys", true));
    assert_common_layers(&dns_set_up("keys", false));
}
