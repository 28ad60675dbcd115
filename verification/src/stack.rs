//! The layers of the transport that is common to all connections.

use vstd::prelude::*;

use crate::bandwidth::{BandwidthSinks, Totals};

verus! {

/// What carries the bytes of a connection.
#[derive(Debug, Clone, Copy)]
pub enum Carrier {
    /// TCP, dialled by names that are resolved by DNS.
    Dns,
    /// TCP, dialled by IP addresses.
    Tcp,
    /// Memory of this process.
    Memory,
}

/// The base of the transport: WebSocket over a carrier, if at all, and what is used for addresses
/// that WebSocket does not take.
#[derive(Debug, Clone, Copy)]
pub struct BaseLayer {
    pub websocket_over: Option<Carrier>,
    pub otherwise: Carrier,
}

impl BaseLayer {
    /// Whether every connection stays within this process.
    pub open spec fn within_process(self) -> bool {
        self.websocket_over is None && self.otherwise is Memory
    }

    /// Whether secure WebSocket addresses can be dialled. For these, WebSocket has to resolve the
    /// names by itself.
    pub open spec fn takes_wss(self) -> bool {
        self.websocket_over == Some(Carrier::Dns)
    }
}

/// How the two sides of a connection agree on what it is upgraded to.
#[derive(Debug, Clone, Copy)]
pub enum UpgradeVersion {
    V1,
    /// Version 1, where the side that dials does not wait for an answer if it offers one protocol
    /// only.
    V1Lazy,
}

/// How the two sides of a connection prove who they are. The peer id that a connection yields is
/// the one that was proved. `K` is a keypair.
#[derive(Debug, Clone, Copy)]
pub enum Authentication<K> {
    /// The Noise protocol, in which this side proves to have `keypair`.
    Noise { keypair: K },
}

/// How many streams share a connection.
#[derive(Debug, Clone, Copy)]
pub enum Multiplexing {
    /// Yamux, in its default configuration.
    Yamux,
}

/// Who is told of the bytes that are transferred.
#[derive(Debug, Clone, Copy)]
pub enum Observer {
    /// A metrics registry.
    Metrics,
    /// The plan's sinks, through a
    /// [`CountingTransport`](crate::bandwidth::CountingTransport).
    Counting,
}

/// All layers of the transport, from the inside out.
pub struct TransportPlan<K> {
    pub base: BaseLayer,
    /// Whether TCP is used, and sends small packets without delay.
    pub tcp_nodelay: bool,
    pub upgrade: UpgradeVersion,
    pub authentication: Authentication<K>,
    pub multiplexing: Multiplexing,
    /// How long setting up a connection may take, in seconds. After that, it has failed.
    pub timeout_secs: u64,
    pub observers: [Observer; 2],
    /// Where the bytes of all connections are counted.
    pub bandwidth: BandwidthSinks,
}

/// What building a transport takes first.
pub enum BuildStep<K> {
    /// Set up DNS resolution over TCP, and go on with [`dns_set_up`] for the same keypair.
    SetUpDns { keypair: K, tcp_nodelay: bool },
    /// Assemble these layers.
    Assemble(TransportPlan<K>),
}

impl<K> TransportPlan<K> {
    /// Whether these are the layers over `base` for the owner of `keypair`: every connection is
    /// authenticated by Noise with that keypair, multiplexed by Yamux, set up within 20 seconds,
    /// and counted, and nothing has been counted so far.
    pub open spec fn is_over(self, base: BaseLayer, keypair: K) -> bool {
        &&& self.base == base
        &&& self.tcp_nodelay == !base.within_process()
        &&& self.upgrade == UpgradeVersion::V1Lazy
        &&& self.authentication == Authentication::Noise { keypair }
        &&& self.multiplexing == Multiplexing::Yamux
        &&& self.timeout_secs == 20
        &&& self.observers@ == seq![Observer::Metrics, Observer::Counting]
        &&& self.bandwidth@ == Totals::zero()
    }
}

/// The base where connections leave the process, depending on whether DNS resolution could be set
/// up.
pub open spec fn network_base(dns: bool) -> BaseLayer {
    if dns {
        BaseLayer { websocket_over: Some(Carrier::Dns), otherwise: Carrier::Dns }
    } else {
        BaseLayer { websocket_over: Some(Carrier::Tcp), otherwise: Carrier::Tcp }
    }
}

/// The base where connections stay within the process.
pub open spec fn memory_base() -> BaseLayer {
    BaseLayer { websocket_over: None, otherwise: Carrier::Memory }
}

/// Puts the layers that every connection has over a base.
fn plan_over<K>(keypair: K, base: BaseLayer, tcp_nodelay: bool) -> (r: TransportPlan<K>)
    requires
        tcp_nodelay == !base.within_process(),
    ensures
        r.is_over(base, keypair),
{
    TransportPlan {
        base,
        tcp_nodelay,
        upgrade: UpgradeVersion::V1Lazy,
        authentication: Authentication::Noise { keypair },
        multiplexing: Multiplexing::Yamux,
        timeout_secs: 20,
        observers: [Observer::Metrics, Observer::Counting],
        bandwidth: BandwidthSinks::default(),
    }
}

/// Builds the transport that serves as a common ground for all connections of the owner of
/// `keypair`.
///
/// If `memory_only` is true, then only communication within the same process is allowed. Only
/// addresses with the format `/memory/...` are allowed.
pub fn build_transport<K>(keypair: K, memory_only: bool) -> (r: BuildStep<K>)
    ensures
        match r {
            BuildStep::Assemble(plan) => memory_only && plan.is_over(memory_base(), keypair),
            BuildStep::SetUpDns { keypair: kept, tcp_nodelay } => {
                !memory_only && kept == keypair && tcp_nodelay
            },
        },
{
    if memory_only {
        let base = BaseLayer { websocket_over: None, otherwise: Carrier::Memory };
        BuildStep::Assemble(plan_over(keypair, base, false))
    } else {
        BuildStep::SetUpDns { keypair, tcp_nodelay: true }
    }
}

/// Takes whether DNS resolution could be set up. Without it, TCP is used by IP address.
pub fn dns_set_up<K>(keypair: K, dns: bool) -> (r: TransportPlan<K>)
    ensures
        r.is_over(network_base(dns), keypair),
{
    let carrier = if dns {
        Carrier::Dns
    } else {
        Carrier::Tcp
    };
    let base = BaseLayer { websocket_over: Some(carrier), otherwise: carrier };
    plan_over(keypair, base, true)
}

/// A transport that is built for memory only never leaves the process, and one that is not always
/// can; secure WebSocket works exactly with DNS.
pub proof fn law_base_layers(dns: bool)
    ensures
        memory_base().within_process(),
        !memory_base().takes_wss(),
        !network_base(dns).within_process(),
        network_base(dns).takes_wss() <==> dns,
{
}

/// Whatever the base, connections of the owner of a keypair are negotiated, authenticated,
/// multiplexed, timed and counted in the same way, and authenticated with that keypair.
pub proof fn law_same_layers_over_every_base<K>(
    a: TransportPlan<K>,
    b: TransportPlan<K>,
    base_a: BaseLayer,
    base_b: BaseLayer,
    keypair: K,
)
    requires
        a.is_over(base_a, keypair),
        b.is_over(base_b, keypair),
    ensures
        a.upgrade == b.upgrade,
        a.authentication == b.authentication,
        a.authentication == (Authentication::Noise { keypair }),
        a.multiplexing == b.multiplexing,
        a.timeout_secs == b.timeout_secs,
        a.observers@ == b.observers@,
        a.bandwidth@ == b.bandwidth@,
{
}

/// Where only memory is allowed, the transport is laid out at once, and memory is all there is in
/// its base; otherwise DNS is set up first, for the same keypair and over TCP without delay.
pub proof fn law_memory_only_has_no_network<K>(
    keypair: K,
    closed: BuildStep<K>,
    open: BuildStep<K>,
)
    requires
        call_ensures(build_transport::<K>, (keypair, true), closed),
        call_ensures(build_transport::<K>, (keypair, false), open),
    ensures
        closed matches BuildStep::Assemble(plan) && plan.base.websocket_over is None
            && plan.base.otherwise is Memory && !plan.tcp_nodelay,
        open matches BuildStep::SetUpDns { keypair: kept, tcp_nodelay } && kept == keypair
            && tcp_nodelay,
{
}

/// Where the network is allowed, WebSocket and all else run over one carrier: DNS where it could be
/// set up, and plain TCP where it could not. TCP sends without delay.
pub proof fn law_network_carrier<K>(
    keypair: K,
    with_dns: TransportPlan<K>,
    without_dns: TransportPlan<K>,
)
    requires
        call_ensures(dns_set_up::<K>, (keypair, true), with_dns),
        call_ensures(dns_set_up::<K>, (keypair, false), without_dns),
    ensures
        with_dns.base.websocket_over == Some(Carrier::Dns) && with_dns.base.otherwise is Dns,
        without_dns.base.websocket_over == Some(Carrier::Tcp) && without_dns.base.otherwise is Tcp,
        with_dns.tcp_nodelay && without_dns.tcp_nodelay,
{
}

/// Whatever a transport is built for, its connections are authenticated by Noise with the keypair
/// that was handed in, negotiated lazily, multiplexed by Yamux, given up after 20 seconds of
/// setting up, reported to the metrics and, around that, counted, from zero.
pub proof fn law_every_plan_has_these_layers<K>(
    keypair: K,
    dns: bool,
    network: TransportPlan<K>,
    step: BuildStep<K>,
    memory_only: bool,
    totals: (u64, u64),
    memory_totals: (u64, u64),
)
    requires
        call_ensures(dns_set_up::<K>, (keypair, dns), network),
        call_ensures(build_transport::<K>, (keypair, memory_only), step),
        call_ensures(BandwidthSinks::total_inbound, (&network.bandwidth,), totals.0),
        call_ensures(BandwidthSinks::total_outbound, (&network.bandwidth,), totals.1),
        step is Assemble ==> call_ensures(
            BandwidthSinks::total_inbound,
            (&step->Assemble_0.bandwidth,),
            memory_totals.0,
        ),
        step is Assemble ==> call_ensures(
            BandwidthSinks::total_outbound,
            (&step->Assemble_0.bandwidth,),
            memory_totals.1,
        ),
    ensures
        step is Assemble <==> memory_only,
        network.authentication == (Authentication::Noise { keypair }),
        network.upgrade is V1Lazy && network.multiplexing is Yamux && network.timeout_secs == 20,
        network.observers@[0] is Metrics && network.observers@[1] is Counting,
        totals == (0u64, 0u64),
        step matches BuildStep::Assemble(plan) ==> {
            &&& plan.authentication == Authentication::Noise { keypair }
            &&& plan.upgrade is V1Lazy && plan.multiplexing is Yamux && plan.timeout_secs == 20
            &&& plan.observers@[0] is Metrics && plan.observers@[1] is Counting
            &&& memory_totals == (0u64, 0u64)
        },
{
}

} // verus!
