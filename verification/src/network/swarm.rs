//! The decisions of the relayed peer-to-peer swarm: where the relay is, when
//! relay discovery is done, and what swarm events tell the user interface.
//!
//! Peer ids and addresses are carried as their byte encodings.

use vstd::prelude::*;

verus! {

/// Why the swarm could not be set up.
#[derive(Debug, Clone, PartialEq, Eq)]
pub enum Error {
    KeyDecoding,
    MissingRelayAddress,
    FaultyRelayAddress,
    NotRelayedNode,
    AddressNotRelayed,
    TransportError(String),
    DialError(String),
    TimedOut,
}

/// The byte encoding of the address that a text denotes, if it denotes one.
pub uninterp spec fn multiaddr_from_text(text: Seq<char>) -> Option<Seq<u8>>;

/// `Multiaddr::try_from(&str)`, then `Multiaddr::to_vec`: the encoding of
/// the address that the text denotes, `None` when it denotes none.
#[verifier::external_body]
fn parse_multiaddr(text: &str) -> (r: Option<Vec<u8>>)
    ensures
        r is None ==> multiaddr_from_text(text@) is None,
        r is Some ==> multiaddr_from_text(text@) == Some(r.unwrap()@),
{
    libp2p::Multiaddr::try_from(text).ok().map(|a| a.to_vec())
}

/// The relay's address from the configuration: a missing address is
/// reported as missing, a text that is no address as faulty.
pub fn relay_address(configured: &Option<String>) -> (r: Result<Vec<u8>, Error>)
    ensures
        configured is None ==> r == Err::<Vec<u8>, Error>(Error::MissingRelayAddress),
        configured matches Some(text) ==> match multiaddr_from_text(text@) {
            Some(bytes) => r is Ok && r.unwrap()@ == bytes,
            None => r == Err::<Vec<u8>, Error>(Error::FaultyRelayAddress),
        },
{
    match configured {
        Some(text) => match parse_multiaddr(text.as_str()) {
            Some(bytes) => Ok(bytes),
            None => Err(Error::FaultyRelayAddress),
        },
        None => Err(Error::MissingRelayAddress),
    }
}

/// The byte encoding of an address with one protocol appended: a relay
/// circuit when `peer` is `None`, the peer with the encoded id when it is
/// `Some`; `None` when the bytes are no address or no peer id.
pub uninterp spec fn multiaddr_with(address: Seq<u8>, peer: Option<Seq<u8>>) -> Option<Seq<u8>>;

/// `Multiaddr::try_from(Vec<u8>)`, `PeerId::from_bytes` for a peer, then
/// `Multiaddr::with` (`Protocol::P2pCircuit`, or `Protocol::P2p` of the
/// peer) and `Multiaddr::to_vec`: the address with the protocol appended.
/// The source appends the protocol's encoding to the address's bytes, so
/// the result starts with the address.
#[verifier::external_body]
fn address_with(address: &Vec<u8>, peer: &Option<Vec<u8>>) -> (r: Option<Vec<u8>>)
    ensures
        r is None ==> multiaddr_with(address@, peer.deep_view()) is None,
        r is Some ==> multiaddr_with(address@, peer.deep_view()) == Some(r.unwrap()@),
        r is Some ==> r.unwrap()@.len() > address@.len() && r.unwrap()@.subrange(0, address@.len() as int) == address@,
{
    let address = libp2p::Multiaddr::try_from(address.clone()).ok()?;
    let protocol = match peer {
        Some(peer) => libp2p::multiaddr::Protocol::P2p(libp2p::PeerId::from_bytes(peer).ok()?),
        None => libp2p::multiaddr::Protocol::P2pCircuit,
    };
    Some(address.with(protocol).to_vec())
}

/// The address reached through the relay's circuit.
pub open spec fn circuit_address(relay: Seq<u8>) -> Option<Seq<u8>> {
    multiaddr_with(relay, None)
}

/// The address of a peer reached through the relay's circuit.
pub open spec fn relayed_peer_address(relay: Seq<u8>, peer: Seq<u8>) -> Option<Seq<u8>> {
    match circuit_address(relay) {
        Some(circuit) => multiaddr_with(circuit, Some(peer)),
        None => None,
    }
}

/// The relayed addresses of the peers that have one, in the peers' order.
pub open spec fn dial_addresses_spec(relay: Seq<u8>, peers: Seq<Seq<u8>>) -> Seq<Seq<u8>>
    decreases peers.len(),
{
    if peers.len() == 0 {
        Seq::empty()
    } else {
        let before = dial_addresses_spec(relay, peers.drop_last());
        match relayed_peer_address(relay, peers.last()) {
            Some(address) => before.push(address),
            None => before,
        }
    }
}

/// Whether a peer's relayed address can be formed.
pub open spec fn has_relayed_address(relay: Seq<u8>) -> spec_fn(Seq<u8>) -> bool {
    |p: Seq<u8>| relayed_peer_address(relay, p) is Some
}

/// Every configured peer is dialed: the dialed addresses are, in the
/// peers' order, the relayed address of each peer that has one, one per
/// peer.
pub proof fn lemma_every_peer_dialed(relay: Seq<u8>, peers: Seq<Seq<u8>>)
    ensures
        dial_addresses_spec(relay, peers) == peers.filter(has_relayed_address(relay)).map_values(
            |p: Seq<u8>| relayed_peer_address(relay, p).unwrap(),
        ),
        forall|i: int|
            0 <= i < peers.len() && relayed_peer_address(relay, #[trigger] peers[i]) is Some
                ==> dial_addresses_spec(relay, peers).contains(relayed_peer_address(relay, peers[i]).unwrap()),
    decreases peers.len(),
{
    let f = |p: Seq<u8>| relayed_peer_address(relay, p).unwrap();
    let keep = has_relayed_address(relay);
    if peers.len() > 0 {
        let init = peers.drop_last();
        lemma_every_peer_dialed(relay, init);
        let fi = init.filter(keep);
        init.lemma_filter_push(peers.last(), keep);
        assert(init.push(peers.last()) == peers);
        if keep(peers.last()) {
            assert(fi.push(peers.last()).map_values(f) =~= fi.map_values(f).push(f(peers.last())));
        }
        assert forall|i: int|
            0 <= i < peers.len() && relayed_peer_address(relay, #[trigger] peers[i]) is Some
                implies dial_addresses_spec(relay, peers).contains(relayed_peer_address(relay, peers[i]).unwrap()) by {
            let before = dial_addresses_spec(relay, init);
            let a = relayed_peer_address(relay, peers[i]).unwrap();
            if i < peers.len() - 1 {
                assert(init[i] == peers[i]);
                let k = choose|k: int| 0 <= k < before.len() && before[k] == a;
                if keep(peers.last()) {
                    assert(dial_addresses_spec(relay, peers)[k] == a);
                } else {
                    assert(dial_addresses_spec(relay, peers) == before);
                }
            } else {
                let after = dial_addresses_spec(relay, peers);
                assert(after[after.len() - 1] == a);
            }
        }
    }
}

/// The address this node listens on: the relay's circuit.
pub fn listen_address(relay: &Vec<u8>) -> (r: Option<Vec<u8>>)
    ensures
        r is None ==> circuit_address(relay@) is None,
        r is Some ==> circuit_address(relay@) == Some(r.unwrap()@),
{
    address_with(relay, &None)
}

/// The addresses dialed to reach the configured peers: each peer through
/// the relay's circuit, in order; a peer whose address cannot be formed is
/// left out.
pub fn dial_addresses(relay: &Vec<u8>, peers: &Vec<Vec<u8>>) -> (r: Vec<Vec<u8>>)
    ensures
        r.deep_view() == dial_addresses_spec(relay@, peers.deep_view()),
{
    let mut r: Vec<Vec<u8>> = Vec::new();
    let mut i: usize = 0;
    while i < peers.len()
        invariant
            i <= peers.len(),
            r.deep_view() == dial_addresses_spec(relay@, peers.deep_view().take(i as int)),
        decreases peers.len() - i,
    {
        let ghost before = r.deep_view();
        let peer = peers[i].clone();
        assert(peer@ == peers.deep_view()[i as int]);
        assert(peers.deep_view().take(i + 1).drop_last() =~= peers.deep_view().take(i as int));
        assert(peers.deep_view().take(i + 1).last() == peer@);
        let circuit = address_with(relay, &None);
        match circuit {
            Some(circuit) => {
                let some_peer = Some(peer);
                assert(some_peer.deep_view() == Some(peers.deep_view()[i as int]));
                match address_with(&circuit, &some_peer) {
                    Some(address) => {
                        assert(address.deep_view() =~= address@);
                        r.push(address);
                        assert(r.deep_view() =~= before.push(address@));
                    },
                    None => {},
                }
            },
            None => {},
        }
        i = i + 1;
    }
    assert(peers.deep_view().take(peers.len() as int) =~= peers.deep_view());
    r
}

/// A swarm event, as far as the application looks at it.
#[derive(Debug, Clone, PartialEq, Eq)]
pub enum SwarmEvent {
    /// Hole punching to `peer` ended; whether the connection was upgraded.
    HolePunch { peer: Vec<u8>, upgraded: bool },
    /// A connection to `peer` closed; `dialed` is the address dialed when
    /// this side dialed it, `None` when this side listened.
    ConnectionClosed { peer: Vec<u8>, dialed: Option<Vec<u8>> },
    /// Anything else, the close input included.
    Other,
}

/// What the swarm tells the user interface.
#[derive(Debug, Clone, PartialEq, Eq)]
pub enum Message {
    NodeConnected(Vec<u8>),
    NodeDisconnected(Vec<u8>),
}

/// What an event tells the user interface: an upgraded connection is a
/// connected node; a closed connection is a disconnected node, except for
/// the connection that this side dialed to the relay itself.
pub open spec fn swarm_response_spec(event: SwarmEvent, relay: Seq<u8>) -> Option<Seq<u8>> {
    match event {
        SwarmEvent::HolePunch { peer, upgraded } => if upgraded { Some(peer@) } else { None },
        SwarmEvent::ConnectionClosed { peer, dialed } => match dialed {
            Some(address) => if address@ == relay { None } else { Some(peer@) },
            None => Some(peer@),
        },
        SwarmEvent::Other => None,
    }
}

/// The message for a swarm event, given the relay's address.
pub fn swarm_response(event: SwarmEvent, relay: &Vec<u8>) -> (m: Option<Message>)
    ensures
        event is HolePunch ==> match swarm_response_spec(event, relay@) {
            Some(p) => m is Some && m.unwrap() is NodeConnected && m.unwrap()->NodeConnected_0@ == p,
            None => m is None,
        },
        !(event is HolePunch) ==> match swarm_response_spec(event, relay@) {
            Some(p) => m is Some && m.unwrap() is NodeDisconnected && m.unwrap()->NodeDisconnected_0@ == p,
            None => m is None,
        },
{
    match event {
        SwarmEvent::HolePunch { peer, upgraded } => {
            if upgraded {
                Some(Message::NodeConnected(peer))
            } else {
                None
            }
        },
        SwarmEvent::ConnectionClosed { peer, dialed } => match dialed {
            Some(address) => {
                if bytes_eq(&address, relay) {
                    None
                } else {
                    Some(Message::NodeDisconnected(peer))
                }
            },
            None => Some(Message::NodeDisconnected(peer)),
        },
        SwarmEvent::Other => None,
    }
}

fn bytes_eq(a: &Vec<u8>, b: &Vec<u8>) -> (r: bool)
    ensures
        r == (a@ == b@),
{
    if a.len() != b.len() {
        return false;
    }
    let mut i: usize = 0;
    while i < a.len()
        invariant
            a.len() == b.len(),
            i <= a.len(),
            a@.subrange(0, i as int) == b@.subrange(0, i as int),
        decreases a.len() - i,
    {
        if a[i] != b[i] {
            assert(a@[i as int] != b@[i as int]);
            return false;
        }
        assert(a@.subrange(0, i + 1) == a@.subrange(0, i as int).push(a@[i as int]));
        assert(b@.subrange(0, i + 1) == b@.subrange(0, i as int).push(b@[i as int]));
        i = i + 1;
    }
    assert(a@.subrange(0, a.len() as int) == a@);
    assert(b@.subrange(0, b.len() as int) == b@);
    true
}

/// How long relay discovery may take, in milliseconds.
pub const DISCOVERY_TIMEOUT_MILLIS: u128 = 2000;

/// What relay discovery has learned so far.
#[derive(Debug, Clone, Copy, PartialEq, Eq, Structural)]
pub struct Discovery {
    /// The relay told this node its observed address.
    pub learned_observed_addr: bool,
    /// This node told the relay its observed address.
    pub told_relay_observed_addr: bool,
}

/// An event during relay discovery.
#[derive(Debug, Clone, PartialEq, Eq)]
pub enum DiscoveryEvent {
    /// Listening, dialing, connection and ping events, which change nothing.
    Progress,
    /// The relay was told its observed address.
    IdentifySent,
    /// The relay told this node its observed address.
    IdentifyReceived,
    /// Dialing the relay failed in transport; the text of the first error.
    TransportError(String),
}

/// Where relay discovery stands after an event.
#[derive(Debug, Clone, PartialEq, Eq)]
pub enum DiscoveryStep {
    Continue(Discovery),
    Done,
    Failed(Error),
}

impl Discovery {
    /// Nothing learned yet.
    pub fn new() -> (d: Self)
        ensures
            !d.learned_observed_addr,
            !d.told_relay_observed_addr,
    {
        Discovery { learned_observed_addr: false, told_relay_observed_addr: false }
    }

    /// Whether discovery has run out of time; it is checked before each
    /// event is awaited.
    pub fn timed_out(elapsed_millis: u128) -> (b: bool)
        ensures
            b == (elapsed_millis >= DISCOVERY_TIMEOUT_MILLIS),
    {
        elapsed_millis >= DISCOVERY_TIMEOUT_MILLIS
    }

    /// Takes one event: discovery is done once both addresses have been
    /// exchanged, and fails on a transport error.
    pub fn step(self, event: DiscoveryEvent) -> (s: DiscoveryStep)
        ensures
            s == discovery_step_spec(self, event),
    {
        let mut next = self;
        match event {
            DiscoveryEvent::Progress => {},
            DiscoveryEvent::IdentifySent => {
                next.told_relay_observed_addr = true;
            },
            DiscoveryEvent::IdentifyReceived => {
                next.learned_observed_addr = true;
            },
            DiscoveryEvent::TransportError(text) => {
                return DiscoveryStep::Failed(Error::TransportError(text));
            },
        }
        if next.learned_observed_addr && next.told_relay_observed_addr {
            DiscoveryStep::Done
        } else {
            DiscoveryStep::Continue(next)
        }
    }
}

/// One discovery step, as [`Discovery::step`] takes it.
pub open spec fn discovery_step_spec(d: Discovery, event: DiscoveryEvent) -> DiscoveryStep {
    match event {
        DiscoveryEvent::TransportError(text) => DiscoveryStep::Failed(Error::TransportError(text)),
        _ => {
            let learned = d.learned_observed_addr || event is IdentifyReceived;
            let told = d.told_relay_observed_addr || event is IdentifySent;
            if learned && told {
                DiscoveryStep::Done
            } else {
                DiscoveryStep::Continue(Discovery { learned_observed_addr: learned, told_relay_observed_addr: told })
            }
        },
    }
}

/// Discovery run over a sequence of events, stopping at the first step that
/// does not continue.
pub open spec fn run_discovery(d: Discovery, events: Seq<DiscoveryEvent>) -> DiscoveryStep
    decreases events.len(),
{
    if events.len() == 0 {
        DiscoveryStep::Continue(d)
    } else {
        match discovery_step_spec(d, events[0]) {
            DiscoveryStep::Continue(next) => run_discovery(next, events.drop_first()),
            other => other,
        }
    }
}

proof fn lemma_run_discovery(d: Discovery, events: Seq<DiscoveryEvent>)
    requires
        forall|i: int| 0 <= i < events.len() ==> !(#[trigger] events[i] is TransportError),
        !(d.learned_observed_addr && d.told_relay_observed_addr),
    ensures
        ({
            let learned = d.learned_observed_addr || events.contains(DiscoveryEvent::IdentifyReceived);
            let told = d.told_relay_observed_addr || events.contains(DiscoveryEvent::IdentifySent);
            &&& learned && told ==> run_discovery(d, events) == DiscoveryStep::Done
            &&& !(learned && told) ==> run_discovery(d, events) == DiscoveryStep::Continue(Discovery { learned_observed_addr: learned, told_relay_observed_addr: told })
        }),
    decreases events.len(),
{
    if events.len() > 0 {
        let e = events[0];
        let rest = events.drop_first();
        assert forall|i: int| 0 <= i < rest.len() implies !(#[trigger] rest[i] is TransportError) by {
            assert(rest[i] == events[i + 1]);
        }
        assert(events == seq![e] + rest);
        assert forall|x: DiscoveryEvent| events.contains(x) <==> (x == e || rest.contains(x)) by {
            if events.contains(x) {
                let i = choose|i: int| 0 <= i < events.len() && events[i] == x;
                if i > 0 {
                    assert(rest[i - 1] == x);
                }
            }
            if rest.contains(x) {
                let i = choose|i: int| 0 <= i < rest.len() && rest[i] == x;
                assert(events[i + 1] == x);
            }
            if x == e {
                assert(events[0] == x);
            }
        }
        match discovery_step_spec(d, e) {
            DiscoveryStep::Continue(next) => {
                lemma_run_discovery(next, rest);
            },
            _ => {},
        }
    }
}

/// Relay discovery finishes exactly when the relay has told this node its
/// observed address and this node has told the relay, in either order and
/// whatever other events come between; until then it goes on.
pub proof fn lemma_discovery_needs_both(events: Seq<DiscoveryEvent>)
    requires
        forall|i: int| 0 <= i < events.len() ==> !(#[trigger] events[i] is TransportError),
    ensures
        (run_discovery(Discovery { learned_observed_addr: false, told_relay_observed_addr: false }, events) == DiscoveryStep::Done)
            <==> (events.contains(DiscoveryEvent::IdentifyReceived) && events.contains(DiscoveryEvent::IdentifySent)),
{
    lemma_run_discovery(Discovery { learned_observed_addr: false, told_relay_observed_addr: false }, events);
}

} // verus!
