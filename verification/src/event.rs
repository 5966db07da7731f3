//! The events that the overlay network surfaces to a node.
//!
//! Three components share every connection: discovery keeps a routing table of
//! known peers, identification exchanges a short handshake with each newly
//! connected peer, and gossip carries the published messages. Their events and
//! the life cycle of connections reach the node through one stream, as values
//! of [`SwarmEvent`]. The node matches on them exhaustively.
//!
//! The values are plain data. Identities and message identifiers are opaque
//! byte strings, addresses are text, payloads are bytes that the node never
//! interprets. Each type has a view, which is what the contracts speak of.

use crate::config::IDENTIFY_PROTOCOL;
use vstd::prelude::*;

verus! {

/// The identity of a peer: an opaque byte string, unique on the network.
#[derive(Debug, Clone, PartialEq, Eq)]
pub struct PeerId {
    pub bytes: Vec<u8>,
}

impl View for PeerId {
    type V = Seq<u8>;

    open spec fn view(&self) -> Seq<u8> {
        self.bytes@
    }
}

/// The identifier of a gossip message, derived from the message so that
/// copies of it can be told from new messages.
#[derive(Debug, Clone, PartialEq, Eq)]
pub struct MessageId {
    pub bytes: Vec<u8>,
}

impl View for MessageId {
    type V = Seq<u8>;

    open spec fn view(&self) -> Seq<u8> {
        self.bytes@
    }
}

/// What a peer said of itself in the identification handshake.
#[derive(Debug, Clone, PartialEq, Eq)]
pub struct PeerInfo {
    /// The peer's protocol name and version.
    pub protocol: String,
    /// The addresses on which the peer says it listens.
    pub listen_addresses: Vec<String>,
    /// The protocols that the peer says it supports; empty if it named none.
    pub protocols: Vec<String>,
}

/// The view of a [`PeerInfo`].
pub struct PeerInfoView {
    pub protocol: Seq<char>,
    pub listen_addresses: Seq<Seq<char>>,
    pub protocols: Seq<Seq<char>>,
}

impl View for PeerInfo {
    type V = PeerInfoView;

    open spec fn view(&self) -> PeerInfoView {
        PeerInfoView {
            protocol: self.protocol@,
            listen_addresses: self.listen_addresses.deep_view(),
            protocols: self.protocols.deep_view(),
        }
    }
}

impl PeerInfoView {
    /// Whether the peer announced the protocol string of this network.
    pub open spec fn is_compatible(self) -> bool {
        self.protocol == IDENTIFY_PROTOCOL@
    }
}

impl PeerInfo {
    /// Whether the peer announced the protocol string of this network.
    pub fn is_compatible(&self) -> (compatible: bool)
        ensures
            compatible == self@.is_compatible(),
    {
        let expected = IDENTIFY_PROTOCOL.to_owned();
        self.protocol == expected
    }
}

/// A message that arrived on a subscribed topic.
#[derive(Debug, Clone, PartialEq, Eq)]
pub struct GossipMessage {
    /// The peer that published the message. Signed messages always name it.
    pub source: Option<PeerId>,
    /// The peer that handed the message to this node: the publisher itself, or
    /// a peer that relayed the message.
    pub forwarder: PeerId,
    pub id: MessageId,
    pub topic: String,
    pub payload: Vec<u8>,
}

/// The view of a [`GossipMessage`].
pub struct GossipMessageView {
    pub source: Option<Seq<u8>>,
    pub forwarder: Seq<u8>,
    pub id: Seq<u8>,
    pub topic: Seq<char>,
    pub payload: Seq<u8>,
}

impl View for GossipMessage {
    type V = GossipMessageView;

    open spec fn view(&self) -> GossipMessageView {
        GossipMessageView {
            source: match self.source {
                Some(peer) => Some(peer@),
                None => None,
            },
            forwarder: self.forwarder@,
            id: self.id@,
            topic: self.topic@,
            payload: self.payload@,
        }
    }
}

/// An event of the discovery component.
#[derive(Debug, Clone, PartialEq, Eq)]
pub enum DiscoveryEvent {
    /// The peer has entered the routing table.
    PeerRoutable { peer: PeerId },
    /// The peer is known but no address of it can be reached.
    PeerUnreachable { peer: PeerId },
    /// A lookup has come to its end.
    QueryCompleted { succeeded: bool },
}

/// The view of a [`DiscoveryEvent`].
pub enum DiscoveryEventView {
    PeerRoutable { peer: Seq<u8> },
    PeerUnreachable { peer: Seq<u8> },
    QueryCompleted { succeeded: bool },
}

impl View for DiscoveryEvent {
    type V = DiscoveryEventView;

    open spec fn view(&self) -> DiscoveryEventView {
        match self {
            DiscoveryEvent::PeerRoutable { peer } => DiscoveryEventView::PeerRoutable {
                peer: peer@,
            },
            DiscoveryEvent::PeerUnreachable { peer } => DiscoveryEventView::PeerUnreachable {
                peer: peer@,
            },
            DiscoveryEvent::QueryCompleted { succeeded } => DiscoveryEventView::QueryCompleted {
                succeeded: *succeeded,
            },
        }
    }
}

/// An event of the identification component: each connection gives one.
#[derive(Debug, Clone, PartialEq, Eq)]
pub enum IdentificationEvent {
    /// The handshake with the peer has completed.
    Identified { peer: PeerId, info: PeerInfo },
    /// The handshake with the peer has failed. The connection stays open.
    Failed { peer: PeerId, cause: String },
}

/// The view of an [`IdentificationEvent`].
pub enum IdentificationEventView {
    Identified { peer: Seq<u8>, info: PeerInfoView },
    Failed { peer: Seq<u8>, cause: Seq<char> },
}

impl View for IdentificationEvent {
    type V = IdentificationEventView;

    open spec fn view(&self) -> IdentificationEventView {
        match self {
            IdentificationEvent::Identified { peer, info } => IdentificationEventView::Identified {
                peer: peer@,
                info: info@,
            },
            IdentificationEvent::Failed { peer, cause } => IdentificationEventView::Failed {
                peer: peer@,
                cause: cause@,
            },
        }
    }
}

/// An event of the unified stream.
#[derive(Debug, Clone, PartialEq, Eq)]
pub enum SwarmEvent {
    /// The node now listens on the address.
    NewListenAddr { address: String },
    /// A connection with the peer has been established.
    ConnectionEstablished { peer: PeerId },
    /// A connection with the peer has been closed.
    ConnectionClosed { peer: PeerId },
    Discovery(DiscoveryEvent),
    Identification(IdentificationEvent),
    /// A new message has arrived on a subscribed topic.
    Gossip(GossipMessage),
}

/// The view of a [`SwarmEvent`].
pub enum SwarmEventView {
    NewListenAddr { address: Seq<char> },
    ConnectionEstablished { peer: Seq<u8> },
    ConnectionClosed { peer: Seq<u8> },
    Discovery(DiscoveryEventView),
    Identification(IdentificationEventView),
    Gossip(GossipMessageView),
}

impl View for SwarmEvent {
    type V = SwarmEventView;

    open spec fn view(&self) -> SwarmEventView {
        match self {
            SwarmEvent::NewListenAddr { address } => SwarmEventView::NewListenAddr {
                address: address@,
            },
            SwarmEvent::ConnectionEstablished { peer } => SwarmEventView::ConnectionEstablished {
                peer: peer@,
            },
            SwarmEvent::ConnectionClosed { peer } => SwarmEventView::ConnectionClosed {
                peer: peer@,
            },
            SwarmEvent::Discovery(event) => SwarmEventView::Discovery(event@),
            SwarmEvent::Identification(event) => SwarmEventView::Identification(event@),
            SwarmEvent::Gossip(message) => SwarmEventView::Gossip(message@),
        }
    }
}

/// The kind of a thing that the node records.
#[derive(Debug, Clone, Copy, PartialEq, Eq, Structural)]
pub enum EventKind {
    Bootstrap,
    Dial,
    NewListenAddr,
    ConnectionEstablished,
    ConnectionClosed,
    PeerRoutable,
    PeerUnreachable,
    QueryCompleted,
    Identified,
    IdentificationFailed,
    MessageReceived,
    Publish,
    Telemetry,
}

/// How a recorded thing ended.
#[derive(Debug, Clone, Copy, PartialEq, Eq, Structural)]
pub enum Outcome {
    Success,
    Failure,
    /// The peer was identified, but announced another protocol string than
    /// this network's. The connection is kept all the same.
    Incompatible,
}

/// The outcome that stands for a flag of success.
pub open spec fn outcome_of(ok: bool) -> Outcome {
    if ok {
        Outcome::Success
    } else {
        Outcome::Failure
    }
}

/// The view of an optional reference to a peer's identity.
pub open spec fn peer_view(peer: Option<&PeerId>) -> Option<Seq<u8>> {
    match peer {
        Some(id) => Some(id@),
        None => None,
    }
}

impl SwarmEventView {
    pub open spec fn kind(self) -> EventKind {
        match self {
            SwarmEventView::NewListenAddr { .. } => EventKind::NewListenAddr,
            SwarmEventView::ConnectionEstablished { .. } => EventKind::ConnectionEstablished,
            SwarmEventView::ConnectionClosed { .. } => EventKind::ConnectionClosed,
            SwarmEventView::Discovery(DiscoveryEventView::PeerRoutable { .. }) => {
                EventKind::PeerRoutable
            },
            SwarmEventView::Discovery(DiscoveryEventView::PeerUnreachable { .. }) => {
                EventKind::PeerUnreachable
            },
            SwarmEventView::Discovery(DiscoveryEventView::QueryCompleted { .. }) => {
                EventKind::QueryCompleted
            },
            SwarmEventView::Identification(IdentificationEventView::Identified { .. }) => {
                EventKind::Identified
            },
            SwarmEventView::Identification(IdentificationEventView::Failed { .. }) => {
                EventKind::IdentificationFailed
            },
            SwarmEventView::Gossip(_) => EventKind::MessageReceived,
        }
    }

    /// The peer that the event is about; for a message, the peer that
    /// published it, if the message names it.
    pub open spec fn peer(self) -> Option<Seq<u8>> {
        match self {
            SwarmEventView::NewListenAddr { .. } => None,
            SwarmEventView::ConnectionEstablished { peer } => Some(peer),
            SwarmEventView::ConnectionClosed { peer } => Some(peer),
            SwarmEventView::Discovery(DiscoveryEventView::PeerRoutable { peer }) => Some(peer),
            SwarmEventView::Discovery(DiscoveryEventView::PeerUnreachable { peer }) => Some(peer),
            SwarmEventView::Discovery(DiscoveryEventView::QueryCompleted { .. }) => None,
            SwarmEventView::Identification(IdentificationEventView::Identified { peer, .. }) => {
                Some(peer)
            },
            SwarmEventView::Identification(IdentificationEventView::Failed { peer, .. }) => {
                Some(peer)
            },
            SwarmEventView::Gossip(message) => message.source,
        }
    }

    pub open spec fn outcome(self) -> Outcome {
        match self {
            SwarmEventView::Discovery(DiscoveryEventView::PeerUnreachable { .. }) => {
                Outcome::Failure
            },
            SwarmEventView::Discovery(DiscoveryEventView::QueryCompleted { succeeded }) => {
                outcome_of(succeeded)
            },
            SwarmEventView::Identification(IdentificationEventView::Identified { info, .. }) => {
                if info.is_compatible() {
                    Outcome::Success
                } else {
                    Outcome::Incompatible
                }
            },
            SwarmEventView::Identification(IdentificationEventView::Failed { .. }) => {
                Outcome::Failure
            },
            _ => Outcome::Success,
        }
    }
}

impl SwarmEvent {
    pub fn kind(&self) -> (kind: EventKind)
        ensures
            kind == self@.kind(),
    {
        match self {
            SwarmEvent::NewListenAddr { .. } => EventKind::NewListenAddr,
            SwarmEvent::ConnectionEstablished { .. } => EventKind::ConnectionEstablished,
            SwarmEvent::ConnectionClosed { .. } => EventKind::ConnectionClosed,
            SwarmEvent::Discovery(DiscoveryEvent::PeerRoutable { .. }) => EventKind::PeerRoutable,
            SwarmEvent::Discovery(DiscoveryEvent::PeerUnreachable { .. }) => {
                EventKind::PeerUnreachable
            },
            SwarmEvent::Discovery(DiscoveryEvent::QueryCompleted { .. }) => {
                EventKind::QueryCompleted
            },
            SwarmEvent::Identification(IdentificationEvent::Identified { .. }) => {
                EventKind::Identified
            },
            SwarmEvent::Identification(IdentificationEvent::Failed { .. }) => {
                EventKind::IdentificationFailed
            },
            SwarmEvent::Gossip(_) => EventKind::MessageReceived,
        }
    }

    /// The peer that the event is about; for a message, the peer that
    /// published it, if the message names it.
    pub fn peer(&self) -> (peer: Option<&PeerId>)
        ensures
            peer_view(peer) == self@.peer(),
    {
        match self {
            SwarmEvent::NewListenAddr { .. } => None,
            SwarmEvent::ConnectionEstablished { peer } => Some(peer),
            SwarmEvent::ConnectionClosed { peer } => Some(peer),
            SwarmEvent::Discovery(DiscoveryEvent::PeerRoutable { peer }) => Some(peer),
            SwarmEvent::Discovery(DiscoveryEvent::PeerUnreachable { peer }) => Some(peer),
            SwarmEvent::Discovery(DiscoveryEvent::QueryCompleted { .. }) => None,
            SwarmEvent::Identification(IdentificationEvent::Identified { peer, .. }) => Some(peer),
            SwarmEvent::Identification(IdentificationEvent::Failed { peer, .. }) => Some(peer),
            SwarmEvent::Gossip(message) => match &message.source {
                Some(peer) => Some(peer),
                None => None,
            },
        }
    }

    pub fn outcome(&self) -> (outcome: Outcome)
        ensures
            outcome == self@.outcome(),
    {
        match self {
            SwarmEvent::Discovery(DiscoveryEvent::PeerUnreachable { .. }) => Outcome::Failure,
            SwarmEvent::Discovery(DiscoveryEvent::QueryCompleted { succeeded }) => {
                if *succeeded {
                    Outcome::Success
                } else {
                    Outcome::Failure
                }
            },
            SwarmEvent::Identification(IdentificationEvent::Identified { info, .. }) => {
                if info.is_compatible() {
                    Outcome::Success
                } else {
                    Outcome::Incompatible
                }
            },
            SwarmEvent::Identification(IdentificationEvent::Failed { .. }) => Outcome::Failure,
            _ => Outcome::Success,
        }
    }
}

} // verus!
