use edge::controller::{Action, Controller, Stage};
use edge::event::{
    DiscoveryEvent, EventKind, GossipMessage, IdentificationEvent, MessageId, Outcome, PeerId,
    PeerInfo, SwarmEvent,
};
use edge::event_loop::{dispatch, published, Command, LoopEvent};
use edge::node_ops::GridStats;
use edge::report::{PublishError, Report};

fn node_a() -> PeerId {
    PeerId { bytes: vec![0xa, 0xa, 0xa] }
}

fn node_b() -> PeerId {
    PeerId { bytes: vec![0xb, 0xb, 0xb] }
}

fn relay() -> PeerId {
    PeerId { bytes: vec![0xc, 0xc, 0xc] }
}

/// Performs the startup of a node whose every action succeeds and returns the
/// actions it asked for.
fn start(argument: Option<&str>) -> Vec<Action> {
    let mut controller = Controller::begin(argument.map(str::to_string));
    let mut actions = Vec::new();
    let mut action = controller.pending();
    while action != Action::Serve {
        assert!(!matches!(action, Action::Abort { .. }));
        actions.push(action);
        action = controller.advance(true).action;
    }
    assert_eq!(controller.stage(), Stage::Listening);
    actions
}

#[test]
fn a_node_joins_through_the_bootstrap_node() {
    let address = "/ip4/127.0.0.1/tcp/9000";

    // Node A listens and dials nobody.
    let of_a = start(None);
    assert_eq!(
        of_a,
        vec![
            Action::Subscribe { topic: "hive".to_string() },
            Action::Listen { address: "/ip4/0.0.0.0/tcp/9000".to_string() },
            Action::Listen { address: "/ip4/0.0.0.0/udp/9001/quic-v1".to_string() },
        ]
    );

    // Node B does the same and then dials A, once.
    let of_b = start(Some(address));
    assert_eq!(of_b[..3], of_a[..]);
    assert_eq!(of_b[3..], [Action::Dial { address: address.to_string() }]);

    // A observes the connection and the identification of B.
    let connected = dispatch(LoopEvent::Swarm(SwarmEvent::ConnectionEstablished {
        peer: node_b(),
    }));
    let report = connected.report.unwrap();
    assert_eq!(report.kind(), EventKind::ConnectionEstablished);
    assert_eq!(report.peer(), Some(&node_b()));
    assert_eq!(connected.command, Command::Poll);

    let identified = dispatch(LoopEvent::Swarm(SwarmEvent::Identification(
        IdentificationEvent::Identified {
            peer: node_b(),
            info: PeerInfo {
                protocol: "hive/1.0.0".to_string(),
                listen_addresses: vec!["/ip4/127.0.0.1/tcp/9000".to_string()],
                protocols: Vec::new(),
            },
        },
    )));
    let report = identified.report.unwrap();
    assert_eq!(report.kind(), EventKind::Identified);
    assert_eq!(report.peer(), Some(&node_b()));
    assert_eq!(report.outcome(), Outcome::Success);

    // B observes that A has entered its routing table.
    let routable = dispatch(LoopEvent::Swarm(SwarmEvent::Discovery(
        DiscoveryEvent::PeerRoutable { peer: node_a() },
    )));
    let report = routable.report.unwrap();
    assert_eq!(report.kind(), EventKind::PeerRoutable);
    assert_eq!(report.peer(), Some(&node_a()));
    assert_eq!(report.outcome(), Outcome::Success);
}

#[test]
fn a_published_payload_reaches_a_subscriber_unchanged() {
    let received = GossipMessage {
        source: Some(node_a()),
        forwarder: node_a(),
        id: MessageId { bytes: vec![4, 2] },
        topic: "hive".to_string(),
        payload: b"freq=60.0".to_vec(),
    };
    let reaction = dispatch(LoopEvent::Swarm(SwarmEvent::Gossip(received)));
    assert_eq!(reaction.command, Command::Poll);
    let report = reaction.report.unwrap();
    assert_eq!(report.kind(), EventKind::MessageReceived);
    assert_eq!(report.peer(), Some(&node_a()));
    match report {
        Report::Swarm(SwarmEvent::Gossip(message)) => {
            assert_eq!(message.payload, b"freq=60.0".to_vec());
            assert_eq!(message.source, Some(node_a()));
            assert_eq!(message.topic, "hive");
        }
        other => panic!("unexpected report {other:?}"),
    }
}

#[test]
fn what_a_node_publishes_is_what_its_peer_records() {
    let stats = GridStats { variance: 1, frequency: 600, soc: 950, import: 0, export: 5 };
    let (topic, payload) = match dispatch(LoopEvent::Reading(stats)).command {
        Command::Publish { topic, payload } => (topic, payload),
        Command::Poll => panic!("nothing published"),
    };
    assert_eq!(topic, "hive");
    assert!(payload.starts_with(b"freq=60.0"));
    let received = GossipMessage {
        source: Some(node_a()),
        forwarder: relay(),
        id: MessageId { bytes: vec![1] },
        topic,
        payload: payload.clone(),
    };
    match dispatch(LoopEvent::Swarm(SwarmEvent::Gossip(received))).report {
        Some(Report::Swarm(SwarmEvent::Gossip(message))) => {
            assert_eq!(message.payload, payload);
            assert_eq!(message.source, Some(node_a()));
        }
        other => panic!("unexpected report {other:?}"),
    }
}

#[test]
fn a_failed_tick_costs_no_later_tick() {
    let first = dispatch(LoopEvent::from_reading(Err(std::io::Error::other("no reading"))));
    assert_eq!(first.command, Command::Poll);
    assert_eq!(
        first.report,
        Some(Report::GeneratorFailed { cause: "no reading".to_string() })
    );

    let stats = GridStats { variance: 1, frequency: 590, soc: 930, import: 0, export: 5 };
    let second = dispatch(LoopEvent::from_reading(Ok(stats)));
    assert_eq!(second.report, None);
    assert_eq!(
        second.command,
        Command::Publish {
            topic: "hive".to_string(),
            payload: b"freq=59.0;soc=93.0;import=0.0;export=0.5;variance=1".to_vec(),
        }
    );
}

#[test]
fn a_failed_publication_costs_no_later_tick() {
    let stats = GridStats { variance: 1, frequency: 600, soc: 950, import: 0, export: 5 };
    let first = dispatch(LoopEvent::Reading(stats));
    assert!(matches!(first.command, Command::Publish { .. }));
    let report = published(Err(PublishError::NoPeers));
    assert_eq!(report.outcome(), Outcome::Failure);
    let second = dispatch(LoopEvent::Reading(stats));
    assert_eq!(second, first);
}
