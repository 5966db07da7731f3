use edge::config::{DATAGRAM_ADDRESS, STREAM_ADDRESS, TOPIC};
use edge::controller::{Action, ConfigError, Controller, Decision, Mode, Stage};
use edge::report::Report;

const PEER: &str = "/ip4/127.0.0.1/tcp/9000";

fn subscribe() -> Action {
    Action::Subscribe { topic: TOPIC.to_string() }
}

fn listen(address: &str) -> Action {
    Action::Listen { address: address.to_string() }
}

fn dial(address: &str) -> Action {
    Action::Dial { address: address.to_string() }
}

/// Runs a controller over the outcomes and returns every action it asked for,
/// the pending one first.
fn drive(controller: &mut Controller, outcomes: &[bool]) -> Vec<Action> {
    let mut actions = vec![controller.pending()];
    for ok in outcomes {
        actions.push(controller.advance(*ok).action);
    }
    actions
}

fn dials(actions: &[Action]) -> Vec<String> {
    let mut addresses = Vec::new();
    for action in actions {
        if let Action::Dial { address } = action {
            addresses.push(address.clone());
        }
    }
    addresses
}

fn all_outcomes(len: usize) -> Vec<Vec<bool>> {
    let mut all = Vec::new();
    for bits in 0..(1u32 << len) {
        let mut outcomes = Vec::new();
        for i in 0..len {
            outcomes.push(bits & (1 << i) != 0);
        }
        all.push(outcomes);
    }
    all
}

#[test]
fn the_fixed_settings() {
    assert_eq!(STREAM_ADDRESS, "/ip4/0.0.0.0/tcp/9000");
    assert_eq!(DATAGRAM_ADDRESS, "/ip4/0.0.0.0/udp/9001/quic-v1");
    assert_eq!(TOPIC, "hive");
    assert_eq!(edge::config::IDENTIFY_PROTOCOL, "hive/1.0.0");
    assert_eq!(edge::config::HEARTBEAT_SECS, 10);
    assert_eq!(edge::config::IDLE_TIMEOUT_SECS, u64::MAX);
}

#[test]
fn the_fixed_addresses_are_multiaddresses() {
    assert!(STREAM_ADDRESS.parse::<libp2p::Multiaddr>().is_ok());
    assert!(DATAGRAM_ADDRESS.parse::<libp2p::Multiaddr>().is_ok());
}

#[test]
fn no_argument_means_bootstrap() {
    let controller = Controller::begin(None);
    assert_eq!(*controller.mode(), Mode::Bootstrap);
    assert_eq!(controller.stage(), Stage::Subscribing);
    assert_eq!(controller.pending(), subscribe());
}

#[test]
fn an_address_means_follower() {
    let controller = Controller::begin(Some(PEER.to_string()));
    assert_eq!(*controller.mode(), Mode::Follower { peer: PEER.to_string() });
    assert_eq!(controller.stage(), Stage::Subscribing);
    assert_eq!(controller.pending(), subscribe());
}

#[test]
fn bootstrap_startup_step_by_step() {
    let mut controller = Controller::begin(None);
    assert_eq!(
        controller.advance(true),
        Decision { report: Some(Report::Bootstrap), action: listen(STREAM_ADDRESS) }
    );
    assert_eq!(controller.stage(), Stage::BindingStream);
    assert_eq!(
        controller.advance(true),
        Decision { report: None, action: listen(DATAGRAM_ADDRESS) }
    );
    assert_eq!(controller.stage(), Stage::BindingDatagram);
    assert_eq!(controller.advance(true), Decision { report: None, action: Action::Serve });
    assert_eq!(controller.stage(), Stage::Listening);
}

#[test]
fn follower_startup_step_by_step() {
    let mut controller = Controller::begin(Some(PEER.to_string()));
    assert_eq!(
        controller.advance(true),
        Decision { report: None, action: listen(STREAM_ADDRESS) }
    );
    assert_eq!(
        controller.advance(true),
        Decision { report: None, action: listen(DATAGRAM_ADDRESS) }
    );
    assert_eq!(controller.advance(true), Decision { report: None, action: dial(PEER) });
    assert_eq!(controller.stage(), Stage::Dialing);
    assert_eq!(
        controller.advance(true),
        Decision {
            report: Some(Report::Dial { address: PEER.to_string(), ok: true }),
            action: Action::Serve,
        }
    );
    assert_eq!(controller.stage(), Stage::Listening);
}

#[test]
fn bootstrap_never_dials() {
    for len in 0..=7 {
        for outcomes in all_outcomes(len) {
            let mut controller = Controller::begin(None);
            let actions = drive(&mut controller, &outcomes);
            assert!(dials(&actions).is_empty(), "outcomes {outcomes:?}");
            assert_eq!(*controller.mode(), Mode::Bootstrap);
        }
    }
}

#[test]
fn follower_dials_its_peer_exactly_once() {
    for len in 0..=7 {
        for outcomes in all_outcomes(len) {
            let mut controller = Controller::begin(Some(PEER.to_string()));
            let actions = drive(&mut controller, &outcomes);
            let bound = len >= 3 && outcomes[0] && outcomes[1] && outcomes[2];
            if bound {
                assert_eq!(dials(&actions), vec![PEER.to_string()], "outcomes {outcomes:?}");
            } else {
                assert!(dials(&actions).is_empty(), "outcomes {outcomes:?}");
            }
        }
    }
}

#[test]
fn a_failed_dial_is_reported_and_the_node_serves() {
    let mut controller = Controller::begin(Some(PEER.to_string()));
    let actions = drive(&mut controller, &[true, true, true]);
    assert_eq!(actions.last(), Some(&dial(PEER)));
    let decision = controller.advance(false);
    assert_eq!(
        decision,
        Decision {
            report: Some(Report::Dial { address: PEER.to_string(), ok: false }),
            action: Action::Serve,
        }
    );
    assert_eq!(controller.stage(), Stage::Listening);
    assert_eq!(controller.pending(), Action::Serve);
}

#[test]
fn a_served_node_stays_served() {
    let mut controller = Controller::begin(None);
    drive(&mut controller, &[true, true, true]);
    for ok in [true, false, false, true] {
        assert_eq!(controller.advance(ok), Decision { report: None, action: Action::Serve });
        assert_eq!(controller.stage(), Stage::Listening);
    }
}

#[test]
fn a_refused_subscription_is_fatal() {
    for peer in [None, Some(PEER.to_string())] {
        let mut controller = Controller::begin(peer);
        let error = ConfigError::InvalidTopic;
        assert_eq!(
            controller.advance(false),
            Decision { report: None, action: Action::Abort { error } }
        );
        assert_eq!(controller.stage(), Stage::Failed(error));
    }
}

#[test]
fn a_refused_stream_address_is_fatal() {
    let mut controller = Controller::begin(None);
    controller.advance(true);
    let error = ConfigError::InvalidListenAddress;
    assert_eq!(
        controller.advance(false),
        Decision { report: None, action: Action::Abort { error } }
    );
    assert_eq!(controller.stage(), Stage::Failed(error));
}

#[test]
fn a_refused_datagram_address_is_fatal() {
    let mut controller = Controller::begin(Some(PEER.to_string()));
    controller.advance(true);
    controller.advance(true);
    let error = ConfigError::InvalidListenAddress;
    assert_eq!(
        controller.advance(false),
        Decision { report: None, action: Action::Abort { error } }
    );
    assert_eq!(controller.stage(), Stage::Failed(error));
}

#[test]
fn a_failure_is_final() {
    let mut controller = Controller::begin(Some(PEER.to_string()));
    controller.advance(true);
    controller.advance(false);
    let error = ConfigError::InvalidListenAddress;
    for ok in [true, true, false, true] {
        assert_eq!(
            controller.advance(ok),
            Decision { report: None, action: Action::Abort { error } }
        );
    }
    assert_eq!(controller.pending(), Action::Abort { error });
}

#[test]
fn a_malformed_peer_address_is_fatal() {
    for text in ["not an address", "9000", "ip4/127.0.0.1/tcp/9000", "/ip4/999.0.0.1/tcp/9000",
        "/ip4/127.0.0.1/tcp", "/ip4/127.0.0.1/tcp/70000", "/nothing/1", "/"]
    {
        let mut controller = Controller::begin(Some(text.to_string()));
        let error = ConfigError::InvalidDialAddress;
        assert_eq!(controller.stage(), Stage::Failed(error), "address {text:?}");
        assert_eq!(*controller.mode(), Mode::Follower { peer: text.to_string() });
        let actions = drive(&mut controller, &[true, true, true, true]);
        assert!(actions.iter().all(|action| *action == Action::Abort { error }));
    }
}

#[test]
fn the_controller_judges_addresses_as_the_transport_does() {
    for text in ["", "/", "/ip4/127.0.0.1/tcp/9000", "/ip4/127.0.0.1/udp/9001/quic-v1",
        "/ip6/::1/tcp/1", "/dns4/example.org/tcp/443/wss", "/ip4/1.2.3.4", "/tcp/x", "/ip4", "hive",
        "/p2p/QmYyQSo1c1Ym7orWxLYvCrM2EmxFTANf8wXmmE7DWjhx5N", "/p2p/not-a-peer", "/memory/5"]
    {
        let controller = Controller::begin(Some(text.to_string()));
        let accepted = controller.stage() == Stage::Subscribing;
        let rejected = controller.stage() == Stage::Failed(ConfigError::InvalidDialAddress);
        assert!(accepted || rejected);
        assert_eq!(accepted, text.parse::<libp2p::Multiaddr>().is_ok(), "address {text:?}");
    }
}

#[test]
fn what_the_caller_knows_of_the_address_decides() {
    let good = Controller::begin_given(Some("whatever".to_string()), true);
    assert_eq!(good.stage(), Stage::Subscribing);
    assert_eq!(*good.mode(), Mode::Follower { peer: "whatever".to_string() });
    let bad = Controller::begin_given(Some(PEER.to_string()), false);
    assert_eq!(bad.stage(), Stage::Failed(ConfigError::InvalidDialAddress));
    for well_formed in [true, false] {
        let first = Controller::begin_given(None, well_formed);
        assert_eq!(first.stage(), Stage::Subscribing);
        assert_eq!(*first.mode(), Mode::Bootstrap);
    }
}

#[test]
fn bootstrap_announces_itself_once() {
    let mut controller = Controller::begin(None);
    let mut announcements = 0;
    for ok in [true, true, true, true, true] {
        if controller.advance(ok).report == Some(Report::Bootstrap) {
            announcements += 1;
        }
    }
    assert_eq!(announcements, 1);
}

#[test]
fn a_follower_does_not_announce_a_bootstrap() {
    let mut controller = Controller::begin(Some(PEER.to_string()));
    for ok in [true, true, true, true, true] {
        assert_ne!(controller.advance(ok).report, Some(Report::Bootstrap));
    }
}
