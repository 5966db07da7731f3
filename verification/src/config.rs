//! The fixed settings of a node.
//!
//! Every node of the network listens on the same two addresses, one
//! stream-oriented and one datagram-oriented, on all interfaces and on fixed
//! ports, so that peers can be addressed without discovery. All nodes share one
//! gossip topic and announce the same protocol string when they identify
//! themselves.

use vstd::prelude::*;

verus! {

/// The stream-oriented listen address.
pub const STREAM_ADDRESS: &'static str = "/ip4/0.0.0.0/tcp/9000";

/// The datagram-oriented listen address.
pub const DATAGRAM_ADDRESS: &'static str = "/ip4/0.0.0.0/udp/9001/quic-v1";

/// The gossip topic that carries the readings.
pub const TOPIC: &'static str = "hive";

/// The protocol name and version exchanged when two peers identify each other.
/// It serves to signal compatibility and never to reject a connection.
pub const IDENTIFY_PROTOCOL: &'static str = "hive/1.0.0";

/// Seconds between two reshuffles of the gossip mesh.
pub const HEARTBEAT_SECS: u64 = 10;

/// Seconds after which an idle connection is closed: connections are kept for
/// as long as the process runs.
pub const IDLE_TIMEOUT_SECS: u64 = 0xffff_ffff_ffff_ffff;

} // verus!
