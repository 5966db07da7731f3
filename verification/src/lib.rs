//! The control plane of a node in a peer-to-peer overlay network.
//!
//! A node discovers peers through a distributed hash table, exchanges a short
//! handshake with every peer it connects to, and shares the readings of its
//! sensor with all interested peers through a gossip protocol. The network
//! stack does the networking; this library holds what a node decides:
//!
//! - [`controller`]: how a node starts, as the first node of a network or by
//!   joining one through a known peer, and which faults end it;
//! - [`event_loop`]: what a node does with each event of the network and at
//!   each tick of its telemetry timer;
//! - [`event`] and [`report`]: the events as plain data, and what is recorded
//!   of them;
//! - [`node_ops`] and [`payload`]: the simulated sensor, and the bytes in which
//!   a reading travels;
//! - [`address`] and [`config`]: well-formedness of peer addresses, and the
//!   settings that all nodes share.
//!
//! The library performs no input or output. A driver owns the network: it asks
//! the controller and the loop what to do, does it, and hands back what
//! happened. Every function of the library is verified against its contract;
//! the contracts are stated over the views of the data types, and the lemmas
//! of [`controller`], [`event_loop`] and [`payload`] state what holds of whole
//! runs.

pub mod address;
pub mod config;
pub mod controller;
pub mod event;
pub mod event_loop;
pub mod node_ops;
pub mod payload;
pub mod report;
