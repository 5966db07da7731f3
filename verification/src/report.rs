//! What a node hands to its observability sink.
//!
//! A report holds the thing to be recorded as plain data. Whatever the sink
//! does with it, three facts can be read off every report: the kind of thing
//! that happened, the peer it concerns, if any, and how it ended.

use crate::event::{
    outcome_of, peer_view, EventKind, MessageId, Outcome, PeerId, SwarmEvent, SwarmEventView,
};
use vstd::prelude::*;

verus! {

/// Why a message could not be published.
#[derive(Debug, Clone, Copy, PartialEq, Eq, Structural)]
pub enum PublishError {
    /// No peer is subscribed to the topic yet.
    NoPeers,
    /// The message could not be signed.
    SigningFailed,
    /// The payload is larger than the gossip layer carries.
    MessageTooLarge,
    /// The gossip layer refused the message for another reason.
    Other,
}

/// A thing to be recorded.
#[derive(Debug, Clone, PartialEq, Eq)]
pub enum Report {
    /// The node dials nobody: it is the first node of its network.
    Bootstrap,
    /// The node has dialled the address at startup.
    Dial { address: String, ok: bool },
    /// An event taken from the unified stream.
    Swarm(SwarmEvent),
    /// A reading has been published under the identifier.
    Published { id: MessageId },
    /// A reading could not be published.
    PublishFailed { error: PublishError },
    /// The generator gave no reading at this tick.
    GeneratorFailed { cause: String },
}

/// The view of a [`Report`].
pub enum ReportView {
    Bootstrap,
    Dial { address: Seq<char>, ok: bool },
    Swarm(SwarmEventView),
    Published { id: Seq<u8> },
    PublishFailed { error: PublishError },
    GeneratorFailed { cause: Seq<char> },
}

impl View for Report {
    type V = ReportView;

    open spec fn view(&self) -> ReportView {
        match self {
            Report::Bootstrap => ReportView::Bootstrap,
            Report::Dial { address, ok } => ReportView::Dial { address: address@, ok: *ok },
            Report::Swarm(event) => ReportView::Swarm(event@),
            Report::Published { id } => ReportView::Published { id: id@ },
            Report::PublishFailed { error } => ReportView::PublishFailed { error: *error },
            Report::GeneratorFailed { cause } => ReportView::GeneratorFailed { cause: cause@ },
        }
    }
}

/// The view of an optional report.
pub open spec fn report_view(report: Option<Report>) -> Option<ReportView> {
    match report {
        Some(r) => Some(r@),
        None => None,
    }
}

impl ReportView {
    pub open spec fn kind(self) -> EventKind {
        match self {
            ReportView::Bootstrap => EventKind::Bootstrap,
            ReportView::Dial { .. } => EventKind::Dial,
            ReportView::Swarm(event) => event.kind(),
            ReportView::Published { .. } => EventKind::Publish,
            ReportView::PublishFailed { .. } => EventKind::Publish,
            ReportView::GeneratorFailed { .. } => EventKind::Telemetry,
        }
    }

    pub open spec fn peer(self) -> Option<Seq<u8>> {
        match self {
            ReportView::Swarm(event) => event.peer(),
            _ => None,
        }
    }

    pub open spec fn outcome(self) -> Outcome {
        match self {
            ReportView::Bootstrap => Outcome::Success,
            ReportView::Dial { ok, .. } => outcome_of(ok),
            ReportView::Swarm(event) => event.outcome(),
            ReportView::Published { .. } => Outcome::Success,
            ReportView::PublishFailed { .. } => Outcome::Failure,
            ReportView::GeneratorFailed { .. } => Outcome::Failure,
        }
    }
}

impl Report {
    /// The kind of thing that happened.
    pub fn kind(&self) -> (kind: EventKind)
        ensures
            kind == self@.kind(),
    {
        match self {
            Report::Bootstrap => EventKind::Bootstrap,
            Report::Dial { .. } => EventKind::Dial,
            Report::Swarm(event) => event.kind(),
            Report::Published { .. } => EventKind::Publish,
            Report::PublishFailed { .. } => EventKind::Publish,
            Report::GeneratorFailed { .. } => EventKind::Telemetry,
        }
    }

    /// The peer that the report concerns, if it concerns one.
    pub fn peer(&self) -> (peer: Option<&PeerId>)
        ensures
            peer_view(peer) == self@.peer(),
    {
        match self {
            Report::Swarm(event) => event.peer(),
            _ => None,
        }
    }

    /// How the thing ended.
    pub fn outcome(&self) -> (outcome: Outcome)
        ensures
            outcome == self@.outcome(),
    {
        match self {
            Report::Bootstrap => Outcome::Success,
            Report::Dial { ok, .. } => {
                if *ok {
                    Outcome::Success
                } else {
                    Outcome::Failure
                }
            },
            Report::Swarm(event) => event.outcome(),
            Report::Published { .. } => Outcome::Success,
            Report::PublishFailed { .. } => Outcome::Failure,
            Report::GeneratorFailed { .. } => Outcome::Failure,
        }
    }
}

} // verus!
