//! The event loop.
//!
//! Once startup is over a node serves two sources, one at a time: the unified
//! stream of network events, and a timer at whose ticks the generator is asked
//! for a reading. An event of the stream is recorded. A reading is published on
//! the topic; a tick at which the generator fails is recorded and nothing is
//! published. Nothing that happens in the loop ends it: failures to identify a
//! peer, to take a reading or to publish one are recorded and the loop goes on.
//!
//! The loop keeps no state between two iterations, so [`dispatch`] is a
//! function of the event alone. The caller waits for the next event, hands it
//! over, records the report and performs the command; after a publication it
//! records what [`published`] makes of the outcome.

use crate::config::TOPIC;
use crate::event::{
    EventKind, IdentificationEventView, MessageId, SwarmEvent, SwarmEventView,
};
use crate::node_ops::{run, GridStats};
use crate::payload::{encode, payload_of};
use crate::report::{report_view, PublishError, Report, ReportView};
use vstd::prelude::*;
use vstd::string::to_string_from_display_ensures;

verus! {

/// What one iteration of the loop serves.
#[derive(Debug, Clone, PartialEq, Eq)]
pub enum LoopEvent {
    /// The next event of the unified stream.
    Swarm(SwarmEvent),
    /// A tick of the timer at which the generator gave a reading.
    Reading(GridStats),
    /// A tick of the timer at which the generator failed.
    ReadingFailed { cause: String },
}

/// The view of a [`LoopEvent`].
pub enum LoopEventView {
    Swarm(SwarmEventView),
    Reading(GridStats),
    ReadingFailed { cause: Seq<char> },
}

impl View for LoopEvent {
    type V = LoopEventView;

    open spec fn view(&self) -> LoopEventView {
        match self {
            LoopEvent::Swarm(event) => LoopEventView::Swarm(event@),
            LoopEvent::Reading(stats) => LoopEventView::Reading(*stats),
            LoopEvent::ReadingFailed { cause } => LoopEventView::ReadingFailed { cause: cause@ },
        }
    }
}

/// What the loop asks its caller to do before the next iteration.
#[derive(Debug, Clone, PartialEq, Eq)]
pub enum Command {
    /// Nothing: wait for the next event.
    Poll,
    /// Publish the payload on the topic, then wait for the next event.
    Publish { topic: String, payload: Vec<u8> },
}

/// The view of a [`Command`].
pub enum CommandView {
    Poll,
    Publish { topic: Seq<char>, payload: Seq<u8> },
}

impl View for Command {
    type V = CommandView;

    open spec fn view(&self) -> CommandView {
        match self {
            Command::Poll => CommandView::Poll,
            Command::Publish { topic, payload } => CommandView::Publish {
                topic: topic@,
                payload: payload@,
            },
        }
    }
}

/// The loop's answer to an event: what to record, if anything, and what to do.
#[derive(Debug, Clone, PartialEq, Eq)]
pub struct Reaction {
    pub report: Option<Report>,
    pub command: Command,
}

/// The view of a [`Reaction`].
pub struct ReactionView {
    pub report: Option<ReportView>,
    pub command: CommandView,
}

impl View for Reaction {
    type V = ReactionView;

    open spec fn view(&self) -> ReactionView {
        ReactionView { report: report_view(self.report), command: self.command@ }
    }
}

/// The loop's answer to an event.
pub open spec fn react(event: LoopEventView) -> ReactionView {
    match event {
        LoopEventView::Swarm(event) => ReactionView {
            report: Some(ReportView::Swarm(event)),
            command: CommandView::Poll,
        },
        LoopEventView::Reading(stats) => ReactionView {
            report: None,
            command: CommandView::Publish { topic: TOPIC@, payload: payload_of(stats) },
        },
        LoopEventView::ReadingFailed { cause } => ReactionView {
            report: Some(ReportView::GeneratorFailed { cause }),
            command: CommandView::Poll,
        },
    }
}

/// The loop's answers to a sequence of events, in order.
pub open spec fn reactions(events: Seq<LoopEventView>) -> Seq<ReactionView> {
    Seq::new(events.len(), |i: int| react(events[i]))
}

/// What the loop records of a publication.
pub open spec fn publication(outcome: Result<Seq<u8>, PublishError>) -> ReportView {
    match outcome {
        Ok(id) => ReportView::Published { id },
        Err(error) => ReportView::PublishFailed { error },
    }
}

/// The view of the outcome of a publication.
pub open spec fn outcome_view(outcome: Result<MessageId, PublishError>) -> Result<
    Seq<u8>,
    PublishError,
> {
    match outcome {
        Ok(id) => Ok(id@),
        Err(error) => Err(error),
    }
}

impl LoopEvent {
    /// The event of a tick at which the generator gave the answer `reading`.
    /// Of a failure the event keeps the description: the text that the error
    /// displays as.
    pub fn from_reading(reading: Result<GridStats, std::io::Error>) -> (event: LoopEvent)
        ensures
            reading matches Ok(stats) ==> event@ == LoopEventView::Reading(stats),
            reading matches Err(error) ==> (event matches LoopEvent::ReadingFailed { cause }
                && to_string_from_display_ensures::<std::io::Error>(&error, cause)),
    {
        match reading {
            Ok(stats) => LoopEvent::Reading(stats),
            Err(error) => LoopEvent::ReadingFailed { cause: error.to_string() },
        }
    }
}

/// Asks the generator for a reading, as the loop does at each tick of its
/// timer. The simulated sensor always answers, with one of the readings that
/// it can emit.
pub fn tick() -> (event: LoopEvent)
    ensures
        event@ matches LoopEventView::Reading(stats) && stats.emitted(),
{
    LoopEvent::from_reading(run())
}

/// Serves one event.
pub fn dispatch(event: LoopEvent) -> (reaction: Reaction)
    ensures
        reaction@ == react(event@),
{
    match event {
        LoopEvent::Swarm(event) => Reaction {
            report: Some(Report::Swarm(event)),
            command: Command::Poll,
        },
        LoopEvent::Reading(stats) => Reaction {
            report: None,
            command: Command::Publish { topic: TOPIC.to_owned(), payload: encode(&stats) },
        },
        LoopEvent::ReadingFailed { cause } => Reaction {
            report: Some(Report::GeneratorFailed { cause }),
            command: Command::Poll,
        },
    }
}

/// What to record of a publication, given its outcome. A failure, such as
/// that no peer is subscribed yet, is recorded as a success is, and the loop
/// goes on.
pub fn published(outcome: Result<MessageId, PublishError>) -> (report: Report)
    ensures
        report@ == publication(outcome_view(outcome)),
{
    match outcome {
        Ok(id) => Report::Published { id },
        Err(error) => Report::PublishFailed { error },
    }
}

/// A failure to identify a peer is recorded and changes nothing else: the loop
/// asks for no action on the connection, and it answers every other event,
/// before and after, as if the failure had not been. Discovery and gossip
/// events of the same peer are served like all others.
pub proof fn lemma_identification_failure_is_harmless(
    before: Seq<LoopEventView>,
    peer: Seq<u8>,
    cause: Seq<char>,
    after: Seq<LoopEventView>,
)
    ensures
        ({
            let failure = LoopEventView::Swarm(
                SwarmEventView::Identification(IdentificationEventView::Failed { peer, cause }),
            );
            &&& react(failure).command == CommandView::Poll
            &&& react(failure).report matches Some(report) && report.kind()
                == EventKind::IdentificationFailed && report.peer() == Some(peer)
            &&& reactions(before.push(failure) + after) == reactions(before).push(react(failure))
                + reactions(after)
        }),
{
    let failure = LoopEventView::Swarm(
        SwarmEventView::Identification(IdentificationEventView::Failed { peer, cause }),
    );
    let events = before.push(failure) + after;
    assert forall|i: int| 0 <= i < events.len() implies #[trigger] reactions(events)[i] == (
    reactions(before).push(react(failure)) + reactions(after))[i] by {
        if i < before.len() {
            assert(events[i] == before[i]);
        } else if i == before.len() {
            assert(events[i] == failure);
        } else {
            assert(events[i] == after[i - before.len() - 1]);
        }
    }
    assert(reactions(events) =~= reactions(before).push(react(failure)) + reactions(after));
}

/// Every reading is published, whatever came before it: a tick at which the
/// generator failed, or a publication that failed, costs no later tick. A
/// failed tick itself is recorded and publishes nothing.
pub proof fn lemma_every_reading_is_published(events: Seq<LoopEventView>, i: int)
    requires
        0 <= i < events.len(),
    ensures
        events[i] matches LoopEventView::Reading(stats) ==> reactions(events)[i].command == (
        CommandView::Publish { topic: TOPIC@, payload: payload_of(stats) }),
        events[i] matches LoopEventView::ReadingFailed { cause } ==> reactions(events)[i] == (
        ReactionView {
            report: Some(ReportView::GeneratorFailed { cause }),
            command: CommandView::Poll,
        }),
{
}

/// The loop records the receipt of a message only in answer to a message that
/// the gossip layer handed it, and then it records that message. It invents no
/// message and repeats none: whether a message is new and whether its
/// signature holds is settled by the gossip layer before it hands a message
/// over.
pub proof fn lemma_only_surfaced_messages_are_reported(event: LoopEventView)
    ensures
        react(event).report matches Some(report) ==> (report.kind() == EventKind::MessageReceived
            ==> (event matches LoopEventView::Swarm(SwarmEventView::Gossip(message)) && report
            == ReportView::Swarm(SwarmEventView::Gossip(message)))),
        event matches LoopEventView::Swarm(SwarmEventView::Gossip(message)) ==> react(event).report
            == Some(ReportView::Swarm(SwarmEventView::Gossip(message))),
{
}

} // verus!
