//! The bootstrap/join controller.
//!
//! A node is started either as the first node of its network, or with the
//! address of a peer to join. Either way it subscribes to the topic and listens
//! on the two fixed addresses; a node that joins then dials the peer, once.
//! A node that cannot subscribe or listen is misconfigured and gives up. A dial
//! that fails is recorded and changes nothing else: the node stays reachable
//! for others.
//!
//! The controller decides; it performs nothing. It names the next action, the
//! caller performs it and tells the controller whether it succeeded:
//!
//! ```text
//! Subscribing --ok--> BindingStream --ok--> BindingDatagram --ok--> Listening   (bootstrap)
//!                                                           --ok--> Dialing --any--> Listening
//!      |                   |                      |
//!      +-------fail--------+---------fail---------+--> Failed
//! ```
//!
//! [`ControllerView`] is the model of the controller, [`actions`] the sequence
//! of actions it asks for under a given sequence of outcomes, and the lemmas at
//! the end of the file say how often it dials.

use crate::address::{is_multiaddr, is_rooted, parses};
use crate::config::{DATAGRAM_ADDRESS, STREAM_ADDRESS, TOPIC};
use crate::report::{report_view, Report, ReportView};
use vstd::prelude::*;

verus! {

/// A fault in the configuration of a node. It ends the process.
#[derive(Debug, Clone, Copy, PartialEq, Eq, Structural)]
pub enum ConfigError {
    /// The address of the peer to join is not a multiaddress.
    InvalidDialAddress,
    /// The node cannot listen on one of its addresses.
    InvalidListenAddress,
    /// The node cannot subscribe to the topic.
    InvalidTopic,
}

/// The role of a node at startup.
#[derive(Debug, Clone, PartialEq, Eq)]
pub enum Mode {
    /// The first node of a network: it dials nobody.
    Bootstrap,
    /// A node that joins a network through the peer at the given address.
    Follower { peer: String },
}

/// The view of a [`Mode`].
pub enum ModeView {
    Bootstrap,
    Follower { peer: Seq<char> },
}

impl View for Mode {
    type V = ModeView;

    open spec fn view(&self) -> ModeView {
        match self {
            Mode::Bootstrap => ModeView::Bootstrap,
            Mode::Follower { peer } => ModeView::Follower { peer: peer@ },
        }
    }
}

/// How far startup has come. Each stage but the last two waits for the outcome
/// of one action.
#[derive(Debug, Clone, Copy, PartialEq, Eq, Structural)]
pub enum Stage {
    Subscribing,
    BindingStream,
    BindingDatagram,
    Dialing,
    /// Startup is over; the node serves.
    Listening,
    /// Startup has failed.
    Failed(ConfigError),
}

/// What the controller asks its caller to do.
#[derive(Debug, Clone, PartialEq, Eq)]
pub enum Action {
    Subscribe { topic: String },
    Listen { address: String },
    Dial { address: String },
    /// Enter the event loop.
    Serve,
    /// Leave the process with a failure.
    Abort { error: ConfigError },
}

/// The view of an [`Action`].
pub enum ActionView {
    Subscribe { topic: Seq<char> },
    Listen { address: Seq<char> },
    Dial { address: Seq<char> },
    Serve,
    Abort { error: ConfigError },
}

impl View for Action {
    type V = ActionView;

    open spec fn view(&self) -> ActionView {
        match self {
            Action::Subscribe { topic } => ActionView::Subscribe { topic: topic@ },
            Action::Listen { address } => ActionView::Listen { address: address@ },
            Action::Dial { address } => ActionView::Dial { address: address@ },
            Action::Serve => ActionView::Serve,
            Action::Abort { error } => ActionView::Abort { error: *error },
        }
    }
}

/// The controller's answer to an outcome: what to record, if anything, and
/// what to do next.
#[derive(Debug, Clone, PartialEq, Eq)]
pub struct Decision {
    pub report: Option<Report>,
    pub action: Action,
}

/// The view of a [`Decision`].
pub struct DecisionView {
    pub report: Option<ReportView>,
    pub action: ActionView,
}

impl View for Decision {
    type V = DecisionView;

    open spec fn view(&self) -> DecisionView {
        DecisionView { report: report_view(self.report), action: self.action@ }
    }
}

/// The model of a [`Controller`].
pub struct ControllerView {
    pub mode: ModeView,
    pub stage: Stage,
}

impl ControllerView {
    /// The controller of a node started with the given argument.
    /// `well_formed` says whether the argument, if there is one, is a
    /// multiaddress.
    pub open spec fn begin(peer: Option<Seq<char>>, well_formed: bool) -> ControllerView {
        match peer {
            None => ControllerView { mode: ModeView::Bootstrap, stage: Stage::Subscribing },
            Some(address) => ControllerView {
                mode: ModeView::Follower { peer: address },
                stage: if well_formed {
                    Stage::Subscribing
                } else {
                    Stage::Failed(ConfigError::InvalidDialAddress)
                },
            },
        }
    }

    /// Only a node that joins a network ever waits for a dial.
    pub open spec fn wf(self) -> bool {
        self.stage is Dialing ==> self.mode is Follower
    }

    /// The action that belongs to the controller's stage.
    pub open spec fn pending(self) -> ActionView {
        match self.stage {
            Stage::Subscribing => ActionView::Subscribe { topic: TOPIC@ },
            Stage::BindingStream => ActionView::Listen { address: STREAM_ADDRESS@ },
            Stage::BindingDatagram => ActionView::Listen { address: DATAGRAM_ADDRESS@ },
            Stage::Dialing => match self.mode {
                ModeView::Follower { peer } => ActionView::Dial { address: peer },
                ModeView::Bootstrap => ActionView::Serve,
            },
            Stage::Listening => ActionView::Serve,
            Stage::Failed(error) => ActionView::Abort { error },
        }
    }

    /// The controller after it has learnt that its pending action succeeded
    /// (`ok`) or failed.
    pub open spec fn next(self, ok: bool) -> ControllerView {
        let stage = match self.stage {
            Stage::Subscribing => if ok {
                Stage::BindingStream
            } else {
                Stage::Failed(ConfigError::InvalidTopic)
            },
            Stage::BindingStream => if ok {
                Stage::BindingDatagram
            } else {
                Stage::Failed(ConfigError::InvalidListenAddress)
            },
            Stage::BindingDatagram => if !ok {
                Stage::Failed(ConfigError::InvalidListenAddress)
            } else if self.mode is Follower {
                Stage::Dialing
            } else {
                Stage::Listening
            },
            Stage::Dialing => Stage::Listening,
            Stage::Listening => Stage::Listening,
            Stage::Failed(error) => Stage::Failed(error),
        };
        ControllerView { mode: self.mode, stage }
    }

    /// What the controller records on learning the outcome: that it acts as
    /// the first node, once it is subscribed; and how its dial ended.
    pub open spec fn report(self, ok: bool) -> Option<ReportView> {
        match (self.stage, self.mode) {
            (Stage::Subscribing, ModeView::Bootstrap) => if ok {
                Some(ReportView::Bootstrap)
            } else {
                None
            },
            (Stage::Dialing, ModeView::Follower { peer }) => Some(
                ReportView::Dial { address: peer, ok },
            ),
            _ => None,
        }
    }

    /// The controller's answer to an outcome.
    pub open spec fn decide(self, ok: bool) -> DecisionView {
        DecisionView { report: self.report(ok), action: self.next(ok).pending() }
    }
}

/// The view of an optional text.
pub open spec fn text_view(text: Option<String>) -> Option<Seq<char>> {
    match text {
        Some(t) => Some(t@),
        None => None,
    }
}

/// The state of a node's startup.
#[derive(Debug, PartialEq, Eq)]
pub struct Controller {
    mode: Mode,
    stage: Stage,
}

impl View for Controller {
    type V = ControllerView;

    closed spec fn view(&self) -> ControllerView {
        ControllerView { mode: self.mode@, stage: self.stage }
    }
}

impl Controller {
    /// Every controller is well formed.
    #[verifier::type_invariant]
    spec fn well_formed(self) -> bool {
        self@.wf()
    }

    /// The controller of a node started with the given argument, where the
    /// caller knows whether the argument is a multiaddress.
    pub fn begin_given(peer: Option<String>, well_formed: bool) -> (controller: Controller)
        ensures
            controller@ == ControllerView::begin(text_view(peer), well_formed),
            controller@.wf(),
    {
        match peer {
            None => Controller { mode: Mode::Bootstrap, stage: Stage::Subscribing },
            Some(address) => Controller {
                mode: Mode::Follower { peer: address },
                stage: if well_formed {
                    Stage::Subscribing
                } else {
                    Stage::Failed(ConfigError::InvalidDialAddress)
                },
            },
        }
    }

    /// The controller of a node started with the given argument: the address of
    /// a peer to join, or nothing for the first node of a network.
    ///
    /// An argument that is not a multiaddress is a configuration fault: the
    /// controller starts in the failed stage. That is the case, in particular,
    /// of a text that begins with anything but a slash.
    pub fn begin(peer: Option<String>) -> (controller: Controller)
        ensures
            controller@ == ControllerView::begin(
                text_view(peer),
                peer matches Some(address) ==> is_multiaddr(address@),
            ),
            controller@.wf(),
            peer matches Some(address) && !is_rooted(address@) ==> controller@.stage
                == Stage::Failed(ConfigError::InvalidDialAddress),
    {
        let well_formed = match &peer {
            Some(address) => parses(address.as_str()),
            None => true,
        };
        Controller::begin_given(peer, well_formed)
    }

    pub fn mode(&self) -> (mode: &Mode)
        ensures
            mode@ == self@.mode,
    {
        &self.mode
    }

    pub fn stage(&self) -> (stage: Stage)
        ensures
            stage == self@.stage,
            self@.wf(),
    {
        proof {
            use_type_invariant(self);
        }
        self.stage
    }

    /// The action that belongs to the controller's stage. A caller performs
    /// the one that [`Controller::begin`] leaves pending and then follows the
    /// decisions of [`Controller::advance`].
    pub fn pending(&self) -> (action: Action)
        ensures
            action@ == self@.pending(),
            self@.wf(),
    {
        proof {
            use_type_invariant(self);
        }
        match self.stage {
            Stage::Subscribing => Action::Subscribe { topic: TOPIC.to_owned() },
            Stage::BindingStream => Action::Listen { address: STREAM_ADDRESS.to_owned() },
            Stage::BindingDatagram => Action::Listen { address: DATAGRAM_ADDRESS.to_owned() },
            Stage::Dialing => match &self.mode {
                Mode::Follower { peer } => Action::Dial { address: peer.clone() },
                Mode::Bootstrap => Action::Serve,
            },
            Stage::Listening => Action::Serve,
            Stage::Failed(error) => Action::Abort { error },
        }
    }

    /// Takes the outcome of the pending action and decides what follows.
    pub fn advance(&mut self, ok: bool) -> (decision: Decision)
        ensures
            final(self)@ == old(self)@.next(ok),
            decision@ == old(self)@.decide(ok),
            old(self)@.wf(),
            final(self)@.wf(),
    {
        proof {
            use_type_invariant(&*self);
        }
        let report = match (self.stage, &self.mode) {
            (Stage::Subscribing, Mode::Bootstrap) => if ok {
                Some(Report::Bootstrap)
            } else {
                None
            },
            (Stage::Dialing, Mode::Follower { peer }) => Some(
                Report::Dial { address: peer.clone(), ok },
            ),
            _ => None,
        };
        let follower = match &self.mode {
            Mode::Follower { .. } => true,
            Mode::Bootstrap => false,
        };
        self.stage = match self.stage {
            Stage::Subscribing => if ok {
                Stage::BindingStream
            } else {
                Stage::Failed(ConfigError::InvalidTopic)
            },
            Stage::BindingStream => if ok {
                Stage::BindingDatagram
            } else {
                Stage::Failed(ConfigError::InvalidListenAddress)
            },
            Stage::BindingDatagram => if !ok {
                Stage::Failed(ConfigError::InvalidListenAddress)
            } else if follower {
                Stage::Dialing
            } else {
                Stage::Listening
            },
            Stage::Dialing => Stage::Listening,
            Stage::Listening => Stage::Listening,
            Stage::Failed(error) => Stage::Failed(error),
        };
        let action = self.pending();
        Decision { report, action }
    }
}

/// The controller after it has learnt the given outcomes, one after the other.
pub open spec fn after(start: ControllerView, outcomes: Seq<bool>) -> ControllerView
    decreases outcomes.len(),
{
    if outcomes.len() == 0 {
        start
    } else {
        after(start, outcomes.drop_last()).next(outcomes.last())
    }
}

/// The actions that a controller asks for, in order, while it learns the given
/// outcomes: the one that is pending at the start, and one for each outcome.
pub open spec fn actions(start: ControllerView, outcomes: Seq<bool>) -> Seq<ActionView>
    decreases outcomes.len(),
{
    if outcomes.len() == 0 {
        seq![start.pending()]
    } else {
        actions(start, outcomes.drop_last()).push(after(start, outcomes).pending())
    }
}

/// The addresses that a sequence of actions dials, in order.
pub open spec fn dialled(actions: Seq<ActionView>) -> Seq<Seq<char>>
    decreases actions.len(),
{
    if actions.len() == 0 {
        Seq::empty()
    } else {
        let before = dialled(actions.drop_last());
        match actions.last() {
            ActionView::Dial { address } => before.push(address),
            _ => before,
        }
    }
}

/// Whether subscribing and binding both addresses have succeeded: the first
/// three outcomes are there and are successes.
pub open spec fn bound(outcomes: Seq<bool>) -> bool {
    outcomes.len() >= 3 && outcomes[0] && outcomes[1] && outcomes[2]
}

/// Whether subscribing or binding one of the two addresses has failed: one of
/// the first three outcomes, as far as they are there, is a failure.
pub open spec fn faulted(outcomes: Seq<bool>) -> bool {
    ||| outcomes.len() >= 1 && !outcomes[0]
    ||| outcomes.len() >= 2 && !outcomes[1]
    ||| outcomes.len() >= 3 && !outcomes[2]
}

/// Each step of the model keeps the controller well formed.
pub proof fn lemma_next_keeps_wf(controller: ControllerView, ok: bool)
    requires
        controller.wf(),
    ensures
        controller.next(ok).wf(),
{
}

/// A node in bootstrap mode never dials: none of the actions it asks for is a
/// dial, at whatever stage it stands and whatever the outcomes of its actions
/// are.
pub proof fn lemma_bootstrap_never_dials(start: ControllerView, outcomes: Seq<bool>)
    requires
        start.mode is Bootstrap,
    ensures
        after(start, outcomes).mode is Bootstrap,
        actions(start, outcomes).len() == outcomes.len() + 1,
        dialled(actions(start, outcomes)) == Seq::<Seq<char>>::empty(),
        forall|i: int|
            #![auto]
            0 <= i <= outcomes.len() ==> !(actions(start, outcomes)[i] is Dial),
    decreases outcomes.len(),
{
    lemma_actions_len(start, outcomes);
    let all = actions(start, outcomes);
    if outcomes.len() == 0 {
        assert(all.drop_last() =~= Seq::<ActionView>::empty());
        assert(dialled(all.drop_last()) == Seq::<Seq<char>>::empty());
    } else {
        lemma_bootstrap_never_dials(start, outcomes.drop_last());
        assert(all.drop_last() =~= actions(start, outcomes.drop_last()));
    }
    assert(!(all.last() is Dial));
}

/// A node that joins a network through the well-formed address `peer` dials
/// that address and no other, at most once. Once it has subscribed and bound
/// its two addresses it has dialled exactly once, however the dial ended and
/// whatever it is told afterwards.
pub proof fn lemma_follower_dials_once(peer: Seq<char>, outcomes: Seq<bool>)
    ensures
        dialled(actions(ControllerView::begin(Some(peer), true), outcomes)) == if bound(outcomes) {
            seq![peer]
        } else {
            Seq::<Seq<char>>::empty()
        },
{
    lemma_dialled_by_follower(peer, outcomes);
}

/// A well-configured node gives up exactly if it could not subscribe or could
/// not bind one of its addresses. A dial that fails, and whatever the node is
/// told after startup, never ends it.
pub proof fn lemma_only_faults_are_fatal(peer: Option<Seq<char>>, outcomes: Seq<bool>)
    ensures
        after(ControllerView::begin(peer, true), outcomes).stage is Failed <==> faulted(outcomes),
        !faulted(outcomes) && outcomes.len() >= 4 ==> after(
            ControllerView::begin(peer, true),
            outcomes,
        ).stage is Listening,
{
    lemma_stage_after(peer, outcomes);
}

/// A node whose argument is not a multiaddress performs nothing: it aborts at
/// once, and stays so.
pub proof fn lemma_malformed_peer_aborts(peer: Seq<char>, outcomes: Seq<bool>)
    ensures
        forall|i: int|
            #![auto]
            0 <= i <= outcomes.len() ==> actions(
                ControllerView::begin(Some(peer), false),
                outcomes,
            )[i] == (ActionView::Abort { error: ConfigError::InvalidDialAddress }),
{
    let start = ControllerView::begin(Some(peer), false);
    lemma_failure_is_final(start, ConfigError::InvalidDialAddress, outcomes);
}

/// A controller asks for one action at the start and one for each outcome.
proof fn lemma_actions_len(start: ControllerView, outcomes: Seq<bool>)
    ensures
        actions(start, outcomes).len() == outcomes.len() + 1,
    decreases outcomes.len(),
{
    if outcomes.len() > 0 {
        lemma_actions_len(start, outcomes.drop_last());
    }
}

/// A controller that has failed asks for nothing but to abort, with the same
/// fault, whatever it is told.
proof fn lemma_failure_is_final(start: ControllerView, error: ConfigError, outcomes: Seq<bool>)
    requires
        start.stage == Stage::Failed(error),
    ensures
        after(start, outcomes).stage == Stage::Failed(error),
        actions(start, outcomes).len() == outcomes.len() + 1,
        forall|i: int|
            #![auto]
            0 <= i <= outcomes.len() ==> actions(start, outcomes)[i] == (ActionView::Abort {
                error,
            }),
    decreases outcomes.len(),
{
    lemma_actions_len(start, outcomes);
    if outcomes.len() > 0 {
        lemma_failure_is_final(start, error, outcomes.drop_last());
    }
}

/// The stage of a well-configured node after the given outcomes, read off the
/// outcomes.
spec fn stage_after(follower: bool, outcomes: Seq<bool>) -> Stage {
    let n = outcomes.len();
    if n >= 1 && !outcomes[0] {
        Stage::Failed(ConfigError::InvalidTopic)
    } else if n >= 2 && !outcomes[1] {
        Stage::Failed(ConfigError::InvalidListenAddress)
    } else if n >= 3 && !outcomes[2] {
        Stage::Failed(ConfigError::InvalidListenAddress)
    } else if n == 0 {
        Stage::Subscribing
    } else if n == 1 {
        Stage::BindingStream
    } else if n == 2 {
        Stage::BindingDatagram
    } else if n == 3 && follower {
        Stage::Dialing
    } else {
        Stage::Listening
    }
}

/// Where a well-configured node stands after the given outcomes.
proof fn lemma_stage_after(peer: Option<Seq<char>>, outcomes: Seq<bool>)
    ensures
        ({
            let start = ControllerView::begin(peer, true);
            let end = after(start, outcomes);
            &&& end.mode == start.mode
            &&& end.stage == stage_after(peer is Some, outcomes)
        }),
    decreases outcomes.len(),
{
    if outcomes.len() > 0 {
        let earlier = outcomes.drop_last();
        lemma_stage_after(peer, earlier);
        assert(forall|i: int| 0 <= i < earlier.len() ==> earlier[i] == outcomes[i]);
    }
}

/// What a follower has dialled after the given outcomes.
proof fn lemma_dialled_by_follower(peer: Seq<char>, outcomes: Seq<bool>)
    ensures
        dialled(actions(ControllerView::begin(Some(peer), true), outcomes)) == if bound(outcomes) {
            seq![peer]
        } else {
            Seq::<Seq<char>>::empty()
        },
    decreases outcomes.len(),
{
    let start = ControllerView::begin(Some(peer), true);
    let all = actions(start, outcomes);
    lemma_stage_after(Some(peer), outcomes);
    if outcomes.len() == 0 {
        assert(all.drop_last() =~= Seq::<ActionView>::empty());
        assert(dialled(all.drop_last()) == Seq::<Seq<char>>::empty());
    } else {
        let earlier = outcomes.drop_last();
        lemma_dialled_by_follower(peer, earlier);
        assert(forall|i: int| 0 <= i < earlier.len() ==> earlier[i] == outcomes[i]);
        assert(all.drop_last() =~= actions(start, earlier));
        assert(all.last() == after(start, outcomes).pending());
        if bound(outcomes) && outcomes.len() == 3 {
            assert(dialled(all) =~= seq![peer]);
        }
    }
}

} // verus!
