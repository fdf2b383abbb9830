//! The consensus instance.

use crate::qbft::bytes::copy_bytes;
use crate::qbft::channel::{inbound_channel, send_message};
use crate::qbft::config::Config;
use crate::qbft::error::QbftError;
use crate::qbft::leader::LeaderFunction;
use crate::qbft::messages::{ConfirmMessage, DecidedMessage, GetData, InMessage, OutMessage};
use crate::qbft::messages::{PrepareMessage, ProposeMessage, RoundChange, ValidationMessage};
use crate::qbft::messages::{outbound, ValidationOutcome};
use crate::qbft::model::{cancelled, entry, initial, lemma_cancelled_wf, lemma_initial_wf};
use crate::qbft::model::{lemma_step_wf, on_confirm, on_data, on_message, on_prepare, on_propose};
use crate::qbft::model::{on_round_change, on_start, on_timeout, on_validation};
use crate::qbft::model::{Effects, Event, Instance, Status, Step};
use crate::qbft::messages::{Inbound, Outbound};
use crate::qbft::quorum::{MessageKind, QuorumStore};
use crate::qbft::validation::{ValidationId, ValidationTracker};
use crate::qbft_types::{InstanceHeight, OperatorId, Round};
use std::time::Duration;
use tokio::sync::mpsc::{UnboundedReceiver, UnboundedSender};
use vstd::prelude::*;

verus! {

/// Where an instance stands in its life.
#[derive(Clone, Debug, PartialEq, Eq)]
pub enum InstanceState {
    /// Built, not started.
    Idle,
    /// At work on the current round.
    Running,
    /// Agreement was reached on the value.
    Decided(Vec<u8>),
    /// Stopped without a decision.
    Cancelled,
}

impl View for InstanceState {
    type V = Status;

    open spec fn view(&self) -> Status {
        match *self {
            InstanceState::Idle => Status::Idle,
            InstanceState::Running => Status::Running,
            InstanceState::Decided(value) => Status::Decided(value@),
            InstanceState::Cancelled => Status::Cancelled,
        }
    }
}

/// What an instance asks of its surroundings after an event.
#[derive(Clone, Debug, PartialEq, Eq)]
pub struct Actions {
    /// The messages to send, in order.
    pub messages: Vec<OutMessage>,
    /// Whether the round timer starts its interval anew.
    pub reset_timer: bool,
}

impl View for Actions {
    type V = Effects;

    open spec fn view(&self) -> Effects {
        Effects { messages: outbound(self.messages@), reset_timer: self.reset_timer }
    }
}

/// What the result of a handler says.
pub open spec fn outcome(result: Result<Actions, QbftError>) -> Result<Effects, QbftError> {
    match result {
        Ok(actions) => Ok(actions@),
        Err(reason) => Err(reason),
    }
}

/// The structure that defines the Quorum Based Fault Tolerance (QBFT) instance.
pub struct QBFT<F: LeaderFunction> {
    /// Unique identifier for this QBFT instance
    id: InstanceHeight,
    /// The operator that runs the instance
    operator_id: OperatorId,
    /// The operators that take part
    committee: Vec<OperatorId>,
    /// Number of messages required to reach consensus
    quorum_size: usize,
    /// The round of QBFT instance
    round: Round,
    /// Duration of each round
    round_time: Duration,
    /// Function used to determine the round leader
    leader_fn: F,
    /// Where the instance stands in its life
    state: InstanceState,
    /// Whether a proposal was accepted in the current round
    proposal_accepted: bool,
    /// Whether a confirm was sent in the current round
    confirm_sent: bool,
    /// The validations that have been sent to the processor
    validations: ValidationTracker,
    /// The messages received that we have collected to reach quorum
    votes: QuorumStore,
    /// Channel that links the QBFT instance to the client processor and is where messages are
    /// sent to be distributed to the committee
    message_out: UnboundedSender<OutMessage>,
}

impl<F: LeaderFunction> View for QBFT<F> {
    type V = Instance;

    closed spec fn view(&self) -> Instance {
        Instance {
            operator_id: self.operator_id,
            committee: self.committee@,
            quorum_size: self.quorum_size as nat,
            round: self.round,
            status: self.state@,
            proposal_accepted: self.proposal_accepted,
            confirm_sent: self.confirm_sent,
            votes: self.votes@,
            validations: self.validations@,
        }
    }
}

impl<F: LeaderFunction> QBFT<F> {
    /// The instance is sound, and so is the state that it stands for.
    pub closed spec fn wf(&self) -> bool {
        &&& self.votes.wf()
        &&& self.validations.wf()
        &&& self@.wf()
    }

    /// The strategy that names the leaders.
    pub closed spec fn leader_fn(&self) -> F {
        self.leader_fn
    }

    /// The identifier of the instance.
    pub closed spec fn height(&self) -> InstanceHeight {
        self.id
    }

    /// How long a round may last.
    pub closed spec fn round_duration(&self) -> Duration {
        self.round_time
    }

    /// The channel on which the instance sends.
    pub closed spec fn channel(&self) -> UnboundedSender<OutMessage> {
        self.message_out
    }

    /// What stays the same for the whole life of an instance.
    pub open spec fn same_setup(&self, other: &Self) -> bool {
        &&& self.leader_fn() == other.leader_fn()
        &&& self.height() == other.height()
        &&& self.round_duration() == other.round_duration()
        &&& self.channel() == other.channel()
    }

    /// The instance `self` and the result `result` are what `step` says of the instance
    /// `before`.
    pub open spec fn took(&self, before: &Self, result: Result<Actions, QbftError>, step: Step) -> bool {
        &&& self.wf()
        &&& self.same_setup(before)
        &&& self@ == step.next
        &&& outcome(result) == step.result
    }

    /// A sound instance stands for a sound state.
    pub proof fn lemma_wf(&self)
        requires
            self.wf(),
        ensures
            self@.wf(),
    {
    }

    /// Builds an idle instance that will send on `sender`, together with the two ends of the
    /// channel on which it is to receive. A configuration whose quorum size is zero or above
    /// the size of the committee is refused, and no channel is made for it.
    pub fn new(config: Config<F>, sender: UnboundedSender<OutMessage>) -> (r: Result<
        (UnboundedSender<InMessage>, UnboundedReceiver<InMessage>, Self),
        QbftError,
    >)
        ensures
            match r {
                Ok(built) => {
                    &&& config.valid()
                    &&& built.2.wf()
                    &&& built.2@ == initial(
                        config.operator_id,
                        config.committee@,
                        config.quorum_size as nat,
                        config.round,
                    )
                    &&& built.2.leader_fn() == config.leader_fn
                    &&& built.2.height() == config.instance_height
                    &&& built.2.round_duration() == config.round_time
                    &&& built.2.channel() == sender
                },
                Err(reason) => reason == QbftError::ConfigInvalid && !config.valid(),
            },
    {
        match config.validate() {
            Ok(()) => {},
            Err(reason) => {
                return Err(reason);
            },
        }
        let Config {
            instance_height,
            operator_id,
            committee,
            quorum_size,
            round,
            round_time,
            leader_fn,
        } = config;
        let (in_sender, in_receiver) = inbound_channel();
        let instance = QBFT {
            id: instance_height,
            operator_id,
            committee,
            quorum_size,
            round,
            round_time,
            leader_fn,
            state: InstanceState::Idle,
            proposal_accepted: false,
            confirm_sent: false,
            validations: ValidationTracker::new(),
            votes: QuorumStore::new(),
            message_out: sender,
        };
        proof {
            lemma_initial_wf(operator_id, committee@, quorum_size as nat, round);
        }
        Ok((in_sender, in_receiver, instance))
    }

    /// The identifier of the instance.
    pub fn id(&self) -> (id: InstanceHeight)
        ensures
            id == self.height(),
    {
        self.id
    }

    /// The current round.
    pub fn round(&self) -> (round: Round)
        ensures
            round == self@.round,
    {
        self.round
    }

    /// How long a round may last.
    pub fn round_time(&self) -> (round_time: Duration)
        ensures
            round_time == self.round_duration(),
    {
        self.round_time
    }

    /// The number of distinct operators whose votes make a quorum.
    pub fn quorum_size(&self) -> (quorum_size: usize)
        ensures
            quorum_size == self@.quorum_size,
    {
        self.quorum_size
    }

    /// The operator that runs the instance.
    pub fn operator_id(&self) -> (operator_id: OperatorId)
        ensures
            operator_id == self@.operator_id,
    {
        self.operator_id
    }

    /// Where the instance stands in its life.
    pub fn state(&self) -> (state: &InstanceState)
        ensures
            state@ == self@.status,
    {
        &self.state
    }

    /// Whether the instance is at work.
    pub fn is_running(&self) -> (running: bool)
        ensures
            running == (self@.status is Running),
    {
        match self.state {
            InstanceState::Running => true,
            _ => false,
        }
    }

    /// Whether the instance has decided or was cancelled.
    pub fn is_finished(&self) -> (finished: bool)
        ensures
            finished == (self@.status is Decided || self@.status is Cancelled),
    {
        match self.state {
            InstanceState::Decided(_) => true,
            InstanceState::Cancelled => true,
            _ => false,
        }
    }

    /// The value decided on, once there is one.
    pub fn decided_value(&self) -> (value: Option<&Vec<u8>>)
        ensures
            match value {
                Some(value) => self@.status == Status::Decided(value@),
                None => !(self@.status is Decided),
            },
    {
        match &self.state {
            InstanceState::Decided(value) => Some(value),
            _ => None,
        }
    }

    /// Starts the instance: from idle it goes to work on its round and enters it.
    pub fn start_instance(&mut self) -> (r: Result<Actions, QbftError>)
        requires
            old(self).wf(),
        ensures
            final(self).took(old(self), r, on_start(&old(self).leader_fn(), old(self)@)),
    {
        match self.state {
            InstanceState::Idle => {},
            _ => {
                return Err(QbftError::InvalidState);
            },
        }
        self.state = InstanceState::Running;
        let messages = self.start_round(self.round);
        Ok(Actions { messages, reset_timer: false })
    }

    /// What the instance sends on entering `round`: as its leader it asks for the data to
    /// propose, as any other operator it sends nothing.
    pub fn start_round(&self, round: Round) -> (messages: Vec<OutMessage>)
        ensures
            outbound(messages@) == entry(&self.leader_fn(), self@, round),
    {
        let mut messages: Vec<OutMessage> = Vec::new();
        if self.leader_fn.leader_function(round, self.operator_id, &self.committee) {
            let request = GetData { round, value: Vec::new() };
            assert(request.value@ =~= Seq::<u8>::empty());
            messages.push(OutMessage::GetData(request));
        }
        assert(outbound(messages@) =~= entry(&self.leader_fn(), self@, round));
        messages
    }

    /// The round timer has expired: the instance gives up the round, tells the others and
    /// enters the next round.
    pub fn increment_round(&mut self) -> (r: Result<Actions, QbftError>)
        requires
            old(self).wf(),
        ensures
            final(self).took(old(self), r, on_timeout(&old(self).leader_fn(), old(self)@)),
    {
        if !self.is_running() {
            return Err(QbftError::InvalidState);
        }
        if self.round.0 == usize::MAX {
            return Err(QbftError::Exhausted);
        }
        proof {
            lemma_step_wf(&self.leader_fn(), self@, Event::Timeout);
        }
        let given_up = self.round;
        self.votes.record(given_up, MessageKind::RoundChange, self.operator_id, Vec::new());
        self.round = given_up.next();
        self.proposal_accepted = false;
        self.confirm_sent = false;
        let notice = RoundChange { operator_id: self.operator_id, round: given_up, value: Vec::new() };
        let mut messages: Vec<OutMessage> = Vec::new();
        messages.push(OutMessage::RoundChange(notice));
        let mut entering = self.start_round(self.round);
        let ghost first = messages@;
        let ghost rest = entering@;
        messages.append(&mut entering);
        proof {
            assert(messages@ =~= first + rest);
            assert(outbound(messages@) =~= outbound(first) + outbound(rest));
            assert(outbound(first) =~= seq![Outbound::RoundChange(notice@)]);
            assert(notice@.value =~= Seq::<u8>::empty());
        }
        Ok(Actions { messages, reset_timer: true })
    }

    /// The data to propose has arrived.
    pub fn received_data(&mut self, data: GetData) -> (r: Result<Actions, QbftError>)
        requires
            old(self).wf(),
        ensures
            final(self).took(old(self), r, on_data(&old(self).leader_fn(), old(self)@, data@)),
    {
        if !self.is_running() {
            return Err(QbftError::InvalidState);
        }
        if data.round.0 < self.round.0 {
            return Err(QbftError::StaleRound);
        }
        if data.round.0 > self.round.0 {
            return Err(QbftError::FutureRound);
        }
        if !self.leader_fn.leader_function(self.round, self.operator_id, &self.committee) {
            return Err(QbftError::InvalidLeader);
        }
        let proposal = ProposeMessage {
            operator_id: self.operator_id,
            round: self.round,
            value: data.value,
        };
        let mut messages: Vec<OutMessage> = Vec::new();
        messages.push(OutMessage::Propose(proposal));
        assert(outbound(messages@) =~= seq![Outbound::Propose(proposal@)]);
        Ok(Actions { messages, reset_timer: false })
    }

    /// We have received a proposal from someone. We need to:
    ///
    /// 1. Check the proposer is valid and who we expect
    /// 2. Have the proposal checked, unless one was accepted in this round already
    pub fn received_propose(&mut self, propose_message: ProposeMessage) -> (r: Result<Actions, QbftError>)
        requires
            old(self).wf(),
        ensures
            final(self).took(
                old(self),
                r,
                on_propose(&old(self).leader_fn(), old(self)@, propose_message@),
            ),
    {
        if !self.is_running() {
            return Err(QbftError::InvalidState);
        }
        if propose_message.round.0 < self.round.0 {
            return Err(QbftError::StaleRound);
        }
        if propose_message.round.0 > self.round.0 {
            return Err(QbftError::FutureRound);
        }
        if !self.leader_fn.leader_function(self.round, propose_message.operator_id, &self.committee) {
            return Err(QbftError::InvalidLeader);
        }
        if self.proposal_accepted {
            return Err(QbftError::DuplicateProposal);
        }
        if self.validations.exhausted() {
            return Err(QbftError::Exhausted);
        }
        proof {
            self.validations.lemma_wf();
            lemma_step_wf(
                &self.leader_fn(),
                self@,
                Event::Message(Inbound::Propose(propose_message@)),
            );
        }
        let ProposeMessage { operator_id: _, round, value } = propose_message;
        let id = self.validations.insert(round, copy_bytes(&value));
        self.proposal_accepted = true;
        let request = ValidationMessage { id, value, round };
        let mut messages: Vec<OutMessage> = Vec::new();
        messages.push(OutMessage::Validate(request));
        assert(outbound(messages@) =~= seq![Outbound::Validate(request@)]);
        Ok(Actions { messages, reset_timer: false })
    }

    /// The response to a validation request.
    ///
    /// If the proposal fails we drop it, if it is successful, we send a prepare.
    pub fn validate_proposal(&mut self, validation_id: ValidationId, outcome: ValidationOutcome) -> (r:
        Result<Actions, QbftError>)
        requires
            old(self).wf(),
        ensures
            final(self).took(old(self), r, on_validation(old(self)@, validation_id, outcome)),
    {
        if !self.is_running() {
            return Err(QbftError::InvalidState);
        }
        proof {
            lemma_step_wf(
                &self.leader_fn(),
                self@,
                Event::Message(Inbound::Validate(validation_id, outcome)),
            );
        }
        let (round, value) = match self.validations.take(validation_id) {
            Some(entry) => entry,
            None => {
                return Err(QbftError::UnknownValidation);
            },
        };
        let mut messages: Vec<OutMessage> = Vec::new();
        match outcome {
            ValidationOutcome::Success => {
                self.votes.record(round, MessageKind::Prepare, self.operator_id, copy_bytes(&value));
                let prepare_message = PrepareMessage { operator_id: self.operator_id, round, value };
                messages.push(OutMessage::Prepare(prepare_message));
                assert(outbound(messages@) =~= seq![Outbound::Prepare(prepare_message@)]);
            },
            ValidationOutcome::Failure(_) => {
                assert(outbound(messages@) =~= Seq::<Outbound>::empty());
            },
        }
        Ok(Actions { messages, reset_timer: false })
    }

    /// We have received a PREPARE message
    ///
    /// If we have reached quorum then send a CONFIRM
    /// Otherwise store the prepare and wait for quorum.
    pub fn received_prepare(&mut self, prepare_message: PrepareMessage) -> (r: Result<Actions, QbftError>)
        requires
            old(self).wf(),
        ensures
            final(self).took(old(self), r, on_prepare(old(self)@, prepare_message@)),
    {
        if !self.is_running() {
            return Err(QbftError::InvalidState);
        }
        if prepare_message.round.0 < self.round.0 {
            return Err(QbftError::StaleRound);
        }
        proof {
            lemma_step_wf(
                &self.leader_fn(),
                self@,
                Event::Message(Inbound::Prepare(prepare_message@)),
            );
        }
        let PrepareMessage { operator_id, round, value } = prepare_message;
        self.votes.record(round, MessageKind::Prepare, operator_id, copy_bytes(&value));
        let support = self.votes.count_matching(round, MessageKind::Prepare, &value);
        let mut messages: Vec<OutMessage> = Vec::new();
        if round.0 == self.round.0 && !self.confirm_sent && support >= self.quorum_size {
            self.votes.record(round, MessageKind::Confirm, self.operator_id, copy_bytes(&value));
            self.confirm_sent = true;
            let confirm_message = ConfirmMessage { operator_id: self.operator_id, round, value };
            messages.push(OutMessage::Confirm(confirm_message));
            assert(outbound(messages@) =~= seq![Outbound::Confirm(confirm_message@)]);
        } else {
            assert(outbound(messages@) =~= Seq::<Outbound>::empty());
        }
        Ok(Actions { messages, reset_timer: false })
    }

    /// We have received a CONFIRM message
    ///
    /// If we have reached quorum then decide
    /// Otherwise store the confirm and wait for quorum.
    pub fn received_confirm(&mut self, confirm_message: ConfirmMessage) -> (r: Result<Actions, QbftError>)
        requires
            old(self).wf(),
        ensures
            final(self).took(old(self), r, on_confirm(old(self)@, confirm_message@)),
    {
        if !self.is_running() {
            return Err(QbftError::InvalidState);
        }
        if confirm_message.round.0 < self.round.0 {
            return Err(QbftError::StaleRound);
        }
        proof {
            lemma_step_wf(
                &self.leader_fn(),
                self@,
                Event::Message(Inbound::Confirm(confirm_message@)),
            );
        }
        let ConfirmMessage { operator_id, round, value } = confirm_message;
        self.votes.record(round, MessageKind::Confirm, operator_id, copy_bytes(&value));
        let support = self.votes.count_matching(round, MessageKind::Confirm, &value);
        let mut messages: Vec<OutMessage> = Vec::new();
        if support >= self.quorum_size {
            self.votes.clear();
            self.validations.clear();
            self.state = InstanceState::Decided(copy_bytes(&value));
            let decision = DecidedMessage { round, value };
            messages.push(OutMessage::Decided(decision));
            assert(outbound(messages@) =~= seq![Outbound::Decided(decision@)]);
        } else {
            assert(outbound(messages@) =~= Seq::<Outbound>::empty());
        }
        Ok(Actions { messages, reset_timer: false })
    }

    /// We have received a ROUND CHANGE message
    ///
    /// If a quorum has given up a round above ours, move to that round.
    pub fn received_round_change(&mut self, round_change_message: RoundChange) -> (r: Result<
        Actions,
        QbftError,
    >)
        requires
            old(self).wf(),
        ensures
            final(self).took(
                old(self),
                r,
                on_round_change(&old(self).leader_fn(), old(self)@, round_change_message@),
            ),
    {
        if !self.is_running() {
            return Err(QbftError::InvalidState);
        }
        proof {
            lemma_step_wf(
                &self.leader_fn(),
                self@,
                Event::Message(Inbound::RoundChange(round_change_message@)),
            );
        }
        let RoundChange { operator_id, round, value } = round_change_message;
        self.votes.record(round, MessageKind::RoundChange, operator_id, value);
        let gone = self.votes.count_voters(round, MessageKind::RoundChange);
        if round.0 > self.round.0 && gone >= self.quorum_size {
            self.round = round;
            self.proposal_accepted = false;
            self.confirm_sent = false;
            let messages = self.start_round(round);
            Ok(Actions { messages, reset_timer: true })
        } else {
            let messages: Vec<OutMessage> = Vec::new();
            assert(outbound(messages@) =~= Seq::<Outbound>::empty());
            Ok(Actions { messages, reset_timer: false })
        }
    }

    /// Acts on a message, by its kind.
    pub fn handle_message(&mut self, message: InMessage) -> (r: Result<Actions, QbftError>)
        requires
            old(self).wf(),
        ensures
            final(self).took(old(self), r, on_message(&old(self).leader_fn(), old(self)@, message@)),
    {
        match message {
            InMessage::RecvData(received_data) => self.received_data(received_data),
            InMessage::Propose(propose_message) => self.received_propose(propose_message),
            InMessage::Prepare(received_prepare) => self.received_prepare(received_prepare),
            InMessage::Confirm(confirm_message) => self.received_confirm(confirm_message),
            InMessage::Validate(validation_id, outcome) => self.validate_proposal(
                validation_id,
                outcome,
            ),
            InMessage::RoundChange(round_change_message) => self.received_round_change(
                round_change_message,
            ),
        }
    }

    /// Stops an instance that has not decided. Its votes and validations are let go.
    pub fn cancel(&mut self)
        requires
            old(self).wf(),
        ensures
            final(self).wf(),
            final(self).same_setup(old(self)),
            final(self)@ == cancelled(old(self)@),
    {
        if self.is_finished() {
            return ;
        }
        proof {
            lemma_cancelled_wf(self@);
        }
        self.votes.clear();
        self.validations.clear();
        self.state = InstanceState::Cancelled;
    }

    /// Takes note of what the channel answered to a message: if the message was taken the
    /// instance goes on as it is, if not, nothing that the instance sends can be seen any
    /// more and the instance is cancelled.
    pub fn after_send(&mut self, taken: bool) -> (r: Result<(), QbftError>)
        requires
            old(self).wf(),
        ensures
            final(self).wf(),
            final(self).same_setup(old(self)),
            taken ==> r is Ok && final(self)@ == old(self)@,
            !taken ==> r == Err::<(), QbftError>(QbftError::ChannelClosed) && final(self)@
                == cancelled(old(self)@),
    {
        if taken {
            Ok(())
        } else {
            self.cancel();
            Err(QbftError::ChannelClosed)
        }
    }

    /// Sends the messages of `actions`, in order, on the channel of the instance, and tells
    /// whether the round timer is to start anew. With no message to send this always
    /// succeeds. If the channel takes a message no longer, the messages that are left are
    /// dropped and the instance is cancelled.
    pub fn send(&mut self, actions: Actions) -> (r: Result<bool, QbftError>)
        requires
            old(self).wf(),
        ensures
            final(self).wf(),
            final(self).same_setup(old(self)),
            actions.messages@.len() == 0 ==> r == Ok::<bool, QbftError>(actions.reset_timer),
            match r {
                Ok(reset_timer) => reset_timer == actions.reset_timer && final(self)@ == old(self)@,
                Err(reason) => reason == QbftError::ChannelClosed && final(self)@ == cancelled(
                    old(self)@,
                ),
            },
    {
        let Actions { messages, reset_timer } = actions;
        if messages.len() == 0 {
            return Ok(reset_timer);
        }
        for message in messages
            invariant
                actions.messages@.len() > 0,
                self.wf(),
                self.same_setup(old(self)),
                self@ == old(self)@,
        {
            let taken = send_message(&self.message_out, message);
            match self.after_send(taken) {
                Ok(()) => {},
                Err(reason) => {
                    return Err(reason);
                },
            }
        }
        Ok(reset_timer)
    }
}

} // verus!
