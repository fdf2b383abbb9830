//! The messages that an instance receives and sends.

use crate::qbft::validation::ValidationId;
use crate::qbft_types::{OperatorId, Round};
use vstd::prelude::*;

verus! {

/// What a message of an operator says: who sent it, for which round, and the value.
pub struct Ballot {
    pub operator_id: OperatorId,
    pub round: Round,
    pub value: Seq<u8>,
}

/// A value together with the round that it belongs to.
pub struct Payload {
    pub round: Round,
    pub value: Seq<u8>,
}

/// What a request for validation says.
pub struct ValidationRequest {
    pub id: ValidationId,
    pub round: Round,
    pub value: Seq<u8>,
}

/// The round has ended: the sender moves on from `round`.
#[derive(Clone, Debug, PartialEq, Eq)]
pub struct RoundChange {
    pub operator_id: OperatorId,
    pub round: Round,
    pub value: Vec<u8>,
}

/// A request for the data to propose in `round`, with an empty value, or the answer to it.
#[derive(Clone, Debug, PartialEq, Eq)]
pub struct GetData {
    pub round: Round,
    pub value: Vec<u8>,
}

/// The leader of `round` proposes `value`.
#[derive(Clone, Debug, PartialEq, Eq)]
pub struct ProposeMessage {
    pub operator_id: OperatorId,
    pub round: Round,
    pub value: Vec<u8>,
}

/// The sender holds `value` to be a valid proposal of `round`.
#[derive(Clone, Debug, PartialEq, Eq)]
pub struct PrepareMessage {
    pub operator_id: OperatorId,
    pub round: Round,
    pub value: Vec<u8>,
}

/// The sender has seen a quorum prepare `value` in `round`.
#[derive(Clone, Debug, PartialEq, Eq)]
pub struct ConfirmMessage {
    pub operator_id: OperatorId,
    pub round: Round,
    pub value: Vec<u8>,
}

/// A request to check the value proposed in `round`. The outcome comes back under `id`.
#[derive(Clone, Debug, PartialEq, Eq)]
pub struct ValidationMessage {
    pub id: ValidationId,
    pub value: Vec<u8>,
    pub round: Round,
}

/// The instance has decided on `value`, with the votes of `round`.
#[derive(Clone, Debug, PartialEq, Eq)]
pub struct DecidedMessage {
    pub round: Round,
    pub value: Vec<u8>,
}

/// The outcome of the validation of a proposal.
#[derive(Clone, Copy, Debug, PartialEq, Eq, Structural)]
pub enum ValidationOutcome {
    Success,
    Failure(ValidationError),
}

/// Why a proposal was found invalid.
#[derive(Clone, Copy, Debug, PartialEq, Eq, Structural)]
pub enum ValidationError {
    /// The beacon node does not know the value.
    LighthouseSaysNo,
    /// The value does not exist.
    DidNotExist,
}

/// Messages that an instance receives.
#[derive(Clone, Debug, PartialEq, Eq)]
pub enum InMessage {
    /// The data to propose, in answer to a request of the instance as leader.
    RecvData(GetData),
    /// A proposal from the network.
    Propose(ProposeMessage),
    /// A prepare vote from the network.
    Prepare(PrepareMessage),
    /// A confirm vote from the network.
    Confirm(ConfirmMessage),
    /// The outcome of a validation that the instance asked for.
    Validate(ValidationId, ValidationOutcome),
    /// A round change from the network.
    RoundChange(RoundChange),
}

/// Messages that an instance sends.
#[derive(Clone, Debug, PartialEq, Eq)]
pub enum OutMessage {
    /// A request for the data to propose, sent by the leader of a round.
    GetData(GetData),
    /// A proposal for the network.
    Propose(ProposeMessage),
    /// A prepare vote for the network.
    Prepare(PrepareMessage),
    /// A confirm vote for the network.
    Confirm(ConfirmMessage),
    /// A request to check a proposal.
    Validate(ValidationMessage),
    /// The round has ended: tells the network.
    RoundChange(RoundChange),
    /// The decision of the instance.
    Decided(DecidedMessage),
}

/// What an `InMessage` says.
pub enum Inbound {
    RecvData(Payload),
    Propose(Ballot),
    Prepare(Ballot),
    Confirm(Ballot),
    Validate(ValidationId, ValidationOutcome),
    RoundChange(Ballot),
}

/// What an `OutMessage` says.
pub enum Outbound {
    GetData(Payload),
    Propose(Ballot),
    Prepare(Ballot),
    Confirm(Ballot),
    Validate(ValidationRequest),
    RoundChange(Ballot),
    Decided(Payload),
}

impl View for RoundChange {
    type V = Ballot;

    open spec fn view(&self) -> Ballot {
        Ballot { operator_id: self.operator_id, round: self.round, value: self.value@ }
    }
}

impl View for ProposeMessage {
    type V = Ballot;

    open spec fn view(&self) -> Ballot {
        Ballot { operator_id: self.operator_id, round: self.round, value: self.value@ }
    }
}

impl View for PrepareMessage {
    type V = Ballot;

    open spec fn view(&self) -> Ballot {
        Ballot { operator_id: self.operator_id, round: self.round, value: self.value@ }
    }
}

impl View for ConfirmMessage {
    type V = Ballot;

    open spec fn view(&self) -> Ballot {
        Ballot { operator_id: self.operator_id, round: self.round, value: self.value@ }
    }
}

impl View for GetData {
    type V = Payload;

    open spec fn view(&self) -> Payload {
        Payload { round: self.round, value: self.value@ }
    }
}

impl View for DecidedMessage {
    type V = Payload;

    open spec fn view(&self) -> Payload {
        Payload { round: self.round, value: self.value@ }
    }
}

impl View for ValidationMessage {
    type V = ValidationRequest;

    open spec fn view(&self) -> ValidationRequest {
        ValidationRequest { id: self.id, round: self.round, value: self.value@ }
    }
}

impl View for InMessage {
    type V = Inbound;

    open spec fn view(&self) -> Inbound {
        match *self {
            InMessage::RecvData(m) => Inbound::RecvData(m@),
            InMessage::Propose(m) => Inbound::Propose(m@),
            InMessage::Prepare(m) => Inbound::Prepare(m@),
            InMessage::Confirm(m) => Inbound::Confirm(m@),
            InMessage::Validate(id, outcome) => Inbound::Validate(id, outcome),
            InMessage::RoundChange(m) => Inbound::RoundChange(m@),
        }
    }
}

impl View for OutMessage {
    type V = Outbound;

    open spec fn view(&self) -> Outbound {
        match *self {
            OutMessage::GetData(m) => Outbound::GetData(m@),
            OutMessage::Propose(m) => Outbound::Propose(m@),
            OutMessage::Prepare(m) => Outbound::Prepare(m@),
            OutMessage::Confirm(m) => Outbound::Confirm(m@),
            OutMessage::Validate(m) => Outbound::Validate(m@),
            OutMessage::RoundChange(m) => Outbound::RoundChange(m@),
            OutMessage::Decided(m) => Outbound::Decided(m@),
        }
    }
}

/// What a list of messages says, message by message.
pub open spec fn outbound(messages: Seq<OutMessage>) -> Seq<Outbound> {
    messages.map_values(|m: OutMessage| m@)
}

} // verus!
