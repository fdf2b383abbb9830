//! The envelopes in which consensus messages travel on the network.

use crate::qbft_types::OperatorId;
use vstd::prelude::*;

verus! {

/// The public key of a validator, 48 bytes long.
pub struct ValdiatorPK {
    pub key: [u8; 48],
}

/// The share of a validator's public key that one operator holds, 48 bytes long.
pub struct ShareValidatorPK {
    pub key: [u8; 48],
}

/// Identifies what a message is about.
#[derive(Debug, Clone)]
pub struct MessageID([u8; 56]);

impl MessageID {
    /// The bytes of the identifier.
    pub closed spec fn bytes(&self) -> [u8; 56] {
        self.0
    }

    pub fn new(bytes: [u8; 56]) -> (id: Self)
        ensures
            id.bytes() == bytes,
    {
        MessageID(bytes)
    }

    pub fn as_bytes(&self) -> (bytes: &[u8; 56])
        ensures
            *bytes == self.bytes(),
    {
        &self.0
    }
}

/// What kind of message an envelope holds.
#[derive(Debug, Clone, Copy, PartialEq, Eq, Structural)]
pub enum MsgType {
    /// QBFT related consensus messages
    SSVConsensusMsgType,
    /// Partial signature messages
    SSVPartialSignatureMsgType,
}

/// The main message passed within the network: a payload with its kind and identifier.
#[derive(Debug, Clone)]
pub struct SSVMessage<D> {
    msg_type: MsgType,
    msg_id: MessageID,
    data: D,
}

impl<D> SSVMessage<D> {
    pub closed spec fn kind(&self) -> MsgType {
        self.msg_type
    }

    pub closed spec fn id(&self) -> MessageID {
        self.msg_id
    }

    pub closed spec fn payload(&self) -> D {
        self.data
    }

    pub fn new(msg_type: MsgType, msg_id: MessageID, data: D) -> (message: Self)
        ensures
            message.kind() == msg_type,
            message.id() == msg_id,
            message.payload() == data,
    {
        SSVMessage { msg_type, msg_id, data }
    }

    pub fn msg_type(&self) -> (msg_type: MsgType)
        ensures
            msg_type == self.kind(),
    {
        self.msg_type
    }

    pub fn msg_id(&self) -> (msg_id: &MessageID)
        ensures
            *msg_id == self.id(),
    {
        &self.msg_id
    }

    pub fn data(&self) -> (data: &D)
        ensures
            *data == self.payload(),
    {
        &self.data
    }
}

/// A message passed within the network together with who signed it.
pub struct SignedSSVMessage {
    signatures: usize,
    operator_ids: Vec<OperatorId>,
}

impl SignedSSVMessage {
    /// The number of signatures.
    pub closed spec fn signature_count(&self) -> usize {
        self.signatures
    }

    /// The operators that signed.
    pub closed spec fn signers(&self) -> Seq<OperatorId> {
        self.operator_ids@
    }

    pub fn new(signatures: usize, operator_ids: Vec<OperatorId>) -> (message: Self)
        ensures
            message.signature_count() == signatures,
            message.signers() == operator_ids@,
    {
        SignedSSVMessage { signatures, operator_ids }
    }

    pub fn signatures(&self) -> (signatures: usize)
        ensures
            signatures == self.signature_count(),
    {
        self.signatures
    }

    pub fn operator_ids(&self) -> (operator_ids: &Vec<OperatorId>)
        ensures
            operator_ids@ == self.signers(),
    {
        &self.operator_ids
    }
}

} // verus!
