//! The channels that carry messages to and from an instance.

use crate::qbft::messages::{InMessage, OutMessage};
use tokio::sync::mpsc::{UnboundedReceiver, UnboundedSender};
use vstd::prelude::*;

verus! {

/// `tokio::sync::mpsc::UnboundedSender`, the sending end of a channel without a bound.
/// Nothing inside it is visible here.
#[verifier::external_type_specification]
#[verifier::external_body]
#[verifier::reject_recursive_types(T)]
pub struct ExUnboundedSender<T>(UnboundedSender<T>);

/// `tokio::sync::mpsc::UnboundedReceiver`, the receiving end of a channel without a bound.
/// Nothing inside it is visible here.
#[verifier::external_type_specification]
#[verifier::external_body]
#[verifier::reject_recursive_types(T)]
pub struct ExUnboundedReceiver<T>(UnboundedReceiver<T>);

/// Calls `tokio::sync::mpsc::unbounded_channel` for the messages that an instance
/// receives. Nothing is claimed of the two ends.
#[verifier::external_body]
pub(crate) fn inbound_channel() -> (ends: (UnboundedSender<InMessage>, UnboundedReceiver<InMessage>)) {
    tokio::sync::mpsc::unbounded_channel()
}

/// Calls `UnboundedSender::send` and tells whether the message was taken. It is not taken
/// once the receiving end is closed or dropped, which is not for the sender to know
/// beforehand: nothing is claimed of the result.
#[verifier::external_body]
pub(crate) fn send_message(sender: &UnboundedSender<OutMessage>, message: OutMessage) -> (taken: bool) {
    sender.send(message).is_ok()
}

} // verus!
