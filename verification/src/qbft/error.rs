//! Why an event was not acted on.

use vstd::prelude::*;

verus! {

/// The reasons for which the instance refuses an event or cannot be built. All but
/// `ChannelClosed` and `ConfigInvalid` concern a single event: the event is dropped and the
/// instance goes on.
#[derive(Clone, Copy, Debug, PartialEq, Eq, Structural)]
pub enum QbftError {
    /// A proposal came from an operator that does not lead the round, or data to propose
    /// reached an instance that does not lead it.
    InvalidLeader,
    /// A validation outcome names a request that is not outstanding.
    UnknownValidation,
    /// The message belongs to a round below the current one.
    StaleRound,
    /// The message belongs to a round above the current one and cannot be acted on yet.
    FutureRound,
    /// A proposal was already accepted in the round.
    DuplicateProposal,
    /// The event does not apply to the instance as it stands: it has not been started, was
    /// started before, has decided or was cancelled.
    InvalidState,
    /// The round or the validation identifiers have reached the largest value they can hold.
    Exhausted,
    /// Nobody listens to what the instance sends.
    ChannelClosed,
    /// The quorum size is zero or larger than the committee.
    ConfigInvalid,
}

impl QbftError {
    /// Whether the error ends the instance, or keeps it from starting. Every other error
    /// costs one event only.
    pub fn is_fatal(&self) -> (fatal: bool)
        ensures
            fatal == (*self == QbftError::ChannelClosed || *self == QbftError::ConfigInvalid),
    {
        match self {
            QbftError::ChannelClosed => true,
            QbftError::ConfigInvalid => true,
            _ => false,
        }
    }
}

} // verus!
