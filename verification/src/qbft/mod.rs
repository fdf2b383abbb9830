//! The consensus instance and the parts it is built from.

pub mod bytes;
pub mod channel;
pub mod config;
pub mod error;
pub mod instance;
pub mod leader;
pub mod messages;
pub mod model;
pub mod quorum;
pub mod validation;

pub use config::{Config, ConfigBuilder};
pub use error::QbftError;
pub use instance::{Actions, InstanceState, QBFT};
pub use leader::{LeaderFunction, LeaderFunctionStubStruct};
pub use messages::{ConfirmMessage, DecidedMessage, GetData, InMessage, OutMessage, PrepareMessage};
pub use messages::{ProposeMessage, RoundChange, ValidationError, ValidationMessage, ValidationOutcome};
pub use quorum::{MessageKind, QuorumStore};
pub use validation::{ValidationId, ValidationTracker};
