//! What an instance is built from.

use crate::qbft::error::QbftError;
use crate::qbft::leader::LeaderFunction;
use crate::qbft_types::{InstanceHeight, OperatorId, Round};
use std::time::Duration;
use vstd::prelude::*;

verus! {

/// The settings of one consensus instance. They are fixed for its lifetime.
pub struct Config<F: LeaderFunction> {
    /// Tells the instance apart from others run by the same operators.
    pub instance_height: InstanceHeight,
    /// The operator that runs the instance.
    pub operator_id: OperatorId,
    /// The operators that take part, in the order that leadership goes by.
    pub committee: Vec<OperatorId>,
    /// The number of distinct operators whose votes make a quorum.
    pub quorum_size: usize,
    /// The round in which the instance starts.
    pub round: Round,
    /// How long a round may last.
    pub round_time: Duration,
    /// Names the leader of each round.
    pub leader_fn: F,
}

impl<F: LeaderFunction> Config<F> {
    /// A quorum can be reached: its size is not zero and not above that of the committee.
    pub open spec fn valid(&self) -> bool {
        0 < self.quorum_size <= self.committee@.len()
    }

    /// Checks that a quorum can be reached.
    pub fn validate(&self) -> (r: Result<(), QbftError>)
        ensures
            r is Ok <==> self.valid(),
            r is Err ==> r == Err::<(), QbftError>(QbftError::ConfigInvalid),
    {
        if self.quorum_size == 0 || self.quorum_size > self.committee.len() {
            Err(QbftError::ConfigInvalid)
        } else {
            Ok(())
        }
    }
}

/// Puts a configuration together step by step and checks it at the end.
pub struct ConfigBuilder<F: LeaderFunction> {
    config: Config<F>,
}

impl<F: LeaderFunction> ConfigBuilder<F> {
    /// The configuration as it stands.
    pub closed spec fn config(&self) -> Config<F> {
        self.config
    }

    /// Starts from instance height 0, operator 0, round 0, an empty committee and a quorum
    /// size of 0: the committee and the quorum size have to be set before `build`.
    pub fn new(round_time: Duration, leader_fn: F) -> (builder: Self)
        ensures
            builder.config().instance_height.0 == 0,
            builder.config().operator_id.0 == 0,
            builder.config().committee@ == Seq::<OperatorId>::empty(),
            builder.config().quorum_size == 0,
            builder.config().round.0 == 0,
            builder.config().round_time == round_time,
            builder.config().leader_fn == leader_fn,
    {
        ConfigBuilder {
            config: Config {
                instance_height: InstanceHeight(0),
                operator_id: OperatorId(0),
                committee: Vec::new(),
                quorum_size: 0,
                round: Round(0),
                round_time,
                leader_fn,
            },
        }
    }

    pub fn instance_height(self, instance_height: InstanceHeight) -> (builder: Self)
        ensures
            builder.config() == (Config { instance_height, ..self.config() }),
    {
        ConfigBuilder { config: Config { instance_height, ..self.config } }
    }

    pub fn operator_id(self, operator_id: OperatorId) -> (builder: Self)
        ensures
            builder.config() == (Config { operator_id, ..self.config() }),
    {
        ConfigBuilder { config: Config { operator_id, ..self.config } }
    }

    pub fn committee(self, committee: Vec<OperatorId>) -> (builder: Self)
        ensures
            builder.config() == (Config { committee, ..self.config() }),
    {
        ConfigBuilder { config: Config { committee, ..self.config } }
    }

    pub fn quorum_size(self, quorum_size: usize) -> (builder: Self)
        ensures
            builder.config() == (Config { quorum_size, ..self.config() }),
    {
        ConfigBuilder { config: Config { quorum_size, ..self.config } }
    }

    pub fn round(self, round: Round) -> (builder: Self)
        ensures
            builder.config() == (Config { round, ..self.config() }),
    {
        ConfigBuilder { config: Config { round, ..self.config } }
    }

    pub fn round_time(self, round_time: Duration) -> (builder: Self)
        ensures
            builder.config() == (Config { round_time, ..self.config() }),
    {
        ConfigBuilder { config: Config { round_time, ..self.config } }
    }

    /// Hands out the configuration if a quorum can be reached with it.
    pub fn build(self) -> (r: Result<Config<F>, QbftError>)
        ensures
            match r {
                Ok(config) => config == self.config() && config.valid(),
                Err(reason) => reason == QbftError::ConfigInvalid && !self.config().valid(),
            },
    {
        match self.config.validate() {
            Ok(()) => Ok(self.config),
            Err(reason) => Err(reason),
        }
    }
}

} // verus!
