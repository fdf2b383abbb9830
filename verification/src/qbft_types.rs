//! Identifier types shared by the consensus modules.

use std::cmp::Ordering;
use vstd::prelude::*;

verus! {

/// One attempt at agreeing on a value. Within an instance the round never decreases.
#[derive(Clone, Copy, Debug, PartialEq, Eq, Structural, Hash)]
pub struct Round(pub usize);

impl Round {
    /// Returns the next round.
    pub fn next(&self) -> (r: Round)
        requires
            self.0 < usize::MAX,
        ensures
            r.0 == self.0 + 1,
    {
        Round(self.0 + 1)
    }

    /// Sets the current round.
    pub fn set(&mut self, round: Round)
        ensures
            *final(self) == round,
    {
        *self = round;
    }
}

impl Default for Round {
    /// The first round of an instance.
    fn default() -> (r: Round)
        ensures
            r.0 == 0,
    {
        Round(0)
    }
}

impl core::ops::Deref for Round {
    type Target = usize;

    fn deref(&self) -> (v: &usize)
        ensures
            *v == self.0,
    {
        &self.0
    }
}

impl core::ops::Add for Round {
    type Output = Round;

    fn add(self, rhs: Round) -> (sum: Round) {
        Round(self.0 + rhs.0)
    }
}

impl vstd::std_specs::ops::AddSpecImpl for Round {
    open spec fn obeys_add_spec() -> bool {
        true
    }

    open spec fn add_req(self, rhs: Round) -> bool {
        self.0 + rhs.0 <= usize::MAX
    }

    open spec fn add_spec(self, rhs: Round) -> Round {
        Round((self.0 + rhs.0) as usize)
    }
}

impl PartialOrd for Round {
    fn partial_cmp(&self, other: &Round) -> (r: Option<Ordering>) {
        if self.0 < other.0 {
            Some(Ordering::Less)
        } else if self.0 == other.0 {
            Some(Ordering::Equal)
        } else {
            Some(Ordering::Greater)
        }
    }
}

impl vstd::std_specs::cmp::PartialOrdSpecImpl for Round {
    open spec fn obeys_partial_cmp_spec() -> bool {
        true
    }

    open spec fn partial_cmp_spec(&self, other: &Round) -> Option<Ordering> {
        if self.0 < other.0 {
            Some(Ordering::Less)
        } else if self.0 == other.0 {
            Some(Ordering::Equal)
        } else {
            Some(Ordering::Greater)
        }
    }
}

/// The operator that is participating in the consensus instance.
#[derive(Clone, Copy, Debug, PartialEq, Eq, Structural, Hash)]
pub struct OperatorId(pub usize);

impl Default for OperatorId {
    fn default() -> (id: OperatorId)
        ensures
            id.0 == 0,
    {
        OperatorId(0)
    }
}

impl From<usize> for OperatorId {
    fn from(value: usize) -> (id: OperatorId) {
        OperatorId(value)
    }
}

impl vstd::std_specs::convert::FromSpecImpl<usize> for OperatorId {
    open spec fn obeys_from_spec() -> bool {
        true
    }

    open spec fn from_spec(value: usize) -> OperatorId {
        OperatorId(value)
    }
}

impl core::ops::Deref for OperatorId {
    type Target = usize;

    fn deref(&self) -> (v: &usize)
        ensures
            *v == self.0,
    {
        &self.0
    }
}

/// The instance height behaves like an identifier of the consensus instance. It tells apart
/// different instances that are run by the same operators.
#[derive(Clone, Copy, Debug)]
pub struct InstanceHeight(pub usize);

impl Default for InstanceHeight {
    fn default() -> (h: InstanceHeight)
        ensures
            h.0 == 0,
    {
        InstanceHeight(0)
    }
}

impl core::ops::Deref for InstanceHeight {
    type Target = usize;

    fn deref(&self) -> (v: &usize)
        ensures
            *v == self.0,
    {
        &self.0
    }
}

} // verus!
