//! Who leads a round.

use crate::qbft_types::{OperatorId, Round};
use vstd::prelude::*;

verus! {

/// The strategy that names the leader of each round. The leader depends on the round and
/// the committee alone, so every operator arrives at the same one without talking to the
/// others.
pub trait LeaderFunction {
    /// Whose turn it is to lead `round`: a place in the committee, counted from zero and
    /// taken modulo the size of the committee. Unless a strategy says otherwise the rounds
    /// go through the committee in the order in which its members are listed.
    open spec fn turn(&self, round: Round, committee: Seq<OperatorId>) -> nat {
        round.0 as nat
    }

    /// Returns true if `operator` leads `round`. An empty committee has no leader.
    fn leader_function(&self, round: Round, operator: OperatorId, committee: &Vec<OperatorId>) -> (is_leader:
        bool)
        ensures
            is_leader == (committee@.len() > 0 && operator == committee@[(self.turn(
                round,
                committee@,
            ) % committee@.len()) as int]),
    ;
}

/// The leader of `round` under the strategy `leader_fn`, among a committee that is not
/// empty.
pub open spec fn leader<F: LeaderFunction>(
    leader_fn: &F,
    round: Round,
    committee: Seq<OperatorId>,
) -> OperatorId {
    committee[(leader_fn.turn(round, committee) % committee.len()) as int]
}

/// Whether `operator` leads `round` under the strategy `leader_fn`: what `leader_function`
/// returns.
pub open spec fn leads<F: LeaderFunction>(
    leader_fn: &F,
    round: Round,
    operator: OperatorId,
    committee: Seq<OperatorId>,
) -> bool {
    committee.len() > 0 && operator == leader(leader_fn, round, committee)
}

/// Whatever the strategy, a round of a committee that is not empty has exactly one leader:
/// it is a member of the committee, and no other operator leads the round.
pub proof fn lemma_exactly_one_leader<F: LeaderFunction>(
    leader_fn: &F,
    round: Round,
    committee: Seq<OperatorId>,
)
    requires
        committee.len() > 0,
    ensures
        committee.contains(leader(leader_fn, round, committee)),
        leads(leader_fn, round, leader(leader_fn, round, committee), committee),
        forall|a: OperatorId, b: OperatorId|
            leads(leader_fn, round, a, committee) && leads(leader_fn, round, b, committee) ==> a
                == b,
{
    let turn = (leader_fn.turn(round, committee) % committee.len()) as int;
    assert(0 <= turn < committee.len()) by (nonlinear_arith)
        requires
            turn == (leader_fn.turn(round, committee) % committee.len()) as int,
            committee.len() > 0,
    ;
    assert(committee[turn] == leader(leader_fn, round, committee));
}

/// Round-robin leadership: the rounds go through the committee in the order in which its
/// members are listed, and start over after the last.
#[derive(Clone, Copy, Debug)]
pub struct LeaderFunctionStubStruct {}

impl LeaderFunctionStubStruct {
    pub fn new() -> (leader_fn: Self)
        ensures
            leader_fn == (LeaderFunctionStubStruct {  }),
    {
        LeaderFunctionStubStruct {  }
    }
}

impl Default for LeaderFunctionStubStruct {
    fn default() -> (leader_fn: Self)
        ensures
            leader_fn == (LeaderFunctionStubStruct {  }),
    {
        LeaderFunctionStubStruct {  }
    }
}

impl LeaderFunction for LeaderFunctionStubStruct {
    fn leader_function(&self, round: Round, operator: OperatorId, committee: &Vec<OperatorId>) -> (is_leader:
        bool) {
        if committee.len() == 0 {
            return false;
        }
        let turn: usize = round.0 % committee.len();
        committee[turn] == operator
    }
}

/// Under round-robin leadership the leader of a round is the member whose place in the
/// committee is the round modulo the size of the committee.
pub proof fn lemma_round_robin(round: Round, committee: Seq<OperatorId>)
    requires
        committee.len() > 0,
    ensures
        leader(&LeaderFunctionStubStruct {  }, round, committee) == committee[(round.0 as int) % (
        committee.len() as int)],
{
}

} // verus!
