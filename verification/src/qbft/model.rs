//! The instance as a state machine: what each event does to the state and what is sent.

use crate::qbft::error::QbftError;
use crate::qbft::leader::{leads, LeaderFunction};
use crate::qbft::messages::{Ballot, Inbound, Outbound, Payload, ValidationRequest};
use crate::qbft::messages::{ValidationOutcome};
use crate::qbft::quorum::{cast, countable, tally, turnout, MessageKind, VoteKey, Votes};
use crate::qbft::quorum::{lemma_cast_countable, lemma_cast_voters, lemma_empty_countable, voters};
use crate::qbft::validation::{ValidationId, Validations};
use crate::qbft_types::{OperatorId, Round};
use vstd::prelude::*;

verus! {

/// Where an instance stands in its life.
pub enum Status {
    /// Built, not started.
    Idle,
    /// At work on the current round.
    Running,
    /// Agreement was reached on the value.
    Decided(Seq<u8>),
    /// Stopped without a decision.
    Cancelled,
}

/// The state of an instance.
pub struct Instance {
    /// The operator that runs the instance.
    pub operator_id: OperatorId,
    /// The operators that take part, in the order that leadership goes by.
    pub committee: Seq<OperatorId>,
    /// The number of distinct operators whose votes make a quorum.
    pub quorum_size: nat,
    /// The current round.
    pub round: Round,
    pub status: Status,
    /// Whether a proposal was accepted in the current round.
    pub proposal_accepted: bool,
    /// Whether a confirm was sent in the current round.
    pub confirm_sent: bool,
    /// The votes recorded.
    pub votes: Votes,
    /// The proposals under validation.
    pub validations: Validations,
}

/// What an instance hands to its surroundings after an event.
pub struct Effects {
    /// The messages to send, in order.
    pub messages: Seq<Outbound>,
    /// Whether the round timer starts its interval anew.
    pub reset_timer: bool,
}

/// What an event leads to: the state after it and, if the event was acted on, the effects.
/// An event that is refused leaves the state as it was.
pub struct Step {
    pub next: Instance,
    pub result: Result<Effects, QbftError>,
}

/// What can happen to an instance.
pub enum Event {
    /// The instance is started.
    Start,
    /// The round timer has expired.
    Timeout,
    /// A message has arrived.
    Message(Inbound),
}

impl Instance {
    /// The state is sound: it is consistent, and the instance has caught up with every
    /// round change that it has seen.
    pub open spec fn wf(self) -> bool {
        self.consistent() && caught_up(self)
    }

    /// A quorum is possible, every tally is a number, every awaited validation carries an
    /// identifier that was handed out, an instance that has finished holds neither votes
    /// nor validations, and an instance that was not started holds neither, has handed out
    /// no identifier and has set no mark of the round.
    pub open spec fn consistent(self) -> bool {
        &&& 0 < self.quorum_size <= self.committee.len()
        &&& countable(self.votes)
        &&& self.validations.issued <= usize::MAX
        &&& forall|id: ValidationId|
            self.validations.pending.contains_key(id) ==> id < self.validations.issued
        &&& (self.status is Decided || self.status is Cancelled) ==> {
            &&& self.votes == Map::<VoteKey, Seq<u8>>::empty()
            &&& self.validations.pending == Map::<ValidationId, (Round, Seq<u8>)>::empty()
        }
        &&& self.status is Idle ==> {
            &&& self.votes == Map::<VoteKey, Seq<u8>>::empty()
            &&& self.validations == (Validations { issued: 0, pending: Map::empty() })
            &&& !self.proposal_accepted
            &&& !self.confirm_sent
        }
    }

    /// The state in which the round is `round`, with the marks of the round cleared.
    pub open spec fn at_round(self, round: Round) -> Instance {
        Instance { round, proposal_accepted: false, confirm_sent: false, ..self }
    }

    /// The state with one more vote.
    pub open spec fn with_vote(self, kind: MessageKind, vote: Ballot) -> Instance {
        Instance { votes: cast(self.votes, vote.round, kind, vote.operator_id, vote.value), ..self }
    }

    /// The state with the vote of the instance's own operator for `value` in `round`.
    pub open spec fn with_own_vote(self, kind: MessageKind, round: Round, value: Seq<u8>) -> Instance {
        self.with_vote(kind, Ballot { operator_id: self.operator_id, round, value })
    }

    /// The state after the instance has finished with `status`: the votes and the awaited
    /// validations are let go.
    pub open spec fn finished(self, status: Status) -> Instance {
        Instance {
            status,
            votes: Map::empty(),
            validations: Validations { issued: self.validations.issued, pending: Map::empty() },
            ..self
        }
    }
}

/// The state of an instance that was built and not started.
pub open spec fn initial(
    operator_id: OperatorId,
    committee: Seq<OperatorId>,
    quorum_size: nat,
    round: Round,
) -> Instance {
    Instance {
        operator_id,
        committee,
        quorum_size,
        round,
        status: Status::Idle,
        proposal_accepted: false,
        confirm_sent: false,
        votes: Map::empty(),
        validations: Validations { issued: 0, pending: Map::empty() },
    }
}

/// The event is refused for `reason`: nothing changes and nothing is sent.
pub open spec fn refused(state: Instance, reason: QbftError) -> Step {
    Step { next: state, result: Err(reason) }
}

/// The event is acted on.
pub open spec fn done(next: Instance, messages: Seq<Outbound>, reset_timer: bool) -> Step {
    Step { next, result: Ok(Effects { messages, reset_timer }) }
}

/// What an instance sends on entering `round`: the leader of the round asks for the data
/// to propose, every other operator sends nothing.
pub open spec fn entry<F: LeaderFunction>(leader_fn: &F, state: Instance, round: Round) -> Seq<
    Outbound,
> {
    if leads(leader_fn, round, state.operator_id, state.committee) {
        seq![Outbound::GetData(Payload { round, value: Seq::empty() })]
    } else {
        Seq::empty()
    }
}

/// The instance is cancelled: a finished instance stays as it is, any other lets go of its
/// votes and validations and stops.
pub open spec fn cancelled(state: Instance) -> Instance {
    if state.status is Decided || state.status is Cancelled {
        state
    } else {
        state.finished(Status::Cancelled)
    }
}

/// Starting an idle instance sets it to work on its round.
pub open spec fn on_start<F: LeaderFunction>(leader_fn: &F, state: Instance) -> Step {
    if !(state.status is Idle) {
        refused(state, QbftError::InvalidState)
    } else {
        done(Instance { status: Status::Running, ..state }, entry(leader_fn, state, state.round), false)
    }
}

/// The round timer expires: the instance tells the others that it gives up the round,
/// records its own round change, moves to the next round and enters it.
pub open spec fn on_timeout<F: LeaderFunction>(leader_fn: &F, state: Instance) -> Step {
    if !(state.status is Running) {
        refused(state, QbftError::InvalidState)
    } else if state.round.0 == usize::MAX {
        refused(state, QbftError::Exhausted)
    } else {
        let next_round = Round((state.round.0 + 1) as usize);
        let own = Ballot { operator_id: state.operator_id, round: state.round, value: Seq::empty() };
        done(
            state.with_vote(MessageKind::RoundChange, own).at_round(next_round),
            seq![Outbound::RoundChange(own)] + entry(leader_fn, state, next_round),
            true,
        )
    }
}

/// The data to propose arrives: the leader of the current round proposes it.
pub open spec fn on_data<F: LeaderFunction>(leader_fn: &F, state: Instance, data: Payload) -> Step {
    if !(state.status is Running) {
        refused(state, QbftError::InvalidState)
    } else if data.round.0 < state.round.0 {
        refused(state, QbftError::StaleRound)
    } else if data.round.0 > state.round.0 {
        refused(state, QbftError::FutureRound)
    } else if !leads(leader_fn, state.round, state.operator_id, state.committee) {
        refused(state, QbftError::InvalidLeader)
    } else {
        done(
            state,
            seq![
                Outbound::Propose(
                    Ballot { operator_id: state.operator_id, round: state.round, value: data.value },
                ),
            ],
            false,
        )
    }
}

/// A proposal arrives: the first proposal of the current round that comes from its leader
/// is handed on for validation under a fresh identifier.
pub open spec fn on_propose<F: LeaderFunction>(leader_fn: &F, state: Instance, proposal: Ballot) -> Step {
    if !(state.status is Running) {
        refused(state, QbftError::InvalidState)
    } else if proposal.round.0 < state.round.0 {
        refused(state, QbftError::StaleRound)
    } else if proposal.round.0 > state.round.0 {
        refused(state, QbftError::FutureRound)
    } else if !leads(leader_fn, state.round, proposal.operator_id, state.committee) {
        refused(state, QbftError::InvalidLeader)
    } else if state.proposal_accepted {
        refused(state, QbftError::DuplicateProposal)
    } else if state.validations.issued >= usize::MAX {
        refused(state, QbftError::Exhausted)
    } else {
        let id = state.validations.issued as ValidationId;
        done(
            Instance {
                proposal_accepted: true,
                validations: Validations {
                    issued: state.validations.issued + 1,
                    pending: state.validations.pending.insert(id, (proposal.round, proposal.value)),
                },
                ..state
            },
            seq![
                Outbound::Validate(
                    ValidationRequest { id, round: proposal.round, value: proposal.value },
                ),
            ],
            false,
        )
    }
}

/// The outcome of a validation arrives: the request is no longer awaited, and if the
/// proposal was found valid the instance votes to prepare it.
pub open spec fn on_validation(state: Instance, id: ValidationId, outcome: ValidationOutcome) -> Step {
    if !(state.status is Running) {
        refused(state, QbftError::InvalidState)
    } else if !state.validations.pending.contains_key(id) {
        refused(state, QbftError::UnknownValidation)
    } else {
        let (round, value) = state.validations.pending[id];
        let settled = Instance {
            validations: Validations {
                issued: state.validations.issued,
                pending: state.validations.pending.remove(id),
            },
            ..state
        };
        match outcome {
            ValidationOutcome::Success => done(
                settled.with_own_vote(MessageKind::Prepare, round, value),
                seq![Outbound::Prepare(Ballot { operator_id: state.operator_id, round, value })],
                false,
            ),
            ValidationOutcome::Failure(_) => done(settled, Seq::empty(), false),
        }
    }
}

/// Whether the vote just recorded completes a quorum to prepare its value in the current
/// round, for which no confirm was sent yet. `state` holds the vote already.
pub open spec fn prepared(state: Instance, vote: Ballot) -> bool {
    &&& vote.round == state.round
    &&& !state.confirm_sent
    &&& tally(state.votes, vote.round, MessageKind::Prepare, vote.value) >= state.quorum_size
}

/// A prepare vote arrives: a vote of a past round is dropped, any other is recorded. If a
/// quorum of operators now prepares the value in the current round, and no confirm was
/// sent in it, the instance votes to confirm the value and says so.
pub open spec fn on_prepare(state: Instance, vote: Ballot) -> Step {
    if !(state.status is Running) {
        refused(state, QbftError::InvalidState)
    } else if vote.round.0 < state.round.0 {
        refused(state, QbftError::StaleRound)
    } else {
        let recorded = state.with_vote(MessageKind::Prepare, vote);
        if prepared(recorded, vote) {
            done(
                Instance {
                    confirm_sent: true,
                    ..recorded.with_own_vote(MessageKind::Confirm, vote.round, vote.value)
                },
                seq![
                    Outbound::Confirm(
                        Ballot { operator_id: state.operator_id, round: vote.round, value: vote.value },
                    ),
                ],
                false,
            )
        } else {
            done(recorded, Seq::empty(), false)
        }
    }
}

/// Whether the vote just recorded completes a quorum to confirm its value. `votes` holds
/// the vote already.
pub open spec fn confirmed(votes: Votes, quorum_size: nat, vote: Ballot) -> bool {
    tally(votes, vote.round, MessageKind::Confirm, vote.value) >= quorum_size
}

/// A confirm vote arrives: a vote of a past round is dropped, any other is recorded. If a
/// quorum of operators now confirms the value, the instance decides on it, makes the
/// decision known and lets go of its votes and validations.
pub open spec fn on_confirm(state: Instance, vote: Ballot) -> Step {
    if !(state.status is Running) {
        refused(state, QbftError::InvalidState)
    } else if vote.round.0 < state.round.0 {
        refused(state, QbftError::StaleRound)
    } else {
        let recorded = state.with_vote(MessageKind::Confirm, vote);
        if confirmed(recorded.votes, state.quorum_size, vote) {
            done(
                state.finished(Status::Decided(vote.value)),
                seq![Outbound::Decided(Payload { round: vote.round, value: vote.value })],
                false,
            )
        } else {
            done(recorded, Seq::empty(), false)
        }
    }
}

/// Whether the round change just recorded lets the instance catch up: a quorum of
/// operators has given up a round above the current one. `state` holds the vote already.
pub open spec fn overtaken(state: Instance, vote: Ballot) -> bool {
    &&& vote.round.0 > state.round.0
    &&& turnout(state.votes, vote.round, MessageKind::RoundChange) >= state.quorum_size
}

/// A round change arrives and is recorded. If a quorum of operators has now given up a
/// round above the current one, the instance moves to that round at once and enters it.
pub open spec fn on_round_change<F: LeaderFunction>(leader_fn: &F, state: Instance, vote: Ballot) -> Step {
    if !(state.status is Running) {
        refused(state, QbftError::InvalidState)
    } else {
        let recorded = state.with_vote(MessageKind::RoundChange, vote);
        if overtaken(recorded, vote) {
            done(recorded.at_round(vote.round), entry(leader_fn, state, vote.round), true)
        } else {
            done(recorded, Seq::empty(), false)
        }
    }
}

/// What a message does, by its kind.
pub open spec fn on_message<F: LeaderFunction>(leader_fn: &F, state: Instance, message: Inbound) -> Step {
    match message {
        Inbound::RecvData(data) => on_data(leader_fn, state, data),
        Inbound::Propose(proposal) => on_propose(leader_fn, state, proposal),
        Inbound::Prepare(vote) => on_prepare(state, vote),
        Inbound::Confirm(vote) => on_confirm(state, vote),
        Inbound::Validate(id, outcome) => on_validation(state, id, outcome),
        Inbound::RoundChange(vote) => on_round_change(leader_fn, state, vote),
    }
}

/// What an event does.
pub open spec fn step<F: LeaderFunction>(leader_fn: &F, state: Instance, event: Event) -> Step {
    match event {
        Event::Start => on_start(leader_fn, state),
        Event::Timeout => on_timeout(leader_fn, state),
        Event::Message(message) => on_message(leader_fn, state, message),
    }
}

/// The messages sent after an event, none if the event was refused.
pub open spec fn sent(step: Step) -> Seq<Outbound> {
    match step.result {
        Ok(effects) => effects.messages,
        Err(_) => Seq::empty(),
    }
}

/// The initial state of a valid configuration is sound.
pub proof fn lemma_initial_wf(
    operator_id: OperatorId,
    committee: Seq<OperatorId>,
    quorum_size: nat,
    round: Round,
)
    requires
        0 < quorum_size <= committee.len(),
    ensures
        initial(operator_id, committee, quorum_size, round).wf(),
{
    lemma_empty_countable();
    lemma_initial_caught_up(operator_id, committee, quorum_size, round);
}

/// Cancelling keeps the state sound.
pub proof fn lemma_cancelled_wf(state: Instance)
    requires
        state.wf(),
    ensures
        cancelled(state).wf(),
        cancelled(state).status is Decided || cancelled(state).status is Cancelled,
{
    lemma_empty_countable();
    let stopped = cancelled(state);
    assert forall|round: Round| round.0 > stopped.round.0 implies #[trigger] turnout(
        stopped.votes,
        round,
        MessageKind::RoundChange,
    ) < stopped.quorum_size by {
        assert(turnout(state.votes, round, MessageKind::RoundChange) < state.quorum_size);
        if stopped != state {
            assert(voters(stopped.votes, round, MessageKind::RoundChange) == Set::<
                OperatorId,
            >::empty());
        }
    }
}

/// No event takes a sound state to an unsound one.
pub proof fn lemma_step_wf<F: LeaderFunction>(leader_fn: &F, state: Instance, event: Event)
    requires
        state.wf(),
    ensures
        step(leader_fn, state, event).next.wf(),
{
    lemma_step_consistent(leader_fn, state, event);
    lemma_step_caught_up(leader_fn, state, event);
}

/// No event takes a consistent state to an inconsistent one.
pub proof fn lemma_step_consistent<F: LeaderFunction>(leader_fn: &F, state: Instance, event: Event)
    requires
        state.consistent(),
    ensures
        step(leader_fn, state, event).next.consistent(),
{
    lemma_empty_countable();
    match event {
        Event::Start => {},
        Event::Timeout => {
            lemma_cast_countable(
                state.votes,
                state.round,
                MessageKind::RoundChange,
                state.operator_id,
                Seq::empty(),
            );
        },
        Event::Message(message) => {
            match message {
                Inbound::RecvData(_) => {},
                Inbound::Propose(_) => {},
                Inbound::Prepare(vote) => {
                    let recorded = state.with_vote(MessageKind::Prepare, vote);
                    lemma_cast_countable(
                        state.votes,
                        vote.round,
                        MessageKind::Prepare,
                        vote.operator_id,
                        vote.value,
                    );
                    lemma_cast_countable(
                        recorded.votes,
                        vote.round,
                        MessageKind::Confirm,
                        state.operator_id,
                        vote.value,
                    );
                },
                Inbound::Confirm(vote) => {
                    lemma_cast_countable(
                        state.votes,
                        vote.round,
                        MessageKind::Confirm,
                        vote.operator_id,
                        vote.value,
                    );
                },
                Inbound::Validate(id, outcome) => {
                    if state.validations.pending.contains_key(id) {
                        let (round, value) = state.validations.pending[id];
                        lemma_cast_countable(
                            state.votes,
                            round,
                            MessageKind::Prepare,
                            state.operator_id,
                            value,
                        );
                    }
                },
                Inbound::RoundChange(vote) => {
                    lemma_cast_countable(
                        state.votes,
                        vote.round,
                        MessageKind::RoundChange,
                        vote.operator_id,
                        vote.value,
                    );
                },
            }
        },
    }
}

/// An event that is refused changes nothing, and nothing is sent for it.
pub proof fn lemma_refused_changes_nothing<F: LeaderFunction>(
    leader_fn: &F,
    state: Instance,
    event: Event,
)
    ensures
        step(leader_fn, state, event).result is Err ==> step(leader_fn, state, event).next == state,
{
}

/// An instance that has decided or was cancelled refuses every event: it takes no further
/// message and stays as it is.
pub proof fn lemma_finished_is_final<F: LeaderFunction>(leader_fn: &F, state: Instance, event: Event)
    requires
        state.status is Decided || state.status is Cancelled,
    ensures
        step(leader_fn, state, event) == refused(state, QbftError::InvalidState),
{
}

/// A confirm is sent only for a prepare vote of the current round, and only once a quorum
/// of distinct operators, that vote counted, prepares the very value that is confirmed.
pub proof fn lemma_confirm_follows_prepare_quorum<F: LeaderFunction>(
    leader_fn: &F,
    state: Instance,
    event: Event,
    confirm: Ballot,
)
    requires
        sent(step(leader_fn, state, event)).contains(Outbound::Confirm(confirm)),
    ensures
        event matches Event::Message(Inbound::Prepare(vote)) && {
            &&& vote.round == state.round
            &&& confirm == (Ballot {
                operator_id: state.operator_id,
                round: state.round,
                value: vote.value,
            })
            &&& tally(
                cast(
                    state.votes,
                    vote.round,
                    MessageKind::Prepare,
                    vote.operator_id,
                    vote.value,
                ),
                state.round,
                MessageKind::Prepare,
                confirm.value,
            ) >= state.quorum_size
        },
        tally(
            step(leader_fn, state, event).next.votes,
            state.round,
            MessageKind::Prepare,
            confirm.value,
        ) >= state.quorum_size,
{
    let after = step(leader_fn, state, event);
    let messages = sent(after);
    let at = choose|i: int| 0 <= i < messages.len() && messages[i] == Outbound::Confirm(confirm);
    assert(0 <= at < messages.len() && messages[at] == Outbound::Confirm(confirm));
    match event {
        Event::Start => {},
        Event::Timeout => {},
        Event::Message(message) => {
            match message {
                Inbound::Prepare(vote) => {
                    let recorded = state.with_vote(MessageKind::Prepare, vote);
                    crate::qbft::quorum::lemma_cast_supporters(
                        recorded.votes,
                        vote.round,
                        MessageKind::Confirm,
                        state.operator_id,
                        vote.value,
                        vote.round,
                        MessageKind::Prepare,
                        vote.value,
                    );
                },
                _ => {},
            }
        },
    }
}

/// An instance decides only on a confirm vote, and only once a quorum of distinct
/// operators, that vote counted, confirms the very value that is decided.
pub proof fn lemma_decision_follows_confirm_quorum<F: LeaderFunction>(
    leader_fn: &F,
    state: Instance,
    event: Event,
)
    requires
        !(state.status is Decided),
        step(leader_fn, state, event).next.status is Decided,
    ensures
        event matches Event::Message(Inbound::Confirm(vote)) && {
            &&& step(leader_fn, state, event).next.status == Status::Decided(vote.value)
            &&& vote.round.0 >= state.round.0
            &&& tally(
                cast(
                    state.votes,
                    vote.round,
                    MessageKind::Confirm,
                    vote.operator_id,
                    vote.value,
                ),
                vote.round,
                MessageKind::Confirm,
                vote.value,
            ) >= state.quorum_size
        },
{
}

/// The round never goes back. It changes only when the timer expires, by one, or when a
/// round change arrives for a round above the current one that a quorum of distinct
/// operators, that vote counted, has given up: then it becomes that round.
pub proof fn lemma_round_moves_forward<F: LeaderFunction>(leader_fn: &F, state: Instance, event: Event)
    ensures
        step(leader_fn, state, event).next.round.0 >= state.round.0,
        step(leader_fn, state, event).next.round != state.round ==> {
            ||| event is Timeout && step(leader_fn, state, event).next.round.0 == state.round.0 + 1
            ||| event matches Event::Message(Inbound::RoundChange(vote)) && {
                &&& vote.round.0 > state.round.0
                &&& step(leader_fn, state, event).next.round == vote.round
                &&& turnout(
                    step(leader_fn, state, event).next.votes,
                    vote.round,
                    MessageKind::RoundChange,
                ) >= state.quorum_size
            }
        },
{
}

/// At most one proposal is accepted per round: a proposal is accepted only where none was
/// accepted in the round before, and the mark that one was accepted stays until the round
/// changes.
pub proof fn lemma_one_proposal_per_round<F: LeaderFunction>(
    leader_fn: &F,
    state: Instance,
    event: Event,
)
    ensures
        (event is Message && event->Message_0 is Propose && step(leader_fn, state, event).result is Ok)
            ==> !state.proposal_accepted && step(leader_fn, state, event).next.proposal_accepted,
        state.proposal_accepted && step(leader_fn, state, event).next.round == state.round ==> step(
            leader_fn,
            state,
            event,
        ).next.proposal_accepted,
{
}

/// Until an instance finishes, a vote once recorded is never lost: it stays or is
/// overwritten by a later vote of the same operator for the same round and kind.
pub proof fn lemma_votes_kept_while_running<F: LeaderFunction>(
    leader_fn: &F,
    state: Instance,
    event: Event,
    key: VoteKey,
)
    requires
        state.votes.contains_key(key),
        step(leader_fn, state, event).next.status is Running || step(
            leader_fn,
            state,
            event,
        ).next.status is Idle,
    ensures
        step(leader_fn, state, event).next.votes.contains_key(key),
{
}

/// Validation identifiers are handed out in increasing order and never twice: the only
/// request sent after an event carries the number of identifiers handed out before it, no
/// awaited request has that identifier, and the number never goes down.
pub proof fn lemma_validation_ids_fresh<F: LeaderFunction>(
    leader_fn: &F,
    state: Instance,
    event: Event,
    request: ValidationRequest,
)
    requires
        state.wf(),
    ensures
        step(leader_fn, state, event).next.validations.issued >= state.validations.issued,
        sent(step(leader_fn, state, event)).contains(Outbound::Validate(request)) ==> {
            &&& request.id == state.validations.issued
            &&& !state.validations.pending.contains_key(request.id)
            &&& step(leader_fn, state, event).next.validations.issued == request.id + 1
            &&& step(leader_fn, state, event).next.validations.pending.contains_key(request.id)
            &&& step(leader_fn, state, event).next.validations.pending[request.id] == (
                request.round,
                request.value,
            )
        },
{
    let messages = sent(step(leader_fn, state, event));
    if messages.contains(Outbound::Validate(request)) {
        let at = choose|i: int| 0 <= i < messages.len() && messages[i] == Outbound::Validate(request);
        assert(0 <= at < messages.len() && messages[at] == Outbound::Validate(request));
    }
}

/// The round timer starts anew exactly when the round changes.
pub proof fn lemma_timer_restarts_with_round<F: LeaderFunction>(
    leader_fn: &F,
    state: Instance,
    event: Event,
)
    ensures
        match step(leader_fn, state, event).result {
            Ok(effects) => effects.reset_timer == (step(leader_fn, state, event).next.round
                != state.round),
            Err(_) => step(leader_fn, state, event).next.round == state.round,
        },
{
}

/// A decision is made known when it is made, and at no other time.
pub proof fn lemma_decision_is_announced<F: LeaderFunction>(
    leader_fn: &F,
    state: Instance,
    event: Event,
    decision: Payload,
)
    requires
        state.wf(),
    ensures
        sent(step(leader_fn, state, event)).contains(Outbound::Decided(decision)) ==> {
            &&& !(state.status is Decided)
            &&& step(leader_fn, state, event).next.status == Status::Decided(decision.value)
        },
        !(state.status is Decided) && step(leader_fn, state, event).next.status is Decided ==> exists|
            decision: Payload,
        |
            sent(step(leader_fn, state, event)) == seq![Outbound::Decided(decision)] && step(
                leader_fn,
                state,
                event,
            ).next.status == Status::Decided(decision.value),
{
    let messages = sent(step(leader_fn, state, event));
    if messages.contains(Outbound::Decided(decision)) {
        let at = choose|i: int| 0 <= i < messages.len() && messages[i] == Outbound::Decided(decision);
        assert(0 <= at < messages.len() && messages[at] == Outbound::Decided(decision));
    }
    if !(state.status is Decided) && step(leader_fn, state, event).next.status is Decided {
        lemma_decision_follows_confirm_quorum(leader_fn, state, event);
        let vote = event->Message_0->Confirm_0;
        let made = Payload { round: vote.round, value: vote.value };
        assert(messages == seq![Outbound::Decided(made)]);
    }
}

/// No round above the current one has been given up by a quorum: the instance has caught
/// up with every round change that it has seen.
pub open spec fn caught_up(state: Instance) -> bool {
    forall|round: Round|
        round.0 > state.round.0 ==> #[trigger] turnout(state.votes, round, MessageKind::RoundChange)
            < state.quorum_size
}

/// An instance that has caught up stays so: whenever a quorum has given up a round above
/// the current one, the round change that completed the quorum has moved the instance
/// there. So to look at the round of each arriving round change is to look at every round.
pub proof fn lemma_step_caught_up<F: LeaderFunction>(leader_fn: &F, state: Instance, event: Event)
    requires
        state.consistent(),
        caught_up(state),
    ensures
        caught_up(step(leader_fn, state, event).next),
{
    let next = step(leader_fn, state, event).next;
    lemma_round_moves_forward(leader_fn, state, event);
    assert forall|round: Round| round.0 > next.round.0 implies #[trigger] turnout(
        next.votes,
        round,
        MessageKind::RoundChange,
    ) < next.quorum_size by {
        assert(turnout(state.votes, round, MessageKind::RoundChange) < state.quorum_size);
        if next.votes == Map::<VoteKey, Seq<u8>>::empty() {
            lemma_empty_countable();
            assert(voters(next.votes, round, MessageKind::RoundChange) == Set::<OperatorId>::empty());
        } else {
            match event {
                Event::Start => {},
                Event::Timeout => {
                    lemma_cast_voters(
                        state.votes,
                        state.round,
                        MessageKind::RoundChange,
                        state.operator_id,
                        Seq::empty(),
                        round,
                        MessageKind::RoundChange,
                    );
                },
                Event::Message(message) => {
                    match message {
                        Inbound::RecvData(_) => {},
                        Inbound::Propose(_) => {},
                        Inbound::Prepare(vote) => {
                            let recorded = state.with_vote(MessageKind::Prepare, vote);
                            lemma_cast_voters(
                                state.votes,
                                vote.round,
                                MessageKind::Prepare,
                                vote.operator_id,
                                vote.value,
                                round,
                                MessageKind::RoundChange,
                            );
                            lemma_cast_voters(
                                recorded.votes,
                                vote.round,
                                MessageKind::Confirm,
                                state.operator_id,
                                vote.value,
                                round,
                                MessageKind::RoundChange,
                            );
                        },
                        Inbound::Confirm(vote) => {
                            lemma_cast_voters(
                                state.votes,
                                vote.round,
                                MessageKind::Confirm,
                                vote.operator_id,
                                vote.value,
                                round,
                                MessageKind::RoundChange,
                            );
                        },
                        Inbound::Validate(id, outcome) => {
                            if state.validations.pending.contains_key(id) {
                                let (voted_round, value) = state.validations.pending[id];
                                lemma_cast_voters(
                                    state.votes,
                                    voted_round,
                                    MessageKind::Prepare,
                                    state.operator_id,
                                    value,
                                    round,
                                    MessageKind::RoundChange,
                                );
                            }
                        },
                        Inbound::RoundChange(vote) => {
                            lemma_cast_voters(
                                state.votes,
                                vote.round,
                                MessageKind::RoundChange,
                                vote.operator_id,
                                vote.value,
                                round,
                                MessageKind::RoundChange,
                            );
                        },
                    }
                },
            }
        }
    }
}

/// An instance that was just built has caught up.
pub proof fn lemma_initial_caught_up(
    operator_id: OperatorId,
    committee: Seq<OperatorId>,
    quorum_size: nat,
    round: Round,
)
    requires
        0 < quorum_size,
    ensures
        caught_up(initial(operator_id, committee, quorum_size, round)),
{
    lemma_empty_countable();
    let state = initial(operator_id, committee, quorum_size, round);
    assert forall|at: Round| at.0 > state.round.0 implies #[trigger] turnout(
        state.votes,
        at,
        MessageKind::RoundChange,
    ) < state.quorum_size by {
        assert(voters(state.votes, at, MessageKind::RoundChange) == Set::<OperatorId>::empty());
    }
}

/// A prepare vote for another value than the one that its sender holds for the round moves
/// that operator, and nobody else. The instance is at work, since no other holds a vote; the
/// message is acted on; as many operators as before hold a prepare vote of the round; the
/// sender's recorded vote is the new value; the tally of the old value has fallen by one
/// and that of the new value has risen by one.
pub proof fn lemma_changed_prepare_moves_one_vote(state: Instance, vote: Ballot, old_value: Seq<u8>)
    requires
        state.wf(),
        vote.round.0 >= state.round.0,
        state.votes.contains_key(
            VoteKey { round: vote.round, kind: MessageKind::Prepare, operator: vote.operator_id },
        ),
        state.votes[VoteKey {
            round: vote.round,
            kind: MessageKind::Prepare,
            operator: vote.operator_id,
        }] == old_value,
        old_value != vote.value,
    ensures
        state.status is Running,
        on_prepare(state, vote).result is Ok,
        ({
            let next = on_prepare(state, vote).next;
            let key = VoteKey {
                round: vote.round,
                kind: MessageKind::Prepare,
                operator: vote.operator_id,
            };
            &&& turnout(next.votes, vote.round, MessageKind::Prepare) == turnout(
                state.votes,
                vote.round,
                MessageKind::Prepare,
            )
            &&& next.votes.contains_key(key) && next.votes[key] == vote.value
            &&& tally(next.votes, vote.round, MessageKind::Prepare, old_value) == tally(
                state.votes,
                vote.round,
                MessageKind::Prepare,
                old_value,
            ) - 1
            &&& tally(next.votes, vote.round, MessageKind::Prepare, vote.value) == tally(
                state.votes,
                vote.round,
                MessageKind::Prepare,
                vote.value,
            ) + 1
        }),
{
    let key = VoteKey { round: vote.round, kind: MessageKind::Prepare, operator: vote.operator_id };
    assert(state.votes != Map::<VoteKey, Seq<u8>>::empty()) by {
        assert(state.votes.contains_key(key));
    }
    let recorded = state.with_vote(MessageKind::Prepare, vote);
    crate::qbft::quorum::lemma_changed_vote_moves_one(
        state.votes,
        vote.round,
        MessageKind::Prepare,
        vote.operator_id,
        old_value,
        vote.value,
    );
    let next = on_prepare(state, vote).next;
    if next.votes != recorded.votes {
        lemma_cast_voters(
            recorded.votes,
            vote.round,
            MessageKind::Confirm,
            state.operator_id,
            vote.value,
            vote.round,
            MessageKind::Prepare,
        );
        crate::qbft::quorum::lemma_cast_supporters(
            recorded.votes,
            vote.round,
            MessageKind::Confirm,
            state.operator_id,
            vote.value,
            vote.round,
            MessageKind::Prepare,
            old_value,
        );
        crate::qbft::quorum::lemma_cast_supporters(
            recorded.votes,
            vote.round,
            MessageKind::Confirm,
            state.operator_id,
            vote.value,
            vote.round,
            MessageKind::Prepare,
            vote.value,
        );
    }
}

/// When the timer of a round expires, the instance tells the others that it gives up the
/// round and enters the next one. If its operator leads the next round it also asks for
/// the data to propose, and what it then proposes for that round is the value that it is
/// given. If another operator leads, it sends the round change only, and data that reaches
/// it is refused.
pub proof fn lemma_leader_enters_next_round<F: LeaderFunction>(
    leader_fn: &F,
    state: Instance,
    value: Seq<u8>,
)
    requires
        state.status is Running,
        state.round.0 < usize::MAX,
    ensures
        ({
            let expired = on_timeout(leader_fn, state);
            let entered = Round((state.round.0 + 1) as usize);
            let notice = Outbound::RoundChange(
                Ballot { operator_id: state.operator_id, round: state.round, value: Seq::empty() },
            );
            let supplied = on_data(leader_fn, expired.next, Payload { round: entered, value });
            &&& expired.next.round == entered
            &&& expired.next.status is Running
            &&& if leads(leader_fn, entered, state.operator_id, state.committee) {
                &&& expired.result == Ok::<Effects, QbftError>(
                    Effects {
                        messages: seq![
                            notice,
                            Outbound::GetData(Payload { round: entered, value: Seq::empty() }),
                        ],
                        reset_timer: true,
                    },
                )
                &&& supplied.result == Ok::<Effects, QbftError>(
                    Effects {
                        messages: seq![
                            Outbound::Propose(
                                Ballot { operator_id: state.operator_id, round: entered, value },
                            ),
                        ],
                        reset_timer: false,
                    },
                )
            } else {
                &&& expired.result == Ok::<Effects, QbftError>(
                    Effects { messages: seq![notice], reset_timer: true },
                )
                &&& supplied.result == Err::<Effects, QbftError>(QbftError::InvalidLeader)
            }
        }),
{
    let entered = Round((state.round.0 + 1) as usize);
    let notice = Outbound::RoundChange(
        Ballot { operator_id: state.operator_id, round: state.round, value: Seq::empty() },
    );
    if leads(leader_fn, entered, state.operator_id, state.committee) {
        assert(seq![notice] + entry(leader_fn, state, entered) =~= seq![
            notice,
            Outbound::GetData(Payload { round: entered, value: Seq::empty() }),
        ]);
    } else {
        assert(seq![notice] + entry(leader_fn, state, entered) =~= seq![notice]);
    }
}

} // verus!
