use anchor_qbft::qbft::{
    Actions, Config, ConfirmMessage, DecidedMessage, GetData, InMessage, InstanceState,
    LeaderFunction, LeaderFunctionStubStruct, OutMessage, PrepareMessage, ProposeMessage, QbftError,
    RoundChange, ValidationMessage, ValidationOutcome, QBFT,
};
use anchor_qbft::qbft_types::{InstanceHeight, OperatorId, Round};
use std::time::Duration;
use tokio::sync::mpsc::error::TryRecvError;
use tokio::sync::mpsc::{unbounded_channel, UnboundedReceiver};

const OP_A: OperatorId = OperatorId(1);
const OP_B: OperatorId = OperatorId(2);
const OP_C: OperatorId = OperatorId(3);
const OP_D: OperatorId = OperatorId(4);

struct LastMember;

impl LeaderFunction for LastMember {
    fn leader_function(&self, _round: Round, operator: OperatorId, committee: &Vec<OperatorId>) -> bool {
        committee.last() == Some(&operator)
    }
}

fn build<F: LeaderFunction>(
    operator_id: OperatorId,
    round: usize,
    leader_fn: F,
) -> (QBFT<F>, UnboundedReceiver<OutMessage>) {
    let config = Config {
        instance_height: InstanceHeight(9),
        operator_id,
        committee: vec![OP_A, OP_B, OP_C, OP_D],
        quorum_size: 3,
        round: Round(round),
        round_time: Duration::from_millis(1500),
        leader_fn,
    };
    let (sender, receiver) = unbounded_channel();
    match QBFT::new(config, sender) {
        Ok((_, _, qbft)) => (qbft, receiver),
        Err(reason) => panic!("valid configuration refused: {:?}", reason),
    }
}

fn started(operator_id: OperatorId, round: usize) -> (QBFT<LeaderFunctionStubStruct>, UnboundedReceiver<OutMessage>) {
    let (mut qbft, receiver) = build(operator_id, round, LeaderFunctionStubStruct::new());
    assert!(qbft.start_instance().is_ok());
    (qbft, receiver)
}

fn nothing() -> Result<Actions, QbftError> {
    Ok(Actions { messages: vec![], reset_timer: false })
}

fn round_change(from: OperatorId, round: usize) -> InMessage {
    InMessage::RoundChange(RoundChange { operator_id: from, round: Round(round), value: vec![] })
}

fn prepare(from: OperatorId, round: usize, value: Vec<u8>) -> InMessage {
    InMessage::Prepare(PrepareMessage { operator_id: from, round: Round(round), value })
}

fn confirm(from: OperatorId, round: usize, value: Vec<u8>) -> InMessage {
    InMessage::Confirm(ConfirmMessage { operator_id: from, round: Round(round), value })
}

fn propose(from: OperatorId, round: usize, value: Vec<u8>) -> InMessage {
    InMessage::Propose(ProposeMessage { operator_id: from, round: Round(round), value })
}

#[test]
fn new_instance_is_idle_with_its_settings() {
    let (qbft, _receiver) = build(OP_B, 6, LeaderFunctionStubStruct::new());
    assert_eq!(qbft.state(), &InstanceState::Idle);
    assert!(!qbft.is_running());
    assert!(!qbft.is_finished());
    assert_eq!(qbft.round(), Round(6));
    assert_eq!(qbft.quorum_size(), 3);
    assert_eq!(qbft.operator_id(), OP_B);
    assert_eq!(*qbft.id(), 9);
    assert_eq!(qbft.round_time(), Duration::from_millis(1500));
    assert_eq!(qbft.decided_value(), None);
}

#[test]
fn idle_instance_refuses_events() {
    let (mut qbft, _receiver) = build(OP_A, 0, LeaderFunctionStubStruct::new());
    assert_eq!(qbft.handle_message(prepare(OP_B, 0, vec![1])), Err(QbftError::InvalidState));
    assert_eq!(qbft.increment_round(), Err(QbftError::InvalidState));
    assert_eq!(qbft.state(), &InstanceState::Idle);
}

#[test]
fn instance_starts_once() {
    let (mut qbft, _receiver) = build(OP_C, 2, LeaderFunctionStubStruct::new());
    assert_eq!(
        qbft.start_instance(),
        Ok(Actions {
            messages: vec![OutMessage::GetData(GetData { round: Round(2), value: vec![] })],
            reset_timer: false,
        })
    );
    assert_eq!(qbft.start_instance(), Err(QbftError::InvalidState));
    assert!(qbft.is_running());
}

#[test]
fn quorum_of_round_changes_fast_forwards() {
    let (mut qbft, _receiver) = started(OP_D, 0);
    assert_eq!(qbft.handle_message(round_change(OP_A, 3)), nothing());
    assert_eq!(qbft.handle_message(round_change(OP_B, 3)), nothing());
    assert_eq!(qbft.round(), Round(0));
    assert_eq!(
        qbft.handle_message(round_change(OP_C, 3)),
        Ok(Actions {
            messages: vec![OutMessage::GetData(GetData { round: Round(3), value: vec![] })],
            reset_timer: true,
        })
    );
    assert_eq!(qbft.round(), Round(3));
    // the same quorum does not move the instance again
    assert_eq!(qbft.handle_message(round_change(OP_C, 3)), nothing());
    assert_eq!(qbft.round(), Round(3));
}

#[test]
fn fast_forward_of_follower_sends_nothing() {
    let (mut qbft, _receiver) = started(OP_A, 0);
    assert_eq!(qbft.handle_message(round_change(OP_B, 2)), nothing());
    assert_eq!(qbft.handle_message(round_change(OP_C, 2)), nothing());
    assert_eq!(
        qbft.handle_message(round_change(OP_D, 2)),
        Ok(Actions { messages: vec![], reset_timer: true })
    );
    assert_eq!(qbft.round(), Round(2));
}

#[test]
fn repeated_round_change_does_not_fast_forward() {
    let (mut qbft, _receiver) = started(OP_D, 0);
    for _ in 0..5 {
        assert_eq!(qbft.handle_message(round_change(OP_A, 3)), nothing());
    }
    assert_eq!(qbft.handle_message(round_change(OP_B, 3)), nothing());
    assert_eq!(qbft.handle_message(round_change(OP_B, 2)), nothing());
    assert_eq!(qbft.handle_message(round_change(OP_A, 2)), nothing());
    assert_eq!(qbft.round(), Round(0));
}

#[test]
fn round_changes_for_current_or_past_round_do_not_move() {
    let (mut qbft, _receiver) = started(OP_D, 5);
    assert_eq!(qbft.handle_message(round_change(OP_A, 5)), nothing());
    assert_eq!(qbft.handle_message(round_change(OP_B, 5)), nothing());
    assert_eq!(qbft.handle_message(round_change(OP_C, 5)), nothing());
    assert_eq!(qbft.handle_message(round_change(OP_A, 4)), nothing());
    assert_eq!(qbft.handle_message(round_change(OP_B, 4)), nothing());
    assert_eq!(qbft.handle_message(round_change(OP_C, 4)), nothing());
    assert_eq!(qbft.round(), Round(5));
}

#[test]
fn own_round_change_counts_towards_later_quorum() {
    let (mut qbft, _receiver) = started(OP_A, 0);
    assert!(qbft.increment_round().is_ok());
    assert!(qbft.increment_round().is_ok());
    assert_eq!(qbft.round(), Round(2));
    // votes for round 1 are below the current round: they are kept and change nothing
    assert_eq!(qbft.handle_message(round_change(OP_B, 1)), nothing());
    assert_eq!(qbft.handle_message(round_change(OP_C, 1)), nothing());
    assert_eq!(qbft.round(), Round(2));
}

#[test]
fn stale_votes_are_dropped() {
    let (mut qbft, _receiver) = started(OP_A, 4);
    assert_eq!(qbft.handle_message(prepare(OP_B, 3, vec![1])), Err(QbftError::StaleRound));
    assert_eq!(qbft.handle_message(confirm(OP_B, 0, vec![1])), Err(QbftError::StaleRound));
    assert_eq!(qbft.handle_message(propose(OP_D, 3, vec![1])), Err(QbftError::StaleRound));
    assert_eq!(
        qbft.handle_message(InMessage::RecvData(GetData { round: Round(3), value: vec![1] })),
        Err(QbftError::StaleRound)
    );
    // stale confirms were not recorded: three fresh ones are needed
    assert_eq!(qbft.handle_message(confirm(OP_B, 4, vec![1])), nothing());
    assert_eq!(qbft.handle_message(confirm(OP_C, 4, vec![1])), nothing());
    assert!(qbft.is_running());
}

#[test]
fn proposal_for_future_round_is_dropped() {
    let (mut qbft, _receiver) = started(OP_A, 0);
    assert_eq!(qbft.handle_message(propose(OP_B, 1, vec![1])), Err(QbftError::FutureRound));
    assert_eq!(
        qbft.handle_message(InMessage::RecvData(GetData { round: Round(1), value: vec![1] })),
        Err(QbftError::FutureRound)
    );
}

#[test]
fn second_proposal_in_round_is_dropped() {
    let (mut qbft, _receiver) = started(OP_B, 0);
    assert_eq!(
        qbft.handle_message(propose(OP_A, 0, vec![1])),
        Ok(Actions {
            messages: vec![OutMessage::Validate(ValidationMessage { id: 0, value: vec![1], round: Round(0) })],
            reset_timer: false,
        })
    );
    assert_eq!(qbft.handle_message(propose(OP_A, 0, vec![1])), Err(QbftError::DuplicateProposal));
    assert_eq!(qbft.handle_message(propose(OP_A, 0, vec![2])), Err(QbftError::DuplicateProposal));
    // the next round takes a proposal again, under the next identifier
    assert!(qbft.increment_round().is_ok());
    assert_eq!(
        qbft.handle_message(propose(OP_B, 1, vec![3])),
        Ok(Actions {
            messages: vec![OutMessage::Validate(ValidationMessage { id: 1, value: vec![3], round: Round(1) })],
            reset_timer: false,
        })
    );
}

#[test]
fn data_reaches_leader_only() {
    let (mut qbft, _receiver) = started(OP_B, 0);
    assert_eq!(
        qbft.handle_message(InMessage::RecvData(GetData { round: Round(0), value: vec![1] })),
        Err(QbftError::InvalidLeader)
    );
}

#[test]
fn prepares_of_future_round_wait_for_the_round() {
    let (mut qbft, _receiver) = started(OP_D, 0);
    assert_eq!(qbft.handle_message(prepare(OP_A, 1, vec![8])), nothing());
    assert_eq!(qbft.handle_message(prepare(OP_B, 1, vec![8])), nothing());
    assert_eq!(qbft.handle_message(prepare(OP_C, 1, vec![8])), nothing());
    assert!(qbft.increment_round().is_ok());
    assert_eq!(qbft.round(), Round(1));
    assert_eq!(
        qbft.handle_message(prepare(OP_C, 1, vec![8])),
        Ok(Actions {
            messages: vec![OutMessage::Confirm(ConfirmMessage {
                operator_id: OP_D,
                round: Round(1),
                value: vec![8],
            })],
            reset_timer: false,
        })
    );
}

#[test]
fn confirm_is_sent_once_per_round() {
    let (mut qbft, _receiver) = started(OP_D, 0);
    assert_eq!(qbft.handle_message(prepare(OP_A, 0, vec![8])), nothing());
    assert_eq!(qbft.handle_message(prepare(OP_B, 0, vec![8])), nothing());
    assert!(matches!(
        qbft.handle_message(prepare(OP_C, 0, vec![8])),
        Ok(Actions { messages, reset_timer: false }) if messages.len() == 1
    ));
    assert_eq!(qbft.handle_message(prepare(OP_D, 0, vec![8])), nothing());
    assert_eq!(qbft.handle_message(prepare(OP_C, 0, vec![8])), nothing());
}

#[test]
fn prepares_for_different_values_make_no_quorum() {
    let (mut qbft, _receiver) = started(OP_D, 0);
    assert_eq!(qbft.handle_message(prepare(OP_A, 0, vec![1])), nothing());
    assert_eq!(qbft.handle_message(prepare(OP_B, 0, vec![2])), nothing());
    assert_eq!(qbft.handle_message(prepare(OP_C, 0, vec![3])), nothing());
    assert_eq!(qbft.handle_message(prepare(OP_C, 0, vec![1])), nothing());
    assert!(matches!(
        qbft.handle_message(prepare(OP_B, 0, vec![1])),
        Ok(Actions { messages, .. }) if messages == vec![OutMessage::Confirm(ConfirmMessage {
            operator_id: OP_D,
            round: Round(0),
            value: vec![1],
        })]
    ));
}

#[test]
fn confirms_of_future_round_decide() {
    let (mut qbft, _receiver) = started(OP_D, 0);
    assert_eq!(qbft.handle_message(confirm(OP_A, 2, vec![6])), nothing());
    assert_eq!(qbft.handle_message(confirm(OP_B, 2, vec![6])), nothing());
    assert_eq!(
        qbft.handle_message(confirm(OP_C, 2, vec![6])),
        Ok(Actions {
            messages: vec![OutMessage::Decided(DecidedMessage { round: Round(2), value: vec![6] })],
            reset_timer: false,
        })
    );
    assert_eq!(qbft.decided_value(), Some(&vec![6]));
}

#[test]
fn timer_cannot_pass_the_last_round() {
    let (mut qbft, _receiver) = started(OP_A, usize::MAX);
    assert_eq!(qbft.increment_round(), Err(QbftError::Exhausted));
    assert_eq!(qbft.round(), Round(usize::MAX));
    assert!(qbft.is_running());
}

#[test]
fn cancel_stops_the_instance() {
    let (mut qbft, _receiver) = started(OP_A, 0);
    assert!(qbft.handle_message(propose(OP_A, 0, vec![1])).is_ok());
    qbft.cancel();
    assert_eq!(qbft.state(), &InstanceState::Cancelled);
    assert!(qbft.is_finished());
    assert_eq!(
        qbft.handle_message(InMessage::Validate(0, ValidationOutcome::Success)),
        Err(QbftError::InvalidState)
    );
    assert_eq!(qbft.increment_round(), Err(QbftError::InvalidState));
    assert_eq!(qbft.start_instance(), Err(QbftError::InvalidState));
}

#[test]
fn cancel_keeps_a_decision() {
    let (mut qbft, _receiver) = started(OP_D, 0);
    assert!(qbft.handle_message(confirm(OP_A, 0, vec![6])).is_ok());
    assert!(qbft.handle_message(confirm(OP_B, 0, vec![6])).is_ok());
    assert!(qbft.handle_message(confirm(OP_C, 0, vec![6])).is_ok());
    qbft.cancel();
    assert_eq!(qbft.state(), &InstanceState::Decided(vec![6]));
}

#[test]
fn send_hands_messages_to_the_channel_in_order() {
    let (mut qbft, mut receiver) = started(OP_B, 0);
    let actions = match qbft.increment_round() {
        Ok(actions) => actions,
        Err(reason) => panic!("timeout refused: {:?}", reason),
    };
    assert_eq!(qbft.send(actions), Ok(true));
    assert_eq!(
        receiver.try_recv(),
        Ok(OutMessage::RoundChange(RoundChange { operator_id: OP_B, round: Round(0), value: vec![] }))
    );
    assert_eq!(
        receiver.try_recv(),
        Ok(OutMessage::GetData(GetData { round: Round(1), value: vec![] }))
    );
    assert_eq!(receiver.try_recv(), Err(TryRecvError::Empty));
    assert!(qbft.is_running());
    assert_eq!(qbft.send(Actions { messages: vec![], reset_timer: false }), Ok(false));
    assert_eq!(receiver.try_recv(), Err(TryRecvError::Empty));
}

#[test]
fn closed_channel_cancels_the_instance() {
    let (mut qbft, receiver) = started(OP_B, 0);
    drop(receiver);
    let actions = match qbft.increment_round() {
        Ok(actions) => actions,
        Err(reason) => panic!("timeout refused: {:?}", reason),
    };
    assert_eq!(qbft.send(actions), Err(QbftError::ChannelClosed));
    assert_eq!(qbft.state(), &InstanceState::Cancelled);
    assert_eq!(qbft.handle_message(prepare(OP_A, 1, vec![1])), Err(QbftError::InvalidState));
}

#[test]
fn closed_channel_with_nothing_to_send_is_not_noticed() {
    let (mut qbft, receiver) = started(OP_B, 0);
    drop(receiver);
    assert_eq!(qbft.send(Actions { messages: vec![], reset_timer: true }), Ok(true));
    assert!(qbft.is_running());
}

#[test]
fn inbound_channel_is_open() {
    let config = Config {
        instance_height: InstanceHeight(0),
        operator_id: OP_A,
        committee: vec![OP_A],
        quorum_size: 1,
        round: Round(0),
        round_time: Duration::from_secs(1),
        leader_fn: LeaderFunctionStubStruct::new(),
    };
    let (sender, _receiver) = unbounded_channel();
    let (in_sender, mut in_receiver, _qbft) = match QBFT::new(config, sender) {
        Ok(built) => built,
        Err(reason) => panic!("valid configuration refused: {:?}", reason),
    };
    assert!(in_sender.send(round_change(OP_A, 0)).is_ok());
    assert_eq!(in_receiver.try_recv(), Ok(round_change(OP_A, 0)));
}

#[test]
fn single_operator_decides_alone() {
    let config = Config {
        instance_height: InstanceHeight(0),
        operator_id: OP_A,
        committee: vec![OP_A],
        quorum_size: 1,
        round: Round(0),
        round_time: Duration::from_secs(1),
        leader_fn: LeaderFunctionStubStruct::new(),
    };
    let (sender, _receiver) = unbounded_channel();
    let mut qbft = match QBFT::new(config, sender) {
        Ok((_, _, qbft)) => qbft,
        Err(reason) => panic!("valid configuration refused: {:?}", reason),
    };
    assert!(qbft.start_instance().is_ok());
    assert!(matches!(
        qbft.handle_message(prepare(OP_A, 0, vec![1])),
        Ok(Actions { messages, .. }) if messages.len() == 1
    ));
    assert!(matches!(
        qbft.handle_message(confirm(OP_A, 0, vec![1])),
        Ok(Actions { messages, .. }) if messages == vec![OutMessage::Decided(DecidedMessage {
            round: Round(0),
            value: vec![1],
        })]
    ));
}

#[test]
fn instance_follows_a_plugged_in_strategy() {
    let (mut qbft, _receiver) = build(OP_D, 0, LastMember);
    assert_eq!(
        qbft.start_instance(),
        Ok(Actions {
            messages: vec![OutMessage::GetData(GetData { round: Round(0), value: vec![] })],
            reset_timer: false,
        })
    );
    assert_eq!(qbft.handle_message(propose(OP_A, 0, vec![1])), Err(QbftError::InvalidLeader));
    assert!(qbft.handle_message(propose(OP_D, 0, vec![1])).is_ok());
    let (mut follower, _receiver) = build(OP_A, 0, LastMember);
    assert_eq!(follower.start_instance(), nothing());
}

#[test]
fn message_that_was_taken_changes_nothing() {
    let (mut qbft, _receiver) = started(OP_B, 3);
    assert!(qbft.handle_message(propose(OP_D, 3, vec![1])).is_ok());
    assert_eq!(qbft.after_send(true), Ok(()));
    assert!(qbft.is_running());
    assert_eq!(qbft.round(), Round(3));
    // the validation that was awaited is awaited still
    assert!(matches!(
        qbft.handle_message(InMessage::Validate(0, ValidationOutcome::Success)),
        Ok(Actions { messages, .. }) if messages.len() == 1
    ));
}

#[test]
fn message_that_was_refused_cancels_the_instance() {
    let (mut qbft, _receiver) = started(OP_B, 3);
    assert!(qbft.handle_message(propose(OP_D, 3, vec![1])).is_ok());
    assert_eq!(qbft.after_send(false), Err(QbftError::ChannelClosed));
    assert_eq!(qbft.state(), &InstanceState::Cancelled);
    assert_eq!(
        qbft.handle_message(InMessage::Validate(0, ValidationOutcome::Success)),
        Err(QbftError::InvalidState)
    );
}

#[test]
fn refused_message_after_decision_keeps_the_decision() {
    let (mut qbft, _receiver) = started(OP_D, 0);
    assert!(qbft.handle_message(confirm(OP_A, 0, vec![6])).is_ok());
    assert!(qbft.handle_message(confirm(OP_B, 0, vec![6])).is_ok());
    assert!(qbft.handle_message(confirm(OP_C, 0, vec![6])).is_ok());
    assert_eq!(qbft.after_send(false), Err(QbftError::ChannelClosed));
    assert_eq!(qbft.state(), &InstanceState::Decided(vec![6]));
}

#[test]
fn entering_a_round_as_leader_asks_for_data() {
    let (qbft, _receiver) = build(OP_B, 0, LeaderFunctionStubStruct::new());
    assert_eq!(
        qbft.start_round(Round(1)),
        vec![OutMessage::GetData(GetData { round: Round(1), value: vec![] })]
    );
    assert_eq!(
        qbft.start_round(Round(5)),
        vec![OutMessage::GetData(GetData { round: Round(5), value: vec![] })]
    );
}

#[test]
fn entering_a_round_as_follower_sends_nothing() {
    let (qbft, _receiver) = build(OP_B, 0, LeaderFunctionStubStruct::new());
    assert_eq!(qbft.start_round(Round(0)), vec![]);
    assert_eq!(qbft.start_round(Round(2)), vec![]);
    assert_eq!(qbft.start_round(Round(3)), vec![]);
}

#[test]
fn changed_prepare_vote_moves_one_operator() {
    let (mut qbft, _receiver) = started(OP_D, 0);
    assert_eq!(qbft.handle_message(prepare(OP_A, 0, vec![1])), nothing());
    assert_eq!(qbft.handle_message(prepare(OP_B, 0, vec![1])), nothing());
    // B moves to another value: one vote fewer for the first, one for the second
    assert_eq!(qbft.handle_message(prepare(OP_B, 0, vec![2])), nothing());
    // with B gone, C is only the second to prepare the first value
    assert_eq!(qbft.handle_message(prepare(OP_C, 0, vec![1])), nothing());
    // and B is the only one to prepare the second: A and C joining make three
    assert_eq!(qbft.handle_message(prepare(OP_A, 0, vec![2])), nothing());
    assert_eq!(
        qbft.handle_message(prepare(OP_C, 0, vec![2])),
        Ok(Actions {
            messages: vec![OutMessage::Confirm(ConfirmMessage {
                operator_id: OP_D,
                round: Round(0),
                value: vec![2],
            })],
            reset_timer: false,
        })
    );
}
