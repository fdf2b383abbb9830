//! Tally of votes, counted once per operator.

use crate::qbft::bytes::same_bytes;
use crate::qbft_types::{OperatorId, Round};
use std::collections::HashMap;
use vstd::prelude::*;

verus! {

broadcast use vstd::std_specs::hash::group_hash_axioms;

/// The kinds of message that are tallied.
#[derive(Clone, Copy, Debug, PartialEq, Eq, Structural)]
pub enum MessageKind {
    Prepare,
    Confirm,
    RoundChange,
}

/// What a vote is filed under: an operator has at most one vote per round and kind.
pub struct VoteKey {
    pub round: Round,
    pub kind: MessageKind,
    pub operator: OperatorId,
}

/// The recorded votes: the value each operator last voted for, per round and kind.
pub type Votes = Map<VoteKey, Seq<u8>>;

/// The operators with a recorded vote of `kind` in `round`, whatever its value.
pub open spec fn voters(votes: Votes, round: Round, kind: MessageKind) -> Set<OperatorId> {
    Set::new(|operator: OperatorId| votes.contains_key(VoteKey { round, kind, operator }))
}

/// The operators whose recorded vote of `kind` in `round` is for `value`.
pub open spec fn supporters(votes: Votes, round: Round, kind: MessageKind, value: Seq<u8>) -> Set<
    OperatorId,
> {
    Set::new(
        |operator: OperatorId|
            votes.contains_key(VoteKey { round, kind, operator }) && votes[VoteKey {
                round,
                kind,
                operator,
            }] == value,
    )
}

/// The number of distinct operators whose vote of `kind` in `round` is for `value`.
pub open spec fn tally(votes: Votes, round: Round, kind: MessageKind, value: Seq<u8>) -> nat {
    supporters(votes, round, kind, value).len()
}

/// The number of distinct operators with a vote of `kind` in `round`.
pub open spec fn turnout(votes: Votes, round: Round, kind: MessageKind) -> nat {
    voters(votes, round, kind).len()
}

/// Every round and kind has finitely many voters, so that every tally is a number.
pub open spec fn countable(votes: Votes) -> bool {
    forall|round: Round, kind: MessageKind| #[trigger] voters(votes, round, kind).finite()
}

/// The votes after `operator` has voted for `value`: the new vote takes the place of an
/// earlier one by the same operator for the same round and kind.
pub open spec fn cast(
    votes: Votes,
    round: Round,
    kind: MessageKind,
    operator: OperatorId,
    value: Seq<u8>,
) -> Votes {
    votes.insert(VoteKey { round, kind, operator }, value)
}

/// A vote changes the voters of its own round and kind by at most the voting operator, and
/// no others.
pub proof fn lemma_cast_voters(
    votes: Votes,
    round: Round,
    kind: MessageKind,
    operator: OperatorId,
    value: Seq<u8>,
    at_round: Round,
    at_kind: MessageKind,
)
    ensures
        voters(cast(votes, round, kind, operator, value), at_round, at_kind) == if at_round == round
            && at_kind == kind {
            voters(votes, round, kind).insert(operator)
        } else {
            voters(votes, at_round, at_kind)
        },
{
    let after = cast(votes, round, kind, operator, value);
    if at_round == round && at_kind == kind {
        assert forall|op: OperatorId|
            voters(after, round, kind).contains(op) == voters(votes, round, kind).insert(
                operator,
            ).contains(op) by {
            let k = VoteKey { round, kind, operator: op };
            assert(after.contains_key(k) <==> (op == operator || votes.contains_key(k)));
        }
        assert(voters(after, round, kind) =~= voters(votes, round, kind).insert(operator));
    } else {
        assert forall|op: OperatorId|
            voters(after, at_round, at_kind).contains(op) == voters(
                votes,
                at_round,
                at_kind,
            ).contains(op) by {
            let k = VoteKey { round: at_round, kind: at_kind, operator: op };
            assert(after.contains_key(k) <==> votes.contains_key(k));
        }
        assert(voters(after, at_round, at_kind) =~= voters(votes, at_round, at_kind));
    }
}

/// A vote adds its operator to the supporters of the value voted for and takes it away from
/// the supporters of every other value; the supporters of other rounds and kinds stay.
pub proof fn lemma_cast_supporters(
    votes: Votes,
    round: Round,
    kind: MessageKind,
    operator: OperatorId,
    value: Seq<u8>,
    at_round: Round,
    at_kind: MessageKind,
    at_value: Seq<u8>,
)
    ensures
        supporters(cast(votes, round, kind, operator, value), at_round, at_kind, at_value) == if at_round
            == round && at_kind == kind {
            if at_value == value {
                supporters(votes, round, kind, at_value).insert(operator)
            } else {
                supporters(votes, round, kind, at_value).remove(operator)
            }
        } else {
            supporters(votes, at_round, at_kind, at_value)
        },
{
    let after = cast(votes, round, kind, operator, value);
    let before_set = supporters(votes, at_round, at_kind, at_value);
    let after_set = supporters(after, at_round, at_kind, at_value);
    let expected = if at_round == round && at_kind == kind {
        if at_value == value {
            before_set.insert(operator)
        } else {
            before_set.remove(operator)
        }
    } else {
        before_set
    };
    assert forall|op: OperatorId| after_set.contains(op) == expected.contains(op) by {
        let k = VoteKey { round: at_round, kind: at_kind, operator: op };
        let voted = VoteKey { round, kind, operator };
        if k == voted {
            assert(after[k] == value);
        } else {
            assert(after.contains_key(k) <==> votes.contains_key(k));
            if votes.contains_key(k) {
                assert(after[k] == votes[k]);
            }
        }
    }
    assert(after_set =~= expected);
}

/// Recording a vote keeps every tally a number.
pub proof fn lemma_cast_countable(
    votes: Votes,
    round: Round,
    kind: MessageKind,
    operator: OperatorId,
    value: Seq<u8>,
)
    requires
        countable(votes),
    ensures
        countable(cast(votes, round, kind, operator, value)),
{
    let after = cast(votes, round, kind, operator, value);
    assert forall|r: Round, k: MessageKind| #[trigger] voters(after, r, k).finite() by {
        lemma_cast_voters(votes, round, kind, operator, value, r, k);
        assert(voters(votes, r, k).finite());
    }
}

/// The supporters of a value are among the voters, so a tally never exceeds the turnout.
pub proof fn lemma_tally_at_most_turnout(
    votes: Votes,
    round: Round,
    kind: MessageKind,
    value: Seq<u8>,
)
    requires
        countable(votes),
    ensures
        supporters(votes, round, kind, value).finite(),
        tally(votes, round, kind, value) <= turnout(votes, round, kind),
{
    assert(voters(votes, round, kind).finite());
    assert(supporters(votes, round, kind, value).subset_of(voters(votes, round, kind)));
    vstd::set_lib::lemma_len_subset(
        supporters(votes, round, kind, value),
        voters(votes, round, kind),
    );
}

/// An operator counts once per round and kind, however often it votes. After a second vote
/// by the same operator the votes are as if only the second had been cast, the voters and
/// their number are as after the first, a repeated value changes nothing at all, and no
/// tally is more than one above what it was before the operator voted.
pub proof fn lemma_one_vote_per_operator(
    votes: Votes,
    round: Round,
    kind: MessageKind,
    operator: OperatorId,
    first: Seq<u8>,
    second: Seq<u8>,
    value: Seq<u8>,
)
    requires
        countable(votes),
    ensures
        ({
            let once = cast(votes, round, kind, operator, first);
            let twice = cast(once, round, kind, operator, second);
            &&& twice == cast(votes, round, kind, operator, second)
            &&& first == second ==> twice == once
            &&& voters(twice, round, kind) == voters(once, round, kind)
            &&& turnout(twice, round, kind) == turnout(once, round, kind)
            &&& first == second ==> tally(twice, round, kind, value) == tally(
                once,
                round,
                kind,
                value,
            )
            &&& tally(twice, round, kind, value) <= tally(votes, round, kind, value) + 1
            &&& supporters(twice, round, kind, value).contains(operator) <==> value == second
        }),
{
    let once = cast(votes, round, kind, operator, first);
    let twice = cast(once, round, kind, operator, second);
    assert(twice =~= cast(votes, round, kind, operator, second));
    if first == second {
        assert(twice =~= once);
    }
    lemma_cast_voters(once, round, kind, operator, second, round, kind);
    lemma_cast_voters(votes, round, kind, operator, first, round, kind);
    assert(voters(twice, round, kind) =~= voters(once, round, kind));
    lemma_cast_supporters(votes, round, kind, operator, second, round, kind, value);
    lemma_tally_at_most_turnout(votes, round, kind, value);
    let before = supporters(votes, round, kind, value);
    if value == second {
        assert(before.insert(operator).len() <= before.len() + 1);
    } else {
        assert(before.remove(operator).len() <= before.len());
    }
}

/// A vote for another value than the operator's recorded one moves the operator, and
/// nobody else: the voters are who they were, the recorded vote is the new value, the tally
/// of the old value falls by one and the tally of the new value rises by one.
pub proof fn lemma_changed_vote_moves_one(
    votes: Votes,
    round: Round,
    kind: MessageKind,
    operator: OperatorId,
    old_value: Seq<u8>,
    new_value: Seq<u8>,
)
    requires
        countable(votes),
        votes.contains_key(VoteKey { round, kind, operator }),
        votes[VoteKey { round, kind, operator }] == old_value,
        old_value != new_value,
    ensures
        ({
            let after = cast(votes, round, kind, operator, new_value);
            &&& voters(after, round, kind) == voters(votes, round, kind)
            &&& turnout(after, round, kind) == turnout(votes, round, kind)
            &&& after[VoteKey { round, kind, operator }] == new_value
            &&& tally(after, round, kind, old_value) == tally(votes, round, kind, old_value) - 1
            &&& tally(after, round, kind, new_value) == tally(votes, round, kind, new_value) + 1
        }),
{
    let after = cast(votes, round, kind, operator, new_value);
    lemma_cast_voters(votes, round, kind, operator, new_value, round, kind);
    assert(voters(votes, round, kind).contains(operator));
    assert(voters(after, round, kind) =~= voters(votes, round, kind));
    lemma_cast_supporters(votes, round, kind, operator, new_value, round, kind, old_value);
    lemma_cast_supporters(votes, round, kind, operator, new_value, round, kind, new_value);
    lemma_tally_at_most_turnout(votes, round, kind, old_value);
    lemma_tally_at_most_turnout(votes, round, kind, new_value);
    assert(supporters(votes, round, kind, old_value).contains(operator));
    assert(!supporters(votes, round, kind, new_value).contains(operator));
}

/// One recorded vote of a round.
struct Vote {
    kind: MessageKind,
    operator: OperatorId,
    value: Vec<u8>,
}

/// Whether `vote` is the vote of `operator` for messages of `kind`.
spec fn is_vote(vote: Vote, kind: MessageKind, operator: OperatorId) -> bool {
    vote.kind == kind && vote.operator == operator
}

/// Whether `vote` is of `kind` and, where a value is asked for, for that value.
spec fn counts(vote: Vote, kind: MessageKind, wanted: Option<Seq<u8>>) -> bool {
    vote.kind == kind && (wanted matches Some(value) ==> vote.value@ == value)
}

/// No operator has two votes of one kind among the votes of a round.
spec fn distinct(bucket: Seq<Vote>) -> bool {
    forall|i: int, j: int|
        0 <= i < j < bucket.len() ==> !is_vote(
            #[trigger] bucket[i],
            (#[trigger] bucket[j]).kind,
            bucket[j].operator,
        )
}

/// Whether the votes of a round hold one of `operator` for messages of `kind`.
spec fn has_vote(bucket: Seq<Vote>, kind: MessageKind, operator: OperatorId) -> bool {
    exists|i: int| 0 <= i < bucket.len() && is_vote(#[trigger] bucket[i], kind, operator)
}

/// Where the vote of `operator` for messages of `kind` stands among the votes of a round.
spec fn slot(bucket: Seq<Vote>, kind: MessageKind, operator: OperatorId) -> int {
    choose|i: int| 0 <= i < bucket.len() && is_vote(#[trigger] bucket[i], kind, operator)
}

/// The operators that the first `upto` votes of a round count for.
spec fn counted(bucket: Seq<Vote>, upto: int, kind: MessageKind, wanted: Option<Seq<u8>>) -> Set<
    OperatorId,
> {
    Set::new(
        |operator: OperatorId|
            exists|i: int|
                0 <= i < upto && is_vote(#[trigger] bucket[i], kind, operator) && counts(
                    bucket[i],
                    kind,
                    wanted,
                ),
    )
}

/// The votes that the votes of one round stand for.
spec fn bucket_votes(bucket: Seq<Vote>, round: Round) -> Votes {
    Map::new(
        |key: VoteKey| key.round == round && has_vote(bucket, key.kind, key.operator),
        |key: VoteKey| bucket[slot(bucket, key.kind, key.operator)].value@,
    )
}

/// Among distinct votes, a vote is found where it stands.
proof fn lemma_slot(bucket: Seq<Vote>, at: int)
    requires
        distinct(bucket),
        0 <= at < bucket.len(),
    ensures
        has_vote(bucket, bucket[at].kind, bucket[at].operator),
        slot(bucket, bucket[at].kind, bucket[at].operator) == at,
{
    assert(is_vote(bucket[at], bucket[at].kind, bucket[at].operator));
    let found = slot(bucket, bucket[at].kind, bucket[at].operator);
    assert(0 <= found < bucket.len() && is_vote(bucket[found], bucket[at].kind, bucket[at].operator));
    if found < at {
        assert(!is_vote(bucket[found], bucket[at].kind, bucket[at].operator));
    } else if at < found {
        assert(!is_vote(bucket[at], bucket[found].kind, bucket[found].operator));
    }
}

/// The operators counted over all votes of a round are the voters, or the supporters of the
/// wanted value, of the votes that the round stands for.
proof fn lemma_counted_all(bucket: Seq<Vote>, round: Round, kind: MessageKind, wanted: Option<Seq<u8>>)
    requires
        distinct(bucket),
    ensures
        counted(bucket, bucket.len() as int, kind, wanted) == match wanted {
            Some(value) => supporters(bucket_votes(bucket, round), round, kind, value),
            None => voters(bucket_votes(bucket, round), round, kind),
        },
{
    let votes = bucket_votes(bucket, round);
    let all = counted(bucket, bucket.len() as int, kind, wanted);
    let expected = match wanted {
        Some(value) => supporters(votes, round, kind, value),
        None => voters(votes, round, kind),
    };
    assert forall|operator: OperatorId| all.contains(operator) == expected.contains(operator) by {
        let key = VoteKey { round, kind, operator };
        if all.contains(operator) {
            let i = choose|i: int|
                0 <= i < bucket.len() && is_vote(#[trigger] bucket[i], kind, operator) && counts(
                    bucket[i],
                    kind,
                    wanted,
                );
            lemma_slot(bucket, i);
            assert(votes.contains_key(key));
            assert(votes[key] == bucket[i].value@);
        }
        if expected.contains(operator) {
            assert(votes.contains_key(key));
            let i = slot(bucket, kind, operator);
            assert(0 <= i < bucket.len() && is_vote(bucket[i], kind, operator));
            assert(votes[key] == bucket[i].value@);
            assert(counts(bucket[i], kind, wanted));
        }
    }
    assert(all =~= expected);
}

/// Counting one more vote adds its operator where the vote counts, and nothing otherwise.
proof fn lemma_counted_step(bucket: Seq<Vote>, upto: int, kind: MessageKind, wanted: Option<Seq<u8>>)
    requires
        distinct(bucket),
        0 <= upto < bucket.len(),
    ensures
        counts(bucket[upto], kind, wanted) ==> {
            &&& !counted(bucket, upto, kind, wanted).contains(bucket[upto].operator)
            &&& counted(bucket, upto + 1, kind, wanted) == counted(bucket, upto, kind, wanted).insert(
                bucket[upto].operator,
            )
        },
        !counts(bucket[upto], kind, wanted) ==> counted(bucket, upto + 1, kind, wanted) == counted(
            bucket,
            upto,
            kind,
            wanted,
        ),
{
    let before = counted(bucket, upto, kind, wanted);
    let after = counted(bucket, upto + 1, kind, wanted);
    if counts(bucket[upto], kind, wanted) {
        let who = bucket[upto].operator;
        if before.contains(who) {
            let i = choose|i: int|
                0 <= i < upto && is_vote(#[trigger] bucket[i], kind, who) && counts(
                    bucket[i],
                    kind,
                    wanted,
                );
            assert(!is_vote(bucket[i], bucket[upto].kind, bucket[upto].operator));
        }
        assert forall|operator: OperatorId|
            after.contains(operator) == before.insert(who).contains(operator) by {
            if after.contains(operator) {
                let i = choose|i: int|
                    0 <= i < upto + 1 && is_vote(#[trigger] bucket[i], kind, operator) && counts(
                        bucket[i],
                        kind,
                        wanted,
                    );
                if i < upto {
                    assert(before.contains(operator));
                }
            }
            if before.insert(who).contains(operator) {
                if operator == who {
                    assert(is_vote(bucket[upto], kind, operator));
                } else {
                    let i = choose|i: int|
                        0 <= i < upto && is_vote(#[trigger] bucket[i], kind, operator) && counts(
                            bucket[i],
                            kind,
                            wanted,
                        );
                    assert(0 <= i < upto + 1);
                }
                assert(after.contains(operator));
            }
        }
        assert(after =~= before.insert(who));
    } else {
        assert forall|operator: OperatorId| after.contains(operator) == before.contains(operator) by {
            if after.contains(operator) {
                let i = choose|i: int|
                    0 <= i < upto + 1 && is_vote(#[trigger] bucket[i], kind, operator) && counts(
                        bucket[i],
                        kind,
                        wanted,
                    );
                assert(i < upto);
            }
            if before.contains(operator) {
                let i = choose|i: int|
                    0 <= i < upto && is_vote(#[trigger] bucket[i], kind, operator) && counts(
                        bucket[i],
                        kind,
                        wanted,
                    );
                assert(0 <= i < upto + 1);
            }
        }
        assert(after =~= before);
    }
}

/// However many votes of a round are looked at, finitely many operators are counted.
proof fn lemma_counted_finite(bucket: Seq<Vote>, upto: int, kind: MessageKind, wanted: Option<Seq<u8>>)
    requires
        distinct(bucket),
        0 <= upto <= bucket.len(),
    ensures
        counted(bucket, upto, kind, wanted).finite(),
    decreases upto,
{
    if upto == 0 {
        assert(counted(bucket, 0, kind, wanted) =~= Set::empty());
    } else {
        lemma_counted_finite(bucket, upto - 1, kind, wanted);
        lemma_counted_step(bucket, upto - 1, kind, wanted);
    }
}

/// Counts the votes of a round that are of `kind` and, where a value is given, for it.
fn count_votes(bucket: &Vec<Vote>, kind: MessageKind, wanted: Option<&Vec<u8>>) -> (n: usize)
    requires
        distinct(bucket@),
    ensures
        ({
            let filter = match wanted {
                Some(value) => Some(value@),
                None => None,
            };
            &&& counted(bucket@, bucket.len() as int, kind, filter).finite()
            &&& n == counted(bucket@, bucket.len() as int, kind, filter).len()
        }),
{
    let ghost filter: Option<Seq<u8>> = match wanted {
        Some(value) => Some(value@),
        None => None,
    };
    let mut n: usize = 0;
    let mut i: usize = 0;
    assert(counted(bucket@, 0, kind, filter) =~= Set::empty());
    while i < bucket.len()
        invariant
            distinct(bucket@),
            i <= bucket.len(),
            n <= i,
            filter == match wanted {
                Some(value) => Some(value@),
                None => None,
            },
            counted(bucket@, i as int, kind, filter).finite(),
            n == counted(bucket@, i as int, kind, filter).len(),
        decreases bucket.len() - i,
    {
        let vote = &bucket[i];
        let hit = vote.kind == kind && match wanted {
            Some(value) => same_bytes(&vote.value, value),
            None => true,
        };
        proof {
            assert(hit == counts(bucket@[i as int], kind, filter));
            lemma_counted_step(bucket@, i as int, kind, filter);
        }
        if hit {
            n += 1;
        }
        i += 1;
    }
    n
}

/// Finds where the vote of `operator` for messages of `kind` stands in a round, if it has one.
fn find_vote(bucket: &Vec<Vote>, kind: MessageKind, operator: OperatorId) -> (at: Option<usize>)
    ensures
        match at {
            Some(i) => i < bucket.len() && is_vote(bucket@[i as int], kind, operator),
            None => !has_vote(bucket@, kind, operator),
        },
{
    let mut i: usize = 0;
    while i < bucket.len()
        invariant
            i <= bucket.len(),
            forall|j: int| 0 <= j < i ==> !is_vote(#[trigger] bucket@[j], kind, operator),
        decreases bucket.len() - i,
    {
        if bucket[i].kind == kind && bucket[i].operator == operator {
            return Some(i);
        }
        i += 1;
    }
    None
}

/// Files the vote of `operator` in a round, in place of an earlier one of the same kind.
fn file_vote(bucket: &mut Vec<Vote>, round: Round, kind: MessageKind, operator: OperatorId, value: Vec<u8>)
    requires
        distinct(old(bucket)@),
    ensures
        distinct(final(bucket)@),
        bucket_votes(final(bucket)@, round) == cast(
            bucket_votes(old(bucket)@, round),
            round,
            kind,
            operator,
            value@,
        ),
{
    let ghost before = bucket@;
    let ghost voted = value@;
    let at = find_vote(bucket, kind, operator);
    let vote = Vote { kind, operator, value };
    match at {
        Some(i) => {
            bucket.set(i, vote);
        },
        None => {
            bucket.push(vote);
        },
    }
    proof {
        let after = bucket@;
        let here: int = match at {
            Some(i) => i as int,
            None => before.len() as int,
        };
        assert(after[here] == vote);
        assert(forall|j: int| 0 <= j < before.len() && j != here ==> after[j] == before[j]);
        assert forall|i: int, j: int| 0 <= i < j < after.len() implies !is_vote(
            #[trigger] after[i],
            (#[trigger] after[j]).kind,
            after[j].operator,
        ) by {
            if i == here {
                if at is Some {
                    assert(!is_vote(before[i], before[j].kind, before[j].operator));
                }
            } else if j == here {
                if at is Some {
                    assert(!is_vote(before[i], before[j].kind, before[j].operator));
                } else {
                    assert(!is_vote(before[i], kind, operator));
                }
            } else {
                assert(!is_vote(before[i], before[j].kind, before[j].operator));
            }
        }
        let old_votes = bucket_votes(before, round);
        let new_votes = bucket_votes(after, round);
        let expected = cast(old_votes, round, kind, operator, voted);
        lemma_slot(after, here);
        assert forall|key: VoteKey| new_votes.contains_key(key) == expected.contains_key(key) by {
            if new_votes.contains_key(key) {
                let j = slot(after, key.kind, key.operator);
                assert(0 <= j < after.len() && is_vote(after[j], key.kind, key.operator));
                if j != here {
                    assert(is_vote(before[j], key.kind, key.operator));
                }
            }
            if expected.contains_key(key) {
                if key == (VoteKey { round, kind, operator }) {
                    assert(is_vote(after[here], key.kind, key.operator));
                } else {
                    let j = slot(before, key.kind, key.operator);
                    assert(0 <= j < before.len() && is_vote(before[j], key.kind, key.operator));
                    assert(j != here);
                    assert(is_vote(after[j], key.kind, key.operator));
                }
            }
        }
        assert forall|key: VoteKey| new_votes.contains_key(key) implies new_votes[key]
            == expected[key] by {
            let j = slot(after, key.kind, key.operator);
            assert(0 <= j < after.len() && is_vote(after[j], key.kind, key.operator));
            if j == here {
                assert(key == (VoteKey { round, kind, operator }));
            } else {
                assert(is_vote(before[j], key.kind, key.operator));
                lemma_slot(before, j);
                assert(key != (VoteKey { round, kind, operator }));
            }
        }
        assert(new_votes =~= expected);
    }
}

/// The votes received, by round. An operator holds at most one vote per round and kind: a
/// later vote takes the place of the earlier one, so no operator is ever counted twice.
pub struct QuorumStore {
    rounds: HashMap<usize, Vec<Vote>>,
}

impl View for QuorumStore {
    type V = Votes;

    closed spec fn view(&self) -> Votes {
        Map::new(
            |key: VoteKey|
                self.rounds@.contains_key(key.round.0) && has_vote(
                    self.rounds@[key.round.0]@,
                    key.kind,
                    key.operator,
                ),
            |key: VoteKey|
                self.rounds@[key.round.0]@[slot(
                    self.rounds@[key.round.0]@,
                    key.kind,
                    key.operator,
                )].value@,
        )
    }
}

impl QuorumStore {
    /// No operator holds two votes of one kind in the same round.
    pub closed spec fn wf(&self) -> bool {
        forall|round: usize|
            self.rounds@.contains_key(round) ==> distinct(#[trigger] self.rounds@[round]@)
    }

    /// Every tally of a well-formed store is a number.
    pub proof fn lemma_countable(&self)
        requires
            self.wf(),
        ensures
            countable(self@),
    {
        assert forall|round: Round, kind: MessageKind| #[trigger]
            voters(self@, round, kind).finite() by {
            if self.rounds@.contains_key(round.0) {
                let bucket = self.rounds@[round.0]@;
                lemma_counted_finite(bucket, bucket.len() as int, kind, None);
                lemma_counted_all(bucket, round, kind, None);
                self.lemma_round_votes(round);
                assert(voters(self@, round, kind) =~= voters(bucket_votes(bucket, round), round, kind));
            } else {
                assert(voters(self@, round, kind) =~= Set::empty());
            }
        }
    }

    /// The votes of `round` alone.
    spec fn round_votes(&self, round: Round) -> Votes {
        if self.rounds@.contains_key(round.0) {
            bucket_votes(self.rounds@[round.0]@, round)
        } else {
            Map::empty()
        }
    }

    /// A store with no votes.
    pub fn new() -> (store: Self)
        ensures
            store.wf(),
            store@ == Map::<VoteKey, Seq<u8>>::empty(),
    {
        let store = QuorumStore { rounds: HashMap::new() };
        assert(store@ =~= Map::<VoteKey, Seq<u8>>::empty());
        store
    }

    /// Records that `operator` voted for `value` with a message of `kind` in `round`. An
    /// earlier vote of the same operator, round and kind is overwritten.
    pub fn record(&mut self, round: Round, kind: MessageKind, operator: OperatorId, value: Vec<u8>)
        requires
            old(self).wf(),
        ensures
            final(self).wf(),
            final(self)@ == cast(old(self)@, round, kind, operator, value@),
    {
        let ghost before = self.rounds@;
        let ghost old_votes = self@;
        let ghost voted = value@;
        let mut bucket = match self.rounds.remove(&round.0) {
            Some(bucket) => bucket,
            None => Vec::new(),
        };
        let ghost old_bucket = bucket@;
        file_vote(&mut bucket, round, kind, operator, value);
        let ghost new_bucket = bucket@;
        self.rounds.insert(round.0, bucket);
        proof {
            let expected = cast(old_votes, round, kind, operator, voted);
            let new_votes = self@;
            assert(self.rounds@[round.0]@ == new_bucket);
            assert forall|key: VoteKey| new_votes.contains_key(key) == expected.contains_key(key) by {
                if key.round == round {
                    assert(bucket_votes(new_bucket, round).contains_key(key) == new_votes.contains_key(
                        key,
                    ));
                    assert(bucket_votes(old_bucket, round).contains_key(key) == old_votes.contains_key(
                        key,
                    ));
                } else {
                    assert(self.rounds@.contains_key(key.round.0) == before.contains_key(key.round.0));
                }
            }
            assert forall|key: VoteKey| new_votes.contains_key(key) implies new_votes[key]
                == expected[key] by {
                if key.round == round {
                    assert(bucket_votes(new_bucket, round)[key] == new_votes[key]);
                    if old_votes.contains_key(key) {
                        assert(bucket_votes(old_bucket, round)[key] == old_votes[key]);
                    }
                } else {
                    assert(self.rounds@[key.round.0] == before[key.round.0]);
                }
            }
            assert(new_votes =~= expected);
        }
    }

    /// The number of distinct operators whose recorded vote of `kind` in `round` is for
    /// `value`.
    pub fn count_matching(&self, round: Round, kind: MessageKind, value: &Vec<u8>) -> (n: usize)
        requires
            self.wf(),
        ensures
            n == tally(self@, round, kind, value@),
    {
        match self.rounds.get(&round.0) {
            Some(bucket) => {
                let n = count_votes(bucket, kind, Some(value));
                proof {
                    lemma_counted_all(bucket@, round, kind, Some(value@));
                    self.lemma_round_votes(round);
                    assert(supporters(self@, round, kind, value@) =~= supporters(
                        bucket_votes(bucket@, round),
                        round,
                        kind,
                        value@,
                    ));
                }
                n
            },
            None => {
                proof {
                    assert(supporters(self@, round, kind, value@) =~= Set::empty());
                }
                0
            },
        }
    }

    /// The number of distinct operators with a recorded vote of `kind` in `round`, whatever
    /// its value.
    pub fn count_voters(&self, round: Round, kind: MessageKind) -> (n: usize)
        requires
            self.wf(),
        ensures
            n == turnout(self@, round, kind),
    {
        match self.rounds.get(&round.0) {
            Some(bucket) => {
                let n = count_votes(bucket, kind, None);
                proof {
                    lemma_counted_all(bucket@, round, kind, None);
                    self.lemma_round_votes(round);
                    assert(voters(self@, round, kind) =~= voters(
                        bucket_votes(bucket@, round),
                        round,
                        kind,
                    ));
                }
                n
            },
            None => {
                proof {
                    assert(voters(self@, round, kind) =~= Set::empty());
                }
                0
            },
        }
    }

    /// Forgets every vote.
    pub fn clear(&mut self)
        ensures
            final(self).wf(),
            final(self)@ == Map::<VoteKey, Seq<u8>>::empty(),
    {
        self.rounds.clear();
        assert(self@ =~= Map::<VoteKey, Seq<u8>>::empty());
    }

    /// Within one round the store holds the votes that the round's own votes stand for.
    proof fn lemma_round_votes(&self, round: Round)
        ensures
            forall|key: VoteKey|
                key.round == round ==> (self@.contains_key(key) == self.round_votes(
                    round,
                ).contains_key(key)),
            forall|key: VoteKey|
                key.round == round && self@.contains_key(key) ==> self@[key] == self.round_votes(
                    round,
                )[key],
    {
    }
}

/// With no votes every tally is zero.
pub proof fn lemma_empty_countable()
    ensures
        countable(Map::<VoteKey, Seq<u8>>::empty()),
        forall|round: Round, kind: MessageKind|
            #[trigger] voters(Map::<VoteKey, Seq<u8>>::empty(), round, kind) == Set::<
                OperatorId,
            >::empty(),
{
    let none = Map::<VoteKey, Seq<u8>>::empty();
    assert forall|round: Round, kind: MessageKind| #[trigger]
        voters(none, round, kind) == Set::<OperatorId>::empty() by {
        assert(voters(none, round, kind) =~= Set::<OperatorId>::empty());
    }
}

} // verus!
