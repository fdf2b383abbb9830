//! Proposals that wait for the verdict of the validator.

use crate::qbft_types::Round;
use std::collections::HashMap;
use vstd::prelude::*;

verus! {

broadcast use vstd::std_specs::hash::group_hash_axioms;

/// Names one request for validation. Identifiers are handed out in increasing order and
/// never twice within an instance.
pub type ValidationId = usize;

/// What the tracker holds: how many identifiers were handed out, and the round and value
/// of each request whose outcome is still awaited.
pub struct Validations {
    pub issued: nat,
    pub pending: Map<ValidationId, (Round, Seq<u8>)>,
}

/// A proposal under validation.
struct Pending {
    round: Round,
    value: Vec<u8>,
}

/// Links the outcome of a validation to the proposal that it was asked for.
pub struct ValidationTracker {
    next_id: usize,
    pending: HashMap<usize, Pending>,
}

impl View for ValidationTracker {
    type V = Validations;

    closed spec fn view(&self) -> Validations {
        Validations {
            issued: self.next_id as nat,
            pending: Map::new(
                |id: ValidationId| self.pending@.contains_key(id),
                |id: ValidationId| (self.pending@[id].round, self.pending@[id].value@),
            ),
        }
    }
}

impl ValidationTracker {
    /// Every request that is awaited carries an identifier that was handed out.
    pub closed spec fn wf(&self) -> bool {
        forall|id: usize| self.pending@.contains_key(id) ==> id < self.next_id
    }

    /// What `wf` means for the view, and that the identifiers fit the machine word.
    pub proof fn lemma_wf(&self)
        requires
            self.wf(),
        ensures
            self@.issued <= usize::MAX,
            forall|id: ValidationId| self@.pending.contains_key(id) ==> id < self@.issued,
    {
    }

    /// A tracker that awaits nothing and has handed out no identifier.
    pub fn new() -> (tracker: Self)
        ensures
            tracker.wf(),
            tracker@ == (Validations { issued: 0, pending: Map::empty() }),
    {
        let tracker = ValidationTracker { next_id: 0, pending: HashMap::new() };
        assert(tracker@.pending =~= Map::empty());
        tracker
    }

    /// Whether every identifier has been handed out.
    pub fn exhausted(&self) -> (none_left: bool)
        ensures
            none_left == (self@.issued == usize::MAX),
    {
        self.next_id == usize::MAX
    }

    /// Starts to await the outcome for `value`, proposed in `round`, under a fresh
    /// identifier: the number of identifiers handed out before, which is therefore above
    /// every earlier one.
    pub fn insert(&mut self, round: Round, value: Vec<u8>) -> (id: ValidationId)
        requires
            old(self).wf(),
            old(self)@.issued < usize::MAX,
        ensures
            final(self).wf(),
            id == old(self)@.issued,
            !old(self)@.pending.contains_key(id),
            final(self)@ == (Validations {
                issued: old(self)@.issued + 1,
                pending: old(self)@.pending.insert(id, (round, value@)),
            }),
    {
        let id = self.next_id;
        let ghost awaited = old(self)@.pending;
        let ghost held = value@;
        self.pending.insert(id, Pending { round, value });
        self.next_id = id + 1;
        assert(self@.pending =~= awaited.insert(id, (round, held)));
        id
    }

    /// Stops awaiting the request `id` and returns its round and value, or `None` if no such
    /// request is awaited: the identifier was never handed out, or was taken before.
    pub fn take(&mut self, id: ValidationId) -> (found: Option<(Round, Vec<u8>)>)
        requires
            old(self).wf(),
        ensures
            final(self).wf(),
            final(self)@.issued == old(self)@.issued,
            match found {
                Some((round, value)) => {
                    &&& old(self)@.pending.contains_key(id)
                    &&& old(self)@.pending[id] == (round, value@)
                    &&& final(self)@.pending == old(self)@.pending.remove(id)
                },
                None => !old(self)@.pending.contains_key(id) && final(self)@ == old(self)@,
            },
    {
        let ghost awaited = old(self)@.pending;
        match self.pending.remove(&id) {
            Some(entry) => {
                assert(self@.pending =~= awaited.remove(id));
                Some((entry.round, entry.value))
            },
            None => {
                assert(self@.pending =~= awaited);
                None
            },
        }
    }

    /// Stops awaiting every request. The identifiers handed out so far stay used.
    pub fn clear(&mut self)
        requires
            old(self).wf(),
        ensures
            final(self).wf(),
            final(self)@ == (Validations { issued: old(self)@.issued, pending: Map::empty() }),
    {
        self.pending.clear();
        assert(self@.pending =~= Map::empty());
    }
}

} // verus!
