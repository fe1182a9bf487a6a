//! Completion tracking: what has happened to each secret of the manifest.
//!
//! A secret is pending until an upload for it is admitted, in flight while
//! that upload runs, and completed once its content has been published.
//! Completion is final: a secret is written once per run.

use vstd::prelude::*;

verus! {

/// What has happened to one secret.
#[derive(Clone, Copy, Debug, PartialEq, Eq, Structural)]
pub enum TagState {
    /// No upload has succeeded and none is running.
    Pending,
    /// An admitted upload is running.
    InFlight,
    /// The content has been published.
    Completed,
}

/// An operation that the state of the addressed secret does not allow.
#[derive(Clone, Copy, Debug, PartialEq, Eq, Structural)]
pub enum StateError {
    /// The manifest has no secret at this position.
    UnknownSecret { index: usize },
    /// The secret has no upload in flight and is not completed.
    NotInFlight { index: usize },
    /// The secret is already completed.
    AlreadyCompleted { index: usize },
    /// The upload has not reached its end.
    UploadUnfinished { index: usize },
}

/// The state of a run in which nothing has been received.
pub open spec fn fresh(count: nat) -> Seq<TagState> {
    Seq::new(count, |i: int| TagState::Pending)
}

/// Whether an upload for the secret at `i` may start.
pub open spec fn can_claim(s: Seq<TagState>, i: int) -> bool {
    0 <= i < s.len() && s[i] == TagState::Pending
}

/// The state after an upload for the secret at `i` asked to start.
pub open spec fn claim(s: Seq<TagState>, i: int) -> Seq<TagState> {
    if can_claim(s, i) {
        s.update(i, TagState::InFlight)
    } else {
        s
    }
}

/// Whether the secret at `i` has an upload in flight.
pub open spec fn in_flight(s: Seq<TagState>, i: int) -> bool {
    0 <= i < s.len() && s[i] == TagState::InFlight
}

/// The state after the upload in flight for the secret at `i` succeeded.
pub open spec fn complete(s: Seq<TagState>, i: int) -> Seq<TagState> {
    if in_flight(s, i) {
        s.update(i, TagState::Completed)
    } else {
        s
    }
}

/// The state after the upload in flight for the secret at `i` failed.
pub open spec fn release(s: Seq<TagState>, i: int) -> Seq<TagState> {
    if in_flight(s, i) {
        s.update(i, TagState::Pending)
    } else {
        s
    }
}

/// Whether every secret has been received.
pub open spec fn all_completed(s: Seq<TagState>) -> bool {
    forall|i: int| 0 <= i < s.len() ==> s[i] == TagState::Completed
}

/// The error that completing or releasing the secret at `i` meets, if any.
pub open spec fn settle_fault(s: Seq<TagState>, i: usize) -> Option<StateError> {
    if i >= s.len() {
        Some(StateError::UnknownSecret { index: i })
    } else if s[i as int] == TagState::Completed {
        Some(StateError::AlreadyCompleted { index: i })
    } else if s[i as int] == TagState::Pending {
        Some(StateError::NotInFlight { index: i })
    } else {
        None
    }
}

/// The completion record of one run, one entry per secret of the manifest.
pub struct TransferState {
    slots: Vec<TagState>,
}

impl View for TransferState {
    type V = Seq<TagState>;

    closed spec fn view(&self) -> Seq<TagState> {
        self.slots@
    }
}

impl TransferState {
    /// A record of `count` secrets, none of them received.
    pub fn new(count: usize) -> (state: TransferState)
        ensures
            state@ == fresh(count as nat),
    {
        let mut slots: Vec<TagState> = Vec::new();
        let mut i: usize = 0;
        while i < count
            invariant
                i <= count,
                slots@.len() == i,
                forall|k: int| 0 <= k < i ==> slots@[k] == TagState::Pending,
            decreases count - i,
        {
            slots.push(TagState::Pending);
            i += 1;
        }
        proof {
            assert(slots@ =~= fresh(count as nat));
        }
        TransferState { slots }
    }

    /// The number of secrets tracked.
    pub fn len(&self) -> (n: usize)
        ensures
            n == self@.len(),
    {
        self.slots.len()
    }

    /// What has happened to the secret at `index`.
    pub fn get(&self, index: usize) -> (state: Option<TagState>)
        ensures
            match state {
                Some(s) => index < self@.len() && s == self@[index as int],
                None => index >= self@.len(),
            },
    {
        if index < self.slots.len() {
            Some(self.slots[index])
        } else {
            None
        }
    }

    /// Starts an upload for the secret at `index` if it is pending, and says
    /// whether it did. Checking and marking are one step.
    pub fn try_claim(&mut self, index: usize) -> (claimed: bool)
        ensures
            claimed == can_claim(old(self)@, index as int),
            final(self)@ == claim(old(self)@, index as int),
    {
        if index < self.slots.len() {
            match self.slots[index] {
                TagState::Pending => {
                    self.slots.set(index, TagState::InFlight);
                    true
                },
                _ => false,
            }
        } else {
            false
        }
    }

    /// Marks the secret at `index` completed. Only a secret with an upload
    /// in flight can be completed; otherwise nothing changes.
    pub fn complete(&mut self, index: usize) -> (done: Result<(), StateError>)
        ensures
            final(self)@ == complete(old(self)@, index as int),
            match done {
                Ok(_) => settle_fault(old(self)@, index) is None,
                Err(e) => settle_fault(old(self)@, index) == Some(e),
            },
    {
        if index >= self.slots.len() {
            return Err(StateError::UnknownSecret { index });
        }
        match self.slots[index] {
            TagState::InFlight => {
                self.slots.set(index, TagState::Completed);
                Ok(())
            },
            TagState::Completed => Err(StateError::AlreadyCompleted { index }),
            TagState::Pending => Err(StateError::NotInFlight { index }),
        }
    }

    /// Gives up the upload in flight for the secret at `index`: the secret
    /// is pending again. Otherwise nothing changes.
    pub fn release(&mut self, index: usize) -> (done: Result<(), StateError>)
        ensures
            final(self)@ == release(old(self)@, index as int),
            match done {
                Ok(_) => settle_fault(old(self)@, index) is None,
                Err(e) => settle_fault(old(self)@, index) == Some(e),
            },
    {
        if index >= self.slots.len() {
            return Err(StateError::UnknownSecret { index });
        }
        match self.slots[index] {
            TagState::InFlight => {
                self.slots.set(index, TagState::Pending);
                Ok(())
            },
            TagState::Completed => Err(StateError::AlreadyCompleted { index }),
            TagState::Pending => Err(StateError::NotInFlight { index }),
        }
    }

    /// Whether every secret has been received.
    pub fn all_completed(&self) -> (all: bool)
        ensures
            all == all_completed(self@),
    {
        let n: usize = self.slots.len();
        let mut i: usize = 0;
        while i < n
            invariant
                i <= n,
                n == self.slots@.len(),
                forall|k: int| 0 <= k < i ==> self.slots@[k] == TagState::Completed,
            decreases n - i,
        {
            match self.slots[i] {
                TagState::Completed => {},
                _ => {
                    return false;
                },
            }
            i += 1;
        }
        true
    }
}

/// Completion is final: no claim, completion or release at any position
/// changes a completed secret.
pub proof fn lemma_completed_is_final(s: Seq<TagState>, i: int, j: int)
    requires
        0 <= i < s.len(),
        s[i] == TagState::Completed,
    ensures
        claim(s, j)[i] == TagState::Completed,
        complete(s, j)[i] == TagState::Completed,
        release(s, j)[i] == TagState::Completed,
        !can_claim(s, i),
{
}

/// Of two uploads that ask to start for the same pending secret, the first
/// is let in and the second is not.
pub proof fn lemma_one_claim_wins(s: Seq<TagState>, i: int)
    requires
        can_claim(s, i),
    ensures
        !can_claim(claim(s, i), i),
        claim(claim(s, i), i) == claim(s, i),
{
}

/// Uploads for two different secrets do not affect each other: each is let
/// in exactly when it would have been alone, and the order does not matter.
pub proof fn lemma_distinct_claims_commute(s: Seq<TagState>, i: int, j: int)
    requires
        i != j,
    ensures
        can_claim(claim(s, i), j) == can_claim(s, j),
        can_claim(claim(s, j), i) == can_claim(s, i),
        claim(claim(s, i), j) == claim(claim(s, j), i),
{
    assert(claim(claim(s, i), j) =~= claim(claim(s, j), i));
}

/// Settling one secret leaves every other secret as it was.
pub proof fn lemma_settle_is_local(s: Seq<TagState>, i: int, j: int)
    requires
        i != j,
        0 <= j < s.len(),
    ensures
        claim(s, i)[j] == s[j],
        complete(s, i)[j] == s[j],
        release(s, i)[j] == s[j],
{
}

/// A failed upload leaves the record as it was before the upload started.
pub proof fn lemma_release_undoes_claim(s: Seq<TagState>, i: int)
    requires
        can_claim(s, i),
    ensures
        release(claim(s, i), i) == s,
{
    assert(release(claim(s, i), i) =~= s);
}

/// A fresh record is complete only for an empty manifest.
pub proof fn lemma_fresh_state(count: nat)
    ensures
        fresh(count).len() == count,
        forall|i: int| 0 <= i < count ==> can_claim(fresh(count), i),
        all_completed(fresh(count)) <==> count == 0,
{
    if count > 0 {
        assert(fresh(count)[0] == TagState::Pending);
    }
}

} // verus!
