//! The aggregator's per-round state, as a closed sum type.

use vstd::prelude::*;
use crate::crypto::{commit_spec, commitment_signature_valid};
use crate::types::{CommitmentPayload, NodeId, RevealPayload};

verus! {

/// An accepted commitment with the public key it was checked against.
#[derive(Clone, Debug, PartialEq)]
pub struct CommitRecord {
    pub node_id: NodeId,
    pub payload: CommitmentPayload,
    pub public_key: Vec<u8>,
}

/// What the contracts see of a commitment record.
pub struct CommitView {
    pub node_id: NodeId,
    pub round_id: u64,
    pub commitment: [u8; 32],
    pub signature: Seq<u8>,
    pub public_key: Seq<u8>,
}

impl View for CommitRecord {
    type V = CommitView;

    open spec fn view(&self) -> CommitView {
        CommitView {
            node_id: self.node_id,
            round_id: self.payload.round_id,
            commitment: self.payload.commitment,
            signature: self.payload.signature@,
            public_key: self.public_key@,
        }
    }
}

/// Aggregator state: one round at a time, moving forward only.
#[derive(Clone, Debug, PartialEq)]
pub enum AggregatorState {
    /// Waiting for a round to be started.
    Idle,
    /// Collecting signed commitments until `threshold` of them are accepted.
    CollectingCommitments { round_id: u64, commitments: Vec<CommitRecord>, threshold: usize },
    /// Collecting reveals, each checked against its node's commitment.
    CollectingReveals {
        round_id: u64,
        commitments: Vec<CommitRecord>,
        reveals: Vec<(NodeId, RevealPayload)>,
        threshold: usize,
    },
    /// Enough reveals: the seed goes to the enclave.
    Aggregating { round_id: u64, reveals: Vec<(NodeId, RevealPayload)> },
    /// The enclave's output waits to be published on the ledger.
    Publishing { round_id: u64, random_number: [u8; 32], nonce: [u8; 16], attestation: Vec<u8> },
}

/// What the contracts see of the state.
pub enum StateView {
    Idle,
    CollectingCommitments { round_id: u64, commitments: Seq<CommitView>, threshold: usize },
    CollectingReveals {
        round_id: u64,
        commitments: Seq<CommitView>,
        reveals: Seq<(NodeId, RevealPayload)>,
        threshold: usize,
    },
    Aggregating { round_id: u64, reveals: Seq<(NodeId, RevealPayload)> },
    Publishing { round_id: u64, random_number: [u8; 32], nonce: [u8; 16], attestation: Seq<u8> },
}

pub open spec fn commits_view(c: Seq<CommitRecord>) -> Seq<CommitView> {
    c.map_values(|r: CommitRecord| r@)
}

impl View for AggregatorState {
    type V = StateView;

    open spec fn view(&self) -> StateView {
        match *self {
            AggregatorState::Idle => StateView::Idle,
            AggregatorState::CollectingCommitments { round_id, commitments, threshold } =>
                StateView::CollectingCommitments { round_id, commitments: commits_view(commitments@), threshold },
            AggregatorState::CollectingReveals { round_id, commitments, reveals, threshold } =>
                StateView::CollectingReveals {
                    round_id,
                    commitments: commits_view(commitments@),
                    reveals: reveals@,
                    threshold,
                },
            AggregatorState::Aggregating { round_id, reveals } =>
                StateView::Aggregating { round_id, reveals: reveals@ },
            AggregatorState::Publishing { round_id, random_number, nonce, attestation } =>
                StateView::Publishing { round_id, random_number, nonce, attestation: attestation@ },
        }
    }
}

pub open spec fn has_commit(c: Seq<CommitView>, id: Seq<char>) -> bool {
    exists|i: int| 0 <= i < c.len() && (#[trigger] c[i]).node_id@ == id
}

pub open spec fn has_reveal(r: Seq<(NodeId, RevealPayload)>, id: Seq<char>) -> bool {
    exists|i: int| 0 <= i < r.len() && (#[trigger] r[i]).0@ == id
}

/// The commitment stored for `id` (meaningful when `has_commit(c, id)`).
pub open spec fn stored_commitment(c: Seq<CommitView>, id: Seq<char>) -> [u8; 32] {
    c[choose|i: int| 0 <= i < c.len() && (#[trigger] c[i]).node_id@ == id].commitment
}

pub open spec fn distinct_commit_ids(c: Seq<CommitView>) -> bool {
    forall|i: int, j: int| 0 <= i < j < c.len() ==> (#[trigger] c[i]).node_id@ != (#[trigger] c[j]).node_id@
}

pub open spec fn distinct_reveal_ids(r: Seq<(NodeId, RevealPayload)>) -> bool {
    forall|i: int, j: int| 0 <= i < j < r.len() ==> (#[trigger] r[i]).0@ != (#[trigger] r[j]).0@
}

/// Every stored commitment is for the round and carries a valid signature.
pub open spec fn commits_valid(c: Seq<CommitView>, round_id: u64) -> bool {
    forall|i: int|
        0 <= i < c.len() ==> {
            &&& (#[trigger] c[i]).round_id == round_id
            &&& commitment_signature_valid(c[i].public_key, c[i].round_id, c[i].commitment@, c[i].signature)
        }
}

/// Every stored reveal opens its node's stored commitment.
pub open spec fn reveals_valid(c: Seq<CommitView>, r: Seq<(NodeId, RevealPayload)>, round_id: u64) -> bool {
    forall|i: int|
        0 <= i < r.len() ==> {
            &&& (#[trigger] r[i]).1.round_id == round_id
            &&& has_commit(c, r[i].0@)
            &&& commit_spec(r[i].1.secret@, round_id) == stored_commitment(c, r[i].0@)@
        }
}

/// Invariant of the state for a configured threshold.
pub open spec fn state_wf(s: StateView, t: usize) -> bool {
    match s {
        StateView::Idle => true,
        StateView::CollectingCommitments { round_id, commitments, threshold } => {
            &&& threshold == t
            &&& commitments.len() < threshold
            &&& distinct_commit_ids(commitments)
            &&& commits_valid(commitments, round_id)
        },
        StateView::CollectingReveals { round_id, commitments, reveals, threshold } => {
            &&& threshold == t
            &&& reveals.len() < threshold
            &&& distinct_commit_ids(commitments)
            &&& commits_valid(commitments, round_id)
            &&& distinct_reveal_ids(reveals)
            &&& reveals_valid(commitments, reveals, round_id)
        },
        StateView::Aggregating { round_id, reveals } => distinct_reveal_ids(reveals),
        StateView::Publishing { .. } => true,
    }
}

pub open spec fn round_of(s: StateView) -> Option<u64> {
    match s {
        StateView::Idle => None,
        StateView::CollectingCommitments { round_id, .. } => Some(round_id),
        StateView::CollectingReveals { round_id, .. } => Some(round_id),
        StateView::Aggregating { round_id, .. } => Some(round_id),
        StateView::Publishing { round_id, .. } => Some(round_id),
    }
}

impl AggregatorState {
    pub fn is_idle(&self) -> (r: bool)
        ensures
            r == (self@ is Idle),
    {
        match self {
            AggregatorState::Idle => true,
            _ => false,
        }
    }

    pub fn is_collecting_commitments(&self) -> (r: bool)
        ensures
            r == (self@ is CollectingCommitments),
    {
        match self {
            AggregatorState::CollectingCommitments { .. } => true,
            _ => false,
        }
    }

    pub fn is_collecting_reveals(&self) -> (r: bool)
        ensures
            r == (self@ is CollectingReveals),
    {
        match self {
            AggregatorState::CollectingReveals { .. } => true,
            _ => false,
        }
    }

    pub fn is_aggregating(&self) -> (r: bool)
        ensures
            r == (self@ is Aggregating),
    {
        match self {
            AggregatorState::Aggregating { .. } => true,
            _ => false,
        }
    }

    pub fn is_publishing(&self) -> (r: bool)
        ensures
            r == (self@ is Publishing),
    {
        match self {
            AggregatorState::Publishing { .. } => true,
            _ => false,
        }
    }

    /// The round of every state but `Idle`.
    pub fn get_round_id(&self) -> (r: Option<u64>)
        ensures
            r == round_of(self@),
    {
        match self {
            AggregatorState::Idle => None,
            AggregatorState::CollectingCommitments { round_id, .. } => Some(*round_id),
            AggregatorState::CollectingReveals { round_id, .. } => Some(*round_id),
            AggregatorState::Aggregating { round_id, .. } => Some(*round_id),
            AggregatorState::Publishing { round_id, .. } => Some(*round_id),
        }
    }

    /// Whether at least `threshold` commitments are held; false outside the
    /// commitment phase.
    pub fn has_enough_commitments(&self, threshold: usize) -> (r: bool)
        ensures
            r == (match self@ {
                StateView::CollectingCommitments { commitments, .. } => commitments.len() >= threshold,
                _ => false,
            }),
    {
        match self {
            AggregatorState::CollectingCommitments { commitments, .. } => commitments.len() >= threshold,
            _ => false,
        }
    }
}

} // verus!
