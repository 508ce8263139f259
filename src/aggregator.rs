//! Round orchestrator: admits commitments and reveals, enforces quorum and
//! timeouts, and hands the seed to the enclave and the result to the ledger.

use vstd::prelude::*;
use crate::aggregation::{reveals_model, seed_of, seed_spec};
use crate::bytes::{bytes_equal, to_byte_vec};
use crate::crypto::{commit_spec, commitment_signature_valid, compute_commitment, verify_commitment_signature};
use crate::error::AggregatorError;
use crate::state_machine::{
    commits_view, distinct_commit_ids, distinct_reveal_ids, has_commit, has_reveal, state_wf,
    stored_commitment, AggregatorState, CommitRecord, CommitView, StateView,
};
use crate::beacon::RandomnessEvent;
use crate::tee::{attestation_bytes, attestation_bytes_spec, AttestationReport};
use crate::types::{CommitmentMsg, NodeId, RevealMsg, RevealPayload, StartCommitmentMsg, StartRevealMsg};

verus! {

/// Committee size, quorum, phase timeouts, listen port and publication retries.
#[derive(Clone, Debug)]
pub struct AggregatorConfig {
    pub committee_size: usize,
    pub threshold: usize,
    pub commitment_timeout_ms: u64,
    pub reveal_timeout_ms: u64,
    pub port: u16,
    pub max_retries: u32,
}

impl Default for AggregatorConfig {
    fn default() -> (r: Self)
        ensures
            r.committee_size == 3,
            r.threshold == 2,
            r.commitment_timeout_ms == 30000,
            r.reveal_timeout_ms == 30000,
            r.port == 9000,
            r.max_retries == 3,
    {
        AggregatorConfig {
            committee_size: 3,
            threshold: 2,
            commitment_timeout_ms: 30000,
            reveal_timeout_ms: 30000,
            port: 9000,
            max_retries: 3,
        }
    }
}

pub open spec fn config_valid(c: AggregatorConfig) -> bool {
    1 <= c.threshold <= c.committee_size
}

/// Ids of a committee, pairwise distinct.
pub open spec fn distinct_ids(c: Seq<NodeId>) -> bool {
    forall|i: int, j: int| 0 <= i < j < c.len() ==> (#[trigger] c[i])@ != (#[trigger] c[j])@
}

/// A committee can run a round with quorum `threshold`.
pub open spec fn committee_valid(c: Seq<NodeId>, threshold: usize) -> bool {
    c.len() > 0 && c.len() >= threshold && distinct_ids(c)
}

pub open spec fn commit_view_of(msg: CommitmentMsg, pk: Seq<u8>) -> CommitView {
    CommitView {
        node_id: msg.node_id,
        round_id: msg.payload.round_id,
        commitment: msg.payload.commitment,
        signature: msg.payload.signature@,
        public_key: pk,
    }
}

pub open spec fn received_round(msg_round: u64, payload_round: u64, round_id: u64) -> u64 {
    if msg_round != round_id { msg_round } else { payload_round }
}

/// Admission of a commitment: the next state and the answer.
pub open spec fn commitment_step(s: StateView, msg: CommitmentMsg, pk: Seq<u8>) -> (StateView, Result<Option<StartRevealMsg>, AggregatorError>) {
    match s {
        StateView::CollectingCommitments { round_id, commitments, threshold } => {
            if msg.round_id != round_id || msg.payload.round_id != round_id {
                (s, Err(AggregatorError::InvalidRoundId {
                    received: received_round(msg.round_id, msg.payload.round_id, round_id),
                    expected: round_id,
                }))
            } else if has_commit(commitments, msg.node_id@) {
                (s, Err(AggregatorError::DuplicateSubmission { node_id: msg.node_id, round_id }))
            } else if !commitment_signature_valid(pk, msg.payload.round_id, msg.payload.commitment@, msg.payload.signature@) {
                (s, Err(AggregatorError::InvalidCommitmentSignature { node_id: msg.node_id, round_id }))
            } else {
                let c2 = commitments.push(commit_view_of(msg, pk));
                if c2.len() >= threshold {
                    (StateView::CollectingReveals { round_id, commitments: c2, reveals: seq![], threshold },
                     Ok(Some(StartRevealMsg { round_id })))
                } else {
                    (StateView::CollectingCommitments { round_id, commitments: c2, threshold }, Ok(None))
                }
            }
        },
        _ => (s, Err(AggregatorError::WrongState)),
    }
}

pub open spec fn has_failed(failed: Seq<NodeId>, id: Seq<char>) -> bool {
    exists|i: int| 0 <= i < failed.len() && (#[trigger] failed[i])@ == id
}

/// Admission of a reveal, given the nodes whose reveal already failed its
/// commitment check in this round: the next state, the answer (`Ok(true)` when
/// the quorum of reveals is reached) and the updated record of failed nodes.
/// A node whose reveal failed gets no second attempt in the round.
pub open spec fn reveal_step(s: StateView, failed: Seq<NodeId>, msg: RevealMsg) -> (StateView, Result<bool, AggregatorError>, Seq<NodeId>) {
    match s {
        StateView::CollectingReveals { round_id, commitments, reveals, threshold } => {
            if msg.round_id != round_id || msg.payload.round_id != round_id {
                (s, Err(AggregatorError::InvalidRoundId {
                    received: received_round(msg.round_id, msg.payload.round_id, round_id),
                    expected: round_id,
                }), failed)
            } else if !has_commit(commitments, msg.node_id@) {
                (s, Err(AggregatorError::MissingCommitment { node_id: msg.node_id, round_id }), failed)
            } else if has_reveal(reveals, msg.node_id@) || has_failed(failed, msg.node_id@) {
                (s, Err(AggregatorError::DuplicateSubmission { node_id: msg.node_id, round_id }), failed)
            } else if commit_spec(msg.payload.secret@, msg.round_id) != stored_commitment(commitments, msg.node_id@)@ {
                (s, Err(AggregatorError::InvalidReveal { node_id: msg.node_id, round_id }), failed.push(msg.node_id))
            } else {
                let r2 = reveals.push((msg.node_id, msg.payload));
                if r2.len() >= threshold {
                    (StateView::Aggregating { round_id, reveals: r2 }, Ok(true), failed)
                } else {
                    (StateView::CollectingReveals { round_id, commitments, reveals: r2, threshold }, Ok(false), failed)
                }
            }
        },
        _ => (s, Err(AggregatorError::WrongState), failed),
    }
}

/// Index of the commitment of `id`, if any.
fn find_commit(c: &Vec<CommitRecord>, id: &NodeId) -> (r: Option<usize>)
    ensures
        match r {
            Some(i) => i < c@.len() && c@[i as int].node_id@ == id@,
            None => !has_commit(commits_view(c@), id@),
        },
{
    let mut i: usize = 0;
    while i < c.len()
        invariant
            i <= c@.len(),
            forall|j: int| 0 <= j < i ==> c@[j].node_id@ != id@,
        decreases c@.len() - i,
    {
        if c[i].node_id == *id {
            return Some(i);
        }
        i = i + 1;
    }
    proof {
        if has_commit(commits_view(c@), id@) {
            let j = choose|j: int| 0 <= j < commits_view(c@).len() && (#[trigger] commits_view(c@)[j]).node_id@ == id@;
            assert(commits_view(c@)[j] == c@[j]@);
        }
    }
    None
}

/// Whether `id` already revealed.
fn find_reveal(r: &Vec<(NodeId, RevealPayload)>, id: &NodeId) -> (found: bool)
    ensures
        found == has_reveal(r@, id@),
{
    let mut i: usize = 0;
    while i < r.len()
        invariant
            i <= r@.len(),
            forall|j: int| 0 <= j < i ==> r@[j].0@ != id@,
        decreases r@.len() - i,
    {
        if r[i].0 == *id {
            return true;
        }
        i = i + 1;
    }
    false
}

/// Whether `id` is among `failed`.
fn find_failed(failed: &Vec<NodeId>, id: &NodeId) -> (found: bool)
    ensures
        found == has_failed(failed@, id@),
{
    let mut i: usize = 0;
    while i < failed.len()
        invariant
            i <= failed@.len(),
            forall|j: int| 0 <= j < i ==> failed@[j]@ != id@,
        decreases failed@.len() - i,
    {
        if failed[i] == *id {
            return true;
        }
        i = i + 1;
    }
    false
}

/// The round orchestrator.
pub struct Aggregator {
    pub config: AggregatorConfig,
    pub state: AggregatorState,
    pub round_id: u64,
    /// Nodes whose reveal failed its commitment check in the current round.
    pub failed_reveals: Vec<NodeId>,
}

impl Aggregator {
    pub open spec fn wf(&self) -> bool {
        config_valid(self.config) && state_wf(self.state@, self.config.threshold)
    }

    pub open spec fn state_view(&self) -> StateView {
        self.state@
    }

    pub open spec fn config_view(&self) -> AggregatorConfig {
        self.config
    }

    pub open spec fn last_round(&self) -> u64 {
        self.round_id
    }

    /// An idle aggregator; `ConfigError` unless `1 <= threshold <= committee_size`.
    pub fn new(config: AggregatorConfig) -> (r: Result<Aggregator, AggregatorError>)
        ensures
            r is Ok <==> config_valid(config),
            r matches Ok(a) ==> a.wf() && a.state_view() is Idle && a.config_view() == config && a.last_round() == 0
                && a.failed_reveals@.len() == 0,
            r matches Err(e) ==> e is ConfigError,
    {
        if config.threshold < 1 || config.threshold > config.committee_size {
            return Err(AggregatorError::ConfigError {
                message: String::from_str("threshold must lie between 1 and the committee size"),
            });
        }
        Ok(Aggregator { config, state: AggregatorState::Idle, round_id: 0, failed_reveals: Vec::new() })
    }

    pub fn config(&self) -> (r: &AggregatorConfig)
        ensures
            *r == self.config,
    {
        &self.config
    }

    /// The current state.
    pub fn get_state(&self) -> (r: &AggregatorState)
        ensures
            r@ == self.state@,
    {
        &self.state
    }

    /// The id of the round started last (0 before any).
    pub fn get_round_id(&self) -> (r: u64)
        ensures
            r == self.round_id,
    {
        self.round_id
    }

    /// Number of commitments held in the current round.
    pub fn get_commitment_count(&self) -> (r: usize)
        ensures
            r == (match self.state@ {
                StateView::CollectingCommitments { commitments, .. } => commitments.len(),
                StateView::CollectingReveals { commitments, .. } => commitments.len(),
                _ => 0,
            }),
    {
        match &self.state {
            AggregatorState::CollectingCommitments { commitments, .. } => commitments.len(),
            AggregatorState::CollectingReveals { commitments, .. } => commitments.len(),
            _ => 0,
        }
    }

    /// Number of reveals held in the current round.
    pub fn get_reveal_count(&self) -> (r: usize)
        ensures
            r == (match self.state@ {
                StateView::CollectingReveals { reveals, .. } => reveals.len(),
                StateView::Aggregating { reveals, .. } => reveals.len(),
                _ => 0,
            }),
    {
        match &self.state {
            AggregatorState::CollectingReveals { reveals, .. } => reveals.len(),
            AggregatorState::Aggregating { reveals, .. } => reveals.len(),
            _ => 0,
        }
    }

    /// Checks the signature of a commitment message under `public_key`: 65 bytes,
    /// a recovery byte in `0..=3`, and ECDSA over `SHA-256(round_id_le ‖ commitment)`.
    pub fn verify_signature(msg: &CommitmentMsg, signature: &[u8], public_key: &[u8]) -> (r: bool)
        ensures
            r == commitment_signature_valid(public_key@, msg.payload.round_id, msg.payload.commitment@, signature@),
    {
        verify_commitment_signature(public_key, msg.payload.round_id, &msg.payload.commitment, signature)
    }

    /// Starts round `round_id` from `Idle`: empty commitment map, message to
    /// broadcast. `WrongState` outside `Idle`; `ConfigError` for an empty
    /// committee, one smaller than the threshold, or one with a repeated id.
    pub fn start_new_round(&mut self, round_id: u64, committee: Vec<NodeId>) -> (r: Result<StartCommitmentMsg, AggregatorError>)
        requires
            old(self).wf(),
        ensures
            final(self).wf(),
            final(self).config == old(self).config,
            !(old(self).state@ is Idle) ==> r == Err::<StartCommitmentMsg, AggregatorError>(AggregatorError::WrongState),
            old(self).state@ is Idle && !committee_valid(committee@, old(self).config.threshold) ==> r matches Err(AggregatorError::ConfigError { .. }),
            r is Ok <==> (old(self).state@ is Idle && committee_valid(committee@, old(self).config.threshold)),
            r is Err ==> *final(self) == *old(self),
            r matches Ok(m) ==> {
                &&& m.round_id == round_id
                &&& m.committee@ == committee@
                &&& final(self).round_id == round_id
                &&& final(self).failed_reveals@.len() == 0
                &&& final(self).state@ == (StateView::CollectingCommitments {
                    round_id,
                    commitments: seq![],
                    threshold: old(self).config.threshold,
                })
            },
    {
        if !self.state.is_idle() {
            return Err(AggregatorError::WrongState);
        }
        if committee.len() == 0 || committee.len() < self.config.threshold {
            return Err(AggregatorError::ConfigError {
                message: String::from_str("committee is empty or smaller than the threshold"),
            });
        }
        let mut i: usize = 0;
        while i < committee.len()
            invariant
                *self == *old(self),
                self.wf(),
                self.state@ is Idle,
                i <= committee@.len(),
                forall|a: int, b: int| 0 <= a < b < committee@.len() && a < i ==> committee@[a]@ != committee@[b]@,
            decreases committee@.len() - i,
        {
            let mut j: usize = i + 1;
            while j < committee.len()
                invariant
                    *self == *old(self),
                    self.wf(),
                    self.state@ is Idle,
                    i < j <= committee@.len(),
                    forall|a: int, b: int| 0 <= a < b < committee@.len() && a < i ==> committee@[a]@ != committee@[b]@,
                    forall|b: int| i < b < j ==> committee@[i as int]@ != committee@[b]@,
                decreases committee@.len() - j,
            {
                if committee[i] == committee[j] {
                    return Err(AggregatorError::ConfigError {
                        message: String::from_str("committee holds a repeated node id"),
                    });
                }
                j = j + 1;
            }
            i = i + 1;
        }
        self.state = AggregatorState::CollectingCommitments {
            round_id,
            commitments: Vec::new(),
            threshold: self.config.threshold,
        };
        self.round_id = round_id;
        self.failed_reveals = Vec::new();
        assert(commits_view(Seq::<CommitRecord>::empty()) =~= Seq::<CommitView>::empty());
        Ok(StartCommitmentMsg { round_id, committee })
    }

    /// Admits a commitment checked against `public_key`. Rejections, in this order:
    /// `WrongState` outside the commitment phase, `InvalidRoundId`,
    /// `DuplicateSubmission`, `InvalidCommitmentSignature`; a rejection changes
    /// nothing. The commitment that reaches the threshold opens the reveal phase
    /// and returns the `StartRevealMsg` to broadcast.
    pub fn process_commitment(&mut self, msg: CommitmentMsg, public_key: &[u8]) -> (r: Result<Option<StartRevealMsg>, AggregatorError>)
        requires
            old(self).wf(),
        ensures
            final(self).wf(),
            final(self).config == old(self).config,
            final(self).round_id == old(self).round_id,
            final(self).state@ == commitment_step(old(self).state@, msg, public_key@).0,
            r == commitment_step(old(self).state@, msg, public_key@).1,
            r is Err ==> *final(self) == *old(self),
            r is Ok ==> commitment_signature_valid(public_key@, msg.payload.round_id, msg.payload.commitment@, msg.payload.signature@),
    {
        let mut st = AggregatorState::Idle;
        core::mem::swap(&mut self.state, &mut st);
        match st {
            AggregatorState::CollectingCommitments { round_id, mut commitments, threshold } => {
                if msg.round_id != round_id || msg.payload.round_id != round_id {
                    self.state = AggregatorState::CollectingCommitments { round_id, commitments, threshold };
                    let received = if msg.round_id != round_id { msg.round_id } else { msg.payload.round_id };
                    return Err(AggregatorError::InvalidRoundId { received, expected: round_id });
                }
                if let Some(k) = find_commit(&commitments, &msg.node_id) {
                    assert(commits_view(commitments@)[k as int].node_id@ == msg.node_id@);
                    self.state = AggregatorState::CollectingCommitments { round_id, commitments, threshold };
                    return Err(AggregatorError::DuplicateSubmission { node_id: msg.node_id, round_id });
                }
                if !verify_commitment_signature(public_key, msg.payload.round_id, &msg.payload.commitment, msg.payload.signature.as_slice()) {
                    self.state = AggregatorState::CollectingCommitments { round_id, commitments, threshold };
                    return Err(AggregatorError::InvalidCommitmentSignature { node_id: msg.node_id, round_id });
                }
                let ghost old_view = commits_view(commitments@);
                let ghost added = commit_view_of(msg, public_key@);
                let record = CommitRecord { node_id: msg.node_id, payload: msg.payload, public_key: to_byte_vec(public_key) };
                assert(record@ == added);
                commitments.push(record);
                assert(commits_view(commitments@) =~= old_view.push(added));
                proof {
                    let nv = commits_view(commitments@);
                    assert forall|i: int, j: int| 0 <= i < j < nv.len() implies (#[trigger] nv[i]).node_id@ != (#[trigger] nv[j]).node_id@ by {
                        if j == nv.len() - 1 {
                            assert(nv[i] == old_view[i]);
                        } else {
                            assert(nv[i] == old_view[i] && nv[j] == old_view[j]);
                        }
                    }
                }
                if commitments.len() >= threshold {
                    self.state = AggregatorState::CollectingReveals {
                        round_id,
                        commitments,
                        reveals: Vec::new(),
                        threshold,
                    };
                    assert(self.state@ == commitment_step(old(self).state@, msg, public_key@).0);
                    Ok(Some(StartRevealMsg { round_id }))
                } else {
                    self.state = AggregatorState::CollectingCommitments { round_id, commitments, threshold };
                    Ok(None)
                }
            },
            other => {
                self.state = other;
                Err(AggregatorError::WrongState)
            },
        }
    }

    /// Admits a reveal. Rejections, in this order: `WrongState` outside the reveal
    /// phase, `InvalidRoundId`, `MissingCommitment` for a node that never
    /// committed, `DuplicateSubmission` for a node that already revealed or whose
    /// reveal already failed, `InvalidReveal` when the secret does not hash to the
    /// stored commitment. A rejection leaves the state and its maps unchanged; an
    /// `InvalidReveal` also records the node, which gets no second attempt in the
    /// round. `Ok(true)` when this reveal reaches the threshold and the round moves
    /// to aggregation.
    pub fn process_reveal(&mut self, msg: RevealMsg) -> (r: Result<bool, AggregatorError>)
        requires
            old(self).wf(),
        ensures
            final(self).wf(),
            final(self).config == old(self).config,
            final(self).round_id == old(self).round_id,
            final(self).state@ == reveal_step(old(self).state@, old(self).failed_reveals@, msg).0,
            r == reveal_step(old(self).state@, old(self).failed_reveals@, msg).1,
            final(self).failed_reveals@ == reveal_step(old(self).state@, old(self).failed_reveals@, msg).2,
            r is Err ==> final(self).state == old(self).state,
            r is Ok ==> (match old(self).state@ {
                StateView::CollectingReveals { commitments, .. } =>
                    commit_spec(msg.payload.secret@, msg.payload.round_id) == stored_commitment(commitments, msg.node_id@)@,
                _ => false,
            }),
    {
        let mut st = AggregatorState::Idle;
        core::mem::swap(&mut self.state, &mut st);
        match st {
            AggregatorState::CollectingReveals { round_id, commitments, mut reveals, threshold } => {
                if msg.round_id != round_id || msg.payload.round_id != round_id {
                    self.state = AggregatorState::CollectingReveals { round_id, commitments, reveals, threshold };
                    let received = if msg.round_id != round_id { msg.round_id } else { msg.payload.round_id };
                    return Err(AggregatorError::InvalidRoundId { received, expected: round_id });
                }
                let idx = match find_commit(&commitments, &msg.node_id) {
                    Some(i) => i,
                    None => {
                        self.state = AggregatorState::CollectingReveals { round_id, commitments, reveals, threshold };
                        return Err(AggregatorError::MissingCommitment { node_id: msg.node_id, round_id });
                    },
                };
                let ghost cv = commits_view(commitments@);
                proof {
                    assert(cv[idx as int].node_id@ == msg.node_id@);
                    assert(has_commit(cv, msg.node_id@));
                    let k = choose|k: int| 0 <= k < cv.len() && (#[trigger] cv[k]).node_id@ == msg.node_id@;
                    if k != idx as int {
                        if k < idx as int {
                            assert(cv[k].node_id@ != cv[idx as int].node_id@);
                        } else {
                            assert(cv[idx as int].node_id@ != cv[k].node_id@);
                        }
                    }
                    assert(stored_commitment(cv, msg.node_id@) == commitments@[idx as int].payload.commitment);
                }
                if find_reveal(&reveals, &msg.node_id) || find_failed(&self.failed_reveals, &msg.node_id) {
                    self.state = AggregatorState::CollectingReveals { round_id, commitments, reveals, threshold };
                    return Err(AggregatorError::DuplicateSubmission { node_id: msg.node_id, round_id });
                }
                let recomputed = compute_commitment(&msg.payload.secret, msg.round_id);
                if !bytes_equal(&recomputed, &commitments[idx].payload.commitment) {
                    self.state = AggregatorState::CollectingReveals { round_id, commitments, reveals, threshold };
                    self.failed_reveals.push(msg.node_id.clone());
                    return Err(AggregatorError::InvalidReveal { node_id: msg.node_id, round_id });
                }
                let ghost old_reveals = reveals@;
                let ghost added = (msg.node_id, msg.payload);
                reveals.push((msg.node_id, msg.payload));
                assert(reveals@ == old_reveals.push(added));
                proof {
                    let nr = reveals@;
                    assert forall|i: int, j: int| 0 <= i < j < nr.len() implies (#[trigger] nr[i]).0@ != (#[trigger] nr[j]).0@ by {
                        if j == nr.len() - 1 {
                            assert(nr[i] == old_reveals[i]);
                        } else {
                            assert(nr[i] == old_reveals[i] && nr[j] == old_reveals[j]);
                        }
                    }
                    assert forall|i: int| 0 <= i < nr.len() implies {
                        &&& (#[trigger] nr[i]).1.round_id == round_id
                        &&& has_commit(cv, nr[i].0@)
                        &&& commit_spec(nr[i].1.secret@, round_id) == stored_commitment(cv, nr[i].0@)@
                    } by {
                        if i < nr.len() - 1 {
                            assert(nr[i] == old_reveals[i]);
                        }
                    }
                }
                if reveals.len() >= threshold {
                    self.state = AggregatorState::Aggregating { round_id, reveals };
                    Ok(true)
                } else {
                    self.state = AggregatorState::CollectingReveals { round_id, commitments, reveals, threshold };
                    Ok(false)
                }
            },
            other => {
                self.state = other;
                Err(AggregatorError::WrongState)
            },
        }
    }

    /// The commitment phase timed out: back to `Idle`, commitments dropped, and
    /// the `CommitmentTimeout` to report. Outside that phase nothing changes.
    pub fn commitment_timeout(&mut self) -> (r: Option<AggregatorError>)
        requires
            old(self).wf(),
        ensures
            final(self).wf(),
            final(self).config == old(self).config,
            final(self).round_id == old(self).round_id,
            match old(self).state@ {
                StateView::CollectingCommitments { round_id, .. } => final(self).state@ is Idle
                    && r == Some(AggregatorError::CommitmentTimeout { round_id }),
                _ => *final(self) == *old(self) && r is None,
            },
    {
        match &self.state {
            AggregatorState::CollectingCommitments { round_id, .. } => {
                let rid = *round_id;
                self.state = AggregatorState::Idle;
                Some(AggregatorError::CommitmentTimeout { round_id: rid })
            },
            _ => None,
        }
    }

    /// The reveal phase timed out: back to `Idle`, the round abandoned, and the
    /// `RevealTimeout` to report. Outside that phase nothing changes.
    pub fn reveal_timeout(&mut self) -> (r: Option<AggregatorError>)
        requires
            old(self).wf(),
        ensures
            final(self).wf(),
            final(self).config == old(self).config,
            final(self).round_id == old(self).round_id,
            match old(self).state@ {
                StateView::CollectingReveals { round_id, .. } => final(self).state@ is Idle
                    && r == Some(AggregatorError::RevealTimeout { round_id }),
                _ => *final(self) == *old(self) && r is None,
            },
    {
        match &self.state {
            AggregatorState::CollectingReveals { round_id, .. } => {
                let rid = *round_id;
                self.state = AggregatorState::Idle;
                Some(AggregatorError::RevealTimeout { round_id: rid })
            },
            _ => None,
        }
    }

    /// In `Aggregating`, the seed for the enclave: the accepted secrets in
    /// ascending byte order of node id.
    pub fn aggregation_seed(&self) -> (r: Option<Vec<u8>>)
        ensures
            match self.state@ {
                StateView::Aggregating { reveals, .. } => r matches Some(seed) && seed@ == seed_spec(reveals_model(reveals)),
                _ => r is None,
            },
    {
        match &self.state {
            AggregatorState::Aggregating { reveals, .. } => Some(seed_of(reveals)),
            _ => None,
        }
    }

    /// Records the enclave's output: `Aggregating` becomes `Publishing` with the
    /// random number, the nonce and the report's canonical bytes. Outside
    /// `Aggregating` nothing changes and the result is false.
    pub fn complete_aggregation(&mut self, random_number: [u8; 32], nonce: [u8; 16], report: &AttestationReport) -> (r: bool)
        requires
            old(self).wf(),
        ensures
            final(self).wf(),
            final(self).config == old(self).config,
            final(self).round_id == old(self).round_id,
            match old(self).state@ {
                StateView::Aggregating { round_id, .. } => r && final(self).state@ == (StateView::Publishing {
                    round_id,
                    random_number,
                    nonce,
                    attestation: attestation_bytes_spec(*report),
                }),
                _ => !r && *final(self) == *old(self),
            },
    {
        match &self.state {
            AggregatorState::Aggregating { round_id, .. } => {
                let rid = *round_id;
                self.state = AggregatorState::Publishing {
                    round_id: rid,
                    random_number,
                    nonce,
                    attestation: attestation_bytes(report),
                };
                true
            },
            _ => false,
        }
    }

    /// Drops the current round (enclave failure, shutdown): back to `Idle`.
    pub fn abort_round(&mut self)
        requires
            old(self).wf(),
        ensures
            final(self).wf(),
            final(self).state@ is Idle,
            final(self).config == old(self).config,
            final(self).round_id == old(self).round_id,
    {
        self.state = AggregatorState::Idle;
    }

    /// In `Publishing`, the event to sign and submit.
    pub fn randomness_event(&self) -> (r: Option<RandomnessEvent>)
        ensures
            match self.state@ {
                StateView::Publishing { round_id, random_number, nonce, attestation } => r matches Some(e)
                    && e.round_id == round_id && e.random_number == random_number && e.nonce == nonce
                    && e.attestation@ == attestation,
                _ => r is None,
            },
    {
        match &self.state {
            AggregatorState::Publishing { round_id, random_number, nonce, attestation } => Some(RandomnessEvent {
                round_id: *round_id,
                random_number: *random_number,
                nonce: *nonce,
                attestation: to_byte_vec(attestation.as_slice()),
            }),
            _ => None,
        }
    }

    /// Publication is over (submitted, or given up after the retries): back to
    /// `Idle`. Outside `Publishing` nothing changes and the result is false.
    pub fn finish_publication(&mut self) -> (r: bool)
        requires
            old(self).wf(),
        ensures
            final(self).wf(),
            final(self).config == old(self).config,
            final(self).round_id == old(self).round_id,
            r == (old(self).state@ is Publishing),
            r ==> final(self).state@ is Idle,
            !r ==> *final(self) == *old(self),
    {
        if self.state.is_publishing() {
            self.state = AggregatorState::Idle;
            true
        } else {
            false
        }
    }

    /// The `StartRevealMsg` of the round in its reveal phase; `WrongState` otherwise.
    pub fn send_start_reveal_message(&self) -> (r: Result<StartRevealMsg, AggregatorError>)
        ensures
            match self.state@ {
                StateView::CollectingReveals { round_id, .. } => r == Ok::<StartRevealMsg, AggregatorError>(StartRevealMsg { round_id }),
                _ => r == Err::<StartRevealMsg, AggregatorError>(AggregatorError::WrongState),
            },
    {
        match &self.state {
            AggregatorState::CollectingReveals { round_id, .. } => Ok(StartRevealMsg { round_id: *round_id }),
            _ => Err(AggregatorError::WrongState),
        }
    }
}

/// A rejected commitment leaves the state exactly as it was.
pub proof fn lemma_rejected_commitment_changes_nothing(s: StateView, msg: CommitmentMsg, pk: Seq<u8>)
    requires
        commitment_step(s, msg, pk).1 is Err,
    ensures
        commitment_step(s, msg, pk).0 == s,
{
}

/// A rejected reveal leaves the state exactly as it was; only a failed
/// commitment check adds the node to the failed record.
pub proof fn lemma_rejected_reveal_changes_nothing(s: StateView, failed: Seq<NodeId>, msg: RevealMsg)
    requires
        reveal_step(s, failed, msg).1 is Err,
    ensures
        reveal_step(s, failed, msg).0 == s,
        reveal_step(s, failed, msg).2 == failed || reveal_step(s, failed, msg).2 == failed.push(msg.node_id),
{
}

/// Once a node's reveal failed its commitment check, no later reveal from that
/// node is accepted in the round.
pub proof fn lemma_failed_reveal_gets_no_second_attempt(s: StateView, failed: Seq<NodeId>, first: RevealMsg, later: RevealMsg)
    requires
        reveal_step(s, failed, first).1 matches Err(AggregatorError::InvalidReveal { .. }),
        later.node_id@ == first.node_id@,
    ensures
        ({
            let (s1, _, f1) = reveal_step(s, failed, first);
            reveal_step(s1, f1, later).1 is Err && reveal_step(s1, f1, later).0 == s1
        }),
{
    let f1 = reveal_step(s, failed, first).2;
    assert(f1[f1.len() - 1]@ == later.node_id@);
}

/// Replaying an accepted commitment while the commitment phase goes on is a
/// `DuplicateSubmission` and changes nothing.
pub proof fn lemma_commitment_replay_is_duplicate(s: StateView, msg: CommitmentMsg, pk: Seq<u8>)
    requires
        commitment_step(s, msg, pk).1 is Ok,
        commitment_step(s, msg, pk).0 is CollectingCommitments,
    ensures
        ({
            let s1 = commitment_step(s, msg, pk).0;
            commitment_step(s1, msg, pk) == (s1, Err::<Option<StartRevealMsg>, AggregatorError>(
                AggregatorError::DuplicateSubmission { node_id: msg.node_id, round_id: msg.round_id },
            ))
        }),
{
    let s1 = commitment_step(s, msg, pk).0;
    if let StateView::CollectingCommitments { commitments, .. } = s1 {
        assert(commitments[commitments.len() - 1].node_id@ == msg.node_id@);
    }
}

/// Replaying an accepted reveal while the reveal phase goes on is a
/// `DuplicateSubmission` and changes nothing.
pub proof fn lemma_reveal_replay_is_duplicate(s: StateView, failed: Seq<NodeId>, msg: RevealMsg)
    requires
        reveal_step(s, failed, msg).1 is Ok,
        reveal_step(s, failed, msg).0 is CollectingReveals,
    ensures
        ({
            let s1 = reveal_step(s, failed, msg).0;
            reveal_step(s1, failed, msg) == (s1, Err::<bool, AggregatorError>(
                AggregatorError::DuplicateSubmission { node_id: msg.node_id, round_id: msg.round_id },
            ), failed)
        }),
{
    let s1 = reveal_step(s, failed, msg).0;
    if let StateView::CollectingReveals { reveals, commitments, .. } = s1 {
        assert(reveals[reveals.len() - 1].0@ == msg.node_id@);
        if let StateView::CollectingReveals { commitments: c0, .. } = s {
            assert(c0 == commitments);
        }
    }
}

} // verus!
