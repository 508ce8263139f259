//! Worker protocol engine: secret per round, signed commitment, reveal.

use vstd::prelude::*;
use crate::clock::unix_time_secs;
use crate::crypto::{
    commit_spec, commitment_signature_valid, create_commitment_payload, generate_keypair, generate_secret,
    public_key_from_secret, public_key_of, secret_key_valid,
};
use crate::error::WorkerError;
use crate::types::{CommitmentPayload, NodeId, RevealMsg, RevealPayload, StartCommitmentMsg};

verus! {

/// What a worker keeps between its commitment and the reset of a round.
#[derive(Clone, Copy, Debug, PartialEq)]
pub struct RoundParticipation {
    pub round_id: u64,
    pub secret: [u8; 32],
    pub commitment: [u8; 32],
}

pub open spec fn in_committee(committee: Seq<NodeId>, id: Seq<char>) -> bool {
    exists|i: int| 0 <= i < committee.len() && (#[trigger] committee[i])@ == id
}

/// A `StartCommitmentMsg` for a committee of one node.
pub fn create_mock_start_commitment_msg(round_id: u64, node_id: &str) -> (r: StartCommitmentMsg)
    ensures
        r.round_id == round_id,
        r.committee@.len() == 1,
        r.committee@[0]@ == node_id@,
{
    let mut committee: Vec<NodeId> = Vec::new();
    committee.push(String::from_str(node_id));
    StartCommitmentMsg { round_id, committee }
}

/// A worker node with its long-term secp256k1 key pair.
pub struct Worker {
    node_id: NodeId,
    secret_key: [u8; 32],
    public_key: Vec<u8>,
    current: Option<RoundParticipation>,
}

impl Worker {
    pub closed spec fn node(&self) -> NodeId {
        self.node_id
    }

    pub closed spec fn secret_key_bytes(&self) -> Seq<u8> {
        self.secret_key@
    }

    pub closed spec fn public_key_bytes(&self) -> Seq<u8> {
        self.public_key@
    }

    pub closed spec fn participation(&self) -> Option<RoundParticipation> {
        self.current
    }

    /// The key pair is valid and matching, and a held commitment opens to the
    /// held secret.
    pub open spec fn wf(&self) -> bool {
        &&& secret_key_valid(self.secret_key_bytes())
        &&& self.public_key_bytes() == public_key_of(self.secret_key_bytes())
        &&& self.participation() matches Some(p) ==> p.commitment@ == commit_spec(p.secret@, p.round_id)
    }

    /// A worker with a freshly generated key pair; `CryptoError` when the OS
    /// generator fails.
    pub fn new(node_id: NodeId) -> (r: Result<Worker, WorkerError>)
        ensures
            r matches Ok(w) ==> w.wf() && w.node() == node_id && w.participation() is None,
            r matches Err(e) ==> e is CryptoError,
    {
        match generate_keypair() {
            Some((secret_key, public_key)) => Ok(Worker { node_id, secret_key, public_key, current: None }),
            None => Err(WorkerError::CryptoError { message: String::from_str("failed to generate a key pair") }),
        }
    }

    /// A worker with a given secret key; `CryptoError` exactly when the bytes are
    /// not a secp256k1 secret key.
    pub fn from_secret_key(node_id: NodeId, secret_key: [u8; 32]) -> (r: Result<Worker, WorkerError>)
        ensures
            r is Ok <==> secret_key_valid(secret_key@),
            r matches Ok(w) ==> w.wf() && w.node() == node_id && w.participation() is None
                && w.secret_key_bytes() == secret_key@,
            r matches Err(e) ==> e is CryptoError,
    {
        match public_key_from_secret(&secret_key) {
            Some(public_key) => Ok(Worker { node_id, secret_key, public_key, current: None }),
            None => Err(WorkerError::CryptoError { message: String::from_str("invalid secret key") }),
        }
    }

    /// Why the worker would refuse to commit for `msg`, if it would.
    pub open spec fn admission_spec(&self, msg: StartCommitmentMsg) -> Option<WorkerError> {
        if !in_committee(msg.committee@, self.node()@) {
            Some(WorkerError::NotInCommittee { round_id: msg.round_id })
        } else {
            match self.participation() {
                Some(p) => if p.round_id != msg.round_id {
                    Some(WorkerError::AlreadyParticipating { current_round_id: p.round_id })
                } else {
                    None
                },
                None => None,
            }
        }
    }

    fn admission_error(&self, msg: &StartCommitmentMsg) -> (r: Option<WorkerError>)
        ensures
            r == self.admission_spec(*msg),
    {
        let mut i: usize = 0;
        let mut found = false;
        while i < msg.committee.len()
            invariant
                i <= msg.committee@.len(),
                found == (exists|j: int| 0 <= j < i && (#[trigger] msg.committee@[j])@ == self.node()@),
            decreases msg.committee@.len() - i,
        {
            if msg.committee[i] == self.node_id {
                found = true;
            }
            i = i + 1;
        }
        if !found {
            return Some(WorkerError::NotInCommittee { round_id: msg.round_id });
        }
        match &self.current {
            Some(p) => {
                if p.round_id != msg.round_id {
                    Some(WorkerError::AlreadyParticipating { current_round_id: p.round_id })
                } else {
                    None
                }
            },
            None => None,
        }
    }

    /// Commits to `secret` for the round of `msg`: the refusals of
    /// `admission_spec`, else the payload `(round_id, commit(secret, round_id),
    /// signature)` whose signature verifies under this worker's public key; the
    /// secret and commitment are kept for the reveal.
    pub fn commit_with_secret(&mut self, msg: &StartCommitmentMsg, secret: [u8; 32]) -> (r: Result<CommitmentPayload, WorkerError>)
        requires
            old(self).wf(),
        ensures
            final(self).wf(),
            final(self).node() == old(self).node(),
            final(self).secret_key_bytes() == old(self).secret_key_bytes(),
            final(self).public_key_bytes() == old(self).public_key_bytes(),
            old(self).admission_spec(*msg) matches Some(e) ==> r == Err::<CommitmentPayload, WorkerError>(e)
                && final(self).participation() == old(self).participation(),
            r is Ok <==> old(self).admission_spec(*msg) is None,
            r matches Ok(p) ==> {
                &&& p.round_id == msg.round_id
                &&& p.commitment@ == commit_spec(secret@, msg.round_id)
                &&& commitment_signature_valid(final(self).public_key_bytes(), p.round_id, p.commitment@, p.signature@)
                &&& final(self).participation() == Some(RoundParticipation {
                    round_id: msg.round_id,
                    secret,
                    commitment: p.commitment,
                })
            },
    {
        if let Some(e) = self.admission_error(msg) {
            return Err(e);
        }
        let payload = match create_commitment_payload(msg.round_id, &secret, &self.secret_key) {
            Some(p) => p,
            None => {
                return Err(WorkerError::CryptoError { message: String::from_str("invalid secret key") });
            },
        };
        self.current = Some(RoundParticipation { round_id: msg.round_id, secret, commitment: payload.commitment });
        Ok(payload)
    }

    /// Handles `StartCommitment`: the refusals of `admission_spec`, then a
    /// fresh secret from the OS generator (`CryptoError` when it fails, with
    /// nothing changed), then `commit_with_secret`.
    pub fn handle_start_commitment(&mut self, msg: &StartCommitmentMsg) -> (r: Result<CommitmentPayload, WorkerError>)
        requires
            old(self).wf(),
        ensures
            final(self).wf(),
            final(self).node() == old(self).node(),
            final(self).public_key_bytes() == old(self).public_key_bytes(),
            old(self).admission_spec(*msg) matches Some(e) ==> r == Err::<CommitmentPayload, WorkerError>(e),
            r matches Err(e) ==> old(self).admission_spec(*msg) == Some(e)
                || (old(self).admission_spec(*msg) is None && e is CryptoError),
            r is Err ==> final(self).participation() == old(self).participation(),
            r matches Ok(p) ==> {
                &&& old(self).admission_spec(*msg) is None
                &&& p.round_id == msg.round_id
                &&& final(self).participation() matches Some(cur) && cur.round_id == msg.round_id
                    && cur.commitment == p.commitment && p.commitment@ == commit_spec(cur.secret@, msg.round_id)
                &&& commitment_signature_valid(final(self).public_key_bytes(), p.round_id, p.commitment@, p.signature@)
            },
    {
        if let Some(e) = self.admission_error(msg) {
            return Err(e);
        }
        match generate_secret() {
            Some(secret) => self.commit_with_secret(msg, secret),
            None => Err(WorkerError::CryptoError { message: String::from_str("failed to generate a secret") }),
        }
    }

    pub fn get_current_secret(&self) -> (r: Option<[u8; 32]>)
        ensures
            r == (match self.participation() {
                Some(p) => Some(p.secret),
                None => None::<[u8; 32]>,
            }),
    {
        match &self.current {
            Some(p) => Some(p.secret),
            None => None,
        }
    }

    pub fn get_current_round_id(&self) -> (r: Option<u64>)
        ensures
            r == (match self.participation() {
                Some(p) => Some(p.round_id),
                None => None::<u64>,
            }),
    {
        match &self.current {
            Some(p) => Some(p.round_id),
            None => None,
        }
    }

    pub fn is_participating(&self) -> (r: bool)
        ensures
            r == self.participation() is Some,
    {
        self.current.is_some()
    }

    /// Forgets the round's secret and commitment. Idempotent.
    pub fn reset_state(&mut self)
        requires
            old(self).wf(),
        ensures
            final(self).wf(),
            final(self).participation() is None,
            final(self).node() == old(self).node(),
            final(self).secret_key_bytes() == old(self).secret_key_bytes(),
            final(self).public_key_bytes() == old(self).public_key_bytes(),
    {
        self.current = None;
    }

    /// The compressed public key.
    pub fn get_public_key(&self) -> (r: &[u8])
        ensures
            r@ == self.public_key_bytes(),
    {
        self.public_key.as_slice()
    }

    pub fn get_node_id(&self) -> (r: &str)
        ensures
            r@ == self.node()@,
    {
        self.node_id.as_str()
    }

    /// The reveal of the current round, stamped `timestamp`; `NotParticipating`
    /// when no round is held. The state is kept until `reset_state`.
    pub fn create_reveal_message_at(&self, timestamp: u64) -> (r: Result<RevealMsg, WorkerError>)
        ensures
            r is Err <==> self.participation() is None,
            r matches Err(e) ==> e is NotParticipating,
            r matches Ok(m) ==> self.participation() matches Some(p) && m == (RevealMsg {
                round_id: p.round_id,
                payload: RevealPayload { round_id: p.round_id, secret: p.secret },
                node_id: self.node(),
                timestamp,
            }),
    {
        match &self.current {
            Some(p) => Ok(RevealMsg {
                round_id: p.round_id,
                payload: RevealPayload { round_id: p.round_id, secret: p.secret },
                node_id: self.node_id.clone(),
                timestamp,
            }),
            None => Err(WorkerError::NotParticipating),
        }
    }

    /// `create_reveal_message_at` with the current time.
    pub fn create_reveal_message(&self) -> (r: Result<RevealMsg, WorkerError>)
        ensures
            r is Err <==> self.participation() is None,
            r matches Ok(m) ==> self.participation() matches Some(p) && m.round_id == p.round_id
                && m.payload == (RevealPayload { round_id: p.round_id, secret: p.secret }) && m.node_id == self.node(),
    {
        let now = unix_time_secs();
        self.create_reveal_message_at(now)
    }
}

} // verus!
