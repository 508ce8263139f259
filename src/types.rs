//! Messages exchanged between workers, the aggregator and clients.

use vstd::prelude::*;

verus! {

/// Version of the wire protocol.
pub const PROTOCOL_VERSION: u32 = 1;

/// Identifier of a worker node; ordered byte-wise.
pub type NodeId = String;

/// A worker's commitment for a round and its signature over `(round_id, commitment)`.
#[derive(Clone, Debug, PartialEq)]
pub struct CommitmentPayload {
    pub round_id: u64,
    pub commitment: [u8; 32],
    pub signature: Vec<u8>,
}

/// A worker's revealed secret for a round.
#[derive(Clone, Debug, PartialEq)]
pub struct RevealPayload {
    pub round_id: u64,
    pub secret: [u8; 32],
}

/// Opens the commitment phase of a round for a committee.
#[derive(Clone, Debug, PartialEq)]
pub struct StartCommitmentMsg {
    pub round_id: u64,
    pub committee: Vec<NodeId>,
}

/// Opens the reveal phase of a round.
#[derive(Clone, Debug, PartialEq)]
pub struct StartRevealMsg {
    pub round_id: u64,
}

/// Vendor attestation material attached to an entropy response.
#[derive(Clone, Debug, PartialEq)]
pub struct AttestationReport {
    pub report: Vec<u8>,
    pub signature: Vec<u8>,
    pub signing_cert: Vec<u8>,
    pub tee_type: String,
}

/// A commitment payload with its sender and an advisory timestamp.
#[derive(Clone, Debug, PartialEq)]
pub struct CommitmentMsg {
    pub round_id: u64,
    pub payload: CommitmentPayload,
    pub node_id: NodeId,
    pub timestamp: u64,
}

/// A reveal payload with its sender and an advisory timestamp.
#[derive(Clone, Debug, PartialEq)]
pub struct RevealMsg {
    pub round_id: u64,
    pub payload: RevealPayload,
    pub node_id: NodeId,
    pub timestamp: u64,
}

/// A client's request for entropy.
#[derive(Clone, Debug, PartialEq)]
pub struct EntropyRequest {
    pub request_id: String,
    pub client_id: String,
    pub timestamp: u64,
    pub nonce: [u8; 32],
}

/// The entropy served for a request, with its attestation.
#[derive(Clone, Debug, PartialEq)]
pub struct EntropyResponse {
    pub request_id: String,
    pub round_id: u64,
    pub entropy: [u8; 32],
    pub attestation: AttestationReport,
    pub timestamp: u64,
}

/// Liveness report of a node.
#[derive(Clone, Debug, PartialEq)]
pub struct HeartbeatMsg {
    pub node_id: NodeId,
    pub timestamp: u64,
    pub status: String,
}

/// A protocol error reported to a peer.
#[derive(Clone, Debug, PartialEq)]
pub struct ErrorMessage {
    pub error_code: u32,
    pub error_message: String,
    pub timestamp: u64,
}

/// Announces the entropy of a finished round and who took part.
#[derive(Clone, Debug, PartialEq)]
pub struct RoundCompletionMsg {
    pub round_id: u64,
    pub entropy: [u8; 32],
    pub participants: Vec<NodeId>,
    pub timestamp: u64,
}

} // verus!
