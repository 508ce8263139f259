//! Error taxonomy of the aggregator and of the worker.

use vstd::prelude::*;
use vstd::string::StringExecFns;

verus! {

/// Decimal digit `d` as a character.
pub open spec fn digit_char(d: nat) -> char {
    seq!['0', '1', '2', '3', '4', '5', '6', '7', '8', '9'][d as int]
}

/// Decimal representation of `n`, without leading zeros.
pub open spec fn decimal_spec(n: nat) -> Seq<char>
    decreases n,
{
    if n < 10 {
        seq![digit_char(n)]
    } else {
        decimal_spec(n / 10) + seq![digit_char(n % 10)]
    }
}

/// Relies on u64's Display (through ToString): decimal digits, no sign or padding.
#[verifier::external_body]
pub(crate) fn decimal_text(n: u64) -> (r: String)
    ensures
        r@ == decimal_spec(n as nat),
{
    n.to_string()
}

/// Why the aggregator rejected a message or gave up on a round.
#[derive(Clone, Debug, PartialEq)]
pub enum AggregatorError {
    /// The phase ended before enough commitments arrived.
    CommitmentTimeout { round_id: u64 },
    /// The phase ended before enough reveals arrived.
    RevealTimeout { round_id: u64 },
    /// A commitment's signature is malformed or does not verify.
    InvalidCommitmentSignature { node_id: String, round_id: u64 },
    /// A reveal does not hash to the node's stored commitment.
    InvalidReveal { node_id: String, round_id: u64 },
    /// A reveal from a node that has no stored commitment in this round.
    MissingCommitment { node_id: String, round_id: u64 },
    /// The node already has a commitment (or reveal) in this round.
    DuplicateSubmission { node_id: String, round_id: u64 },
    /// The operation is not allowed in the current state.
    WrongState,
    /// Network failure while talking to a node or to the ledger.
    NetworkError { node_id: String, message: String },
    /// The message carries another round than the current one.
    InvalidRoundId { received: u64, expected: u64 },
    /// A node outside the round's committee.
    NodeNotInCommittee { node_id: String, round_id: u64 },
    /// The caller's key is not the expected one.
    Unauthorized,
    /// Unexpected internal failure.
    InternalError { message: String },
    /// The enclave failed.
    TEEError { message: String },
    /// A construction-time invariant does not hold.
    ConfigError { message: String },
}

pub open spec fn node_round_text(prefix: Seq<char>, node_id: Seq<char>, middle: Seq<char>, round_id: u64) -> Seq<char> {
    prefix + node_id + middle + decimal_spec(round_id as nat)
}

/// The human-readable text of an aggregator error.
pub open spec fn aggregator_error_text(e: AggregatorError) -> Seq<char> {
    match e {
        AggregatorError::CommitmentTimeout { round_id } =>
            "Commitment timeout in round "@ + decimal_spec(round_id as nat),
        AggregatorError::RevealTimeout { round_id } =>
            "Reveal timeout in round "@ + decimal_spec(round_id as nat),
        AggregatorError::InvalidCommitmentSignature { node_id, round_id } =>
            node_round_text("Invalid commitment signature from node "@, node_id@, " in round "@, round_id),
        AggregatorError::InvalidReveal { node_id, round_id } =>
            node_round_text("Invalid reveal from node "@, node_id@, " in round "@, round_id),
        AggregatorError::MissingCommitment { node_id, round_id } =>
            node_round_text("No commitment from node "@, node_id@, " in round "@, round_id),
        AggregatorError::DuplicateSubmission { node_id, round_id } =>
            node_round_text("Duplicate submission from node "@, node_id@, " in round "@, round_id),
        AggregatorError::WrongState => "Operation not permitted in the current state"@,
        AggregatorError::NetworkError { node_id, message } =>
            "Network error with node "@ + node_id@ + ": "@ + message@,
        AggregatorError::InvalidRoundId { received, expected } =>
            "Invalid round ID: received "@ + decimal_spec(received as nat) + ", expected "@
                + decimal_spec(expected as nat),
        AggregatorError::NodeNotInCommittee { node_id, round_id } =>
            node_round_text("Node "@, node_id@, " not in committee for round "@, round_id),
        AggregatorError::Unauthorized => "Unauthorized caller"@,
        AggregatorError::InternalError { message } => "Internal error: "@ + message@,
        AggregatorError::TEEError { message } => "TEE error: "@ + message@,
        AggregatorError::ConfigError { message } => "Configuration error: "@ + message@,
    }
}

fn node_round_message(prefix: &str, node_id: &String, middle: &str, round_id: u64) -> (r: String)
    ensures
        r@ == node_round_text(prefix@, node_id@, middle@, round_id),
{
    let mut s = String::from_str(prefix);
    s.append(node_id.as_str());
    s.append(middle);
    let n = decimal_text(round_id);
    s.append(n.as_str());
    s
}

impl AggregatorError {
    /// The error as text.
    pub fn message(&self) -> (r: String)
        ensures
            r@ == aggregator_error_text(*self),
    {
        match self {
            AggregatorError::CommitmentTimeout { round_id } => {
                let n = decimal_text(*round_id);
                String::from_str("Commitment timeout in round ").concat(n.as_str())
            },
            AggregatorError::RevealTimeout { round_id } => {
                let n = decimal_text(*round_id);
                String::from_str("Reveal timeout in round ").concat(n.as_str())
            },
            AggregatorError::InvalidCommitmentSignature { node_id, round_id } =>
                node_round_message("Invalid commitment signature from node ", node_id, " in round ", *round_id),
            AggregatorError::InvalidReveal { node_id, round_id } =>
                node_round_message("Invalid reveal from node ", node_id, " in round ", *round_id),
            AggregatorError::MissingCommitment { node_id, round_id } =>
                node_round_message("No commitment from node ", node_id, " in round ", *round_id),
            AggregatorError::DuplicateSubmission { node_id, round_id } =>
                node_round_message("Duplicate submission from node ", node_id, " in round ", *round_id),
            AggregatorError::WrongState => String::from_str("Operation not permitted in the current state"),
            AggregatorError::NetworkError { node_id, message } => {
                let mut s = String::from_str("Network error with node ");
                s.append(node_id.as_str());
                s.append(": ");
                s.append(message.as_str());
                s
            },
            AggregatorError::InvalidRoundId { received, expected } => {
                let a = decimal_text(*received);
                let b = decimal_text(*expected);
                let mut s = String::from_str("Invalid round ID: received ");
                s.append(a.as_str());
                s.append(", expected ");
                s.append(b.as_str());
                s
            },
            AggregatorError::NodeNotInCommittee { node_id, round_id } =>
                node_round_message("Node ", node_id, " not in committee for round ", *round_id),
            AggregatorError::Unauthorized => String::from_str("Unauthorized caller"),
            AggregatorError::InternalError { message } =>
                String::from_str("Internal error: ").concat(message.as_str()),
            AggregatorError::TEEError { message } =>
                String::from_str("TEE error: ").concat(message.as_str()),
            AggregatorError::ConfigError { message } =>
                String::from_str("Configuration error: ").concat(message.as_str()),
        }
    }
}

/// Why a worker could not take part or was turned down.
#[derive(Clone, Debug, PartialEq)]
pub enum WorkerError {
    /// Connection to the aggregator failed after retries.
    ConnectionFailed { address: String, attempts: u32 },
    /// The aggregator rejected the commitment.
    CommitmentRejected { message: String },
    /// The aggregator rejected the reveal.
    RevealRejected { message: String },
    /// Network failure.
    NetworkError { message: String },
    /// Unexpected internal failure.
    InternalError { message: String },
    /// Key or randomness failure.
    CryptoError { message: String },
    /// A message that could not be understood.
    InvalidMessage { message: String },
    /// The worker is not in the round's committee.
    NotInCommittee { round_id: u64 },
    /// The worker is already taking part in another round.
    AlreadyParticipating { current_round_id: u64 },
    /// The worker is not taking part in any round.
    NotParticipating,
}

/// The human-readable text of a worker error.
pub open spec fn worker_error_text(e: WorkerError) -> Seq<char> {
    match e {
        WorkerError::ConnectionFailed { address, attempts } =>
            "Failed to connect to aggregator at "@ + address@ + " after "@
                + decimal_spec(attempts as nat) + " attempts"@,
        WorkerError::CommitmentRejected { message } => "Commitment rejected by aggregator: "@ + message@,
        WorkerError::RevealRejected { message } => "Reveal rejected by aggregator: "@ + message@,
        WorkerError::NetworkError { message } => "Network error: "@ + message@,
        WorkerError::InternalError { message } => "Internal error: "@ + message@,
        WorkerError::CryptoError { message } => "Crypto error: "@ + message@,
        WorkerError::InvalidMessage { message } => "Invalid message: "@ + message@,
        WorkerError::NotInCommittee { round_id } =>
            "Worker is not part of the committee for round "@ + decimal_spec(round_id as nat),
        WorkerError::AlreadyParticipating { current_round_id } =>
            "Worker is already participating in round "@ + decimal_spec(current_round_id as nat),
        WorkerError::NotParticipating => "Worker is not participating in a round"@,
    }
}

impl WorkerError {
    /// The error as text.
    pub fn message(&self) -> (r: String)
        ensures
            r@ == worker_error_text(*self),
    {
        match self {
            WorkerError::ConnectionFailed { address, attempts } => {
                let n = decimal_text(*attempts as u64);
                let mut s = String::from_str("Failed to connect to aggregator at ");
                s.append(address.as_str());
                s.append(" after ");
                s.append(n.as_str());
                s.append(" attempts");
                s
            },
            WorkerError::CommitmentRejected { message } =>
                String::from_str("Commitment rejected by aggregator: ").concat(message.as_str()),
            WorkerError::RevealRejected { message } =>
                String::from_str("Reveal rejected by aggregator: ").concat(message.as_str()),
            WorkerError::NetworkError { message } =>
                String::from_str("Network error: ").concat(message.as_str()),
            WorkerError::InternalError { message } =>
                String::from_str("Internal error: ").concat(message.as_str()),
            WorkerError::CryptoError { message } =>
                String::from_str("Crypto error: ").concat(message.as_str()),
            WorkerError::InvalidMessage { message } =>
                String::from_str("Invalid message: ").concat(message.as_str()),
            WorkerError::NotInCommittee { round_id } => {
                let n = decimal_text(*round_id);
                String::from_str("Worker is not part of the committee for round ").concat(n.as_str())
            },
            WorkerError::AlreadyParticipating { current_round_id } => {
                let n = decimal_text(*current_round_id);
                String::from_str("Worker is already participating in round ").concat(n.as_str())
            },
            WorkerError::NotParticipating => String::from_str("Worker is not participating in a round"),
        }
    }
}

} // verus!
