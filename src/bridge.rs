//! Aggregator side of publication: signing an event and deciding on retries.

use vstd::prelude::*;
use crate::beacon::{event_digest, event_digest_bytes, BeaconOperation, RandomnessEvent};
use crate::crypto::{ecdsa_verifies, public_key_of, recoverable_signature, secret_key_valid, sign_digest};

verus! {

/// Where and how the aggregator reaches the ledger.
#[derive(Clone, Debug)]
pub struct LineraConfig {
    pub endpoint: String,
    pub aggregator_key_path: String,
    pub chain_id: Option<String>,
    pub timeout_ms: u64,
    pub max_retries: u32,
}

impl Default for LineraConfig {
    fn default() -> (r: Self)
        ensures
            r.endpoint@ == "http://localhost:8080"@,
            r.aggregator_key_path@ == "./aggregator.key"@,
            r.chain_id is None,
            r.timeout_ms == 30000,
            r.max_retries == 3,
    {
        LineraConfig {
            endpoint: String::from_str("http://localhost:8080"),
            aggregator_key_path: String::from_str("./aggregator.key"),
            chain_id: None,
            timeout_ms: 30000,
            max_retries: 3,
        }
    }
}

/// Signs the event's canonical digest with the aggregator's key: 65 bytes that
/// verify under the key's public key. `None` exactly for an invalid key.
pub fn sign_randomness_event(secret_key: &[u8; 32], event: &RandomnessEvent) -> (r: Option<Vec<u8>>)
    ensures
        r is Some <==> secret_key_valid(secret_key@),
        r matches Some(sig) ==> sig@ == recoverable_signature(secret_key@, event_digest(event@))
            && sig@.len() == 65 && sig@[64] < 4
            && ecdsa_verifies(public_key_of(secret_key@), event_digest(event@), sig@),
{
    let digest = event_digest_bytes(event);
    sign_digest(secret_key, &digest)
}

/// The `SubmitRandomness` operation for a signed event.
pub fn submission_operation(event: RandomnessEvent, signature: Vec<u8>) -> (r: BeaconOperation)
    ensures
        r == (BeaconOperation::SubmitRandomness { event, signature }),
{
    BeaconOperation::SubmitRandomness { event, signature }
}

/// How one submission attempt ended.
#[derive(Clone, Copy, Debug, PartialEq, Eq)]
pub enum SubmitOutcome {
    /// The ledger stored the event.
    Accepted,
    /// A network failure; worth another attempt.
    Transient,
    /// The ledger refused the event; another attempt would fail too.
    Rejected,
}

/// What the publisher does next.
#[derive(Clone, Copy, Debug, PartialEq, Eq)]
pub enum PublishAction {
    Done,
    Retry,
    GiveUp,
}

/// After `attempts_made` attempts whose last ended in `outcome`: done when
/// accepted, give up when rejected, and retry a transient failure while fewer
/// than `max_retries` attempts were made.
pub fn next_publish_action(attempts_made: u32, max_retries: u32, outcome: SubmitOutcome) -> (r: PublishAction)
    ensures
        outcome == SubmitOutcome::Accepted ==> r == PublishAction::Done,
        outcome == SubmitOutcome::Rejected ==> r == PublishAction::GiveUp,
        outcome == SubmitOutcome::Transient ==> r == (if attempts_made < max_retries {
            PublishAction::Retry
        } else {
            PublishAction::GiveUp
        }),
{
    match outcome {
        SubmitOutcome::Accepted => PublishAction::Done,
        SubmitOutcome::Rejected => PublishAction::GiveUp,
        SubmitOutcome::Transient => if attempts_made < max_retries {
            PublishAction::Retry
        } else {
            PublishAction::GiveUp
        },
    }
}

} // verus!
