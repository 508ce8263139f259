//! The beacon ledger: stores at most one randomness event per round, written
//! only by the admin key.

use vstd::prelude::*;
use vstd::utf8::encode_utf8;
use std::collections::BTreeMap;
use crate::bytes::{append_bytes, le_bytes, le_bytes_spec, to_byte_vec};
use crate::crypto::{ecdsa_verifies, sha256, sha256_digest, verify_digest_signature};

verus! {

/// The attested random value of one round.
#[derive(Clone, Debug, PartialEq)]
pub struct RandomnessEvent {
    pub round_id: u64,
    pub random_number: [u8; 32],
    pub nonce: [u8; 16],
    pub attestation: Vec<u8>,
}

pub struct RandomnessEventView {
    pub round_id: u64,
    pub random_number: [u8; 32],
    pub nonce: [u8; 16],
    pub attestation: Seq<u8>,
}

impl View for RandomnessEvent {
    type V = RandomnessEventView;

    open spec fn view(&self) -> RandomnessEventView {
        RandomnessEventView {
            round_id: self.round_id,
            random_number: self.random_number,
            nonce: self.nonce,
            attestation: self.attestation@,
        }
    }
}

impl RandomnessEvent {
    /// A copy with the same fields.
    pub fn copy(&self) -> (r: RandomnessEvent)
        ensures
            r@ == self@,
    {
        RandomnessEvent {
            round_id: self.round_id,
            random_number: self.random_number,
            nonce: self.nonce,
            attestation: to_byte_vec(self.attestation.as_slice()),
        }
    }
}

/// Canonical bytes of an event: `round_id_le ‖ random_number ‖ nonce ‖
/// attestation_len_le ‖ attestation`.
pub open spec fn event_bytes_spec(e: RandomnessEventView) -> Seq<u8> {
    le_bytes_spec(e.round_id) + e.random_number@ + e.nonce@ + le_bytes_spec(e.attestation.len() as u64)
        + e.attestation
}

/// The digest that the aggregator signs and the ledger checks.
pub open spec fn event_digest(e: RandomnessEventView) -> Seq<u8> {
    sha256(event_bytes_spec(e))
}

pub fn event_bytes(e: &RandomnessEvent) -> (r: Vec<u8>)
    ensures
        r@ == event_bytes_spec(e@),
{
    let mut r: Vec<u8> = Vec::new();
    let a = le_bytes(e.round_id);
    append_bytes(&mut r, &a);
    append_bytes(&mut r, &e.random_number);
    append_bytes(&mut r, &e.nonce);
    let b = le_bytes(e.attestation.len() as u64);
    append_bytes(&mut r, &b);
    append_bytes(&mut r, e.attestation.as_slice());
    r
}

pub fn event_digest_bytes(e: &RandomnessEvent) -> (r: [u8; 32])
    ensures
        r@ == event_digest(e@),
{
    let b = event_bytes(e);
    sha256_digest(b.as_slice())
}

/// Value of a hexadecimal digit, -1 for any other byte.
pub open spec fn hex_val(c: u8) -> int {
    if 0x30 <= c <= 0x39 {
        c - 0x30
    } else if 0x61 <= c <= 0x66 {
        c - 0x61 + 10
    } else if 0x41 <= c <= 0x46 {
        c - 0x41 + 10
    } else {
        -1
    }
}

pub open spec fn is_hex(d: Seq<u8>) -> bool {
    d.len() % 2 == 0 && forall|i: int| 0 <= i < d.len() ==> hex_val(#[trigger] d[i]) >= 0
}

pub open spec fn hex_decode_spec(d: Seq<u8>) -> Seq<u8> {
    Seq::new((d.len() / 2) as nat, |i: int| (hex_val(d[2 * i]) * 16 + hex_val(d[2 * i + 1])) as u8)
}

/// Relies on hex::decode: an even number of hex digits (either case), decoded
/// pairwise high nibble first; an error otherwise.
#[verifier::external_body]
fn hex_decode(data: &[u8]) -> (r: Option<Vec<u8>>)
    ensures
        r is Some <==> is_hex(data@),
        r matches Some(v) ==> v@ == hex_decode_spec(data@),
{
    hex::decode(data).ok()
}

/// The key bytes named by a hex-encoded admin key.
pub open spec fn admin_key_bytes(k: String) -> Seq<u8> {
    hex_decode_spec(encode_utf8(k@))
}

/// Caller and admin both known and equal.
pub open spec fn authorized(admin: Option<String>, caller: Option<String>) -> bool {
    match (caller, admin) {
        (Some(c), Some(a)) => c@ == a@,
        _ => false,
    }
}

/// A 65-byte recoverable signature over the event digest under the hex-encoded
/// admin key.
pub open spec fn event_signature_valid(e: RandomnessEventView, signature: Seq<u8>, admin: Option<String>) -> bool {
    match admin {
        Some(k) => {
            &&& is_hex(encode_utf8(k@))
            &&& signature.len() == 65
            &&& signature[64] < 4
            &&& ecdsa_verifies(admin_key_bytes(k), event_digest(e), signature)
        },
        None => false,
    }
}

/// Every event is stored under its own round, and `current` is the largest
/// stored round (0 when none is stored).
pub open spec fn ledger_wf(events: Map<u64, RandomnessEvent>, current: u64) -> bool {
    &&& forall|k: u64| #[trigger] events.contains_key(k) ==> events[k].round_id == k && k <= current
    &&& current == 0 || events.contains_key(current)
}

pub open spec fn is_text(s: String, t: Seq<char>) -> bool {
    s@ == t
}

/// Operations accepted by the ledger.
#[derive(Debug)]
pub enum BeaconOperation {
    Instantiate { admin_public_key: String },
    SubmitRandomness { event: RandomnessEvent, signature: Vec<u8> },
}

/// Messages between chains.
#[derive(Debug)]
pub enum BeaconMessage {
    SubmitRandomness { event: RandomnessEvent, signature: Vec<u8> },
}

/// Queries to the ledger.
#[derive(Debug)]
pub enum BeaconQuery {
    GetRandomness { round_id: u64 },
}

/// Answers to queries.
#[derive(Debug)]
pub enum BeaconQueryResponse {
    GetRandomness(Option<RandomnessEvent>),
}

/// Events emitted by the ledger.
#[derive(Debug)]
pub enum BeaconEvent {
    RandomnessPublished { event: RandomnessEvent },
}

/// A worker's entropy share as recorded on the chain.
#[derive(Clone, Debug)]
pub struct EntropyShare {
    pub worker_id: String,
    pub share: [u8; 32],
    pub timestamp: u64,
}

/// What a query of the beacon chain returns.
#[derive(Clone, Debug)]
pub struct BeaconStateQueryResult {
    pub entropy_shares: Vec<EntropyShare>,
    pub latest_entropy: Option<[u8; 32]>,
    pub round_id: u64,
}

/// Actions of a beacon transaction.
#[derive(Clone, Debug)]
pub enum BeaconAction {
    SubmitEntropyShare { share: [u8; 32], worker_id: String, signature: Vec<u8> },
    AggregateEntropy { aggregated_entropy: [u8; 32], attestation: Vec<u8> },
}

/// A transaction for the beacon chain.
#[derive(Clone, Debug)]
pub struct BeaconTransaction {
    pub action: BeaconAction,
    pub nonce: u64,
}

/// Identifier of a submitted transaction.
#[derive(Clone, Copy, Debug, PartialEq, Eq)]
pub struct TransactionId(pub [u8; 32]);

impl TransactionId {
    pub fn new(bytes: [u8; 32]) -> (r: TransactionId)
        ensures
            r.0 == bytes,
    {
        TransactionId(bytes)
    }
}

/// Handle on the chain through its SDK; its network calls live with the
/// application.
#[derive(Clone, Copy, Debug)]
pub struct LineraSdkProvider;

/// The ledger's rules as functions over its parts.
pub struct BeaconContract;

impl BeaconContract {
    /// Only the registered admin key may submit.
    pub fn is_authorized_caller(admin_public_key: &Option<String>, caller: &Option<String>) -> (r: bool)
        ensures
            r == authorized(*admin_public_key, *caller),
    {
        match (caller, admin_public_key) {
            (Some(c), Some(a)) => *c == *a,
            _ => false,
        }
    }

    /// Full ECDSA check of `signature` over the event's canonical digest under the
    /// hex-encoded admin key.
    pub fn verify_signature(event: &RandomnessEvent, signature: &[u8], admin_public_key: &Option<String>) -> (r: bool)
        ensures
            r == event_signature_valid(event@, signature@, *admin_public_key),
    {
        match admin_public_key {
            None => false,
            Some(k) => match hex_decode(k.as_str().as_bytes()) {
                None => false,
                Some(pk) => {
                    let digest = event_digest_bytes(event);
                    verify_digest_signature(pk.as_slice(), &digest, signature)
                },
            },
        }
    }

    /// Stores `event` under its round. `Err("Unauthorized caller")` unless the
    /// caller is the admin, then `Err("Invalid signature")`, then
    /// `Err("Duplicate round")` when the round is already stored; every error
    /// leaves the ledger as it was. Stored events never change.
    pub fn process_randomness_submission(
        event: RandomnessEvent,
        signature: Vec<u8>,
        admin_public_key: &Option<String>,
        caller: &Option<String>,
        current_round_id: &mut u64,
        events: &mut BTreeMap<u64, RandomnessEvent>,
    ) -> (r: Result<(), String>)
        requires
            ledger_wf(old(events)@, *old(current_round_id)),
        ensures
            ledger_wf(final(events)@, *final(current_round_id)),
            r is Err ==> final(events)@ == old(events)@ && *final(current_round_id) == *old(current_round_id),
            !authorized(*admin_public_key, *caller) ==> (r matches Err(s) && is_text(s, "Unauthorized caller"@)),
            authorized(*admin_public_key, *caller) && !event_signature_valid(event@, signature@, *admin_public_key)
                ==> (r matches Err(s) && is_text(s, "Invalid signature"@)),
            authorized(*admin_public_key, *caller) && event_signature_valid(event@, signature@, *admin_public_key)
                && old(events)@.contains_key(event.round_id) ==> (r matches Err(s) && is_text(s, "Duplicate round"@)),
            r is Ok <==> (authorized(*admin_public_key, *caller) && event_signature_valid(event@, signature@, *admin_public_key)
                && !old(events)@.contains_key(event.round_id)),
            r is Ok ==> final(events)@ == old(events)@.insert(event.round_id, event)
                && *final(current_round_id) == (if event.round_id > *old(current_round_id) { event.round_id } else { *old(current_round_id) }),
            forall|k: u64| #[trigger] old(events)@.contains_key(k) ==> final(events)@.contains_key(k) && final(events)@[k] == old(events)@[k],
    {
        if !Self::is_authorized_caller(admin_public_key, caller) {
            return Err(String::from_str("Unauthorized caller"));
        }
        if !Self::verify_signature(&event, signature.as_slice(), admin_public_key) {
            return Err(String::from_str("Invalid signature"));
        }
        if events.contains_key(&event.round_id) {
            return Err(String::from_str("Duplicate round"));
        }
        let rid = event.round_id;
        events.insert(rid, event);
        if rid > *current_round_id {
            *current_round_id = rid;
        }
        Ok(())
    }

    /// The event stored for `round_id`, if any.
    pub fn get_randomness(round_id: u64, events: &BTreeMap<u64, RandomnessEvent>) -> (r: Option<RandomnessEvent>)
        ensures
            r is Some <==> events@.contains_key(round_id),
            r matches Some(e) ==> e@ == events@[round_id]@,
    {
        match events.get(&round_id) {
            Some(e) => Some(e.copy()),
            None => None,
        }
    }
}

/// The ledger's state.
#[derive(Debug)]
pub struct BeaconState {
    pub current_round_id: u64,
    pub events: BTreeMap<u64, RandomnessEvent>,
    pub admin_public_key: Option<String>,
}

impl BeaconState {
    pub open spec fn wf(&self) -> bool {
        ledger_wf(self.events@, self.current_round_id)
    }

    /// An empty ledger with no admin yet.
    pub fn new() -> (r: BeaconState)
        ensures
            r.wf(),
            r.current_round_id == 0,
            r.events@ == Map::<u64, RandomnessEvent>::empty(),
            r.admin_public_key is None,
    {
        BeaconState { current_round_id: 0, events: BTreeMap::new(), admin_public_key: None }
    }

    /// Sets the admin key, once; `Err("Already instantiated")` afterwards.
    pub fn instantiate(&mut self, admin_public_key: String) -> (r: Result<(), String>)
        requires
            old(self).wf(),
        ensures
            final(self).wf(),
            final(self).events@ == old(self).events@,
            final(self).current_round_id == old(self).current_round_id,
            r is Ok <==> old(self).admin_public_key is None,
            r is Ok ==> final(self).admin_public_key == Some(admin_public_key),
            r matches Err(s) ==> is_text(s, "Already instantiated"@) && final(self).admin_public_key == old(self).admin_public_key,
    {
        if self.admin_public_key.is_some() {
            return Err(String::from_str("Already instantiated"));
        }
        self.admin_public_key = Some(admin_public_key);
        Ok(())
    }

    pub fn is_authorized_caller(&self, caller: &Option<String>) -> (r: bool)
        ensures
            r == authorized(self.admin_public_key, *caller),
    {
        BeaconContract::is_authorized_caller(&self.admin_public_key, caller)
    }

    pub fn get_randomness(&self, round_id: u64) -> (r: Option<RandomnessEvent>)
        ensures
            r is Some <==> self.events@.contains_key(round_id),
            r matches Some(e) ==> e@ == self.events@[round_id]@,
    {
        BeaconContract::get_randomness(round_id, &self.events)
    }

    /// `process_randomness_submission` on this ledger.
    pub fn submit_randomness(&mut self, event: RandomnessEvent, signature: Vec<u8>, caller: &Option<String>) -> (r: Result<(), String>)
        requires
            old(self).wf(),
        ensures
            final(self).wf(),
            final(self).admin_public_key == old(self).admin_public_key,
            r is Ok <==> (authorized(old(self).admin_public_key, *caller)
                && event_signature_valid(event@, signature@, old(self).admin_public_key)
                && !old(self).events@.contains_key(event.round_id)),
            r is Err ==> final(self).events@ == old(self).events@ && final(self).current_round_id == old(self).current_round_id,
            r is Ok ==> final(self).events@ == old(self).events@.insert(event.round_id, event),
            forall|k: u64| #[trigger] old(self).events@.contains_key(k) ==> final(self).events@.contains_key(k)
                && final(self).events@[k] == old(self).events@[k],
    {
        BeaconContract::process_randomness_submission(
            event,
            signature,
            &self.admin_public_key,
            caller,
            &mut self.current_round_id,
            &mut self.events,
        )
    }

    /// Applies an operation from `caller`: `Instantiate` as `instantiate`,
    /// `SubmitRandomness` as `submit_randomness`.
    pub fn execute_operation(&mut self, op: BeaconOperation, caller: &Option<String>) -> (r: Result<(), String>)
        requires
            old(self).wf(),
        ensures
            final(self).wf(),
            forall|k: u64| #[trigger] old(self).events@.contains_key(k) ==> final(self).events@.contains_key(k)
                && final(self).events@[k] == old(self).events@[k],
            match op {
                BeaconOperation::Instantiate { admin_public_key } => {
                    &&& final(self).events@ == old(self).events@
                    &&& final(self).current_round_id == old(self).current_round_id
                    &&& (r is Ok <==> old(self).admin_public_key is None)
                    &&& r is Ok ==> final(self).admin_public_key == Some(admin_public_key)
                    &&& r matches Err(s) ==> is_text(s, "Already instantiated"@)
                        && final(self).admin_public_key == old(self).admin_public_key
                },
                BeaconOperation::SubmitRandomness { event, signature } => {
                    &&& final(self).admin_public_key == old(self).admin_public_key
                    &&& (r is Ok <==> (authorized(old(self).admin_public_key, *caller)
                        && event_signature_valid(event@, signature@, old(self).admin_public_key)
                        && !old(self).events@.contains_key(event.round_id)))
                    &&& r is Err ==> final(self).events@ == old(self).events@
                        && final(self).current_round_id == old(self).current_round_id
                    &&& r is Ok ==> final(self).events@ == old(self).events@.insert(event.round_id, event)
                },
            },
    {
        match op {
            BeaconOperation::Instantiate { admin_public_key } => self.instantiate(admin_public_key),
            BeaconOperation::SubmitRandomness { event, signature } => self.submit_randomness(event, signature, caller),
        }
    }

    /// Answers a query.
    pub fn query(&self, q: &BeaconQuery) -> (r: BeaconQueryResponse)
        ensures
            match (*q, r) {
                (BeaconQuery::GetRandomness { round_id }, BeaconQueryResponse::GetRandomness(found)) => {
                    &&& found is Some <==> self.events@.contains_key(round_id)
                    &&& found matches Some(e) ==> e@ == self.events@[round_id]@
                },
            },
    {
        match q {
            BeaconQuery::GetRandomness { round_id } => BeaconQueryResponse::GetRandomness(self.get_randomness(*round_id)),
        }
    }
}

} // verus!
