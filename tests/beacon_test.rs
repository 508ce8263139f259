use entropy_beacon::beacon::{BeaconContract, BeaconOperation, BeaconQuery, BeaconQueryResponse, BeaconState, RandomnessEvent};
use entropy_beacon::bridge::sign_randomness_event;
use entropy_beacon::crypto::public_key_from_secret;
use std::collections::BTreeMap;

const ADMIN_SECRET: [u8; 32] = [7u8; 32];

fn admin_key_hex() -> String {
    hex::encode(public_key_from_secret(&ADMIN_SECRET).unwrap())
}

fn sample_event(round_id: u64) -> RandomnessEvent {
    RandomnessEvent { round_id, random_number: [1u8; 32], nonce: [2u8; 16], attestation: vec![3u8, 4u8, 5u8] }
}

fn signed(event: &RandomnessEvent) -> Vec<u8> {
    sign_randomness_event(&ADMIN_SECRET, event).unwrap()
}

#[test]
fn test_authorized_caller() {
    let admin_key = Some("admin123".to_string());
    let caller_key = Some("admin123".to_string());
    let unauthorized_caller = Some("hacker123".to_string());

    assert!(BeaconContract::is_authorized_caller(&admin_key, &caller_key));
    assert!(!BeaconContract::is_authorized_caller(&admin_key, &unauthorized_caller));
    assert!(!BeaconContract::is_authorized_caller(&admin_key, &None));
    assert!(!BeaconContract::is_authorized_caller(&None, &caller_key));
}

#[test]
fn test_verify_signature() {
    let event = RandomnessEvent { round_id: 1, random_number: [1u8; 32], nonce: [2u8; 16], attestation: vec![3u8, 4u8, 5u8] };
    // Verification is full ECDSA: arbitrary bytes under a non-key are refused.
    assert!(!BeaconContract::verify_signature(&event, &vec![1, 2, 3], &Some("admin".to_string())));
    let admin = Some(admin_key_hex());
    let sig = signed(&event);
    assert!(BeaconContract::verify_signature(&event, &sig, &admin));
    let mut other = event.clone();
    other.random_number = [9u8; 32];
    assert!(!BeaconContract::verify_signature(&other, &sig, &admin));
    assert!(!BeaconContract::verify_signature(&event, &sig, &None));
}

#[test]
fn test_process_randomness_submission() {
    let mut current_round_id = 0;
    let mut events = BTreeMap::new();
    let admin_key = Some(admin_key_hex());
    let caller_key = admin_key.clone();
    let event = sample_event(1);
    let signature = signed(&event);

    let result = BeaconContract::process_randomness_submission(
        event.clone(),
        signature,
        &admin_key,
        &caller_key,
        &mut current_round_id,
        &mut events,
    );

    assert!(result.is_ok());
    assert_eq!(current_round_id, 1);
    assert_eq!(events.len(), 1);
    assert_eq!(events.get(&1).unwrap().round_id, 1);
}

#[test]
fn test_process_randomness_submission_unauthorized() {
    let mut current_round_id = 0;
    let mut events = BTreeMap::new();
    let admin_key = Some("admin123".to_string());
    let unauthorized_caller = Some("hacker123".to_string());
    let event = sample_event(1);

    let result = BeaconContract::process_randomness_submission(
        event,
        vec![1, 2, 3],
        &admin_key,
        &unauthorized_caller,
        &mut current_round_id,
        &mut events,
    );

    assert!(result.is_err());
    assert_eq!(result.unwrap_err(), "Unauthorized caller");
    assert_eq!(current_round_id, 0);
    assert_eq!(events.len(), 0);
}

#[test]
fn test_get_randomness() {
    let mut events = BTreeMap::new();
    let event = sample_event(1);
    events.insert(1, event.clone());

    let result = BeaconContract::get_randomness(1, &events);
    assert!(result.is_some());
    assert_eq!(result.unwrap().round_id, 1);

    let result = BeaconContract::get_randomness(2, &events);
    assert!(result.is_none());
}

#[test]
fn test_invalid_signature_submission() {
    let mut current_round_id = 0;
    let mut events = BTreeMap::new();
    let admin_key = Some(admin_key_hex());
    let result = BeaconContract::process_randomness_submission(
        sample_event(1),
        vec![1, 2, 3],
        &admin_key,
        &admin_key.clone(),
        &mut current_round_id,
        &mut events,
    );
    assert_eq!(result, Err("Invalid signature".to_string()));
    assert_eq!(current_round_id, 0);
    assert!(events.is_empty());
}

#[test]
fn test_beacon_integration_with_linera() {
    let mut current_round_id = 0;
    let mut events = BTreeMap::new();
    let admin_public_key = Some(admin_key_hex());
    let caller = admin_public_key.clone();
    let event = sample_event(1);

    let result = BeaconContract::process_randomness_submission(
        event.clone(),
        signed(&event),
        &admin_public_key,
        &caller,
        &mut current_round_id,
        &mut events,
    );
    assert!(result.is_ok());
    assert_eq!(current_round_id, 1);
    assert_eq!(events.len(), 1);
    assert_eq!(events.get(&1).unwrap().round_id, 1);

    let stored_event = BeaconContract::get_randomness(1, &events);
    assert!(stored_event.is_some());
    assert_eq!(stored_event.unwrap().round_id, 1);
}

#[test]
fn test_multiple_randomness_submissions() {
    let mut current_round_id = 0;
    let mut events = BTreeMap::new();
    let admin_public_key = Some(admin_key_hex());
    let caller = admin_public_key.clone();

    for round_id in 1..=3u64 {
        let event = RandomnessEvent {
            round_id,
            random_number: [round_id as u8; 32],
            nonce: [(round_id + 10) as u8; 16],
            attestation: vec![(round_id + 20) as u8],
        };
        let result = BeaconContract::process_randomness_submission(
            event.clone(),
            signed(&event),
            &admin_public_key,
            &caller,
            &mut current_round_id,
            &mut events,
        );
        assert!(result.is_ok());
    }
    assert_eq!(current_round_id, 3);
    assert_eq!(events.len(), 3);
    for round_id in 1..=3u64 {
        let stored = BeaconContract::get_randomness(round_id, &events).unwrap();
        assert_eq!(stored.round_id, round_id);
        assert_eq!(stored.random_number, [round_id as u8; 32]);
    }
}

#[test]
fn test_unauthorized_submission() {
    let mut current_round_id = 0;
    let mut events = BTreeMap::new();
    let admin_public_key = Some(admin_key_hex());
    let caller = Some("unauthorized_key".to_string());
    let event = sample_event(1);

    let result = BeaconContract::process_randomness_submission(
        event.clone(),
        signed(&event),
        &admin_public_key,
        &caller,
        &mut current_round_id,
        &mut events,
    );
    assert!(result.is_err());
    assert_eq!(result.unwrap_err(), "Unauthorized caller");
    assert_eq!(current_round_id, 0);
    assert_eq!(events.len(), 0);
}

#[test]
fn test_query_operations() {
    let mut state = BeaconState::new();
    state.instantiate(admin_key_hex()).unwrap();
    let caller = Some(admin_key_hex());
    let event = sample_event(1);
    state.submit_randomness(event.clone(), signed(&event), &caller).unwrap();

    match state.query(&BeaconQuery::GetRandomness { round_id: 1 }) {
        BeaconQueryResponse::GetRandomness(Some(found)) => assert_eq!(found, event),
        BeaconQueryResponse::GetRandomness(None) => panic!("Expected to find randomness event"),
    }
    match state.query(&BeaconQuery::GetRandomness { round_id: 999 }) {
        BeaconQueryResponse::GetRandomness(found) => assert!(found.is_none()),
    }
}

#[test]
fn beacon_rejects_duplicate_round_and_keeps_first_event() {
    let mut state = BeaconState::new();
    state.instantiate(admin_key_hex()).unwrap();
    let caller = Some(admin_key_hex());
    let first = sample_event(7);
    assert!(state.submit_randomness(first.clone(), signed(&first), &caller).is_ok());

    let mut second = sample_event(7);
    second.random_number = [0xEEu8; 32];
    let result = state.submit_randomness(second.clone(), signed(&second), &caller);
    assert_eq!(result, Err("Duplicate round".to_string()));
    assert_eq!(state.get_randomness(7), Some(first));
    assert_eq!(state.current_round_id, 7);
    assert_eq!(state.events.len(), 1);
}

#[test]
fn beacon_instantiates_once() {
    let mut state = BeaconState::new();
    assert!(state.instantiate(admin_key_hex()).is_ok());
    assert_eq!(state.instantiate("another".to_string()), Err("Already instantiated".to_string()));
    assert_eq!(state.admin_public_key, Some(admin_key_hex()));
    assert!(state.is_authorized_caller(&Some(admin_key_hex())));
    assert!(!state.is_authorized_caller(&Some("another".to_string())));
}

#[test]
fn beacon_current_round_is_largest_stored() {
    let mut state = BeaconState::new();
    let caller = Some(admin_key_hex());
    let op = BeaconOperation::Instantiate { admin_public_key: admin_key_hex() };
    assert!(state.execute_operation(op, &caller).is_ok());
    for round_id in [5u64, 2, 9, 4] {
        let e = sample_event(round_id);
        let op = BeaconOperation::SubmitRandomness { event: e.clone(), signature: signed(&e) };
        assert!(state.execute_operation(op, &caller).is_ok());
    }
    assert_eq!(state.current_round_id, 9);
    assert_eq!(state.events.len(), 4);
}

#[test]
fn execute_operation_refuses_second_instantiate_and_bad_submissions() {
    let mut state = BeaconState::new();
    let caller = Some(admin_key_hex());
    assert!(state.execute_operation(BeaconOperation::Instantiate { admin_public_key: admin_key_hex() }, &caller).is_ok());
    assert_eq!(
        state.execute_operation(BeaconOperation::Instantiate { admin_public_key: "x".to_string() }, &caller),
        Err("Already instantiated".to_string())
    );
    let e = sample_event(3);
    let bad = BeaconOperation::SubmitRandomness { event: e.clone(), signature: vec![0u8; 65] };
    assert_eq!(state.execute_operation(bad, &caller), Err("Invalid signature".to_string()));
    assert!(state.events.is_empty());
    assert_eq!(state.current_round_id, 0);
}
