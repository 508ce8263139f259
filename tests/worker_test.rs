use sha2::Digest;
use entropy_beacon::crypto::{compute_commitment, generate_keypair, generate_secret, create_commitment_payload, sign_commitment, verify_commitment_signature};
use entropy_beacon::error::WorkerError;
use entropy_beacon::types::StartCommitmentMsg;
use entropy_beacon::worker::{create_mock_start_commitment_msg, Worker};

#[test]
fn test_worker_creation() {
    let worker = Worker::new("test-node-1".to_string()).unwrap();
    assert_eq!(worker.get_node_id(), "test-node-1");
    assert!(!worker.is_participating());
    assert!(worker.get_current_secret().is_none());
    assert!(worker.get_current_round_id().is_none());
}

#[test]
fn test_handle_start_commitment() {
    let mut worker = Worker::new("test-node-2".to_string()).unwrap();
    let start_msg = StartCommitmentMsg { round_id: 1, committee: vec!["test-node-2".to_string(), "test-node-3".to_string()] };
    let payload = worker.handle_start_commitment(&start_msg).unwrap();
    assert_eq!(payload.round_id, 1);
    assert_eq!(worker.get_current_round_id(), Some(1));
    assert!(worker.get_current_secret().is_some());
    assert!(worker.is_participating());
}

#[test]
fn test_worker_not_in_committee() {
    let mut worker = Worker::new("test-node-4".to_string()).unwrap();
    let start_msg = StartCommitmentMsg { round_id: 1, committee: vec!["test-node-2".to_string(), "test-node-3".to_string()] };
    let result = worker.handle_start_commitment(&start_msg);
    assert!(result.is_err());
    assert_eq!(result.unwrap_err(), WorkerError::NotInCommittee { round_id: 1 });
    assert!(!worker.is_participating());
}

#[test]
fn test_worker_state_reset() {
    let mut worker = Worker::new("test-node-5".to_string()).unwrap();
    let start_msg = StartCommitmentMsg { round_id: 1, committee: vec!["test-node-5".to_string()] };
    worker.handle_start_commitment(&start_msg).unwrap();
    assert!(worker.is_participating());
    worker.reset_state();
    assert!(!worker.is_participating());
    assert!(worker.get_current_secret().is_none());
    assert!(worker.get_current_round_id().is_none());
    worker.reset_state();
    assert!(!worker.is_participating());
}

#[test]
fn test_full_commitment_flow() {
    let secret = generate_secret().unwrap();
    assert_eq!(secret.len(), 32);
    let (secret_key, _public_key) = generate_keypair().unwrap();
    let round_id = 42;
    let commitment = compute_commitment(&secret, round_id);
    assert_eq!(commitment.len(), 32);
    let signature = sign_commitment(&secret_key, round_id, &commitment).unwrap();
    assert_eq!(signature.len(), 65);
    let payload = create_commitment_payload(round_id, &secret, &secret_key).unwrap();
    assert_eq!(payload.round_id, round_id);
    assert_eq!(payload.commitment, commitment);
    assert_eq!(payload.signature.len(), 65);
}

#[test]
fn test_worker_commitment_generation() {
    let mut worker = Worker::new("test-worker-1".to_string()).unwrap();
    let start_msg = StartCommitmentMsg { round_id: 123, committee: vec!["test-worker-1".to_string()] };
    let payload = worker.handle_start_commitment(&start_msg).unwrap();
    assert_eq!(payload.round_id, 123);
    assert_eq!(worker.get_current_round_id(), Some(123));
    assert!(worker.get_current_secret().is_some());
    assert!(worker.is_participating());
}

#[test]
fn test_multiple_workers_different_secrets() {
    let mut worker1 = Worker::new("test-worker-1".to_string()).unwrap();
    let mut worker2 = Worker::new("test-worker-2".to_string()).unwrap();
    let start_msg = StartCommitmentMsg { round_id: 456, committee: vec!["test-worker-1".to_string(), "test-worker-2".to_string()] };
    let payload1 = worker1.handle_start_commitment(&start_msg).unwrap();
    let payload2 = worker2.handle_start_commitment(&start_msg).unwrap();
    assert_eq!(payload1.round_id, 456);
    assert_eq!(payload2.round_id, 456);
    assert_ne!(payload1.commitment, payload2.commitment);
}

#[test]
fn test_commitment_with_known_values() {
    let known_secret = [42u8; 32];
    let (secret_key, _) = generate_keypair().unwrap();
    let commitment = compute_commitment(&known_secret, 789);
    let mut hasher = sha2::Sha256::new();
    hasher.update(&known_secret);
    hasher.update(789u64.to_le_bytes());
    let expected_commitment = hasher.finalize();
    assert_eq!(commitment, expected_commitment.as_slice());
    let signature = sign_commitment(&secret_key, 789, &commitment).unwrap();
    assert_eq!(signature.len(), 65);
    let payload = create_commitment_payload(789, &known_secret, &secret_key).unwrap();
    assert_eq!(payload.round_id, 789);
    assert_eq!(payload.commitment, commitment);
}

#[test]
fn test_end_to_end_commitment_protocol() {
    let mut worker = Worker::new("end-to-end-worker".to_string()).unwrap();
    let start_msg = StartCommitmentMsg {
        round_id: 999,
        committee: vec!["end-to-end-worker".to_string(), "other-worker-1".to_string(), "other-worker-2".to_string()],
    };
    let payload = worker.handle_start_commitment(&start_msg).unwrap();
    assert_eq!(payload.round_id, 999);
    assert_eq!(worker.get_current_round_id(), Some(999));
    assert!(worker.get_current_secret().is_some());
    assert_eq!(payload.commitment, compute_commitment(&worker.get_current_secret().unwrap(), 999));
    assert_eq!(payload.signature.len(), 65);
    assert!(verify_commitment_signature(worker.get_public_key(), 999, &payload.commitment, &payload.signature));
}

#[test]
fn worker_refuses_a_second_round_while_participating() {
    let mut worker = Worker::from_secret_key("w".to_string(), [3u8; 32]).unwrap();
    worker.commit_with_secret(&create_mock_start_commitment_msg(1, "w"), [1u8; 32]).unwrap();
    let r = worker.commit_with_secret(&create_mock_start_commitment_msg(2, "w"), [2u8; 32]);
    assert_eq!(r, Err(WorkerError::AlreadyParticipating { current_round_id: 1 }));
    assert_eq!(worker.get_current_secret(), Some([1u8; 32]));
    worker.reset_state();
    assert!(worker.commit_with_secret(&create_mock_start_commitment_msg(2, "w"), [2u8; 32]).is_ok());
}

#[test]
fn worker_reveal_message() {
    let mut worker = Worker::from_secret_key("w".to_string(), [3u8; 32]).unwrap();
    assert_eq!(worker.create_reveal_message_at(5).unwrap_err(), WorkerError::NotParticipating);
    worker.commit_with_secret(&create_mock_start_commitment_msg(8, "w"), [4u8; 32]).unwrap();
    let m = worker.create_reveal_message_at(77).unwrap();
    assert_eq!(m.round_id, 8);
    assert_eq!(m.payload.round_id, 8);
    assert_eq!(m.payload.secret, [4u8; 32]);
    assert_eq!(m.node_id, "w");
    assert_eq!(m.timestamp, 77);
    assert!(worker.create_reveal_message().is_ok());
    assert!(worker.is_participating());
}

#[test]
fn worker_rejects_invalid_key_and_builds_mock_message() {
    assert!(matches!(Worker::from_secret_key("w".to_string(), [0u8; 32]), Err(WorkerError::CryptoError { .. })));
    let m = create_mock_start_commitment_msg(3, "node");
    assert_eq!(m.round_id, 3);
    assert_eq!(m.committee, vec!["node".to_string()]);
}
