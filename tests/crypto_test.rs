use entropy_beacon::crypto::{
    compute_commitment, compute_commitment_digest, create_commitment_payload, generate_keypair, generate_secret,
    public_key_from_secret, sign_commitment, verify_commitment_signature,
};
use sha2::Digest;

#[test]
fn test_generate_secret() {
    let secret1 = generate_secret().unwrap();
    let secret2 = generate_secret().unwrap();
    assert_eq!(secret1.len(), 32);
    assert_eq!(secret2.len(), 32);
    assert_ne!(secret1, secret2);
}

#[test]
fn test_compute_commitment() {
    let secret = [1u8; 32];
    let commitment = compute_commitment(&secret, 1);
    assert_eq!(commitment.len(), 32);
    let commitment2 = compute_commitment(&secret, 1);
    assert_eq!(commitment, commitment2);
    let secret2 = [2u8; 32];
    let commitment3 = compute_commitment(&secret2, 1);
    assert_ne!(commitment, commitment3);
}

#[test]
fn commitment_binds_the_round() {
    let secret = [1u8; 32];
    assert_ne!(compute_commitment(&secret, 1), compute_commitment(&secret, 2));
    let mut pre = vec![1u8; 32];
    pre.extend_from_slice(&1u64.to_le_bytes());
    let expected: [u8; 32] = sha2::Sha256::digest(&pre).into();
    assert_eq!(compute_commitment(&secret, 1), expected);
    let mut pre2 = 1u64.to_le_bytes().to_vec();
    pre2.extend_from_slice(&expected);
    let expected_digest: [u8; 32] = sha2::Sha256::digest(&pre2).into();
    assert_eq!(compute_commitment_digest(1, &expected), expected_digest);
}

#[test]
fn test_generate_keypair() {
    let (secret_key, public_key) = generate_keypair().unwrap();
    let expected_public_key = public_key_from_secret(&secret_key).unwrap();
    assert_eq!(public_key, expected_public_key);
    assert_eq!(public_key.len(), 33);
}

#[test]
fn test_sign_commitment() {
    let (secret_key, _) = generate_keypair().unwrap();
    let commitment = [1u8; 32];
    let signature = sign_commitment(&secret_key, 1, &commitment).unwrap();
    assert_eq!(signature.len(), 65);
}

#[test]
fn test_create_commitment_payload() {
    let secret = [1u8; 32];
    let (secret_key, _) = generate_keypair().unwrap();
    let round_id = 123;
    let payload = create_commitment_payload(round_id, &secret, &secret_key).unwrap();
    assert_eq!(payload.round_id, round_id);
    let expected_commitment = compute_commitment(&secret, round_id);
    assert_eq!(payload.commitment, expected_commitment);
    assert_eq!(payload.signature.len(), 65);
}

#[test]
fn test_end_to_end_crypto() {
    let secret = generate_secret().unwrap();
    let commitment = compute_commitment(&secret, 42);
    let (secret_key, public_key) = generate_keypair().unwrap();
    let signature = sign_commitment(&secret_key, 42, &commitment).unwrap();
    assert_eq!(commitment.len(), 32);
    assert_eq!(signature.len(), 65);
    assert!(verify_commitment_signature(&public_key, 42, &commitment, &signature));

    let payload = create_commitment_payload(42, &secret, &secret_key).unwrap();
    assert_eq!(payload.round_id, 42);
    assert_eq!(payload.commitment, compute_commitment(&secret, 42));
    assert_eq!(payload.signature.len(), 65);
}

#[test]
fn signatures_verify_only_for_their_round_commitment_and_key() {
    let sk = [5u8; 32];
    let pk = public_key_from_secret(&sk).unwrap();
    let c = compute_commitment(&[9u8; 32], 3);
    let sig = sign_commitment(&sk, 3, &c).unwrap();
    assert!(verify_commitment_signature(&pk, 3, &c, &sig));
    assert!(!verify_commitment_signature(&pk, 4, &c, &sig));
    assert!(!verify_commitment_signature(&pk, 3, &[0u8; 32], &sig));
    let other_pk = public_key_from_secret(&[6u8; 32]).unwrap();
    assert!(!verify_commitment_signature(&other_pk, 3, &c, &sig));
    assert!(!verify_commitment_signature(&[0u8; 33], 3, &c, &sig));
    assert!(!verify_commitment_signature(&pk, 3, &c, &sig[..64]));
}

#[test]
fn recovery_byte_values() {
    let sk = [5u8; 32];
    let pk = public_key_from_secret(&sk).unwrap();
    let c = [3u8; 32];
    let mut sig = sign_commitment(&sk, 1, &c).unwrap();
    assert!(sig[64] <= 3);
    for b in 4u8..=255 {
        sig[64] = b;
        assert!(!verify_commitment_signature(&pk, 1, &c, &sig));
    }
    for b in 0u8..=3 {
        sig[64] = b;
        // the recovery byte is not part of the ECDSA check itself
        assert!(verify_commitment_signature(&pk, 1, &c, &sig));
    }
}

#[test]
fn invalid_secret_keys_are_refused() {
    assert!(public_key_from_secret(&[0u8; 32]).is_none());
    assert!(public_key_from_secret(&[0xFFu8; 32]).is_none());
    assert!(sign_commitment(&[0u8; 32], 1, &[1u8; 32]).is_none());
    assert!(create_commitment_payload(1, &[1u8; 32], &[0u8; 32]).is_none());
}
