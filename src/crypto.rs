//! Hashing, commitments and recoverable ECDSA over secp256k1.

use vstd::prelude::*;
use crate::bytes::{append_bytes, le_bytes, le_bytes_spec};
use crate::types::CommitmentPayload;
use sha2::Digest;

verus! {

/// SHA-256 of a byte string.
pub uninterp spec fn sha256(data: Seq<u8>) -> Seq<u8>;

/// The recoverable signature that secp256k1 produces for a 32-byte digest under a
/// secret key: 64 compact bytes followed by the recovery id.
pub uninterp spec fn recoverable_signature(secret_key: Seq<u8>, digest: Seq<u8>) -> Seq<u8>;

/// The compressed (33-byte) public key of a secret key.
pub uninterp spec fn public_key_of(secret_key: Seq<u8>) -> Seq<u8>;

/// Whether a 65-byte recoverable signature verifies for a digest under a serialized
/// public key.
pub uninterp spec fn ecdsa_verifies(public_key: Seq<u8>, digest: Seq<u8>, signature: Seq<u8>) -> bool;

/// Big-endian value of a byte string.
pub open spec fn be_value(b: Seq<u8>) -> nat
    decreases b.len(),
{
    if b.len() == 0 {
        0
    } else {
        be_value(b.drop_last()) * 256 + b.last() as nat
    }
}

/// Order of the secp256k1 group.
pub open spec fn curve_order() -> nat {
    0xFFFFFFFFFFFFFFFFFFFFFFFFFFFFFFFEBAAEDCE6AF48A03BBFD25E8CD0364141nat
}

/// A 32-byte string is a secret key when its big-endian value lies in `[1, n)`.
pub open spec fn secret_key_valid(b: Seq<u8>) -> bool {
    b.len() == 32 && 0 < be_value(b) < curve_order()
}

/// `secret ‖ round_id_le`: the preimage of a commitment.
pub open spec fn commitment_preimage(secret: Seq<u8>, round_id: u64) -> Seq<u8> {
    secret + le_bytes_spec(round_id)
}

/// `commit(secret, round_id) = SHA-256(secret ‖ round_id_le)`.
pub open spec fn commit_spec(secret: Seq<u8>, round_id: u64) -> Seq<u8> {
    sha256(commitment_preimage(secret, round_id))
}

/// `SHA-256(round_id_le ‖ commitment)`: the digest that a worker signs.
pub open spec fn commitment_digest(round_id: u64, commitment: Seq<u8>) -> Seq<u8> {
    sha256(le_bytes_spec(round_id) + commitment)
}

/// The signature check on a commitment: 65 bytes, a recovery id in `0..=3`, and
/// a valid ECDSA signature over the commitment digest.
pub open spec fn commitment_signature_valid(
    public_key: Seq<u8>,
    round_id: u64,
    commitment: Seq<u8>,
    signature: Seq<u8>,
) -> bool {
    &&& signature.len() == 65
    &&& signature[64] < 4
    &&& ecdsa_verifies(public_key, commitment_digest(round_id, commitment), signature)
}

/// Relies on sha2::Sha256::digest: the 32-byte SHA-256 digest of the input.
#[verifier::external_body]
pub(crate) fn sha256_digest(data: &[u8]) -> (r: [u8; 32])
    ensures
        r@ == sha256(data@),
{
    sha2::Sha256::digest(data).into()
}

/// Relies on secp256k1's SecretKey::from_slice, Secp256k1::sign_ecdsa_recoverable
/// (RFC 6979, deterministic) and RecoverableSignature::serialize_compact: a
/// signature exists exactly for keys in `[1, n)`, its recovery id is in `0..=3`,
/// and it verifies under the key's public key (as the crate's `verify_ecdsa`
/// documentation shows for a signature from `sign_ecdsa`).
#[verifier::external_body]
fn ecdsa_sign_recoverable(secret_key: &[u8; 32], digest: &[u8; 32]) -> (r: Option<[u8; 65]>)
    ensures
        r is Some <==> secret_key_valid(secret_key@),
        r matches Some(sig) ==> {
            &&& sig@ == recoverable_signature(secret_key@, digest@)
            &&& sig@[64] < 4
            &&& ecdsa_verifies(public_key_of(secret_key@), digest@, sig@)
        },
{
    let key = match secp256k1::SecretKey::from_slice(secret_key) {
        Ok(k) => k,
        Err(_) => return None,
    };
    let message = secp256k1::Message::from_digest(*digest);
    let sig = secp256k1::Secp256k1::signing_only().sign_ecdsa_recoverable(&message, &key);
    let (id, compact) = sig.serialize_compact();
    let mut out = [0u8; 65];
    out[..64].copy_from_slice(&compact);
    out[64] = id.to_i32() as u8;
    Some(out)
}

/// Relies on secp256k1's SecretKey::from_slice and PublicKey::from_secret_key with
/// PublicKey::serialize: the compressed public key, for keys in `[1, n)` only.
#[verifier::external_body]
fn derive_public_key(secret_key: &[u8; 32]) -> (r: Option<[u8; 33]>)
    ensures
        r is Some <==> secret_key_valid(secret_key@),
        r matches Some(pk) ==> pk@ == public_key_of(secret_key@),
{
    match secp256k1::SecretKey::from_slice(secret_key) {
        Ok(k) => Some(secp256k1::PublicKey::from_secret_key(&secp256k1::Secp256k1::signing_only(), &k).serialize()),
        Err(_) => None,
    }
}

/// Relies on secp256k1's PublicKey::from_slice, RecoveryId::from_i32,
/// RecoverableSignature::from_compact, to_standard and Secp256k1::verify_ecdsa:
/// false on a malformed key or signature (a key is 33 or 65 bytes), else the
/// ECDSA verdict.
#[verifier::external_body]
fn ecdsa_verify_recoverable(public_key: &[u8], digest: &[u8; 32], signature: &[u8]) -> (r: bool)
    requires
        signature@.len() == 65,
    ensures
        r == ecdsa_verifies(public_key@, digest@, signature@),
        public_key@.len() != 33 && public_key@.len() != 65 ==> !r,
{
    let (Ok(pk), Ok(id)) = (secp256k1::PublicKey::from_slice(public_key), secp256k1::ecdsa::RecoveryId::from_i32(signature[64] as i32)) else {
        return false;
    };
    let Ok(sig) = secp256k1::ecdsa::RecoverableSignature::from_compact(&signature[..64], id) else {
        return false;
    };
    let message = secp256k1::Message::from_digest(*digest);
    secp256k1::Secp256k1::verification_only().verify_ecdsa(&message, &sig.to_standard(), &pk).is_ok()
}

/// Relies on getrandom::getrandom: fills 32 bytes from the OS generator, or
/// fails when it is unavailable. Nothing is promised of the bytes.
#[verifier::external_body]
fn os_random_32() -> (r: Option<[u8; 32]>)
{
    let mut buf = [0u8; 32];
    match getrandom::getrandom(&mut buf) {
        Ok(()) => Some(buf),
        Err(_) => None,
    }
}

/// Draws a 32-byte secret from the operating system's generator; `None` only when
/// that generator is unavailable.
pub fn generate_secret() -> (r: Option<[u8; 32]>)
{
    os_random_32()
}

/// `commit(secret, round_id) = SHA-256(secret ‖ round_id.to_le_bytes())`.
pub fn compute_commitment(secret: &[u8; 32], round_id: u64) -> (r: [u8; 32])
    ensures
        r@ == commit_spec(secret@, round_id),
{
    let mut pre: Vec<u8> = Vec::new();
    append_bytes(&mut pre, secret);
    let le = le_bytes(round_id);
    append_bytes(&mut pre, &le);
    assert(pre@ =~= commitment_preimage(secret@, round_id));
    sha256_digest(pre.as_slice())
}

/// `SHA-256(round_id.to_le_bytes() ‖ commitment)`.
pub fn compute_commitment_digest(round_id: u64, commitment: &[u8; 32]) -> (r: [u8; 32])
    ensures
        r@ == commitment_digest(round_id, commitment@),
{
    let mut pre: Vec<u8> = Vec::new();
    let le = le_bytes(round_id);
    append_bytes(&mut pre, &le);
    append_bytes(&mut pre, commitment);
    assert(pre@ =~= le_bytes_spec(round_id) + commitment@);
    sha256_digest(pre.as_slice())
}

/// Signs `(round_id, commitment)`: 64 compact bytes and the recovery id. `None`
/// exactly when `secret_key` is not a secp256k1 secret key. A signature made here
/// verifies under the key's public key.
pub fn sign_commitment(secret_key: &[u8; 32], round_id: u64, commitment: &[u8; 32]) -> (r: Option<Vec<u8>>)
    ensures
        r is Some <==> secret_key_valid(secret_key@),
        r matches Some(sig) ==> {
            &&& sig@ == recoverable_signature(secret_key@, commitment_digest(round_id, commitment@))
            &&& commitment_signature_valid(public_key_of(secret_key@), round_id, commitment@, sig@)
        },
{
    let digest = compute_commitment_digest(round_id, commitment);
    match ecdsa_sign_recoverable(secret_key, &digest) {
        Some(sig) => {
            let mut v: Vec<u8> = Vec::new();
            append_bytes(&mut v, &sig);
            assert(v@ =~= sig@);
            Some(v)
        },
        None => None,
    }
}

/// The payload `(round_id, commit(secret, round_id), sign(secret_key, ...))`;
/// `None` exactly when `secret_key` is not a secp256k1 secret key.
pub fn create_commitment_payload(round_id: u64, secret: &[u8; 32], secret_key: &[u8; 32]) -> (r: Option<CommitmentPayload>)
    ensures
        r is Some <==> secret_key_valid(secret_key@),
        r matches Some(p) ==> {
            &&& p.round_id == round_id
            &&& p.commitment@ == commit_spec(secret@, round_id)
            &&& p.signature@ == recoverable_signature(secret_key@, commitment_digest(round_id, p.commitment@))
            &&& commitment_signature_valid(public_key_of(secret_key@), round_id, p.commitment@, p.signature@)
        },
{
    let commitment = compute_commitment(secret, round_id);
    match sign_commitment(secret_key, round_id, &commitment) {
        Some(signature) => Some(CommitmentPayload { round_id, commitment, signature }),
        None => None,
    }
}

/// Checks a commitment signature: false on a length other than 65, a recovery byte
/// above 3, a malformed public key, or a failed ECDSA verification.
pub fn verify_commitment_signature(
    public_key: &[u8],
    round_id: u64,
    commitment: &[u8; 32],
    signature: &[u8],
) -> (r: bool)
    ensures
        r == commitment_signature_valid(public_key@, round_id, commitment@, signature@),
{
    if signature.len() != 65 {
        return false;
    }
    if signature[64] > 3 {
        return false;
    }
    let digest = compute_commitment_digest(round_id, commitment);
    ecdsa_verify_recoverable(public_key, &digest, signature)
}

/// Verifies a 65-byte recoverable signature over a 32-byte digest.
pub fn verify_digest_signature(public_key: &[u8], digest: &[u8; 32], signature: &[u8]) -> (r: bool)
    ensures
        r == (signature@.len() == 65 && signature@[64] < 4 && ecdsa_verifies(public_key@, digest@, signature@)),
{
    if signature.len() != 65 || signature[64] > 3 {
        return false;
    }
    ecdsa_verify_recoverable(public_key, digest, signature)
}

/// Signs a 32-byte digest; `None` exactly when the key is invalid.
pub fn sign_digest(secret_key: &[u8; 32], digest: &[u8; 32]) -> (r: Option<Vec<u8>>)
    ensures
        r is Some <==> secret_key_valid(secret_key@),
        r matches Some(sig) ==> {
            &&& sig@ == recoverable_signature(secret_key@, digest@)
            &&& sig@.len() == 65
            &&& sig@[64] < 4
            &&& ecdsa_verifies(public_key_of(secret_key@), digest@, sig@)
        },
{
    match ecdsa_sign_recoverable(secret_key, digest) {
        Some(sig) => {
            let mut v: Vec<u8> = Vec::new();
            append_bytes(&mut v, &sig);
            assert(v@ =~= sig@);
            Some(v)
        },
        None => None,
    }
}

/// The public key of a secret key; `None` exactly when the key is invalid.
pub fn public_key_from_secret(secret_key: &[u8; 32]) -> (r: Option<Vec<u8>>)
    ensures
        r is Some <==> secret_key_valid(secret_key@),
        r matches Some(pk) ==> pk@ == public_key_of(secret_key@),
{
    match derive_public_key(secret_key) {
        Some(pk) => {
            let mut v: Vec<u8> = Vec::new();
            append_bytes(&mut v, &pk);
            assert(v@ =~= pk@);
            Some(v)
        },
        None => None,
    }
}

/// Number of draws that key generation makes before it gives up.
pub const KEYGEN_ATTEMPTS: u32 = 16;

/// A secp256k1 key pair: 32 random bytes, drawn again while they fall outside
/// `[1, n)`, and the derived compressed public key. `None` when the generator
/// is unavailable or no draw was valid.
pub fn generate_keypair() -> (r: Option<([u8; 32], Vec<u8>)>)
    ensures
        r matches Some((sk, pk)) ==> secret_key_valid(sk@) && pk@ == public_key_of(sk@),
{
    let mut attempt: u32 = 0;
    while attempt < KEYGEN_ATTEMPTS
        decreases KEYGEN_ATTEMPTS - attempt,
    {
        match os_random_32() {
            None => return None,
            Some(candidate) => {
                if let Some(pk) = public_key_from_secret(&candidate) {
                    return Some((candidate, pk));
                }
            },
        }
        attempt = attempt + 1;
    }
    None
}

} // verus!
