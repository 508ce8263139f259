//! The enclave interface and its development (mock) implementation.

use vstd::prelude::*;
use crate::bytes::{all_zero, append_bytes, le_bytes, le_bytes_spec};
use crate::crypto::{sha256, sha256_digest};
use vstd::utf8::encode_utf8;
use crate::clock::unix_time_secs;
use crate::error::AggregatorError;

verus! {

pub type RandomNumber = [u8; 32];

pub type Nonce = [u8; 16];

/// Binds a random number and a nonce to a code measurement and a time.
#[derive(Clone, Copy, Debug, PartialEq)]
pub struct AttestationReport {
    pub random_number: RandomNumber,
    pub nonce: Nonce,
    pub code_measurement: [u8; 32],
    pub timestamp: u64,
}

/// Seconds that a report's timestamp may lie ahead of the verifier's clock.
pub const TIMESTAMP_TOLERANCE_SECS: u64 = 60;

/// `random_number ‖ nonce ‖ code_measurement ‖ timestamp_le`.
pub open spec fn attestation_bytes_spec(r: AttestationReport) -> Seq<u8> {
    r.random_number@ + r.nonce@ + r.code_measurement@ + le_bytes_spec(r.timestamp)
}

/// The report's canonical bytes, as carried in a randomness event.
pub fn attestation_bytes(r: &AttestationReport) -> (out: Vec<u8>)
    ensures
        out@ == attestation_bytes_spec(*r),
{
    let mut out: Vec<u8> = Vec::new();
    append_bytes(&mut out, &r.random_number);
    append_bytes(&mut out, &r.nonce);
    append_bytes(&mut out, &r.code_measurement);
    let ts = le_bytes(r.timestamp);
    append_bytes(&mut out, &ts);
    out
}

/// A code measurement with at least one non-zero byte.
pub open spec fn measurement_nonzero(m: [u8; 32]) -> bool {
    exists|i: int| 0 <= i < 32 && m@[i] != 0
}

/// Structural check of a report at time `now`: a non-zero code measurement and
/// a timestamp within the tolerance of `now`, on either side.
pub open spec fn report_valid_at(r: AttestationReport, now: u64) -> bool {
    &&& measurement_nonzero(r.code_measurement)
    &&& now as int - TIMESTAMP_TOLERANCE_SECS as int <= r.timestamp as int
    &&& r.timestamp as int <= now as int + TIMESTAMP_TOLERANCE_SECS as int
}

pub fn verify_attestation_at(r: &AttestationReport, now: u64) -> (ok: bool)
    ensures
        ok == report_valid_at(*r, now),
{
    if all_zero(&r.code_measurement) {
        return false;
    }
    if r.timestamp <= now {
        now - r.timestamp <= TIMESTAMP_TOLERANCE_SECS
    } else {
        r.timestamp - now <= TIMESTAMP_TOLERANCE_SECS
    }
}

/// Which enclave to use, and its settings.
#[derive(Clone, Debug)]
pub struct TEEConfig {
    /// Use the development enclave.
    pub use_mock: bool,
    pub config_path: Option<String>,
    pub parameters: Vec<(String, String)>,
}

/// The bytes of the text `true`.
pub open spec fn true_text() -> Seq<u8> {
    seq![0x74u8, 0x72u8, 0x75u8, 0x65u8]
}

/// The mock-enclave switch from its setting: on only for the text `true`;
/// unset, `false` or anything else leaves it off.
pub fn use_mock_from_setting(value: Option<&str>) -> (r: bool)
    ensures
        r == (value matches Some(v) && encode_utf8(v@) == true_text()),
{
    match value {
        None => false,
        Some(v) => {
            let b = v.as_bytes();
            let t: [u8; 4] = [0x74, 0x72, 0x75, 0x65];
            assert(t@ =~= true_text());
            crate::bytes::bytes_equal(b, &t)
        },
    }
}

impl TEEConfig {
    /// A configuration from the mock-enclave setting, with no path or parameters.
    pub fn from_setting(value: Option<&str>) -> (r: TEEConfig)
        ensures
            r.use_mock == (value matches Some(v) && encode_utf8(v@) == true_text()),
            r.config_path is None,
            r.parameters@.len() == 0,
    {
        TEEConfig { use_mock: use_mock_from_setting(value), config_path: None, parameters: Vec::new() }
    }
}

/// An enclave: aggregates a seed under attestation and checks reports.
pub trait TEEEnclave {
    /// The random number and nonce for `seed`, and a report that carries both.
    fn aggregate(&mut self, seed: Vec<u8>) -> (r: Result<(RandomNumber, Nonce, AttestationReport), AggregatorError>)
        ensures
            r matches Ok((rn, nonce, report)) ==> report.random_number == rn && report.nonce == nonce,
    ;

    /// Whether `report` passes; a passing report has a non-zero measurement.
    fn verify_attestation(&self, report: &AttestationReport) -> (ok: bool)
        ensures
            ok ==> measurement_nonzero(report.code_measurement),
    ;
}

/// The 16-byte nonce of the `n`-th aggregation: `n` little-endian, then zeros.
pub open spec fn mock_nonce(n: u64) -> Seq<u8> {
    le_bytes_spec(n) + seq![0u8, 0u8, 0u8, 0u8, 0u8, 0u8, 0u8, 0u8]
}

/// Distinct counters give distinct nonces.
pub proof fn lemma_mock_nonces_distinct(a: u64, b: u64)
    requires
        a != b,
    ensures
        mock_nonce(a) != mock_nonce(b),
{
    if mock_nonce(a) == mock_nonce(b) {
        let x = le_bytes_spec(a);
        let y = le_bytes_spec(b);
        assert forall|k: int| 0 <= k < 8 implies x[k] == y[k] by {
            assert(mock_nonce(a)[k] == mock_nonce(b)[k]);
        }
        assert(x[0] == y[0] && x[1] == y[1] && x[2] == y[2] && x[3] == y[3]);
        assert(x[4] == y[4] && x[5] == y[5] && x[6] == y[6] && x[7] == y[7]);
        assert((a as u8 == b as u8 && (a >> 8u64) as u8 == (b >> 8u64) as u8
            && (a >> 16u64) as u8 == (b >> 16u64) as u8 && (a >> 24u64) as u8 == (b >> 24u64) as u8
            && (a >> 32u64) as u8 == (b >> 32u64) as u8 && (a >> 40u64) as u8 == (b >> 40u64) as u8
            && (a >> 48u64) as u8 == (b >> 48u64) as u8 && (a >> 56u64) as u8 == (b >> 56u64) as u8) ==> a == b)
            by (bit_vector);
    }
}

/// The mock enclave's code measurement: the ASCII text
/// `entropy-beacon mock enclave v1.0`.
pub open spec fn mock_measurement() -> Seq<u8> {
    seq![
        0x65u8, 0x6eu8, 0x74u8, 0x72u8, 0x6fu8, 0x70u8, 0x79u8, 0x2du8,
        0x62u8, 0x65u8, 0x61u8, 0x63u8, 0x6fu8, 0x6eu8, 0x20u8, 0x6du8,
        0x6fu8, 0x63u8, 0x6bu8, 0x20u8, 0x65u8, 0x6eu8, 0x63u8, 0x6cu8,
        0x61u8, 0x76u8, 0x65u8, 0x20u8, 0x76u8, 0x31u8, 0x2eu8, 0x30u8,
    ]
}

/// Development enclave: the random number is `SHA-256(seed)` and the nonce
/// comes from a counter that grows with every aggregation.
pub struct MockTeeEnclave {
    pub counter: u64,
    pub code_measurement: [u8; 32],
}

impl MockTeeEnclave {
    pub fn new() -> (r: MockTeeEnclave)
        ensures
            r.counter == 0,
            r.code_measurement@ == mock_measurement(),
            measurement_nonzero(r.code_measurement),
    {
        let m: [u8; 32] = [
            0x65, 0x6e, 0x74, 0x72, 0x6f, 0x70, 0x79, 0x2d,
            0x62, 0x65, 0x61, 0x63, 0x6f, 0x6e, 0x20, 0x6d,
            0x6f, 0x63, 0x6b, 0x20, 0x65, 0x6e, 0x63, 0x6c,
            0x61, 0x76, 0x65, 0x20, 0x76, 0x31, 0x2e, 0x30,
        ];
        assert(m@ =~= mock_measurement());
        assert(m@[0] != 0);
        MockTeeEnclave { counter: 0, code_measurement: m }
    }

    /// Aggregates `seed` at time `timestamp`: `TEEError` once the counter is
    /// exhausted, else the counter grows by one and the report binds
    /// `SHA-256(seed)`, the new nonce, the measurement and the time.
    pub fn aggregate_at(&mut self, seed: &[u8], timestamp: u64) -> (r: Result<(RandomNumber, Nonce, AttestationReport), AggregatorError>)
        ensures
            old(self).counter == u64::MAX <==> r is Err,
            r is Err ==> *final(self) == *old(self),
            r matches Ok((rn, nonce, report)) ==> {
                &&& final(self).counter == old(self).counter + 1
                &&& final(self).code_measurement == old(self).code_measurement
                &&& rn@ == sha256(seed@)
                &&& nonce@ == mock_nonce(final(self).counter)
                &&& report == (AttestationReport {
                    random_number: rn,
                    nonce,
                    code_measurement: old(self).code_measurement,
                    timestamp,
                })
            },
    {
        if self.counter == u64::MAX {
            return Err(AggregatorError::TEEError { message: String::from_str("nonce counter exhausted") });
        }
        self.counter = self.counter + 1;
        let random_number = sha256_digest(seed);
        let c = le_bytes(self.counter);
        let nonce: [u8; 16] = [c[0], c[1], c[2], c[3], c[4], c[5], c[6], c[7], 0, 0, 0, 0, 0, 0, 0, 0];
        assert(nonce@ =~= mock_nonce(self.counter));
        let report = AttestationReport {
            random_number,
            nonce,
            code_measurement: self.code_measurement,
            timestamp,
        };
        Ok((random_number, nonce, report))
    }
}

impl TEEEnclave for MockTeeEnclave {
    /// `aggregate_at` with the current time.
    fn aggregate(&mut self, seed: Vec<u8>) -> (r: Result<(RandomNumber, Nonce, AttestationReport), AggregatorError>)
        ensures
            old(self).counter == u64::MAX <==> r is Err,
            r is Err ==> *final(self) == *old(self),
            r matches Ok((rn, nonce, report)) ==> {
                &&& final(self).counter == old(self).counter + 1
                &&& final(self).code_measurement == old(self).code_measurement
                &&& rn@ == sha256(seed@)
                &&& nonce@ == mock_nonce(final(self).counter)
                &&& report.random_number == rn
                &&& report.nonce == nonce
                &&& report.code_measurement == old(self).code_measurement
            },
    {
        let now = unix_time_secs();
        self.aggregate_at(seed.as_slice(), now)
    }

    /// `verify_attestation_at` with the current time.
    fn verify_attestation(&self, report: &AttestationReport) -> (ok: bool)
        ensures
            ok ==> measurement_nonzero(report.code_measurement),
    {
        let now = unix_time_secs();
        verify_attestation_at(report, now)
    }
}

} // verus!
