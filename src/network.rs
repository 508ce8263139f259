//! Wire framing (4-byte big-endian length, then the body), response tokens and
//! reconnection back-off.

use vstd::prelude::*;
use crate::bytes::{append_bytes, be_u32_bytes, be_u32_spec};
use crate::error::AggregatorError;

verus! {

/// Largest body a frame can carry.
pub open spec fn max_frame_body() -> nat {
    0xFFFF_FFFFnat
}

pub open spec fn frame_spec(body: Seq<u8>) -> Seq<u8> {
    be_u32_spec(body.len() as u32) + body
}

/// Value of four big-endian bytes.
pub open spec fn be_u32_value(b: Seq<u8>) -> nat {
    ((b[0] as nat * 256 + b[1] as nat) * 256 + b[2] as nat) * 256 + b[3] as nat
}

/// Frames `body`; `None` when it is longer than a 32-bit length can say.
pub fn encode_frame(body: &[u8]) -> (r: Option<Vec<u8>>)
    ensures
        r is Some <==> body@.len() <= max_frame_body(),
        r matches Some(f) ==> f@ == frame_spec(body@),
{
    if body.len() > 0xFFFF_FFFFusize {
        return None;
    }
    let header = be_u32_bytes(body.len() as u32);
    let mut out: Vec<u8> = Vec::new();
    append_bytes(&mut out, &header);
    append_bytes(&mut out, body);
    Some(out)
}

/// The length announced by a frame header.
pub fn frame_length(header: &[u8]) -> (r: u32)
    requires
        header@.len() >= 4,
    ensures
        r as nat == be_u32_value(header@),
{
    let v: u32 = ((header[0] as u32 * 256 + header[1] as u32) * 256 + header[2] as u32) * 256 + header[3] as u32;
    v
}

/// The body of the first frame in `buf` and the bytes it takes up; `None` while
/// the header or the body is incomplete.
pub fn decode_frame(buf: &[u8]) -> (r: Option<(Vec<u8>, usize)>)
    ensures
        r is Some <==> (buf@.len() >= 4 && buf@.len() >= 4 + be_u32_value(buf@)),
        r matches Some((body, used)) ==> {
            &&& used == 4 + be_u32_value(buf@)
            &&& body@ == buf@.subrange(4, used as int)
        },
{
    if buf.len() < 4 {
        return None;
    }
    let len = frame_length(buf) as usize;
    if buf.len() - 4 < len {
        return None;
    }
    let end = 4 + len;
    let mut body: Vec<u8> = Vec::new();
    let mut i: usize = 4;
    while i < end
        invariant
            4 <= i <= end,
            end <= buf@.len(),
            body@ == buf@.subrange(4, i as int),
        decreases end - i,
    {
        body.push(buf[i]);
        i = i + 1;
        assert(body@ =~= buf@.subrange(4, i as int));
    }
    Some((body, end))
}

/// The aggregator's one-word answer to an inbound message.
#[derive(Clone, Copy, Debug, PartialEq, Eq)]
pub enum ResponseToken {
    Ack,
    Nack,
    Error,
    UnknownMessageType,
}

impl ResponseToken {
    pub fn as_str(&self) -> (r: &'static str)
        ensures
            r@ == (match *self {
                ResponseToken::Ack => "ACK"@,
                ResponseToken::Nack => "NACK"@,
                ResponseToken::Error => "ERROR"@,
                ResponseToken::UnknownMessageType => "UNKNOWN_MESSAGE_TYPE"@,
            }),
    {
        match self {
            ResponseToken::Ack => "ACK",
            ResponseToken::Nack => "NACK",
            ResponseToken::Error => "ERROR",
            ResponseToken::UnknownMessageType => "UNKNOWN_MESSAGE_TYPE",
        }
    }
}

/// Rejections of a message by the protocol rules, as opposed to failures of
/// the aggregator itself.
pub open spec fn is_protocol_rejection(e: AggregatorError) -> bool {
    match e {
        AggregatorError::NetworkError { .. } => false,
        AggregatorError::InternalError { .. } => false,
        AggregatorError::TEEError { .. } => false,
        AggregatorError::ConfigError { .. } => false,
        _ => true,
    }
}

/// `ACK` for an admitted message, `NACK` for a protocol rejection, `ERROR` for
/// any other failure.
pub fn response_token<T>(r: &Result<T, AggregatorError>) -> (t: ResponseToken)
    ensures
        t == (match *r {
            Ok(_) => ResponseToken::Ack,
            Err(e) => if is_protocol_rejection(e) { ResponseToken::Nack } else { ResponseToken::Error },
        }),
{
    match r {
        Ok(_) => ResponseToken::Ack,
        Err(AggregatorError::NetworkError { .. }) => ResponseToken::Error,
        Err(AggregatorError::InternalError { .. }) => ResponseToken::Error,
        Err(AggregatorError::TEEError { .. }) => ResponseToken::Error,
        Err(AggregatorError::ConfigError { .. }) => ResponseToken::Error,
        Err(_) => ResponseToken::Nack,
    }
}

/// After `attempts_made` failed attempts, whether another one is allowed.
pub fn may_retry(attempts_made: u32, max_retries: u32) -> (r: bool)
    ensures
        r == (attempts_made < max_retries),
{
    attempts_made < max_retries
}

pub open spec fn pow2(n: nat) -> nat
    decreases n,
{
    if n == 0 { 1 } else { 2 * pow2((n - 1) as nat) }
}

/// Delay before retry number `retry` (from 1): `base_ms * 2^(retry - 1)`, capped
/// at `max_ms`; no delay before the first attempt.
pub open spec fn backoff_spec(base_ms: u64, max_ms: u64, retry: u32) -> nat {
    if retry == 0 {
        0
    } else {
        let d = base_ms as nat * pow2((retry - 1) as nat);
        if d < max_ms as nat { d } else { max_ms as nat }
    }
}

pub fn backoff_delay_ms(base_ms: u64, max_ms: u64, retry: u32) -> (r: u64)
    ensures
        r as nat == backoff_spec(base_ms, max_ms, retry),
{
    if retry == 0 {
        return 0;
    }
    let mut d: u64 = base_ms;
    let mut i: u32 = 0;
    assert(pow2(0) == 1);
    assert(base_ms as nat * 1 == base_ms as nat);
    while i < retry - 1
        invariant
            i <= retry - 1,
            d as nat == base_ms as nat * pow2(i as nat),
        decreases retry - 1 - i,
    {
        if d >= max_ms {
            proof {
                lemma_backoff_stays_capped(base_ms as nat, max_ms as nat, i as nat, (retry - 1) as nat);
            }
            return max_ms;
        }
        if d > u64::MAX / 2 {
            proof {
                assert(pow2((i + 1) as nat) == 2 * pow2(i as nat));
                assert(base_ms as nat * pow2((i + 1) as nat) == 2 * (base_ms as nat * pow2(i as nat))) by (nonlinear_arith)
                    requires pow2((i + 1) as nat) == 2 * pow2(i as nat);
                lemma_backoff_stays_capped(base_ms as nat, max_ms as nat, (i + 1) as nat, (retry - 1) as nat);
            }
            return max_ms;
        }
        proof {
            assert(pow2((i + 1) as nat) == 2 * pow2(i as nat));
            assert(base_ms as nat * pow2((i + 1) as nat) == 2 * (base_ms as nat * pow2(i as nat))) by (nonlinear_arith)
                requires pow2((i + 1) as nat) == 2 * pow2(i as nat);
        }
        d = d * 2;
        i = i + 1;
    }
    if d < max_ms { d } else { max_ms }
}

proof fn lemma_pow2_monotone(a: nat, b: nat)
    requires
        a <= b,
    ensures
        pow2(a) <= pow2(b),
    decreases b,
{
    if a < b {
        lemma_pow2_monotone(a, (b - 1) as nat);
    }
}

proof fn lemma_backoff_stays_capped(base: nat, max: nat, i: nat, n: nat)
    requires
        i <= n,
        base * pow2(i) >= max,
    ensures
        base * pow2(n) >= max,
{
    lemma_pow2_monotone(i, n);
    assert(base * pow2(i) <= base * pow2(n)) by (nonlinear_arith)
        requires pow2(i) <= pow2(n);
}

} // verus!
