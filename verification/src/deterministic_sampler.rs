//! Deterministic, coordination-free trace-level sampling.
//!
//! The keep/drop decision for a record is a pure function of the sample rate
//! and the record's trace identifier: a stable digest of the identifier's
//! bytes is reduced modulo the rate, and the trace is kept exactly when the
//! residue is zero.  Every span and event of one trace therefore reaches the
//! same decision with no shared state and no coordination.

use crate::trace_id::TraceId;
use vstd::prelude::*;

verus! {

/// Offset basis of the 64-bit FNV-1a digest.
pub const FNV_OFFSET: u64 = 0xcbf29ce484222325;

/// Multiplier of the 64-bit FNV-1a digest.
pub const FNV_PRIME: u64 = 0x100000001b3;

/// One digest step: fold one byte into the running hash, with the
/// multiplication truncated to 64 bits.
pub open spec fn digest_step(h: u64, b: u8) -> u64 {
    ((((h ^ (b as u64)) as nat) * (FNV_PRIME as nat)) % 0x10000000000000000) as u64
}

/// Digest of the remaining bytes of `v`, least significant byte first,
/// folded into the running hash `h`; `i` counts the bytes already folded.
pub open spec fn digest_loop(v: u128, i: nat, h: u64) -> u64
    decreases 16 - i,
{
    if i >= 16 {
        h
    } else {
        digest_loop(v / 256, i + 1, digest_step(h, (v % 256) as u8))
    }
}

/// Stable, uniformly distributed digest of a trace identifier's sixteen
/// bytes.
pub open spec fn trace_digest(x: u128) -> u64 {
    digest_loop(x, 0, FNV_OFFSET)
}

/// The keep decision for a present sample rate: keep exactly when the digest
/// reduces to zero modulo the rate.
pub open spec fn sample_spec(rate: u32, t: TraceId) -> bool {
    trace_digest(t.0) % (rate as u64) == 0
}

/// The keep decision for an optional sample rate: an absent rate keeps every
/// trace.
pub open spec fn should_report_spec(sample_rate: Option<u32>, t: TraceId) -> bool {
    match sample_rate {
        Option::None => true,
        Option::Some(rate) => sample_spec(rate, t),
    }
}

/// A sample rate of `N` means "retain 1 in N traces"; zero is a
/// configuration error and is rejected at construction.
pub open spec fn valid_sample_rate(sample_rate: Option<u32>) -> bool {
    match sample_rate {
        Option::None => true,
        Option::Some(rate) => rate >= 1,
    }
}

/// Computes the digest of a trace identifier's bytes.
fn compute_digest(x: u128) -> (r: u64)
    ensures
        r == trace_digest(x),
{
    let mut v: u128 = x;
    let mut h: u64 = FNV_OFFSET;
    let mut i: usize = 0;
    while i < 16
        invariant
            i <= 16,
            trace_digest(x) == digest_loop(v, i as nat, h),
        decreases 16 - i,
    {
        let b: u8 = (v % 256) as u8;
        let folded: u64 = h ^ (b as u64);
        let wide: u128 = (folded as u128) * (FNV_PRIME as u128);
        h = (wide % 0x10000000000000000u128) as u64;
        v = v / 256;
        i += 1;
    }
    h
}

/// Decides whether a trace with the given identifier is kept at the given
/// sample rate.  The decision is a pure function of its two arguments.
pub fn sample(rate: u32, trace_id: &TraceId) -> (keep: bool)
    requires
        rate >= 1,
    ensures
        keep == sample_spec(rate, *trace_id),
{
    let digest = compute_digest(trace_id.0);
    digest % (rate as u64) == 0
}

/// Decides whether a trace is kept: an absent sample rate keeps everything,
/// a present rate keeps a deterministic 1-in-rate fraction of traces.
pub fn should_report(sample_rate: Option<u32>, trace_id: &TraceId) -> (keep: bool)
    requires
        valid_sample_rate(sample_rate),
    ensures
        keep == should_report_spec(sample_rate, *trace_id),
{
    match sample_rate {
        Option::Some(rate) => sample(rate, trace_id),
        Option::None => true,
    }
}

/// The sampling decision is deterministic: equal inputs reach equal
/// decisions, however often and wherever they are computed.
pub proof fn lemma_should_report_deterministic(
    rate_a: Option<u32>,
    trace_a: TraceId,
    rate_b: Option<u32>,
    trace_b: TraceId,
)
    requires
        rate_a == rate_b,
        trace_a == trace_b,
    ensures
        should_report_spec(rate_a, trace_a) == should_report_spec(rate_b, trace_b),
{
}

/// An absent sample rate keeps every trace.
pub proof fn lemma_absent_rate_keeps_all(t: TraceId)
    ensures
        should_report_spec(Option::None, t),
{
}

/// A sample rate of one keeps every trace.
pub proof fn lemma_rate_one_keeps_all(t: TraceId)
    ensures
        should_report_spec(Option::Some(1u32), t),
{
    assert(trace_digest(t.0) % 1u64 == 0);
}

} // verus!
