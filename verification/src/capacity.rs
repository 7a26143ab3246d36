//! Chunk-size arithmetic for the deployment pipeline.
//!
//! A transaction, fully signed and serialized, must not exceed the fixed
//! wire-size ceiling of the transport.  The chunk-size calculator measures
//! the wire size of a baseline transaction that carries an empty payload and
//! subtracts it (plus one byte of safety margin for length-prefix encoding
//! drift) from the ceiling; the remainder is the number of payload bytes
//! every chunk of the real binary may carry.

use vstd::prelude::*;
use crate::error::TestFrameWorkError;

verus! {

/// Fixed wire-size ceiling for one serialized transaction packet.
pub const PACKET_DATA_SIZE: usize = 1232;

/// One byte of slack for the drift of the payload's length prefix: a
/// length prefix below 128 is one byte, a longer payload needs two.
pub const LENGTH_PREFIX_MARGIN: usize = 1;

/// Payload bytes that fit beside a baseline transaction of `baseline_size`
/// wire bytes, saturating at zero when the baseline alone reaches the
/// ceiling.
pub open spec fn spec_payload_capacity(baseline_size: nat) -> nat {
    if baseline_size + LENGTH_PREFIX_MARGIN < PACKET_DATA_SIZE {
        (PACKET_DATA_SIZE - baseline_size - LENGTH_PREFIX_MARGIN) as nat
    } else {
        0
    }
}

/// Wire size of a chunk-carrying transaction, in the linear model: the
/// baseline bytes, one byte per payload byte, and `drift` extra bytes of
/// length-prefix growth.
pub open spec fn spec_modeled_wire_size(baseline_size: nat, payload_len: nat, drift: nat) -> nat {
    baseline_size + payload_len + drift
}

/// Maximum payload bytes per chunk given the measured wire size of the
/// baseline transaction.
pub fn payload_capacity(baseline_size: usize) -> (r: usize)
    ensures
        r == spec_payload_capacity(baseline_size as nat),
{
    if baseline_size < PACKET_DATA_SIZE - LENGTH_PREFIX_MARGIN {
        PACKET_DATA_SIZE - baseline_size - LENGTH_PREFIX_MARGIN
    } else {
        0
    }
}

/// The chunk size for a whole deployment, derived from the measured
/// baseline wire size.  A baseline that leaves no room for payload bytes is
/// a configuration error: the ceiling is too small for the fixed overhead,
/// and chunking with a zero size would never make progress.
pub fn chunk_size_from_baseline(baseline_size: usize) -> (r: Result<usize, TestFrameWorkError>)
    ensures
        spec_payload_capacity(baseline_size as nat) > 0 ==> (r matches Ok(s)
            && s == spec_payload_capacity(baseline_size as nat)),
        spec_payload_capacity(baseline_size as nat) == 0 ==> (r matches Err(_)),
{
    let capacity = payload_capacity(baseline_size);
    if capacity == 0 {
        Err(TestFrameWorkError::Error(
            "transaction overhead leaves no room for chunk payload bytes",
        ))
    } else {
        Ok(capacity)
    }
}

/// In the linear wire-size model, a chunk of the computed capacity always
/// fits under the ceiling, whatever drift (at most the margin) the length
/// prefix adds.
pub proof fn lemma_capacity_fits(baseline_size: nat, drift: nat)
    requires
        drift <= LENGTH_PREFIX_MARGIN,
        spec_payload_capacity(baseline_size) > 0,
    ensures
        spec_modeled_wire_size(baseline_size, spec_payload_capacity(baseline_size), drift)
            <= PACKET_DATA_SIZE,
{
}

/// Tightness of the computed capacity: one more payload byte, once the
/// length prefix has grown by the full margin, exceeds the ceiling.
pub proof fn lemma_capacity_tight(baseline_size: nat)
    requires
        spec_payload_capacity(baseline_size) > 0,
    ensures
        spec_modeled_wire_size(
            baseline_size,
            spec_payload_capacity(baseline_size) + 1,
            LENGTH_PREFIX_MARGIN as nat,
        ) > PACKET_DATA_SIZE,
{
}

} // verus!
