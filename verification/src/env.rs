//! Derivation of the next block's execution attributes from the parent
//! header: pure, deterministic continuity rules plus one injected
//! randomness value for prev-randao.

use vstd::prelude::*;
use crate::model::{Bytes32, NextBlockEnv, SealedHeader, copy_bytes, opt_word_view};

verus! {

/// Fixed slot duration between consecutive blocks, in time units.
pub const SLOT_SECONDS: u64 = 12;

/// The timestamp the next block is scheduled at: one slot after the
/// parent's, saturating at the numeric maximum instead of wrapping.
pub open spec fn next_timestamp(parent_ts: u64) -> u64 {
    if parent_ts + SLOT_SECONDS > u64::MAX {
        u64::MAX
    } else {
        (parent_ts + SLOT_SECONDS) as u64
    }
}

/// Relies on `alloy_primitives::B256::random`: a 256-bit value drawn from
/// the process's cryptographic randomness source. It is 32 bytes long;
/// nothing else holds of any outcome.
#[verifier::external_body]
fn random_word() -> (r: Bytes32)
    ensures
        r.wf(),
{
    Bytes32 { bytes: alloy_primitives::B256::random().0.to_vec() }
}

/// Derives the execution attributes of the next block from the parent
/// header and an injected prev-randao value.
///
/// The timestamp moves one slot forward, saturating rather than wrapping;
/// the fee recipient stands in for the parent's beneficiary; gas limit,
/// parent beacon root and extra data are carried forward unchanged.
pub fn next_env_attributes_with(parent: &SealedHeader, prev_randao: Bytes32) -> (env: NextBlockEnv)
    ensures
        env.timestamp == next_timestamp(parent.header.timestamp),
        env.suggested_fee_recipient@ == parent.header.beneficiary@,
        env.prev_randao@ == prev_randao@,
        env.gas_limit == parent.header.gas_limit,
        opt_word_view(env.parent_beacon_block_root) == opt_word_view(
            parent.header.parent_beacon_block_root,
        ),
        env.extra_data@ == parent.header.extra_data@,
{
    let parent_beacon_block_root = match &parent.header.parent_beacon_block_root {
        Option::Some(b) => Option::Some(b.duplicate()),
        Option::None => Option::None,
    };
    NextBlockEnv {
        timestamp: parent.header.timestamp.saturating_add(SLOT_SECONDS),
        suggested_fee_recipient: parent.header.beneficiary.duplicate(),
        prev_randao,
        gas_limit: parent.header.gas_limit,
        parent_beacon_block_root,
        extra_data: copy_bytes(&parent.header.extra_data),
    }
}

/// Derives the execution attributes of the next block, drawing a fresh
/// random prev-randao value. The randomness is acceptable because the
/// result is a speculative estimate, never a committed value.
pub fn next_env_attributes(parent: &SealedHeader) -> (env: NextBlockEnv)
    ensures
        env.timestamp == next_timestamp(parent.header.timestamp),
        env.suggested_fee_recipient@ == parent.header.beneficiary@,
        env.prev_randao.wf(),
        env.gas_limit == parent.header.gas_limit,
        opt_word_view(env.parent_beacon_block_root) == opt_word_view(
            parent.header.parent_beacon_block_root,
        ),
        env.extra_data@ == parent.header.extra_data@,
{
    let randao = random_word();
    next_env_attributes_with(parent, randao)
}

} // verus!
