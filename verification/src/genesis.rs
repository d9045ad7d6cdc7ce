//! Genesis header verification: a pure predicate deciding whether a proposed
//! genesis-relative header satisfies the invariants the network requires.
//!
//! The expected height and expected data-availability height come from
//! network configuration, not from the header itself: a genesis header is
//! not self-certifying.

use vstd::prelude::*;
use crate::block::{digest_is_zero, BlockHeader, TAI64_UNIX_EPOCH};

verus! {

/// The header field that failed genesis verification.
#[derive(Clone, Copy, Debug, PartialEq, Eq, Structural)]
pub enum GenesisHeaderError {
    /// The previous-block root is not the zero digest.
    PreviousRootMismatch,
    /// The timestamp is not the network epoch origin.
    TimeMismatch,
    /// The height differs from the configured genesis height.
    HeightMismatch,
    /// The data-availability height differs from the configured one.
    DaHeightMismatch,
}

/// All four invariants a genesis header must satisfy: zero previous root,
/// epoch-origin time, and the externally configured height and
/// data-availability height.
pub open spec fn genesis_fields_valid(
    expected_genesis_height: u32,
    expected_genesis_da_height: u64,
    header: BlockHeader,
) -> bool {
    &&& digest_is_zero(header.prev_root)
    &&& header.time == TAI64_UNIX_EPOCH
    &&& header.height == expected_genesis_height
    &&& header.da_height == expected_genesis_da_height
}

/// Verifies a proposed genesis header against the externally configured
/// expected height and expected data-availability height.
///
/// Succeeds exactly when all four field invariants hold; otherwise reports
/// the first failing field, checked in the order previous root, time,
/// height, data-availability height.
pub fn verify_genesis_block_fields(
    expected_genesis_height: u32,
    expected_genesis_da_height: u64,
    header: &BlockHeader,
) -> (r: Result<(), GenesisHeaderError>)
    ensures
        r is Ok <==> genesis_fields_valid(
            expected_genesis_height,
            expected_genesis_da_height,
            *header,
        ),
        !digest_is_zero(header.prev_root) ==> r == Err::<(), GenesisHeaderError>(
            GenesisHeaderError::PreviousRootMismatch,
        ),
        digest_is_zero(header.prev_root) && header.time != TAI64_UNIX_EPOCH ==> r == Err::<
            (),
            GenesisHeaderError,
        >(GenesisHeaderError::TimeMismatch),
        digest_is_zero(header.prev_root) && header.time == TAI64_UNIX_EPOCH
            && header.height != expected_genesis_height ==> r == Err::<(), GenesisHeaderError>(
            GenesisHeaderError::HeightMismatch,
        ),
        digest_is_zero(header.prev_root) && header.time == TAI64_UNIX_EPOCH
            && header.height == expected_genesis_height && header.da_height
            != expected_genesis_da_height ==> r == Err::<(), GenesisHeaderError>(
            GenesisHeaderError::DaHeightMismatch,
        ),
{
    if !header.prev_root.is_zero() {
        return Err(GenesisHeaderError::PreviousRootMismatch);
    }
    if header.time != TAI64_UNIX_EPOCH {
        return Err(GenesisHeaderError::TimeMismatch);
    }
    if header.height != expected_genesis_height {
        return Err(GenesisHeaderError::HeightMismatch);
    }
    if header.da_height != expected_genesis_da_height {
        return Err(GenesisHeaderError::DaHeightMismatch);
    }
    Ok(())
}

} // verus!
