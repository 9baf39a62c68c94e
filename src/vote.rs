//! Recognising the version of a validator's vote account.

use vstd::prelude::*;
use crate::error::SinglePoolError;

verus! {

/// The version tag a vote account starts with: a little-endian `u32`.
pub open spec fn version_tag(data: Seq<u8>) -> int
    recommends
        data.len() >= 4,
{
    data[0] as int + 256 * data[1] as int + 65536 * data[2] as int + 16777216 * data[3] as int
}

/// Tag of the legacy layout, which the pool does not accept.
pub const LEGACY_VOTE_VERSION: u32 = 0;
/// Tag of the newest layout; every tag from the legacy one up to it is known.
pub const CURRENT_VOTE_VERSION: u32 = 2;

/// Whether vote account data may back a pool.
pub open spec fn vote_account_check(data: Seq<u8>) -> Result<(), SinglePoolError> {
    if data.len() < 4 || version_tag(data) > CURRENT_VOTE_VERSION {
        Err(SinglePoolError::UnparseableVoteAccount)
    } else if version_tag(data) == LEGACY_VOTE_VERSION {
        Err(SinglePoolError::LegacyVoteAccount)
    } else {
        Ok(())
    }
}

/// Accepts vote account data of a current layout; refuses the legacy layout
/// and data whose version cannot be read.
pub fn check_vote_account(data: &Vec<u8>) -> (r: Result<(), SinglePoolError>)
    ensures
        r == vote_account_check(data@),
{
    if data.len() < 4 {
        return Err(SinglePoolError::UnparseableVoteAccount);
    }
    let tag: u32 = data[0] as u32 + 256 * (data[1] as u32) + 65536 * (data[2] as u32) + 16777216 * (data[3] as u32);
    if tag > CURRENT_VOTE_VERSION {
        Err(SinglePoolError::UnparseableVoteAccount)
    } else if tag == LEGACY_VOTE_VERSION {
        Err(SinglePoolError::LegacyVoteAccount)
    } else {
        Ok(())
    }
}

} // verus!
