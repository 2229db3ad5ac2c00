use vstd::prelude::*;

pub mod config;
pub mod crypto;
pub mod dtos;
pub mod errors;
pub mod ids;
pub mod links;
pub mod models;
pub mod projections;
pub mod reaper;
pub mod seq_util;
pub mod store;
pub mod validation;

verus! {

/// Milliseconds since the Unix epoch; the single time representation the
/// library reasons about.
pub type EpochMs = i64;

/// True when `expires_at` no longer grants access at instant `now`: an
/// expiration at or before the current time is invalid.  Both the
/// authorization path and the reaper use this one predicate, so they can
/// never disagree about which links are live.
pub open spec fn spec_is_expired(expires_at: EpochMs, now: EpochMs) -> bool {
    expires_at <= now
}

/// Executable form of the shared expiration predicate.
pub fn is_expired(expires_at: EpochMs, now: EpochMs) -> (r: bool)
    ensures
        r == spec_is_expired(expires_at, now),
{
    expires_at <= now
}

} // verus!
