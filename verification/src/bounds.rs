//! Hard caps on the storage-heavy collections of an arena, the round speeds
//! `init` accepts and the smallest required stake.
//!
//! Deployed arenas use the production caps. Unit tests run arenas with the
//! compact caps, so that boundary cases (N-1, N, N+1) stay fast.
use vstd::prelude::*;

verus! {

/// Minimum registered survivors needed for a round, and the smallest capacity
/// an admin may configure.
pub const MIN_ARENA_PARTICIPANTS: u32 = 2;

/// Maximum registered survivors of one deployed arena.
pub const MAX_ARENA_PARTICIPANTS: u32 = 10_000;

/// Maximum number of choices recorded for a single round of a deployed arena.
pub const MAX_SUBMISSIONS_PER_ROUND: u32 = 10_000;

/// Smallest round speed `init` accepts, in ledgers (about 50 s at 5 s per
/// ledger).
pub const MIN_SPEED_LEDGERS: u32 = 10;

/// Largest round speed `init` accepts, in ledgers (about one day at 5 s per
/// ledger).
pub const MAX_SPEED_LEDGERS: u32 = 17_280;

/// Smallest stake `init` accepts as the stake every player pays to join.
pub const MIN_REQUIRED_STAKE: i128 = 1;

/// Participant cap of the compact bounds.
pub const COMPACT_MAX_ARENA_PARTICIPANTS: u32 = 64;

/// Submission cap of the compact bounds.
pub const COMPACT_MAX_SUBMISSIONS_PER_ROUND: u32 = 32;

/// Smallest round speed of the compact bounds.
pub const COMPACT_MIN_SPEED_LEDGERS: u32 = 1;

/// Largest round speed of the compact bounds.
pub const COMPACT_MAX_SPEED_LEDGERS: u32 = 100_000;

/// The caps an arena enforces.
#[derive(Copy, Clone, Debug, Eq, PartialEq, Structural)]
pub struct ArenaBounds {
    pub max_participants: u32,
    pub max_submissions_per_round: u32,
    pub min_speed_ledgers: u32,
    pub max_speed_ledgers: u32,
}

/// The caps of a deployed arena.
pub open spec fn production_bounds() -> ArenaBounds {
    ArenaBounds {
        max_participants: MAX_ARENA_PARTICIPANTS,
        max_submissions_per_round: MAX_SUBMISSIONS_PER_ROUND,
        min_speed_ledgers: MIN_SPEED_LEDGERS,
        max_speed_ledgers: MAX_SPEED_LEDGERS,
    }
}

/// The lower caps for unit tests.
pub open spec fn compact_bounds() -> ArenaBounds {
    ArenaBounds {
        max_participants: COMPACT_MAX_ARENA_PARTICIPANTS,
        max_submissions_per_round: COMPACT_MAX_SUBMISSIONS_PER_ROUND,
        min_speed_ledgers: COMPACT_MIN_SPEED_LEDGERS,
        max_speed_ledgers: COMPACT_MAX_SPEED_LEDGERS,
    }
}

impl ArenaBounds {
    /// The caps of a deployed arena.
    pub fn production() -> (b: ArenaBounds)
        ensures
            b == production_bounds(),
    {
        ArenaBounds {
            max_participants: MAX_ARENA_PARTICIPANTS,
            max_submissions_per_round: MAX_SUBMISSIONS_PER_ROUND,
            min_speed_ledgers: MIN_SPEED_LEDGERS,
            max_speed_ledgers: MAX_SPEED_LEDGERS,
        }
    }

    /// The lower caps for unit tests.
    pub fn compact() -> (b: ArenaBounds)
        ensures
            b == compact_bounds(),
    {
        ArenaBounds {
            max_participants: COMPACT_MAX_ARENA_PARTICIPANTS,
            max_submissions_per_round: COMPACT_MAX_SUBMISSIONS_PER_ROUND,
            min_speed_ledgers: COMPACT_MIN_SPEED_LEDGERS,
            max_speed_ledgers: COMPACT_MAX_SPEED_LEDGERS,
        }
    }
}

} // verus!
