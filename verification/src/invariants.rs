//! Checks of the round state machine's invariants on plain values.
use vstd::prelude::*;

use crate::arena::RoundState;

verus! {

/// A round is never active while timed out or finished.
pub open spec fn round_flags_coherent(round: RoundState) -> bool {
    !(round.active && round.timed_out) && !(round.active && round.finished)
}

/// A round number either stays the same or grows by one per transition.
pub open spec fn round_number_step(prev: u32, next: u32) -> bool {
    next == prev || next == prev + 1
}

/// A timeout keeps the round number, clears `active` and sets `timed_out`.
pub open spec fn timeout_step(before: RoundState, after: RoundState) -> bool {
    before.round_number == after.round_number && !after.active && after.timed_out
}

/// Flags that cannot be true together for a coherent round.
pub fn check_round_flags(round: &RoundState) -> (r: Result<(), &'static str>)
    ensures
        r is Ok <==> round_flags_coherent(*round),
        round.active && round.timed_out ==> r == Err::<(), &'static str>(
            "invariant: active and timed_out are mutually exclusive",
        ),
        round.active && !round.timed_out && round.finished ==> r == Err::<(), &'static str>(
            "invariant: active and finished are mutually exclusive",
        ),
{
    if round.active && round.timed_out {
        return Err("invariant: active and timed_out are mutually exclusive");
    }
    if round.active && round.finished {
        return Err("invariant: active and finished are mutually exclusive");
    }
    Ok(())
}

/// Round numbers may only stay the same or increase by one per transition.
pub fn check_round_number_monotonic(prev: u32, next: u32) -> (r: Result<(), &'static str>)
    requires
        next != prev ==> prev < u32::MAX,
    ensures
        r is Ok <==> round_number_step(prev, next),
        !round_number_step(prev, next) ==> r == Err::<(), &'static str>(
            "invariant: round_number may only stay the same or increase by 1 per transition",
        ),
{
    if next != prev && next != prev + 1 {
        return Err("invariant: round_number may only stay the same or increase by 1 per transition");
    }
    Ok(())
}

/// After a timeout the round is inactive, marked timed out, and keeps its
/// number.
pub fn check_timeout_transition(before: &RoundState, after: &RoundState) -> (r: Result<
    (),
    &'static str,
>)
    ensures
        r is Ok <==> timeout_step(*before, *after),
        before.round_number != after.round_number ==> r == Err::<(), &'static str>(
            "invariant: timeout must not change round_number",
        ),
        before.round_number == after.round_number && after.active ==> r == Err::<
            (),
            &'static str,
        >("invariant: timeout must clear active"),
        before.round_number == after.round_number && !after.active && !after.timed_out ==> r
            == Err::<(), &'static str>("invariant: timeout must set timed_out"),
{
    if before.round_number != after.round_number {
        return Err("invariant: timeout must not change round_number");
    }
    if after.active {
        return Err("invariant: timeout must clear active");
    }
    if !after.timed_out {
        return Err("invariant: timeout must set timed_out");
    }
    Ok(())
}

/// The submission counter never decreases.
pub fn check_submission_count_monotonic(before: u32, after: u32) -> (r: Result<(), &'static str>)
    ensures
        r is Ok <==> before <= after,
        after < before ==> r == Err::<(), &'static str>(
            "invariant: total_submissions must be monotonic non-decreasing",
        ),
{
    if after < before {
        return Err("invariant: total_submissions must be monotonic non-decreasing");
    }
    Ok(())
}

} // verus!
