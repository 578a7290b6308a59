//! Properties of the arena that span several calls.
use vstd::prelude::*;

use crate::arena::{
    after_claim, after_init, after_join, after_resolve, after_start_round, after_submit,
    after_timeout, arena_invariant, arena_state_of, claim_rejection, designated_winner,
    effective_capacity, init_rejection, join_rejection, picked, resolve_rejection,
    round_winner, set_winner_rejection, start_round_rejection, submit_rejection,
    survivors_after, timeout_rejection, user_state_of, votes, ArenaError, ArenaModel, Choice,
    SubmissionKey,
};
use crate::ids::{AccountId, WasmHash};
use crate::invariants::{round_flags_coherent, round_number_step, timeout_step};
use crate::table::lookup;

verus! {

/// Starting a round advances the round number by exactly one, opens a
/// coherent round whose deadline is the start ledger plus the round speed,
/// and resets the submission counter.
pub proof fn law_start_round_advances(m: ArenaModel, ledger_sequence: u32)
    requires
        arena_invariant(m),
        start_round_rejection(m, ledger_sequence) is None,
        m.round.unwrap().round_number < u32::MAX,
    ensures
        ({
            let next = after_start_round(m, ledger_sequence).round.unwrap();
            &&& round_number_step(m.round.unwrap().round_number, next.round_number)
            &&& next.round_number == m.round.unwrap().round_number + 1
            &&& round_flags_coherent(next)
            &&& next.active
            &&& next.round_start_ledger == ledger_sequence
            &&& next.round_deadline_ledger == ledger_sequence
                + m.config.unwrap().round_speed_in_ledgers
            &&& next.total_submissions == 0
        }),
{
}

/// A timeout keeps the round number, deactivates the round and marks it
/// timed out, and is accepted exactly when the ledger is strictly past the
/// deadline of an active round (in an unpaused, initialised arena).
pub proof fn law_timeout_only_after_deadline(m: ArenaModel, ledger_sequence: u32)
    requires
        !m.paused,
        m.round is Some,
        m.round.unwrap().active,
    ensures
        timeout_rejection(m, ledger_sequence) is None <==> ledger_sequence
            > m.round.unwrap().round_deadline_ledger,
        timeout_rejection(m, ledger_sequence) is None ==> timeout_step(
            m.round.unwrap(),
            after_timeout(m).round.unwrap(),
        ) && round_flags_coherent(after_timeout(m).round.unwrap()),
{
}

/// A player's second choice for the same round is refused while the
/// submission window is open, and the first choice stays recorded.
pub proof fn law_no_double_submission(
    m: ArenaModel,
    player: AccountId,
    round_number: u32,
    choice: Choice,
    ledger_sequence: u32,
    later_sequence: u32,
)
    requires
        submit_rejection(m, player, round_number, ledger_sequence) is None,
        later_sequence <= m.round.unwrap().round_deadline_ledger,
    ensures
        submit_rejection(after_submit(m, player, round_number, choice), player, round_number, later_sequence)
            == Some(ArenaError::SubmissionAlreadyExists),
{
}

/// The choice read back for a round is the one submitted for it.
pub proof fn law_choice_read_after_write(
    m: ArenaModel,
    player: AccountId,
    round_number: u32,
    choice: Choice,
    ledger_sequence: u32,
)
    requires
        submit_rejection(m, player, round_number, ledger_sequence) is None,
    ensures
        lookup(
            after_submit(m, player, round_number, choice).submissions,
            SubmissionKey { round_number, player },
        ) == Some(choice),
        after_submit(m, player, round_number, choice).round.unwrap().total_submissions
            == m.round.unwrap().total_submissions + 1,
{
}

/// Once configured, an arena refuses every further `init` and stays as it is.
pub proof fn law_init_once(
    m: ArenaModel,
    round_speed: u32,
    required_stake: i128,
    later_speed: u32,
    later_stake: i128,
)
    requires
        init_rejection(m, round_speed, required_stake) is None,
    ensures
        init_rejection(after_init(m, round_speed, required_stake), later_speed, later_stake)
            == Some(ArenaError::AlreadyInitialized),
{
}

/// While paused, every game function is refused with `Paused`; the upgrade
/// and pause controls carry no such condition.
pub proof fn law_pause_blocks_game_functions(
    m: ArenaModel,
    player: AccountId,
    amount: i128,
    round_number: u32,
    ledger_sequence: u32,
    stake: i128,
    yield_comp: i128,
)
    requires
        m.paused,
    ensures
        join_rejection(m, player, amount) == Some(ArenaError::Paused),
        start_round_rejection(m, ledger_sequence) == Some(ArenaError::Paused),
        submit_rejection(m, player, round_number, ledger_sequence) == Some(ArenaError::Paused),
        timeout_rejection(m, ledger_sequence) == Some(ArenaError::Paused),
        resolve_rejection(m, ledger_sequence) == Some(ArenaError::Paused),
        claim_rejection(m, player) == Some(ArenaError::Paused),
        set_winner_rejection(m, player, stake, yield_comp) == Some(ArenaError::Paused),
{
}

/// A joined player paid the required stake and is reported active, and the
/// players in the game never exceed the arena's effective capacity nor its
/// participant cap.
pub proof fn law_join_respects_capacity(m: ArenaModel, player: AccountId, amount: i128)
    requires
        join_rejection(m, player, amount) is None,
    ensures
        amount == m.required_stake,
        after_join(m, player, amount).survivors.len() <= effective_capacity(m),
        after_join(m, player, amount).survivors.len() <= m.bounds.max_participants,
        user_state_of(after_join(m, player, amount), player).is_active,
        join_rejection(after_join(m, player, amount), player, amount) == Some(
            ArenaError::AlreadyJoined,
        ),
{
    let after = after_join(m, player, amount);
    assert(after.survivors[m.survivors.len() as int] == player);
}

/// The prize pool is paid out once, and only to the player entitled to it
/// in a finished game: after a claim the winner is reported as having won,
/// the pool is empty, the round is finished, any later claim is refused, and
/// the winner who claims again is told that the prize was already claimed.
pub proof fn law_claim_once(m: ArenaModel, winner: AccountId, other: AccountId)
    requires
        claim_rejection(m, winner) is None,
    ensures
        m.game_finished,
        designated_winner(m) == Some(winner),
        other != winner ==> claim_rejection(m, other) is Some,
        ({
            let done = ArenaModel { claim_locked: false, ..after_claim(m, winner) };
            &&& user_state_of(done, winner).has_won
            &&& lookup(done.prize_claimed, winner) == Some(m.prize_pool)
            &&& arena_state_of(done).current_stake == 0
            &&& done.round matches Some(r) ==> r.finished
            &&& claim_rejection(done, other) is Some
            &&& claim_rejection(done, winner) == Some(ArenaError::AlreadyClaimed)
            &&& claim_rejection(after_claim(m, winner), other) is Some
        }),
{
}

/// Minority wins: resolving a round keeps exactly the survivors on the
/// winning side, which is the side fewer survivors chose when both sides were
/// chosen and their counts differ; every survivor on the other side (or who
/// made no choice) is eliminated, and an eliminated player's choice in a
/// later round is refused with `PlayerEliminated`. The game finishes when at
/// most one survivor is left.
pub proof fn law_minority_survives(
    m: ArenaModel,
    ledger_sequence: u32,
    random: u64,
    player: AccountId,
    later_round: u32,
    later_sequence: u32,
)
    requires
        resolve_rejection(m, ledger_sequence) is None,
        m.survivors.contains(player),
    ensures
        votes(m, Choice::Heads) > 0 && votes(m, Choice::Tails) > votes(m, Choice::Heads)
            ==> round_winner(m, random) == Some(Choice::Heads),
        votes(m, Choice::Tails) > 0 && votes(m, Choice::Heads) > votes(m, Choice::Tails)
            ==> round_winner(m, random) == Some(Choice::Tails),
        round_winner(m, random) matches Some(side) ==> {
            &&& survivors_after(m, random).len() == votes(m, side)
            &&& (survivors_after(m, random).contains(player) <==> picked(m, side)(player))
            &&& !picked(m, side)(player) ==> {
                let after = after_resolve(m, random);
                &&& !user_state_of(after, player).is_active
                &&& !after.paused && after.round is Some && after.round.unwrap().active
                    && later_round == after.round.unwrap().round_number && later_sequence
                    <= after.round.unwrap().round_deadline_ledger ==> submit_rejection(
                    after,
                    player,
                    later_round,
                    later_sequence,
                ) == Some(ArenaError::PlayerEliminated)
            }
        },
        round_winner(m, random) is None ==> survivors_after(m, random) == m.survivors,
        after_resolve(m, random).game_finished <==> (m.game_finished || survivors_after(
            m,
            random,
        ).len() <= 1),
{
    broadcast use vstd::seq_lib::group_filter_ensures;
    match round_winner(m, random) {
        Some(side) => {
            let kept = m.survivors.filter(picked(m, side));
            let dropped = m.survivors.filter(crate::arena::not_picked(m, side));
            let i = choose|i: int| 0 <= i < m.survivors.len() && m.survivors[i] == player;
            if picked(m, side)(player) {
                assert(kept.contains(m.survivors[i]));
            } else {
                assert(dropped.contains(m.survivors[i]));
                let after = after_resolve(m, random);
                assert(after.eliminated =~= m.eliminated + dropped);
                let j = choose|j: int| 0 <= j < dropped.len() && dropped[j] == player;
                assert(after.eliminated[m.eliminated.len() + j] == player);
                assert(!kept.contains(player)) by {
                    if kept.contains(player) {
                        let k = choose|k: int| 0 <= k < kept.len() && kept[k] == player;
                        assert(picked(m, side)(kept[k]));
                    }
                }
            }
            if kept.contains(player) {
                let k = choose|k: int| 0 <= k < kept.len() && kept[k] == player;
                assert(picked(m, side)(kept[k]));
            }
        },
        None => {},
    }
}

/// The calls that touch neither the round nor the joins keep the arena
/// invariant.
pub proof fn law_invariant_kept_by_administration(
    m: ArenaModel,
    admin: AccountId,
    token: AccountId,
    capacity: u32,
    winner: AccountId,
    hash: WasmHash,
    execute_after: u64,
    paused: bool,
)
    requires
        arena_invariant(m),
    ensures
        arena_invariant(ArenaModel { admin: Some(admin), ..m }),
        arena_invariant(ArenaModel { paused, ..m }),
        arena_invariant(ArenaModel { token: Some(token), ..m }),
        arena_invariant(ArenaModel { capacity, ..m }),
        claim_rejection(m, winner) is None ==> arena_invariant(after_claim(m, winner)),
        arena_invariant(ArenaModel { claim_locked: false, ..m }),
        arena_invariant(ArenaModel { pending_upgrade: Some((hash, execute_after)), ..m }),
        arena_invariant(ArenaModel { pending_upgrade: None, ..m }),
{
}

} // verus!
