//! Properties of the payout contract that span several calls.
use vstd::prelude::*;

use crate::ids::{AccountId, SymbolId};
use crate::payout::{
    prize_dust, prize_rejection, prize_share, prize_split, winnings_rejection, DataKey, Payment,
    PayoutData, PayoutError, PayoutModel,
};
use crate::table::lookup;

verus! {

/// The sum of the amounts of a list of transfers.
pub open spec fn total_paid(payments: Seq<Payment>) -> int
    decreases payments.len(),
{
    if payments.len() == 0 {
        0
    } else {
        total_paid(payments.drop_last()) + payments.last().amount
    }
}

/// Transfers of equal amounts add up to their number times the amount.
pub proof fn lemma_total_of_equal_amounts(payments: Seq<Payment>, amount: i128)
    requires
        forall|i: int| 0 <= i < payments.len() ==> #[trigger] payments[i].amount == amount,
    ensures
        total_paid(payments) == payments.len() * amount,
    decreases payments.len(),
{
    if payments.len() > 0 {
        let rest = payments.drop_last();
        assert forall|i: int| 0 <= i < rest.len() implies #[trigger] rest[i].amount == amount by {
            assert(rest[i] == payments[i]);
        }
        lemma_total_of_equal_amounts(rest, amount);
        let n = payments.len() as int;
        assert((n - 1) * amount + amount == n * amount) by (nonlinear_arith);
    }
}

/// A prize split pays out exactly the prize: every winner receives the same
/// share, the shares are the largest that fit, and the treasury receives
/// what is left, which is less than one share per winner.
pub proof fn law_prize_split_conserves_total(
    total_prize: i128,
    winners: Seq<AccountId>,
    treasury: AccountId,
    token: AccountId,
)
    requires
        total_prize > 0,
        winners.len() > 0,
    ensures
        total_paid(prize_split(total_prize, winners, treasury, token)) == total_prize,
        forall|i: int|
            0 <= i < winners.len() ==> #[trigger] prize_split(total_prize, winners, treasury, token)[i]
                == (Payment {
                to: winners[i],
                token,
                amount: prize_share(total_prize as int, winners.len()) as i128,
            }),
        0 <= prize_dust(total_prize as int, winners.len()) < winners.len(),
        winners.len() * prize_share(total_prize as int, winners.len()) + prize_dust(
            total_prize as int,
            winners.len(),
        ) == total_prize,
{
    let n = winners.len() as int;
    let total = total_prize as int;
    let share = prize_share(total, winners.len());
    let dust = prize_dust(total, winners.len());
    vstd::arithmetic::div_mod::lemma_fundamental_div_mod(total, n);
    assert(0 <= share <= total) by (nonlinear_arith)
        requires
            share == total / n,
            n >= 1,
            total >= 0,
    ;
    let shares = Seq::new(
        winners.len(),
        |i: int| Payment { token, to: winners[i], amount: share as i128 },
    );
    lemma_total_of_equal_amounts(shares, share as i128);
    let split = prize_split(total_prize, winners, treasury, token);
    if dust > 0 {
        assert(split.drop_last() =~= shares);
    } else {
        assert(split =~= shares);
    }
}

/// A game's prize is distributed at most once: after a distribution the game
/// is marked, and any later distribution of it is refused.
pub proof fn law_prize_distributed_once(
    m: PayoutModel,
    game_id: u32,
    total_prize: i128,
    winners: Seq<AccountId>,
    later_total: i128,
    later_winners: Seq<AccountId>,
)
    requires
        !m.paused,
        prize_rejection(m, game_id, total_prize, winners) is None,
    ensures
        ({
            let after = PayoutModel {
                prize_payouts: m.prize_payouts.insert(DataKey::PrizePayout(game_id)),
                ..m
            };
            &&& after.prize_payouts.contains(DataKey::PrizePayout(game_id))
            &&& prize_rejection(after, game_id, later_total, later_winners) == Some(
                PayoutError::AlreadyPaid,
            )
        }),
{
}

/// A payout key is paid at most once, and the record read back is the one
/// written; payouts under other keys are unaffected.
pub proof fn law_winnings_paid_once(
    m: PayoutModel,
    ctx: SymbolId,
    pool_id: u32,
    round_id: u32,
    winner: AccountId,
    amount: i128,
    currency: SymbolId,
    later_amount: i128,
    other_round: u32,
)
    requires
        winnings_rejection(m, ctx, pool_id, round_id, winner, amount) is None,
        later_amount > 0,
        other_round != round_id,
    ensures
        ({
            let record = PayoutData { winner, amount, currency, paid: true };
            let after = PayoutModel {
                payouts: m.payouts.insert(DataKey::Payout(ctx, pool_id, round_id, winner), record),
                ..m
            };
            &&& lookup(after.payouts, DataKey::Payout(ctx, pool_id, round_id, winner)) == Some(
                record,
            )
            &&& winnings_rejection(after, ctx, pool_id, round_id, winner, later_amount) == Some(
                PayoutError::AlreadyPaid,
            )
            &&& winnings_rejection(after, ctx, pool_id, other_round, winner, later_amount)
                == winnings_rejection(m, ctx, pool_id, other_round, winner, later_amount)
        }),
{
}

/// While paused, no payout is made.
pub proof fn law_pause_blocks_payouts(
    m: PayoutModel,
    ctx: SymbolId,
    pool_id: u32,
    round_id: u32,
    winner: AccountId,
    amount: i128,
    game_id: u32,
    total_prize: i128,
    winners: Seq<AccountId>,
)
    requires
        m.paused,
    ensures
        winnings_rejection(m, ctx, pool_id, round_id, winner, amount) == Some(PayoutError::Paused),
        prize_rejection(m, game_id, total_prize, winners) == Some(PayoutError::Paused),
{
}

} // verus!
