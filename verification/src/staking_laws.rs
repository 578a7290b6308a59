//! Properties of share-based staking that span several calls.
use vstd::prelude::*;

use crate::ids::AccountId;
use crate::staking::{
    after_stake, after_unstake, amount_for_shares, empty_staking, is_initialized, position_of,
    shares_balanced, shares_for_deposit, shares_total, stake_overflows, stake_rejection,
    unstake_overflows, unstake_rejection, DataKey, StakePosition, StakingModel,
};
use crate::table::lookup;

verus! {

/// While the pool is empty, a deposit mints exactly one share per token.
pub proof fn law_first_deposit_one_to_one(amount: i128, total_staked: i128, total_shares: i128)
    requires
        total_staked == 0 || total_shares == 0,
    ensures
        shares_for_deposit(amount, total_staked, total_shares) == Some(amount),
{
}

/// A deposit never mints more than its proportional part of the shares and
/// misses it by less than one share: with positive totals,
/// `minted * total_staked <= amount * total_shares < (minted + 1) * total_staked`.
pub proof fn law_deposit_rounds_down(amount: i128, total_staked: i128, total_shares: i128)
    requires
        amount > 0,
        total_staked > 0,
        total_shares > 0,
        shares_for_deposit(amount, total_staked, total_shares) is Some,
    ensures
        ({
            let minted = shares_for_deposit(amount, total_staked, total_shares).unwrap() as int;
            let owed = amount as int * total_shares as int;
            &&& minted * total_staked <= owed
            &&& owed < (minted + 1) * total_staked
        }),
{
    let owed = amount as int * total_shares as int;
    let d = total_staked as int;
    assert(owed > 0) by (nonlinear_arith)
        requires
            amount > 0,
            total_shares > 0,
            owed == amount as int * total_shares as int,
    ;
    let q = owed / d;
    vstd::arithmetic::div_mod::lemma_fundamental_div_mod(owed, d);
    assert(q * d <= owed < (q + 1) * d) by (nonlinear_arith)
        requires
            owed == d * q + owed % d,
            0 <= owed % d < d,
    ;
}

/// Redeeming shares never pays more than their proportional part of the
/// staked total: with positive totals and holdings,
/// `paid * total_shares <= shares * total_staked`.
pub proof fn law_redemption_rounds_down(shares: i128, total_staked: i128, total_shares: i128)
    requires
        shares > 0,
        total_staked > 0,
        total_shares > 0,
        amount_for_shares(shares, total_staked, total_shares) is Some,
    ensures
        ({
            let paid = amount_for_shares(shares, total_staked, total_shares).unwrap() as int;
            &&& 0 <= paid
            &&& paid * total_shares <= shares as int * total_staked as int
        }),
{
    let owed = shares as int * total_staked as int;
    let d = total_shares as int;
    assert(owed > 0) by (nonlinear_arith)
        requires
            shares > 0,
            total_staked > 0,
            owed == shares as int * total_staked as int,
    ;
    let q = owed / d;
    vstd::arithmetic::div_mod::lemma_fundamental_div_mod(owed, d);
    assert(0 <= q && q * d <= owed) by (nonlinear_arith)
        requires
            owed == d * q + owed % d,
            0 <= owed % d < d,
            owed > 0,
            d > 0,
    ;
}

/// In an empty pool, staking `amount` and then redeeming all the minted
/// shares returns exactly `amount` and restores the contract to its prior
/// state.
pub proof fn law_stake_then_unstake_all(m: StakingModel, staker: AccountId, amount: i128)
    requires
        is_initialized(m),
        m.total_staked == 0,
        m.total_shares == 0,
        lookup(m.positions, DataKey::Position(staker)) is None,
        amount > 0,
        amount as int * amount as int <= i128::MAX,
    ensures
        stake_rejection(m, amount) is None,
        shares_for_deposit(amount, m.total_staked, m.total_shares) == Some(amount),
        ({
            let staked = after_stake(m, staker, amount, amount);
            &&& position_of(staked, staker).shares == amount
            &&& unstake_rejection(staked, staker, amount) is None
            &&& amount_for_shares(amount, staked.total_staked, staked.total_shares) == Some(amount)
            &&& after_unstake(staked, staker, amount, amount) == m
        }),
{
    let staked = after_stake(m, staker, amount, amount);
    assert(staked.total_staked == amount && staked.total_shares == amount);
    let sq = amount as int * amount as int;
    assert(sq / amount as int == amount) by (nonlinear_arith)
        requires
            sq == amount as int * amount as int,
            amount > 0,
    ;
    assert(sq > 0) by (nonlinear_arith)
        requires
            sq == amount as int * amount as int,
            amount > 0,
    ;
    let back = after_unstake(staked, staker, amount, amount);
    assert(back.positions =~= m.positions);
}

/// The shares of a finite set of positions add up to those of any one
/// position plus those of all the others.
pub proof fn lemma_shares_total_remove(positions: Map<DataKey, StakePosition>, k: DataKey)
    requires
        positions.dom().finite(),
        positions.dom().contains(k),
    ensures
        shares_total(positions) == positions[k].shares + shares_total(positions.remove(k)),
    decreases positions.dom().len(),
{
    let c = positions.dom().choose();
    if c != k {
        lemma_shares_total_remove(positions.remove(c), k);
        lemma_shares_total_remove(positions.remove(k), c);
        assert(positions.remove(c).remove(k) =~= positions.remove(k).remove(c));
    }
}

/// Storing a position replaces the shares of the one it overwrites.
pub proof fn lemma_shares_total_insert(
    positions: Map<DataKey, StakePosition>,
    k: DataKey,
    p: StakePosition,
)
    requires
        positions.dom().finite(),
    ensures
        positions.insert(k, p).dom().finite(),
        shares_total(positions.insert(k, p)) == shares_total(positions) - match lookup(positions, k) {
            Some(old) => old.shares as int,
            None => 0int,
        } + p.shares,
{
    let after = positions.insert(k, p);
    lemma_shares_total_remove(after, k);
    if positions.dom().contains(k) {
        lemma_shares_total_remove(positions, k);
        assert(after.remove(k) =~= positions.remove(k));
    } else {
        assert(after.remove(k) =~= positions);
    }
}

/// The shares held over all positions always add up to `total_shares`: a
/// fresh contract balances, and initialising, staking and unstaking keep the
/// balance.
pub proof fn law_shares_stay_balanced(
    m: StakingModel,
    admin: AccountId,
    token: AccountId,
    staker: AccountId,
    amount: i128,
    shares: i128,
)
    requires
        shares_balanced(m),
    ensures
        shares_balanced(empty_staking()),
        !is_initialized(m) ==> shares_balanced(
            StakingModel {
                admin: Some(admin),
                token: Some(token),
                total_staked: 0,
                total_shares: 0,
                ..m
            },
        ),
        stake_rejection(m, amount) is None && !stake_overflows(m, staker, amount)
            ==> shares_balanced(
            after_stake(
                m,
                staker,
                amount,
                shares_for_deposit(amount, m.total_staked, m.total_shares).unwrap(),
            ),
        ),
        unstake_rejection(m, staker, shares) is None && !unstake_overflows(m, staker, shares)
            ==> shares_balanced(
            after_unstake(
                m,
                staker,
                shares,
                amount_for_shares(shares, m.total_staked, m.total_shares).unwrap(),
            ),
        ),
{
    assert(empty_staking().positions.dom() =~= Set::<DataKey>::empty());
    let key = DataKey::Position(staker);
    if stake_rejection(m, amount) is None && !stake_overflows(m, staker, amount) {
        let minted = shares_for_deposit(amount, m.total_staked, m.total_shares).unwrap();
        let p = position_of(m, staker);
        lemma_shares_total_insert(
            m.positions,
            key,
            StakePosition { amount: (p.amount + amount) as i128, shares: (p.shares + minted) as i128 },
        );
    }
    if unstake_rejection(m, staker, shares) is None && !unstake_overflows(m, staker, shares) {
        let paid = amount_for_shares(shares, m.total_staked, m.total_shares).unwrap();
        let p = position_of(m, staker);
        if p.shares - shares == 0 {
            if m.positions.dom().contains(key) {
                lemma_shares_total_remove(m.positions, key);
            } else {
                assert(m.positions.remove(key) =~= m.positions);
            }
        } else {
            lemma_shares_total_insert(
                m.positions,
                key,
                StakePosition { amount: (p.amount - paid) as i128, shares: (p.shares - shares) as i128 },
            );
        }
    }
}

/// Once the pool holds stake and shares, a deposit mints its proportional
/// part of the outstanding shares, rounded down, whenever the product fits
/// in `i128`: `amount * total_shares / total_staked`, never more than the
/// product itself.
pub proof fn law_deposit_mints_proportional_shares(
    amount: i128,
    total_staked: i128,
    total_shares: i128,
)
    requires
        amount > 0,
        total_staked > 0,
        total_shares > 0,
        amount * total_shares <= i128::MAX,
    ensures
        0 <= amount * total_shares / (total_staked as int) <= amount * total_shares,
        shares_for_deposit(amount, total_staked, total_shares) == Some(
            (amount * total_shares / (total_staked as int)) as i128,
        ),
{
    let owed = amount as int * total_shares as int;
    let d = total_staked as int;
    assert(owed > 0) by (nonlinear_arith)
        requires
            amount > 0,
            total_shares > 0,
            owed == amount as int * total_shares as int,
    ;
    assert(0 <= owed / d <= owed) by (nonlinear_arith)
        requires
            owed > 0,
            d > 0,
    ;
}

/// Shares are redeemed for their proportional part of the staked total,
/// rounded down, whenever the product fits in `i128`:
/// `shares * total_staked / total_shares`.
pub proof fn law_redemption_pays_proportional_amount(
    shares: i128,
    total_staked: i128,
    total_shares: i128,
)
    requires
        shares > 0,
        total_staked >= 0,
        total_shares > 0,
        shares * total_staked <= i128::MAX,
    ensures
        0 <= shares * total_staked / (total_shares as int) <= shares * total_staked,
        amount_for_shares(shares, total_staked, total_shares) == Some(
            (shares * total_staked / (total_shares as int)) as i128,
        ),
{
    let owed = shares as int * total_staked as int;
    let d = total_shares as int;
    assert(owed >= 0) by (nonlinear_arith)
        requires
            shares > 0,
            total_staked >= 0,
            owed == shares as int * total_staked as int,
    ;
    assert(0 <= owed / d <= owed) by (nonlinear_arith)
        requires
            owed >= 0,
            d > 0,
    ;
}

/// In a pool that holds stake and shares, every positive deposit whose share
/// computation fits in `i128` and mints at least one share is accepted, of
/// any size: the deposit adds exactly `amount` to the staked total and to the
/// staker's position, and `amount * total_shares / total_staked` new shares
/// to the share total and to the staker's position.
pub proof fn law_stake_credits_the_deposit(m: StakingModel, staker: AccountId, amount: i128)
    requires
        is_initialized(m),
        amount > 0,
        m.total_staked > 0,
        m.total_shares > 0,
        amount * m.total_shares <= i128::MAX,
        amount * m.total_shares >= m.total_staked,
        !stake_overflows(m, staker, amount),
    ensures
        stake_rejection(m, amount) is None,
        ({
            let minted = amount * m.total_shares / (m.total_staked as int);
            let after = after_stake(
                m,
                staker,
                amount,
                shares_for_deposit(amount, m.total_staked, m.total_shares).unwrap(),
            );
            &&& minted >= 1
            &&& after.total_staked == m.total_staked + amount
            &&& after.total_shares == m.total_shares + minted
            &&& position_of(after, staker).amount == position_of(m, staker).amount + amount
            &&& position_of(after, staker).shares == position_of(m, staker).shares + minted
        }),
{
    law_deposit_mints_proportional_shares(amount, m.total_staked, m.total_shares);
    let owed = amount * m.total_shares;
    let d = m.total_staked as int;
    assert(owed / d >= 1) by (nonlinear_arith)
        requires
            owed >= d,
            d > 0,
    ;
    let after = after_stake(m, staker, amount, (owed / d) as i128);
    assert(lookup(after.positions, DataKey::Position(staker)) is Some);
}

/// An accepted unstake pays out of the pool exactly what it takes off the
/// staked total, and retires exactly the redeemed shares: tokens held by the
/// contract are conserved. The staker's shares drop by `shares` (and a
/// position left with shares is charged the pay), and the pay
/// is `shares * total_staked / total_shares` whenever that product fits.
pub proof fn law_unstake_conserves_tokens(m: StakingModel, staker: AccountId, shares: i128)
    requires
        unstake_rejection(m, staker, shares) is None,
        !unstake_overflows(m, staker, shares),
    ensures
        ({
            let paid = amount_for_shares(shares, m.total_staked, m.total_shares).unwrap();
            let after = after_unstake(m, staker, shares, paid);
            &&& after.total_staked == m.total_staked - paid
            &&& after.total_shares == m.total_shares - shares
            &&& position_of(after, staker).shares == position_of(m, staker).shares - shares
            &&& position_of(m, staker).shares != shares ==> position_of(after, staker).amount
                == position_of(m, staker).amount - paid
            &&& m.total_staked >= 0 && m.total_shares > 0 && shares * m.total_staked <= i128::MAX
                ==> paid == shares * m.total_staked / (m.total_shares as int)
        }),
{
    let paid = amount_for_shares(shares, m.total_staked, m.total_shares).unwrap();
    let after = after_unstake(m, staker, shares, paid);
    let p = position_of(m, staker);
    if p.shares - shares != 0 {
        assert(lookup(after.positions, DataKey::Position(staker)) is Some);
    } else {
        assert(!after.positions.dom().contains(DataKey::Position(staker)));
    }
    if m.total_staked >= 0 && m.total_shares > 0 && shares * m.total_staked <= i128::MAX {
        law_redemption_pays_proportional_amount(shares, m.total_staked, m.total_shares);
    }
}

} // verus!
