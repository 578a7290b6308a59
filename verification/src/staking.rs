//! Share-based staking: deposits mint shares in proportion to the pool, and
//! shares are redeemed for their proportional part of the staked total.
use vstd::prelude::*;

use crate::ids::AccountId;
use crate::table::{lookup, pairs_map, Table, TableKey};

verus! {

/// Why a staking call was rejected.
#[derive(Copy, Clone, Debug, Eq, PartialEq, PartialOrd, Ord, Structural)]
pub enum StakingError {
    AlreadyInitialized,
    NotInitialized,
    InvalidAmount,
    ZeroShareMint,
    InsufficientShares,
    ZeroShares,
}

/// Key of a staker's position.
#[derive(Copy, Clone, Debug, Eq, PartialEq, Structural)]
pub enum DataKey {
    Position(AccountId),
}

impl TableKey for DataKey {
    fn same_key(&self, other: &Self) -> (r: bool) {
        match (self, other) {
            (DataKey::Position(a), DataKey::Position(b)) => *a == *b,
        }
    }
}

/// What one staker has deposited and the shares it holds.
#[derive(Copy, Clone, Debug, Eq, PartialEq, Structural)]
pub struct StakePosition {
    pub amount: i128,
    pub shares: i128,
}

/// Everything the staking contract stores.
pub struct StakingContract {
    admin: Option<AccountId>,
    token: Option<AccountId>,
    total_staked: i128,
    total_shares: i128,
    positions: Table<DataKey, StakePosition>,
}

/// The abstract state of the staking contract.
pub struct StakingModel {
    pub admin: Option<AccountId>,
    /// Token that is staked.
    pub token: Option<AccountId>,
    pub total_staked: i128,
    pub total_shares: i128,
    /// Positions under keys `Position(staker)`.
    pub positions: Map<DataKey, StakePosition>,
}

impl View for StakingContract {
    type V = StakingModel;

    closed spec fn view(&self) -> StakingModel {
        StakingModel {
            admin: self.admin,
            token: self.token,
            total_staked: self.total_staked,
            total_shares: self.total_shares,
            positions: self.positions@,
        }
    }
}

/// The staking contract's storage as plain values, to persist it between calls.
pub struct StakingSnapshot {
    pub admin: Option<AccountId>,
    pub token: Option<AccountId>,
    pub total_staked: i128,
    pub total_shares: i128,
    pub positions: Vec<(DataKey, StakePosition)>,
}

/// The staking contract a snapshot describes.
pub open spec fn snapshot_model(s: StakingSnapshot) -> StakingModel {
    StakingModel {
        admin: s.admin,
        token: s.token,
        total_staked: s.total_staked,
        total_shares: s.total_shares,
        positions: pairs_map(s.positions@),
    }
}

/// A freshly deployed staking contract.
pub open spec fn empty_staking() -> StakingModel {
    StakingModel {
        admin: None,
        token: None,
        total_staked: 0,
        total_shares: 0,
        positions: Map::empty(),
    }
}

/// Whether the admin and the token are recorded.
pub open spec fn is_initialized(m: StakingModel) -> bool {
    m.admin is Some && m.token is Some
}

/// `staker`'s position, zero when none is stored.
pub open spec fn position_of(m: StakingModel, staker: AccountId) -> StakePosition {
    match lookup(m.positions, DataKey::Position(staker)) {
        Some(p) => p,
        None => StakePosition { amount: 0, shares: 0 },
    }
}

/// The shares held over all positions of `positions` (0 for a map that is
/// not finite).
pub open spec fn shares_total(positions: Map<DataKey, StakePosition>) -> int
    decreases positions.dom().len(),
{
    if positions.dom().finite() && positions.dom().len() > 0 {
        let k = positions.dom().choose();
        positions[k].shares + shares_total(positions.remove(k))
    } else {
        0
    }
}

/// The share ledger balances: the positions are finitely many, their shares
/// add up to `total_shares`, and none is held before initialisation.
pub open spec fn shares_balanced(m: StakingModel) -> bool {
    &&& m.positions.dom().finite()
    &&& shares_total(m.positions) == m.total_shares
    &&& !is_initialized(m) ==> m.positions.dom().is_empty()
}

/// Shares minted for a deposit of `amount`: one per unit while the pool is
/// empty, otherwise `amount * total_shares / total_staked` rounded toward
/// zero; `None` when the computation overflows or divides by zero.
pub open spec fn shares_for_deposit(amount: i128, total_staked: i128, total_shares: i128) -> Option<
    i128,
> {
    if total_staked == 0 || total_shares == 0 {
        Some(amount)
    } else {
        match amount.checked_mul(total_shares) {
            Some(product) => product.checked_div(total_staked),
            None => None,
        }
    }
}

/// Tokens paid for redeeming `shares`: `shares * total_staked / total_shares`
/// rounded toward zero; `None` when the computation overflows or divides by
/// zero.
pub open spec fn amount_for_shares(shares: i128, total_staked: i128, total_shares: i128) -> Option<
    i128,
> {
    match shares.checked_mul(total_staked) {
        Some(product) => product.checked_div(total_shares),
        None => None,
    }
}

/// The error `stake` returns, if any.
pub open spec fn stake_rejection(m: StakingModel, amount: i128) -> Option<StakingError> {
    if !is_initialized(m) {
        Some(StakingError::NotInitialized)
    } else if amount <= 0 {
        Some(StakingError::InvalidAmount)
    } else {
        match shares_for_deposit(amount, m.total_staked, m.total_shares) {
            Some(minted) => if minted <= 0 {
                Some(StakingError::ZeroShareMint)
            } else {
                None
            },
            None => Some(StakingError::ZeroShareMint),
        }
    }
}

/// Whether an accepted `stake` would overflow the position or the totals
/// (the call then aborts).
pub open spec fn stake_overflows(m: StakingModel, staker: AccountId, amount: i128) -> bool {
    stake_rejection(m, amount) is None && {
        let minted = shares_for_deposit(amount, m.total_staked, m.total_shares).unwrap();
        ||| position_of(m, staker).amount + amount > i128::MAX
        ||| position_of(m, staker).amount + amount < i128::MIN
        ||| position_of(m, staker).shares + minted > i128::MAX
        ||| position_of(m, staker).shares + minted < i128::MIN
        ||| m.total_staked + amount > i128::MAX
        ||| m.total_staked + amount < i128::MIN
        ||| m.total_shares + minted > i128::MAX
        ||| m.total_shares + minted < i128::MIN
    }
}

/// Whether an accepted `unstake` would overflow the position or the totals
/// (the call then aborts).
pub open spec fn unstake_overflows(m: StakingModel, staker: AccountId, shares: i128) -> bool {
    unstake_rejection(m, staker, shares) is None && {
        let amount = amount_for_shares(shares, m.total_staked, m.total_shares).unwrap();
        ||| position_of(m, staker).amount - amount > i128::MAX
        ||| position_of(m, staker).amount - amount < i128::MIN
        ||| m.total_staked - amount > i128::MAX
        ||| m.total_staked - amount < i128::MIN
        ||| m.total_shares - shares < i128::MIN
    }
}

/// The staking contract after `staker` deposits `amount` for `minted` shares.
pub open spec fn after_stake(m: StakingModel, staker: AccountId, amount: i128, minted: i128) -> StakingModel {
    StakingModel {
        positions: m.positions.insert(
            DataKey::Position(staker),
            StakePosition {
                amount: (position_of(m, staker).amount + amount) as i128,
                shares: (position_of(m, staker).shares + minted) as i128,
            },
        ),
        total_staked: (m.total_staked + amount) as i128,
        total_shares: (m.total_shares + minted) as i128,
        ..m
    }
}

/// The error `unstake` returns, if any.
pub open spec fn unstake_rejection(m: StakingModel, staker: AccountId, shares: i128) -> Option<
    StakingError,
> {
    if !is_initialized(m) {
        Some(StakingError::NotInitialized)
    } else if shares <= 0 {
        Some(StakingError::ZeroShares)
    } else if position_of(m, staker).shares < shares {
        Some(StakingError::InsufficientShares)
    } else if amount_for_shares(shares, m.total_staked, m.total_shares) is None {
        Some(StakingError::InvalidAmount)
    } else {
        None
    }
}

/// The staking contract after `staker` redeems `shares` for `amount`; a
/// position left without shares is deleted.
pub open spec fn after_unstake(m: StakingModel, staker: AccountId, shares: i128, amount: i128) -> StakingModel {
    let p = position_of(m, staker);
    StakingModel {
        positions: if p.shares - shares == 0 {
            m.positions.remove(DataKey::Position(staker))
        } else {
            m.positions.insert(
                DataKey::Position(staker),
                StakePosition {
                    amount: (p.amount - amount) as i128,
                    shares: (p.shares - shares) as i128,
                },
            )
        },
        total_staked: (m.total_staked - amount) as i128,
        total_shares: (m.total_shares - shares) as i128,
        ..m
    }
}

fn checked_proportion(a: i128, b: i128, c: i128) -> (r: Option<i128>)
    ensures
        r == match a.checked_mul(b) {
            Some(product) => product.checked_div(c),
            None => None,
        },
{
    match a.checked_mul(b) {
        Some(product) => product.checked_div(c),
        None => None,
    }
}

impl StakingContract {
    /// A freshly deployed staking contract.
    pub fn new() -> (s: Self)
        ensures
            s@ == empty_staking(),
    {
        StakingContract {
            admin: None,
            token: None,
            total_staked: 0,
            total_shares: 0,
            positions: Table::new(),
        }
    }

    /// The stored state as plain values.
    pub fn snapshot(&self) -> (s: StakingSnapshot)
        ensures
            snapshot_model(s) == self@,
    {
        StakingSnapshot {
            admin: self.admin,
            token: self.token,
            total_staked: self.total_staked,
            total_shares: self.total_shares,
            positions: self.positions.to_entries(),
        }
    }

    /// The staking contract whose stored state is `s`.
    pub fn restore(s: &StakingSnapshot) -> (c: Self)
        ensures
            c@ == snapshot_model(*s),
    {
        StakingContract {
            admin: s.admin,
            token: s.token,
            total_staked: s.total_staked,
            total_shares: s.total_shares,
            positions: Table::from_entries(&s.positions),
        }
    }

    /// Records the admin and the staked token and zeroes the totals;
    /// accepted once.
    pub fn initialize(&mut self, admin: AccountId, token_contract: AccountId) -> (r: Result<
        (),
        StakingError,
    >)
        ensures
            old(self)@.admin is Some ==> r == Err::<(), StakingError>(
                StakingError::AlreadyInitialized,
            ) && final(self)@ == old(self)@,
            old(self)@.admin is None ==> r == Ok::<(), StakingError>(()) && final(self)@ == (
            StakingModel {
                admin: Some(admin),
                token: Some(token_contract),
                total_staked: 0,
                total_shares: 0,
                ..old(self)@
            }),
    {
        if self.admin.is_some() {
            return Err(StakingError::AlreadyInitialized);
        }
        self.admin = Some(admin);
        self.token = Some(token_contract);
        self.total_staked = 0;
        self.total_shares = 0;
        Ok(())
    }

    /// Deposits `amount` for `staker` and returns the shares minted for it;
    /// the tokens move from the staker to the contract outside this call.
    pub fn stake(&mut self, staker: AccountId, amount: i128) -> (r: Result<i128, StakingError>)
        requires
            !stake_overflows(old(self)@, staker, amount),
        ensures
            match stake_rejection(old(self)@, amount) {
                Some(e) => r == Err::<i128, StakingError>(e) && final(self)@ == old(self)@,
                None => {
                    let minted = shares_for_deposit(
                        amount,
                        old(self)@.total_staked,
                        old(self)@.total_shares,
                    ).unwrap();
                    r == Ok::<i128, StakingError>(minted) && final(self)@ == after_stake(
                        old(self)@,
                        staker,
                        amount,
                        minted,
                    )
                },
            },
            r matches Ok(minted) ==> {
                &&& final(self)@.total_staked == old(self)@.total_staked + amount
                &&& final(self)@.total_shares == old(self)@.total_shares + minted
                &&& position_of(final(self)@, staker).amount == position_of(old(self)@, staker).amount
                    + amount
                &&& position_of(final(self)@, staker).shares == position_of(old(self)@, staker).shares
                    + minted
                &&& old(self)@.total_staked == 0 || old(self)@.total_shares == 0 ==> minted
                    == amount
                &&& old(self)@.total_staked > 0 && old(self)@.total_shares > 0 ==> minted == amount
                    * old(self)@.total_shares / (old(self)@.total_staked as int)
            },
            is_initialized(old(self)@) && amount > 0 && (old(self)@.total_staked == 0
                || old(self)@.total_shares == 0 || (old(self)@.total_staked > 0
                && old(self)@.total_shares > 0 && amount * old(self)@.total_shares <= i128::MAX
                && amount * old(self)@.total_shares >= old(self)@.total_staked)) ==> r is Ok,
    {
        proof {
            let m = old(self)@;
            if amount > 0 && m.total_staked > 0 && m.total_shares > 0 && amount * m.total_shares
                <= i128::MAX {
                crate::staking_laws::law_deposit_mints_proportional_shares(
                    amount,
                    m.total_staked,
                    m.total_shares,
                );
                if amount * m.total_shares >= m.total_staked {
                    let owed = amount * m.total_shares;
                    let d = m.total_staked as int;
                    assert(owed / d >= 1) by (nonlinear_arith)
                        requires
                            owed >= d,
                            d > 0,
                    ;
                }
            }
        }
        if self.admin.is_none() || self.token.is_none() {
            return Err(StakingError::NotInitialized);
        }
        if amount <= 0 {
            return Err(StakingError::InvalidAmount);
        }
        let total_staked = self.total_staked;
        let total_shares = self.total_shares;
        let minted_shares = if total_staked == 0 || total_shares == 0 {
            amount
        } else {
            match checked_proportion(amount, total_shares, total_staked) {
                Some(m) => m,
                None => return Err(StakingError::ZeroShareMint),
            }
        };
        if minted_shares <= 0 {
            return Err(StakingError::ZeroShareMint);
        }
        let existing = match self.positions.get(DataKey::Position(staker)) {
            Some(p) => p,
            None => StakePosition { amount: 0, shares: 0 },
        };
        let updated = StakePosition {
            amount: existing.amount + amount,
            shares: existing.shares + minted_shares,
        };
        self.positions.insert(DataKey::Position(staker), updated);
        self.total_staked = total_staked + amount;
        self.total_shares = total_shares + minted_shares;
        assert(lookup(self@.positions, DataKey::Position(staker)) == Some(updated));
        Ok(minted_shares)
    }

    /// Redeems `shares` of `staker` and returns the tokens paid for them; the
    /// tokens move from the contract to the staker outside this call.
    pub fn unstake(&mut self, staker: AccountId, shares: i128) -> (r: Result<i128, StakingError>)
        requires
            !unstake_overflows(old(self)@, staker, shares),
        ensures
            match unstake_rejection(old(self)@, staker, shares) {
                Some(e) => r == Err::<i128, StakingError>(e) && final(self)@ == old(self)@,
                None => {
                    let amount = amount_for_shares(
                        shares,
                        old(self)@.total_staked,
                        old(self)@.total_shares,
                    ).unwrap();
                    r == Ok::<i128, StakingError>(amount) && final(self)@ == after_unstake(
                        old(self)@,
                        staker,
                        shares,
                        amount,
                    )
                },
            },
            r matches Ok(paid) ==> {
                &&& final(self)@.total_staked == old(self)@.total_staked - paid
                &&& final(self)@.total_shares == old(self)@.total_shares - shares
                &&& position_of(final(self)@, staker).shares == position_of(old(self)@, staker).shares
                    - shares
                &&& position_of(old(self)@, staker).shares != shares ==> position_of(
                    final(self)@,
                    staker,
                ).amount == position_of(old(self)@, staker).amount - paid
                &&& old(self)@.total_staked >= 0 && old(self)@.total_shares > 0 ==> paid == shares
                    * old(self)@.total_staked / (old(self)@.total_shares as int)
            },
            is_initialized(old(self)@) && shares > 0 && position_of(old(self)@, staker).shares
                >= shares && old(self)@.total_staked >= 0 && old(self)@.total_shares > 0 && shares
                * old(self)@.total_staked <= i128::MAX ==> r is Ok,
    {
        proof {
            let m = old(self)@;
            if shares > 0 && m.total_staked >= 0 && m.total_shares > 0 && shares * m.total_staked
                <= i128::MAX {
                crate::staking_laws::law_redemption_pays_proportional_amount(
                    shares,
                    m.total_staked,
                    m.total_shares,
                );
            }
        }
        if self.admin.is_none() || self.token.is_none() {
            return Err(StakingError::NotInitialized);
        }
        if shares <= 0 {
            return Err(StakingError::ZeroShares);
        }
        let position = match self.positions.get(DataKey::Position(staker)) {
            Some(p) => p,
            None => StakePosition { amount: 0, shares: 0 },
        };
        if position.shares < shares {
            return Err(StakingError::InsufficientShares);
        }
        let total_staked = self.total_staked;
        let total_shares = self.total_shares;
        let amount = match checked_proportion(shares, total_staked, total_shares) {
            Some(a) => a,
            None => return Err(StakingError::InvalidAmount),
        };
        let new_shares = position.shares - shares;
        let new_amount = position.amount - amount;
        if new_shares == 0 {
            self.positions.remove(DataKey::Position(staker));
            assert(!self@.positions.dom().contains(DataKey::Position(staker)));
        } else {
            self.positions.insert(
                DataKey::Position(staker),
                StakePosition { amount: new_amount, shares: new_shares },
            );
            assert(self@.positions.dom().contains(DataKey::Position(staker)));
        }
        self.total_staked = total_staked - amount;
        self.total_shares = total_shares - shares;
        Ok(amount)
    }

    /// `stake`, or `None` (nothing changed) where `stake` would overflow and
    /// abort.
    pub fn checked_stake(&mut self, staker: AccountId, amount: i128) -> (r: Option<
        Result<i128, StakingError>,
    >)
        ensures
            stake_overflows(old(self)@, staker, amount) ==> r is None && final(self)@ == old(self)@,
            !stake_overflows(old(self)@, staker, amount) ==> (r matches Some(res) && match stake_rejection(old(self)@, amount) {
                Some(e) => res == Err::<i128, StakingError>(e) && final(self)@ == old(self)@,
                None => {
                    let minted = shares_for_deposit(
                        amount,
                        old(self)@.total_staked,
                        old(self)@.total_shares,
                    ).unwrap();
                    res == Ok::<i128, StakingError>(minted) && final(self)@ == after_stake(
                        old(self)@,
                        staker,
                        amount,
                        minted,
                    )
                },
            }),
    {
        if self.admin.is_some() && self.token.is_some() && amount > 0 {
            let minted = if self.total_staked == 0 || self.total_shares == 0 {
                Some(amount)
            } else {
                checked_proportion(amount, self.total_shares, self.total_staked)
            };
            match minted {
                Some(minted) => {
                    if minted > 0 {
                        let p = self.get_position(staker);
                        if p.amount.checked_add(amount).is_none() || p.shares.checked_add(
                            minted,
                        ).is_none() || self.total_staked.checked_add(amount).is_none()
                            || self.total_shares.checked_add(minted).is_none() {
                            return None;
                        }
                    }
                },
                None => {},
            }
        }
        Some(self.stake(staker, amount))
    }

    /// `unstake`, or `None` (nothing changed) where `unstake` would overflow
    /// and abort.
    pub fn checked_unstake(&mut self, staker: AccountId, shares: i128) -> (r: Option<
        Result<i128, StakingError>,
    >)
        ensures
            unstake_overflows(old(self)@, staker, shares) ==> r is None && final(self)@ == old(self)@,
            !unstake_overflows(old(self)@, staker, shares) ==> (r matches Some(res) && match unstake_rejection(old(self)@, staker, shares) {
                Some(e) => res == Err::<i128, StakingError>(e) && final(self)@ == old(self)@,
                None => {
                    let amount = amount_for_shares(
                        shares,
                        old(self)@.total_staked,
                        old(self)@.total_shares,
                    ).unwrap();
                    res == Ok::<i128, StakingError>(amount) && final(self)@ == after_unstake(
                        old(self)@,
                        staker,
                        shares,
                        amount,
                    )
                },
            }),
    {
        if self.admin.is_some() && self.token.is_some() && shares > 0 {
            let p = self.get_position(staker);
            if p.shares >= shares {
                match checked_proportion(shares, self.total_staked, self.total_shares) {
                    Some(amount) => {
                        if p.amount.checked_sub(amount).is_none() || self.total_staked.checked_sub(
                            amount,
                        ).is_none() || self.total_shares.checked_sub(shares).is_none() {
                            return None;
                        }
                    },
                    None => {},
                }
            }
        }
        Some(self.unstake(staker, shares))
    }

    /// `staker`'s position (zero when none is stored).
    pub fn get_position(&self, staker: AccountId) -> (r: StakePosition)
        ensures
            r == position_of(self@, staker),
    {
        match self.positions.get(DataKey::Position(staker)) {
            Some(p) => p,
            None => StakePosition { amount: 0, shares: 0 },
        }
    }

    /// Total tokens staked.
    pub fn total_staked(&self) -> (r: Result<i128, StakingError>)
        ensures
            r == if is_initialized(self@) {
                Ok::<i128, StakingError>(self@.total_staked)
            } else {
                Err(StakingError::NotInitialized)
            },
    {
        if self.admin.is_none() || self.token.is_none() {
            return Err(StakingError::NotInitialized);
        }
        Ok(self.total_staked)
    }

    /// Total shares outstanding.
    pub fn total_shares(&self) -> (r: Result<i128, StakingError>)
        ensures
            r == if is_initialized(self@) {
                Ok::<i128, StakingError>(self@.total_shares)
            } else {
                Err(StakingError::NotInitialized)
            },
    {
        if self.admin.is_none() || self.token.is_none() {
            return Err(StakingError::NotInitialized);
        }
        Ok(self.total_shares)
    }

    /// The staked token.
    pub fn token(&self) -> (r: Result<AccountId, StakingError>)
        ensures
            r == if is_initialized(self@) {
                Ok::<AccountId, StakingError>(self@.token.unwrap())
            } else {
                Err(StakingError::NotInitialized)
            },
    {
        if self.admin.is_none() || self.token.is_none() {
            return Err(StakingError::NotInitialized);
        }
        Ok(self.token.unwrap())
    }
}

} // verus!
