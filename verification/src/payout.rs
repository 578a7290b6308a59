//! Prize payouts: single payouts recorded once per (context, pool, round,
//! winner), and even splits of a game's prize among its winners with the
//! indivisible remainder sent to the treasury.
use vstd::prelude::*;

use crate::ids::{AccountId, SymbolId};
use crate::table::{lookup, pairs_map, Table, TableKey};

verus! {

/// Why a payout call was rejected.
#[derive(Copy, Clone, Debug, Eq, PartialEq, PartialOrd, Ord, Structural)]
pub enum PayoutError {
    UnauthorizedCaller,
    InvalidAmount,
    AlreadyPaid,
    NoWinners,
    TreasuryNotSet,
    /// The contract is paused; write operations are disabled.
    Paused,
}

/// Keys under which payout records and currency tokens are stored.
#[derive(Copy, Clone, Debug, Eq, PartialEq, Structural)]
pub enum DataKey {
    CurrencyToken(SymbolId),
    Payout(SymbolId, u32, u32, AccountId),
    PrizePayout(u32),
}

impl TableKey for DataKey {
    fn same_key(&self, other: &Self) -> (r: bool) {
        match (self, other) {
            (DataKey::CurrencyToken(a), DataKey::CurrencyToken(b)) => *a == *b,
            (DataKey::Payout(c1, p1, r1, w1), DataKey::Payout(c2, p2, r2, w2)) => *c1 == *c2 && *p1
                == *p2 && *r1 == *r2 && *w1 == *w2,
            (DataKey::PrizePayout(a), DataKey::PrizePayout(b)) => *a == *b,
            _ => false,
        }
    }
}

/// Record of a processed payout.
#[derive(Copy, Clone, Debug, Eq, PartialEq, Structural)]
pub struct PayoutData {
    pub winner: AccountId,
    pub amount: i128,
    pub currency: SymbolId,
    pub paid: bool,
}

/// A token transfer from the payout contract to `to`.
#[derive(Copy, Clone, Debug, Eq, PartialEq, Structural)]
pub struct Payment {
    pub token: AccountId,
    pub to: AccountId,
    pub amount: i128,
}

/// Everything the payout contract stores.
pub struct PayoutContract {
    admin: Option<AccountId>,
    treasury: Option<AccountId>,
    paused: bool,
    currency_tokens: Table<DataKey, AccountId>,
    payouts: Table<DataKey, PayoutData>,
    prize_payouts: Table<DataKey, ()>,
}

/// The abstract state of the payout contract.
pub struct PayoutModel {
    pub admin: Option<AccountId>,
    pub treasury: Option<AccountId>,
    pub paused: bool,
    /// Token registered for each currency, under keys `CurrencyToken(symbol)`.
    pub currency_tokens: Map<DataKey, AccountId>,
    /// Processed payouts under keys `Payout(ctx, pool_id, round_id, winner)`.
    pub payouts: Map<DataKey, PayoutData>,
    /// Keys `PrizePayout(game_id)` of the games whose prize was distributed.
    pub prize_payouts: Set<DataKey>,
}

impl View for PayoutContract {
    type V = PayoutModel;

    closed spec fn view(&self) -> PayoutModel {
        PayoutModel {
            admin: self.admin,
            treasury: self.treasury,
            paused: self.paused,
            currency_tokens: self.currency_tokens@,
            payouts: self.payouts@,
            prize_payouts: self.prize_payouts@.dom(),
        }
    }
}

/// The payout contract's storage as plain values, to persist it between calls.
pub struct PayoutSnapshot {
    pub admin: Option<AccountId>,
    pub treasury: Option<AccountId>,
    pub paused: bool,
    pub currency_tokens: Vec<(DataKey, AccountId)>,
    pub payouts: Vec<(DataKey, PayoutData)>,
    pub prize_payouts: Vec<(DataKey, ())>,
}

/// The payout contract a snapshot describes.
pub open spec fn snapshot_model(s: PayoutSnapshot) -> PayoutModel {
    PayoutModel {
        admin: s.admin,
        treasury: s.treasury,
        paused: s.paused,
        currency_tokens: pairs_map(s.currency_tokens@),
        payouts: pairs_map(s.payouts@),
        prize_payouts: pairs_map(s.prize_payouts@).dom(),
    }
}

/// A freshly deployed payout contract.
pub open spec fn empty_payout() -> PayoutModel {
    PayoutModel {
        admin: None,
        treasury: None,
        paused: false,
        currency_tokens: Map::empty(),
        payouts: Map::empty(),
        prize_payouts: Set::empty(),
    }
}

/// The error `distribute_winnings` returns, if any.
pub open spec fn winnings_rejection(
    m: PayoutModel,
    ctx: SymbolId,
    pool_id: u32,
    round_id: u32,
    winner: AccountId,
    amount: i128,
) -> Option<PayoutError> {
    if m.paused {
        Some(PayoutError::Paused)
    } else if amount <= 0 {
        Some(PayoutError::InvalidAmount)
    } else if m.payouts.dom().contains(DataKey::Payout(ctx, pool_id, round_id, winner)) {
        Some(PayoutError::AlreadyPaid)
    } else {
        None
    }
}

/// The error `distribute_prize` returns, if any.
pub open spec fn prize_rejection(m: PayoutModel, game_id: u32, total_prize: i128, winners: Seq<
    AccountId,
>) -> Option<PayoutError> {
    if m.paused {
        Some(PayoutError::Paused)
    } else if m.prize_payouts.contains(DataKey::PrizePayout(game_id)) {
        Some(PayoutError::AlreadyPaid)
    } else if total_prize <= 0 {
        Some(PayoutError::InvalidAmount)
    } else if winners.len() == 0 {
        Some(PayoutError::NoWinners)
    } else if m.treasury is None {
        Some(PayoutError::TreasuryNotSet)
    } else {
        None
    }
}

/// Each winner's share of `total`: the total divided evenly, rounded down.
pub open spec fn prize_share(total: int, winners: nat) -> int {
    total / (winners as int)
}

/// What is left after the even split.
pub open spec fn prize_dust(total: int, winners: nat) -> int {
    total % (winners as int)
}

/// The transfers of a prize split: one equal share per winner, in order,
/// then the remainder to the treasury when there is one.
pub open spec fn prize_split(total: i128, winners: Seq<AccountId>, treasury: AccountId, token: AccountId) -> Seq<
    Payment,
> {
    let share = prize_share(total as int, winners.len());
    let dust = prize_dust(total as int, winners.len());
    let shares = Seq::new(
        winners.len(),
        |i: int| Payment { token, to: winners[i], amount: share as i128 },
    );
    if dust > 0 {
        shares.push(Payment { token, to: treasury, amount: dust as i128 })
    } else {
        shares
    }
}

impl PayoutContract {
    /// A freshly deployed payout contract.
    pub fn new() -> (p: Self)
        ensures
            p@ == empty_payout(),
    {
        let p = PayoutContract {
            admin: None,
            treasury: None,
            paused: false,
            currency_tokens: Table::new(),
            payouts: Table::new(),
            prize_payouts: Table::new(),
        };
        assert(p@.prize_payouts =~= Set::<DataKey>::empty());
        p
    }

    /// The stored state as plain values.
    pub fn snapshot(&self) -> (s: PayoutSnapshot)
        ensures
            snapshot_model(s) == self@,
    {
        PayoutSnapshot {
            admin: self.admin,
            treasury: self.treasury,
            paused: self.paused,
            currency_tokens: self.currency_tokens.to_entries(),
            payouts: self.payouts.to_entries(),
            prize_payouts: self.prize_payouts.to_entries(),
        }
    }

    /// The payout contract whose stored state is `s`.
    pub fn restore(s: &PayoutSnapshot) -> (p: Self)
        ensures
            p@ == snapshot_model(*s),
    {
        PayoutContract {
            admin: s.admin,
            treasury: s.treasury,
            paused: s.paused,
            currency_tokens: Table::from_entries(&s.currency_tokens),
            payouts: Table::from_entries(&s.payouts),
            prize_payouts: Table::from_entries(&s.prize_payouts),
        }
    }

    /// A fixed value for liveness checks.
    pub fn hello() -> (r: u32)
        ensures
            r == 789,
    {
        789
    }

    /// Records the admin; accepted once.
    pub fn initialize(&mut self, admin: AccountId)
        requires
            old(self)@.admin is None,
        ensures
            final(self)@ == (PayoutModel { admin: Some(admin), ..old(self)@ }),
    {
        self.admin = Some(admin);
    }

    /// Records the admin on behalf of the factory that deployed the contract;
    /// accepted once.
    pub fn init_factory(&mut self, factory: AccountId, admin: AccountId)
        requires
            old(self)@.admin is None,
        ensures
            final(self)@ == (PayoutModel { admin: Some(admin), ..old(self)@ }),
    {
        self.admin = Some(admin);
    }

    /// The admin.
    pub fn admin(&self) -> (a: AccountId)
        requires
            self@.admin is Some,
        ensures
            a == self@.admin.unwrap(),
    {
        self.admin.unwrap()
    }

    /// Whether an admin is recorded.
    pub fn has_admin(&self) -> (r: bool)
        ensures
            r == self@.admin is Some,
    {
        self.admin.is_some()
    }

    /// Sets the account that receives the indivisible remainders of prize splits.
    pub fn set_treasury(&mut self, treasury: AccountId)
        requires
            old(self)@.admin is Some,
        ensures
            final(self)@ == (PayoutModel { treasury: Some(treasury), ..old(self)@ }),
    {
        self.treasury = Some(treasury);
    }

    /// The treasury.
    pub fn treasury(&self) -> (r: Result<AccountId, PayoutError>)
        ensures
            r == match self@.treasury {
                Some(t) => Ok::<AccountId, PayoutError>(t),
                None => Err(PayoutError::TreasuryNotSet),
            },
    {
        match self.treasury {
            Some(t) => Ok(t),
            None => Err(PayoutError::TreasuryNotSet),
        }
    }

    /// Registers the token paid out for the currency `symbol`.
    pub fn set_currency_token(&mut self, symbol: SymbolId, token_address: AccountId) -> (r: Result<
        (),
        PayoutError,
    >)
        requires
            old(self)@.admin is Some,
        ensures
            old(self)@.paused ==> r == Err::<(), PayoutError>(PayoutError::Paused) && final(self)@
                == old(self)@,
            !old(self)@.paused ==> r == Ok::<(), PayoutError>(()) && final(self)@ == (
            PayoutModel {
                currency_tokens: old(self)@.currency_tokens.insert(
                    DataKey::CurrencyToken(symbol),
                    token_address,
                ),
                ..old(self)@
            }),
    {
        if self.paused {
            return Err(PayoutError::Paused);
        }
        self.currency_tokens.insert(DataKey::CurrencyToken(symbol), token_address);
        Ok(())
    }

    /// Records a payout of `amount` in `currency` to `winner`, once per
    /// (context, pool, round, winner). When a token is registered for the
    /// currency, the result is the transfer that pays the winner.
    pub fn distribute_winnings(
        &mut self,
        ctx: SymbolId,
        pool_id: u32,
        round_id: u32,
        winner: AccountId,
        amount: i128,
        currency: SymbolId,
    ) -> (r: Result<Option<Payment>, PayoutError>)
        requires
            old(self)@.admin is Some,
        ensures
            match winnings_rejection(old(self)@, ctx, pool_id, round_id, winner, amount) {
                Some(e) => r == Err::<Option<Payment>, PayoutError>(e) && final(self)@ == old(
                    self,
                )@,
                None => r == Ok::<Option<Payment>, PayoutError>(
                    match lookup(old(self)@.currency_tokens, DataKey::CurrencyToken(currency)) {
                        Some(token) => Some(Payment { token, to: winner, amount }),
                        None => None,
                    },
                ) && final(self)@ == (PayoutModel {
                    payouts: old(self)@.payouts.insert(
                        DataKey::Payout(ctx, pool_id, round_id, winner),
                        PayoutData { winner, amount, currency, paid: true },
                    ),
                    ..old(self)@
                }),
            },
    {
        if self.paused {
            return Err(PayoutError::Paused);
        }
        if amount <= 0 {
            return Err(PayoutError::InvalidAmount);
        }
        let payout_key = DataKey::Payout(ctx, pool_id, round_id, winner);
        if self.payouts.contains_key(payout_key) {
            return Err(PayoutError::AlreadyPaid);
        }
        self.payouts.insert(payout_key, PayoutData { winner, amount, currency, paid: true });
        match self.currency_tokens.get(DataKey::CurrencyToken(currency)) {
            Some(token) => Ok(Some(Payment { token, to: winner, amount })),
            None => Ok(None),
        }
    }

    /// Whether the payout for this key has been processed.
    pub fn is_payout_processed(
        &self,
        ctx: SymbolId,
        pool_id: u32,
        round_id: u32,
        winner: AccountId,
    ) -> (r: bool)
        ensures
            r == match lookup(self@.payouts, DataKey::Payout(ctx, pool_id, round_id, winner)) {
                Some(p) => p.paid,
                None => false,
            },
    {
        match self.payouts.get(DataKey::Payout(ctx, pool_id, round_id, winner)) {
            Some(p) => p.paid,
            None => false,
        }
    }

    /// The record of the payout for this key, if processed.
    pub fn get_payout(&self, ctx: SymbolId, pool_id: u32, round_id: u32, winner: AccountId) -> (r:
        Option<PayoutData>)
        ensures
            r == lookup(self@.payouts, DataKey::Payout(ctx, pool_id, round_id, winner)),
    {
        self.payouts.get(DataKey::Payout(ctx, pool_id, round_id, winner))
    }

    /// Splits `total_prize` of game `game_id` evenly among `winners` and
    /// sends the remainder to the treasury, once per game. The result lists
    /// the transfers, in `currency`, in the order they are made.
    pub fn distribute_prize(
        &mut self,
        game_id: u32,
        total_prize: i128,
        winners: Vec<AccountId>,
        currency: AccountId,
    ) -> (r: Result<Vec<Payment>, PayoutError>)
        requires
            old(self)@.admin is Some,
        ensures
            match prize_rejection(old(self)@, game_id, total_prize, winners@) {
                Some(e) => r == Err::<Vec<Payment>, PayoutError>(e) && final(self)@ == old(
                    self,
                )@,
                None => r matches Ok(payments) && payments@ == prize_split(
                    total_prize,
                    winners@,
                    old(self)@.treasury.unwrap(),
                    currency,
                ) && final(self)@ == (PayoutModel {
                    prize_payouts: old(self)@.prize_payouts.insert(DataKey::PrizePayout(game_id)),
                    ..old(self)@
                }),
            },
    {
        if self.paused {
            return Err(PayoutError::Paused);
        }
        let prize_key = DataKey::PrizePayout(game_id);
        if self.prize_payouts.contains_key(prize_key) {
            return Err(PayoutError::AlreadyPaid);
        }
        if total_prize <= 0 {
            return Err(PayoutError::InvalidAmount);
        }
        if winners.len() == 0 {
            return Err(PayoutError::NoWinners);
        }
        let treasury = match self.treasury {
            Some(t) => t,
            None => return Err(PayoutError::TreasuryNotSet),
        };
        let total = total_prize as u128;
        let count = winners.len() as u128;
        let share = (total / count) as i128;
        let dust = (total % count) as i128;
        self.prize_payouts.insert(prize_key, ());
        proof {
            assert(self@.prize_payouts =~= old(self)@.prize_payouts.insert(prize_key));
        }
        let ghost shares = Seq::new(
            winners@.len(),
            |i: int| Payment { token: currency, to: winners@[i], amount: share },
        );
        let mut payments: Vec<Payment> = Vec::new();
        let mut i: usize = 0;
        while i < winners.len()
            invariant
                i <= winners@.len(),
                payments@ =~= shares.take(i as int),
                shares == Seq::new(
                    winners@.len(),
                    |i: int| Payment { token: currency, to: winners@[i], amount: share },
                ),
            decreases winners@.len() - i,
        {
            payments.push(Payment { token: currency, to: winners[i], amount: share });
            i = i + 1;
        }
        assert(shares.take(winners@.len() as int) =~= shares);
        if dust > 0 {
            payments.push(Payment { token: currency, to: treasury, amount: dust });
        }
        Ok(payments)
    }

    /// Whether the prize of game `game_id` has been distributed.
    pub fn is_prize_distributed(&self, game_id: u32) -> (r: bool)
        ensures
            r == self@.prize_payouts.contains(DataKey::PrizePayout(game_id)),
    {
        self.prize_payouts.contains_key(DataKey::PrizePayout(game_id))
    }

    /// Disables the write operations.
    pub fn pause(&mut self)
        requires
            old(self)@.admin is Some,
        ensures
            final(self)@ == (PayoutModel { paused: true, ..old(self)@ }),
    {
        self.paused = true;
    }

    /// Re-enables the write operations.
    pub fn unpause(&mut self)
        requires
            old(self)@.admin is Some,
        ensures
            final(self)@ == (PayoutModel { paused: false, ..old(self)@ }),
    {
        self.paused = false;
    }

    /// Whether the write operations are disabled.
    pub fn is_paused(&self) -> (r: bool)
        ensures
            r == self@.paused,
    {
        self.paused
    }
}

} // verus!
